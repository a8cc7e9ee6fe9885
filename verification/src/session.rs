//! One run, from the list of clusters to the shell.
//!
//! A run goes through three stages in turn, cluster, service and task, and
//! no stage begins before the one above it has settled on one entry. At
//! each stage the entries are listed; a list without entries ends the run.
//! Where the options name the entry it is looked up, and if it is not there
//! the run ends; where they do not, the operator chooses. The session
//! decides what is to be done next and takes what came of it; the calls,
//! the prompt and the shell are its user's part.

use vstd::prelude::*;
use vstd::string::StringExecFns;
use crate::choice::{first_where, labels};
use crate::clusters::{chosen_cluster, holding, resolve_cluster};
use crate::errors::{DiscoveryError, ErrorModel};
use crate::launch::{shell_command, shell_command_of, ShellCommand, ShellCommandModel};
use crate::listing::is_stable_sort_of;
use crate::names::final_segment;
use crate::paging::{advance, Collector, Page, Progress};
use crate::services::{
    chosen_service, named, resolve_service, service_name_of, services_from_arns, to_service,
    ServiceInfo, ServiceModel,
};
use crate::tasks::{
    task_label, task_name_of, TaskDefinitionRecord, TaskInfo, TaskModel, TaskRecord,
};
use crate::text::text_of;
use crate::validator::{
    request_of, with_definition, with_descriptions, with_task_page, TaskRequest, TaskRequestModel,
    TaskValidator, Validation,
};

verus! {

/// What the operator asked for.
#[derive(Debug)]
pub struct Options {
    /// The profile to open the shell with.
    pub profile: String,
    /// A text that the cluster's identifier holds, if the cluster is given.
    pub cluster: Option<String>,
    /// The name of the service, if the service is given.
    pub service: Option<String>,
    /// The container to open the shell in.
    pub container: String,
}

/// What `Options` hold, as text.
pub struct OptionsModel {
    pub profile: Seq<char>,
    pub cluster: Option<Seq<char>>,
    pub service: Option<Seq<char>>,
    pub container: Seq<char>,
}

impl View for Options {
    type V = OptionsModel;

    open spec fn view(&self) -> OptionsModel {
        OptionsModel {
            profile: self.profile@,
            cluster: text_of(self.cluster),
            service: text_of(self.service),
            container: self.container@,
        }
    }
}

/// Where a run stands.
pub enum StageModel {
    /// The clusters are being listed.
    ListingClusters { progress: Progress<String> },
    /// The operator is choosing among the clusters.
    ChoosingCluster { clusters: Seq<Seq<char>> },
    /// The services of the cluster are being listed.
    ListingServices { cluster: Seq<char>, progress: Progress<String> },
    /// The operator is choosing among the services.
    ChoosingService { cluster: Seq<char>, services: Seq<ServiceModel> },
    /// The tasks of the service are being listed and looked at.
    ListingTasks { cluster: Seq<char>, validation: Validation },
    /// The operator is choosing among the tasks.
    ChoosingTask { cluster: Seq<char>, tasks: Seq<TaskModel> },
    /// The shell is being opened in the task.
    Launching { cluster: Seq<char>, task: TaskModel },
    /// The shell was opened and has ended.
    Done,
    /// The run was given up.
    Failed { error: ErrorModel },
}

/// A run: what was asked for, and where it stands.
pub struct SessionModel {
    pub options: OptionsModel,
    pub stage: StageModel,
}

/// What is to be done next.
pub enum ActionModel {
    ListClusters { next_token: Option<Seq<char>> },
    ListServices { cluster: Seq<char>, next_token: Option<Seq<char>> },
    Task { request: TaskRequestModel },
    Select { prompt: Seq<char>, labels: Seq<Seq<char>> },
    Launch { command: ShellCommandModel },
    Finish,
    Abort { error: ErrorModel },
}

/// The texts of `entries`.
pub open spec fn texts(entries: Seq<String>) -> Seq<Seq<char>> {
    entries.map_values(|entry: String| entry@)
}

/// A run at its start.
pub open spec fn begin(options: OptionsModel) -> SessionModel {
    SessionModel {
        options,
        stage: StageModel::ListingClusters { progress: crate::paging::start() },
    }
}

/// The stage that follows the list of clusters.
pub open spec fn with_clusters(options: OptionsModel, clusters: Seq<Seq<char>>) -> StageModel {
    if clusters.len() == 0 {
        StageModel::Failed { error: ErrorModel::NoClusters }
    } else {
        match options.cluster {
            Some(hint) => match first_where(clusters, holding(hint)) {
                Some(at) => StageModel::ListingServices {
                    cluster: clusters[at],
                    progress: crate::paging::start(),
                },
                None => StageModel::Failed { error: ErrorModel::ClusterNotFound { hint } },
            },
            None => StageModel::ChoosingCluster { clusters },
        }
    }
}

/// The stage that follows the sorted list of the services of `cluster`.
pub open spec fn with_services(
    options: OptionsModel,
    cluster: Seq<char>,
    services: Seq<ServiceModel>,
) -> StageModel {
    if services.len() == 0 {
        StageModel::Failed { error: ErrorModel::NoServices { cluster } }
    } else {
        match options.service {
            Some(name) => match first_where(services, named(name)) {
                Some(at) => StageModel::ListingTasks {
                    cluster,
                    validation: crate::validator::start(cluster, services[at].service_name),
                },
                None => StageModel::Failed { error: ErrorModel::ServiceNotFound { name } },
            },
            None => StageModel::ChoosingService { cluster, services },
        }
    }
}

/// The stage that follows the sorted list of the candidates among the
/// tasks of the service `service`.
pub open spec fn with_tasks(cluster: Seq<char>, service: Seq<char>, tasks: Seq<TaskModel>) -> StageModel {
    if tasks.len() == 0 {
        StageModel::Failed { error: ErrorModel::NoValidTasks { service } }
    } else {
        StageModel::ChoosingTask { cluster, tasks }
    }
}

/// Whether `after` is the run `before` after a page of the list of clusters
/// or of services. The list goes on until its last page; then the stage
/// follows that the whole list calls for, the services sorted by name. A
/// page that was not waited for changes nothing.
pub open spec fn page_taken(before: SessionModel, page: Page<String>, after: SessionModel) -> bool {
    &&& after.options == before.options
    &&& match before.stage {
        StageModel::ListingClusters { progress } => {
            let progress = advance(progress, page);
            after.stage == if progress.exhausted {
                with_clusters(before.options, texts(progress.gathered))
            } else {
                StageModel::ListingClusters { progress }
            }
        },
        StageModel::ListingServices { cluster, progress } => {
            let progress = advance(progress, page);
            if progress.exhausted {
                exists|services: Seq<ServiceModel>|
                    {
                        &&& #[trigger] is_stable_sort_of(
                            services,
                            texts(progress.gathered).map_values(to_service()),
                            service_name_of(),
                        )
                        &&& after.stage == with_services(before.options, cluster, services)
                    }
            } else {
                after.stage == StageModel::ListingServices { cluster, progress }
            }
        },
        _ => after.stage == before.stage,
    }
}

/// Whether `after` is the run `before` once the validation of the tasks
/// has come to `validation`. The validation goes on until nothing is waited
/// for; then the candidates are sorted by name, and the stage follows that
/// they call for.
pub open spec fn validation_moved(
    before: SessionModel,
    validation: Validation,
    after: SessionModel,
) -> bool {
    &&& after.options == before.options
    &&& before.stage matches StageModel::ListingTasks { cluster, validation: _ }
    &&& if validation.awaited is Nothing {
        exists|tasks: Seq<TaskModel>|
            {
                &&& #[trigger] is_stable_sort_of(tasks, validation.found, task_name_of())
                &&& after.stage == with_tasks(cluster, validation.service_name, tasks)
            }
    } else {
        after.stage == StageModel::ListingTasks { cluster, validation }
    }
}

/// The run after the operator chose the entry at `selection`. A choice that
/// is no place in the list, or that was not waited for, changes nothing.
pub open spec fn with_choice(before: SessionModel, selection: int) -> SessionModel {
    match before.stage {
        StageModel::ChoosingCluster { clusters } if 0 <= selection < clusters.len() => {
            SessionModel {
                stage: StageModel::ListingServices {
                    cluster: clusters[selection],
                    progress: crate::paging::start(),
                },
                ..before
            }
        },
        StageModel::ChoosingService { cluster, services } if 0 <= selection < services.len() => {
            SessionModel {
                stage: StageModel::ListingTasks {
                    cluster,
                    validation: crate::validator::start(cluster, services[selection].service_name),
                },
                ..before
            }
        },
        StageModel::ChoosingTask { cluster, tasks } if 0 <= selection < tasks.len() => {
            SessionModel { stage: StageModel::Launching { cluster, task: tasks[selection] }, ..before }
        },
        _ => before,
    }
}

/// The error that a failure from outside makes at a stage: a call that
/// failed while listing, a prompt that was left while choosing, a shell
/// that did not start while launching.
pub open spec fn failure_at(stage: StageModel, reason: Seq<char>) -> ErrorModel {
    match stage {
        StageModel::ChoosingCluster { .. }
        | StageModel::ChoosingService { .. }
        | StageModel::ChoosingTask { .. } => ErrorModel::SelectionAborted { reason },
        StageModel::Launching { .. } => ErrorModel::LaunchFailed { reason },
        _ => ErrorModel::Transport { reason },
    }
}

/// Whether a run has come to its end.
pub open spec fn is_over(stage: StageModel) -> bool {
    stage is Done || stage is Failed
}

/// The run after what was to be done failed. The run is given up at once,
/// with nothing of what was found so far; a run that is over stays as it
/// is.
pub open spec fn with_failure(before: SessionModel, reason: Seq<char>) -> SessionModel {
    if is_over(before.stage) {
        before
    } else {
        SessionModel {
            stage: StageModel::Failed { error: failure_at(before.stage, reason) },
            ..before
        }
    }
}

/// The run after the shell was opened and has ended, however it ended.
pub open spec fn with_launch(before: SessionModel) -> SessionModel {
    if before.stage is Launching {
        SessionModel { stage: StageModel::Done, ..before }
    } else {
        before
    }
}

/// Whether a run that is listing has a call left to make: a list that has
/// been read to its end is acted on at once, so a run never rests with one.
pub open spec fn has_next_call(stage: StageModel) -> bool {
    match stage {
        StageModel::ListingClusters { progress } => !progress.exhausted,
        StageModel::ListingServices { cluster, progress } => !progress.exhausted,
        StageModel::ListingTasks { cluster, validation } => !(validation.awaited is Nothing),
        _ => true,
    }
}

/// What is to be done next in a run.
pub open spec fn action_of(session: SessionModel) -> ActionModel {
    match session.stage {
        StageModel::ListingClusters { progress } => ActionModel::ListClusters {
            next_token: progress.cursor,
        },
        StageModel::ChoosingCluster { clusters } => ActionModel::Select {
            prompt: "Select Cluster"@,
            labels: clusters.map_values(|cluster: Seq<char>| final_segment(cluster)),
        },
        StageModel::ListingServices { cluster, progress } => ActionModel::ListServices {
            cluster,
            next_token: progress.cursor,
        },
        StageModel::ChoosingService { cluster, services } => ActionModel::Select {
            prompt: "Select Service"@,
            labels: services.map_values(service_name_of()),
        },
        StageModel::ListingTasks { cluster, validation } => ActionModel::Task {
            request: request_of(validation),
        },
        StageModel::ChoosingTask { cluster, tasks } => ActionModel::Select {
            prompt: "Select Task for ECS Exec"@,
            labels: tasks.map_values(|task: TaskModel| task_label(task)),
        },
        StageModel::Launching { cluster, task } => ActionModel::Launch {
            command: shell_command_of(
                cluster,
                task.arn,
                session.options.container,
                session.options.profile,
            ),
        },
        StageModel::Done => ActionModel::Finish,
        StageModel::Failed { error } => ActionModel::Abort { error },
    }
}

/// What is to be done next, as the session asks for it.
#[derive(Debug)]
pub enum Action {
    /// List a page of the clusters.
    ListClusters { next_token: Option<String> },
    /// List a page of the services of a cluster.
    ListServices { cluster: String, next_token: Option<String> },
    /// Make a call on the tasks of the service.
    Task { request: TaskRequest },
    /// Let the operator choose among labels.
    Select { prompt: String, labels: Vec<String> },
    /// Open the shell.
    Launch { command: ShellCommand },
    /// Nothing: the run has reached its target.
    Finish,
    /// Nothing: the run was given up.
    Abort { error: DiscoveryError },
}

impl View for Action {
    type V = ActionModel;

    open spec fn view(&self) -> ActionModel {
        match *self {
            Action::ListClusters { next_token } => ActionModel::ListClusters {
                next_token: text_of(next_token),
            },
            Action::ListServices { cluster, next_token } => ActionModel::ListServices {
                cluster: cluster@,
                next_token: text_of(next_token),
            },
            Action::Task { request } => ActionModel::Task { request: request@ },
            Action::Select { prompt, labels } => ActionModel::Select {
                prompt: prompt@,
                labels: labels.deep_view(),
            },
            Action::Launch { command } => ActionModel::Launch { command: command@ },
            Action::Finish => ActionModel::Finish,
            Action::Abort { error } => ActionModel::Abort { error: error@ },
        }
    }
}

enum Stage {
    ListingClusters { collector: Collector<String> },
    ChoosingCluster { clusters: Vec<String> },
    ListingServices { cluster: String, collector: Collector<String> },
    ChoosingService { cluster: String, services: Vec<ServiceInfo> },
    ListingTasks { cluster: String, validator: TaskValidator },
    ChoosingTask { cluster: String, tasks: Vec<TaskInfo> },
    Launching { cluster: String, task: TaskInfo },
    Done,
    Failed { error: DiscoveryError },
}

impl View for Stage {
    type V = StageModel;

    closed spec fn view(&self) -> StageModel {
        match *self {
            Stage::ListingClusters { collector } => StageModel::ListingClusters {
                progress: collector@,
            },
            Stage::ChoosingCluster { clusters } => StageModel::ChoosingCluster {
                clusters: clusters.deep_view(),
            },
            Stage::ListingServices { cluster, collector } => StageModel::ListingServices {
                cluster: cluster@,
                progress: collector@,
            },
            Stage::ChoosingService { cluster, services } => StageModel::ChoosingService {
                cluster: cluster@,
                services: services.deep_view(),
            },
            Stage::ListingTasks { cluster, validator } => StageModel::ListingTasks {
                cluster: cluster@,
                validation: validator@,
            },
            Stage::ChoosingTask { cluster, tasks } => StageModel::ChoosingTask {
                cluster: cluster@,
                tasks: tasks.deep_view(),
            },
            Stage::Launching { cluster, task } => StageModel::Launching {
                cluster: cluster@,
                task: task@,
            },
            Stage::Done => StageModel::Done,
            Stage::Failed { error } => StageModel::Failed { error: error@ },
        }
    }
}

/// One run.
pub struct Session {
    options: Options,
    stage: Stage,
}

impl View for Session {
    type V = SessionModel;

    closed spec fn view(&self) -> SessionModel {
        SessionModel { options: self.options@, stage: self.stage@ }
    }
}

/// The stage in which the services of `cluster` are listed from the start.
fn listing_services(cluster: String) -> (stage: Stage)
    ensures
        stage@ == (StageModel::ListingServices { cluster: cluster@, progress: crate::paging::start() }),
{
    Stage::ListingServices { cluster, collector: Collector::new() }
}

/// The stage in which the tasks of `service_name` are listed from the start.
fn listing_tasks(cluster: String, service_name: String) -> (stage: Stage)
    ensures
        stage@ == (StageModel::ListingTasks {
            cluster: cluster@,
            validation: crate::validator::start(cluster@, service_name@),
        }),
{
    let validator = TaskValidator::new(cluster.clone(), service_name);
    Stage::ListingTasks { cluster, validator }
}

/// The stage that follows the list of clusters.
fn after_clusters(options: &Options, clusters: Vec<String>) -> (stage: Stage)
    ensures
        stage@ == with_clusters(options@, clusters.deep_view()),
{
    if clusters.len() == 0 {
        return Stage::Failed { error: DiscoveryError::NoClusters };
    }
    match &options.cluster {
        Some(hint) => match resolve_cluster(&clusters, hint.as_str()) {
            Ok(cluster) => listing_services(cluster),
            Err(error) => Stage::Failed { error },
        },
        None => Stage::ChoosingCluster { clusters },
    }
}

/// The stage that follows the sorted list of the services of `cluster`.
fn after_services(options: &Options, cluster: String, services: Vec<ServiceInfo>) -> (stage: Stage)
    ensures
        stage@ == with_services(options@, cluster@, services.deep_view()),
{
    if services.len() == 0 {
        return Stage::Failed { error: DiscoveryError::NoServices { cluster } };
    }
    match &options.service {
        Some(name) => match resolve_service(&services, name.as_str()) {
            Ok(service) => listing_tasks(cluster, service.service_name),
            Err(error) => Stage::Failed { error },
        },
        None => Stage::ChoosingService { cluster, services },
    }
}

/// The stage that follows a step of the validation.
fn after_validation(cluster: String, validator: TaskValidator) -> (stage: Stage)
    ensures
        if validator@.awaited is Nothing {
            exists|tasks: Seq<TaskModel>|
                {
                    &&& #[trigger] is_stable_sort_of(tasks, validator@.found, task_name_of())
                    &&& stage@ == with_tasks(cluster@, validator@.service_name, tasks)
                }
        } else {
            stage@ == (StageModel::ListingTasks { cluster: cluster@, validation: validator@ })
        },
{
    let service = validator.service_name().to_owned();
    let ghost validation = validator@;
    match validator.finish_or_go_on() {
        Ok(tasks) => {
            let stage = if tasks.len() == 0 {
                Stage::Failed { error: DiscoveryError::NoValidTasks { service } }
            } else {
                Stage::ChoosingTask { cluster, tasks }
            };
            assert(is_stable_sort_of(tasks.deep_view(), validation.found, task_name_of()));
            stage
        },
        Err(validator) => Stage::ListingTasks { cluster, validator },
    }
}

impl Session {
    #[verifier::type_invariant]
    spec fn never_rests(self) -> bool {
        has_next_call(self.stage@)
    }

    /// A run at its start.
    pub fn new(options: Options) -> (session: Self)
        ensures
            session@ == begin(options@),
    {
        Session { options, stage: Stage::ListingClusters { collector: Collector::new() } }
    }

    /// What is to be done next. While the run is listing, that is a call.
    pub fn next_action(&self) -> (action: Action)
        ensures
            action@ == action_of(self@),
            has_next_call(self@.stage),
    {
        proof {
            use_type_invariant(self);
        }
        match &self.stage {
            Stage::ListingClusters { collector } => Action::ListClusters {
                next_token: collector.cursor(),
            },
            Stage::ChoosingCluster { clusters } => {
                let labels = labels(clusters);
                assert(labels.deep_view() == clusters.deep_view().map_values(
                    |cluster: Seq<char>| final_segment(cluster),
                ));
                Action::Select { prompt: String::from_str("Select Cluster"), labels }
            },
            Stage::ListingServices { cluster, collector } => Action::ListServices {
                cluster: cluster.clone(),
                next_token: collector.cursor(),
            },
            Stage::ChoosingService { cluster, services } => {
                let labels = labels(services);
                assert(labels.deep_view() == services.deep_view().map_values(service_name_of()));
                Action::Select { prompt: String::from_str("Select Service"), labels }
            },
            Stage::ListingTasks { cluster, validator } => Action::Task {
                request: validator.next_request(),
            },
            Stage::ChoosingTask { cluster, tasks } => {
                let labels = labels(tasks);
                assert(labels.deep_view() == tasks.deep_view().map_values(
                    |task: TaskModel| task_label(task),
                ));
                Action::Select { prompt: String::from_str("Select Task for ECS Exec"), labels }
            },
            Stage::Launching { cluster, task } => Action::Launch {
                command: shell_command(
                    cluster.as_str(),
                    task.arn.as_str(),
                    self.options.container.as_str(),
                    self.options.profile.as_str(),
                ),
            },
            Stage::Done => Action::Finish,
            Stage::Failed { error } => Action::Abort { error: error.clone() },
        }
    }

    /// Takes a page of the list of clusters or of services.
    pub fn on_page(self, page: Page<String>) -> (next: Self)
        ensures
            page_taken(self@, page, next@),
    {
        proof {
            use_type_invariant(&self);
        }
        let Session { options, stage } = self;
        match stage {
            Stage::ListingClusters { collector } => {
                let mut collector = collector;
                collector.accept(page);
                let ghost progress = collector@;
                match collector.finish_or_go_on() {
                    Ok(clusters) => {
                        assert(clusters.deep_view() == texts(progress.gathered));
                        let stage = after_clusters(&options, clusters);
                        Session { options, stage }
                    },
                    Err(collector) => Session {
                        options,
                        stage: Stage::ListingClusters { collector },
                    },
                }
            },
            Stage::ListingServices { cluster, collector } => {
                let mut collector = collector;
                collector.accept(page);
                let ghost progress = collector@;
                match collector.finish_or_go_on() {
                    Ok(arns) => {
                        assert(arns.deep_view() == texts(progress.gathered));
                        let services = services_from_arns(arns);
                        let stage = after_services(&options, cluster, services);
                        Session { options, stage }
                    },
                    Err(collector) => Session {
                        options,
                        stage: Stage::ListingServices { cluster, collector },
                    },
                }
            },
            stage => Session { options, stage },
        }
    }

    /// Takes a page of the list of tasks.
    pub fn on_task_page(self, page: Page<String>) -> (next: Self)
        ensures
            match self@.stage {
                StageModel::ListingTasks { cluster, validation } => validation_moved(
                    self@,
                    with_task_page(validation, texts(page.entries()), page.token()),
                    next@,
                ),
                _ => next@ == self@,
            },
    {
        proof {
            use_type_invariant(&self);
        }
        let Session { options, stage } = self;
        match stage {
            Stage::ListingTasks { cluster, validator } => {
                let stage = after_validation(cluster, validator.on_task_page(page));
                Session { options, stage }
            },
            stage => Session { options, stage },
        }
    }

    /// Takes the descriptions of the tasks of a page.
    pub fn on_descriptions(self, described: Option<Vec<TaskRecord>>) -> (next: Self)
        ensures
            match self@.stage {
                StageModel::ListingTasks { cluster, validation } => validation_moved(
                    self@,
                    with_descriptions(
                        validation,
                        match described {
                            Some(records) => Some(records.deep_view()),
                            None => None,
                        },
                    ),
                    next@,
                ),
                _ => next@ == self@,
            },
    {
        proof {
            use_type_invariant(&self);
        }
        let Session { options, stage } = self;
        match stage {
            Stage::ListingTasks { cluster, validator } => {
                let stage = after_validation(cluster, validator.on_descriptions(described));
                Session { options, stage }
            },
            stage => Session { options, stage },
        }
    }

    /// Takes the answer on the definition of one task.
    pub fn on_definition(self, definition: Option<TaskDefinitionRecord>) -> (next: Self)
        ensures
            match self@.stage {
                StageModel::ListingTasks { cluster, validation } => validation_moved(
                    self@,
                    with_definition(
                        validation,
                        match definition {
                            Some(record) => Some(record@),
                            None => None,
                        },
                    ),
                    next@,
                ),
                _ => next@ == self@,
            },
    {
        proof {
            use_type_invariant(&self);
        }
        let Session { options, stage } = self;
        match stage {
            Stage::ListingTasks { cluster, validator } => {
                let stage = after_validation(cluster, validator.on_definition(definition));
                Session { options, stage }
            },
            stage => Session { options, stage },
        }
    }

    /// Takes the operator's choice: the place of the chosen label.
    pub fn on_choice(self, selection: usize) -> (next: Self)
        ensures
            next@ == with_choice(self@, selection as int),
    {
        proof {
            use_type_invariant(&self);
        }
        let Session { options, stage } = self;
        match stage {
            Stage::ChoosingCluster { clusters } => {
                if selection < clusters.len() {
                    let stage = listing_services(chosen_cluster(&clusters, selection));
                    Session { options, stage }
                } else {
                    Session { options, stage: Stage::ChoosingCluster { clusters } }
                }
            },
            Stage::ChoosingService { cluster, services } => {
                if selection < services.len() {
                    let service = chosen_service(&services, selection);
                    let stage = listing_tasks(cluster, service.service_name);
                    Session { options, stage }
                } else {
                    Session { options, stage: Stage::ChoosingService { cluster, services } }
                }
            },
            Stage::ChoosingTask { cluster, tasks } => {
                if selection < tasks.len() {
                    let task = tasks[selection].clone();
                    Session { options, stage: Stage::Launching { cluster, task } }
                } else {
                    Session { options, stage: Stage::ChoosingTask { cluster, tasks } }
                }
            },
            stage => Session { options, stage },
        }
    }

    /// Takes the failure of what was to be done, in the words of whoever
    /// failed.
    pub fn on_failure(self, reason: String) -> (next: Self)
        ensures
            next@ == with_failure(self@, reason@),
    {
        proof {
            use_type_invariant(&self);
        }
        let Session { options, stage } = self;
        let stage = match stage {
            Stage::Done => Stage::Done,
            Stage::Failed { error } => Stage::Failed { error },
            Stage::ChoosingCluster { .. } | Stage::ChoosingService { .. } | Stage::ChoosingTask {
                ..
            } => Stage::Failed { error: DiscoveryError::SelectionAborted { reason } },
            Stage::Launching { .. } => Stage::Failed {
                error: DiscoveryError::LaunchFailed { reason },
            },
            _ => Stage::Failed { error: DiscoveryError::Transport { reason } },
        };
        Session { options, stage }
    }

    /// Takes the end of the shell. How the shell ended is not asked.
    pub fn on_launched(self) -> (next: Self)
        ensures
            next@ == with_launch(self@),
    {
        proof {
            use_type_invariant(&self);
        }
        let Session { options, stage } = self;
        let stage = match stage {
            Stage::Launching { .. } => Stage::Done,
            stage => stage,
        };
        Session { options, stage }
    }
}

} // verus!
