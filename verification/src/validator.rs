//! Finding the targets among the tasks of a service.
//!
//! The tasks are listed page by page. The tasks of each page that holds any
//! are described in one call; of those described, the ones that run and take
//! commands have their definitions looked up, one call each, for the family
//! name. The validator decides which call comes next and what each answer
//! adds; making the calls is left to its user.

use vstd::prelude::*;
use vstd::string::StringExecFns;
use crate::listing::{
    is_stable_sort_of, key_of, lemma_stable_sort_carries_over, sort_by_key,
};
use crate::paging::Page;
use crate::tasks::{
    awaiting, task_name_of, task_of, PendingModel, TaskDefinitionModel, TaskDefinitionRecord,
    TaskInfo, TaskModel, TaskRecord, TaskRecordModel,
};
use crate::text::text_of;

verus! {

/// What the validator waits for.
pub enum Awaited {
    /// The next page of the task listing.
    TaskPage,
    /// The descriptions of the tasks of the page that was read last.
    Descriptions { tasks: Seq<Seq<char>> },
    /// The definition of one target, with the targets of the same page whose
    /// turn comes later.
    Definition { of: PendingModel, later: Seq<PendingModel> },
    /// Nothing: the listing has been read to its end.
    Nothing,
}

/// How far a validation has come.
pub struct Validation {
    /// The cluster in which the service runs.
    pub cluster: Seq<char>,
    /// The name of the service whose tasks are listed.
    pub service_name: Seq<char>,
    /// The candidates found so far, in the order in which they were found.
    pub found: Seq<TaskModel>,
    /// The token to ask the next page with.
    pub cursor: Option<Seq<char>>,
    /// Whether the page that was read last is the last of the listing.
    pub last_page: bool,
    /// What is waited for.
    pub awaited: Awaited,
}

/// The state of the tasks that the listing is asked for.
pub open spec fn desired_status() -> Seq<char> {
    "RUNNING"@
}

/// A call to the service.
pub enum TaskRequestModel {
    ListTasks {
        cluster: Seq<char>,
        service_name: Seq<char>,
        desired_status: Seq<char>,
        next_token: Option<Seq<char>>,
    },
    DescribeTasks { cluster: Seq<char>, tasks: Seq<Seq<char>> },
    DescribeTaskDefinition { task_definition: Seq<char> },
    Finished,
}

/// A validation before its first call.
pub open spec fn start(cluster: Seq<char>, service_name: Seq<char>) -> Validation {
    Validation {
        cluster,
        service_name,
        found: Seq::empty(),
        cursor: None,
        last_page: false,
        awaited: Awaited::TaskPage,
    }
}

/// What is waited for once a page is done with: the next page, or nothing
/// after the last.
pub open spec fn after_page(last_page: bool) -> Awaited {
    if last_page {
        Awaited::Nothing
    } else {
        Awaited::TaskPage
    }
}

/// What is waited for while `pending` are the targets of the page whose
/// definitions are still to come.
pub open spec fn after_target(pending: Seq<PendingModel>, last_page: bool) -> Awaited {
    if pending.len() > 0 {
        Awaited::Definition { of: pending[0], later: pending.drop_first() }
    } else {
        after_page(last_page)
    }
}

/// The call that comes next.
pub open spec fn request_of(validation: Validation) -> TaskRequestModel {
    match validation.awaited {
        Awaited::TaskPage => TaskRequestModel::ListTasks {
            cluster: validation.cluster,
            service_name: validation.service_name,
            desired_status: desired_status(),
            next_token: validation.cursor,
        },
        Awaited::Descriptions { tasks } => TaskRequestModel::DescribeTasks {
            cluster: validation.cluster,
            tasks,
        },
        Awaited::Definition { of, later } => TaskRequestModel::DescribeTaskDefinition {
            task_definition: of.task_definition,
        },
        Awaited::Nothing => TaskRequestModel::Finished,
    }
}

/// The validation after a page of the task listing. A page that holds
/// identifiers has them described; an empty one is done with at once. An
/// answer that was not waited for changes nothing.
pub open spec fn with_task_page(
    validation: Validation,
    tasks: Seq<Seq<char>>,
    next_token: Option<Seq<char>>,
) -> Validation {
    if validation.awaited is TaskPage {
        let last_page = next_token is None;
        Validation {
            cursor: next_token,
            last_page,
            awaited: if tasks.len() > 0 {
                Awaited::Descriptions { tasks }
            } else {
                after_page(last_page)
            },
            ..validation
        }
    } else {
        validation
    }
}

/// The validation after the descriptions of a page's tasks: the targets
/// among them wait for their definitions, and the other tasks are dropped
/// without a word. An answer without descriptions holds no target.
pub open spec fn with_descriptions(
    validation: Validation,
    described: Option<Seq<TaskRecordModel>>,
) -> Validation {
    if validation.awaited is Descriptions {
        let pending = match described {
            Some(records) => awaiting(records),
            None => Seq::empty(),
        };
        Validation { awaited: after_target(pending, validation.last_page), ..validation }
    } else {
        validation
    }
}

/// The validation after the answer on one target's definition: with a
/// definition the target becomes a candidate, without one it is dropped.
pub open spec fn with_definition(
    validation: Validation,
    definition: Option<TaskDefinitionModel>,
) -> Validation {
    match validation.awaited {
        Awaited::Definition { of, later } => Validation {
            found: match definition {
                Some(definition) => validation.found.push(task_of(of.arn, definition)),
                None => validation.found,
            },
            awaited: after_target(later, validation.last_page),
            ..validation
        },
        _ => validation,
    }
}

/// A call to the service, as the validator asks for it.
#[derive(Debug)]
pub enum TaskRequest {
    /// List a page of the tasks of a service.
    ListTasks {
        cluster: String,
        service_name: String,
        desired_status: String,
        next_token: Option<String>,
    },
    /// Describe the tasks of one page.
    DescribeTasks { cluster: String, tasks: Vec<String> },
    /// Describe one task definition.
    DescribeTaskDefinition { task_definition: String },
    /// No call: the validation is at its end.
    Finished,
}

impl View for TaskRequest {
    type V = TaskRequestModel;

    open spec fn view(&self) -> TaskRequestModel {
        match *self {
            TaskRequest::ListTasks { cluster, service_name, desired_status, next_token } => {
                TaskRequestModel::ListTasks {
                    cluster: cluster@,
                    service_name: service_name@,
                    desired_status: desired_status@,
                    next_token: text_of(next_token),
                }
            },
            TaskRequest::DescribeTasks { cluster, tasks } => TaskRequestModel::DescribeTasks {
                cluster: cluster@,
                tasks: tasks.deep_view(),
            },
            TaskRequest::DescribeTaskDefinition {
                task_definition,
            } => TaskRequestModel::DescribeTaskDefinition { task_definition: task_definition@ },
            TaskRequest::Finished => TaskRequestModel::Finished,
        }
    }
}

/// A target whose definition is still to be looked up.
struct Pending {
    arn: String,
    task_definition: String,
}

impl View for Pending {
    type V = PendingModel;

    closed spec fn view(&self) -> PendingModel {
        PendingModel { arn: self.arn@, task_definition: self.task_definition@ }
    }
}

impl DeepView for Pending {
    type V = PendingModel;

    closed spec fn deep_view(&self) -> PendingModel {
        self@
    }
}

enum Awaiting {
    TaskPage,
    Descriptions { tasks: Vec<String> },
    Definition { of: Pending, later: Vec<Pending> },
    Nothing,
}

impl View for Awaiting {
    type V = Awaited;

    closed spec fn view(&self) -> Awaited {
        match *self {
            Awaiting::TaskPage => Awaited::TaskPage,
            Awaiting::Descriptions { tasks } => Awaited::Descriptions { tasks: tasks.deep_view() },
            Awaiting::Definition { of, later } => Awaited::Definition {
                of: of@,
                later: later.deep_view(),
            },
            Awaiting::Nothing => Awaited::Nothing,
        }
    }
}

/// A copy of `texts`.
fn copy_texts(texts: &Vec<String>) -> (copy: Vec<String>)
    ensures
        copy.deep_view() == texts.deep_view(),
{
    let mut copy: Vec<String> = Vec::new();
    let mut i: usize = 0;
    while i < texts.len()
        invariant
            i <= texts@.len(),
            copy@.len() == i,
            forall|j: int| 0 <= j < i ==> (#[trigger] copy@[j])@ == texts@[j]@,
        decreases texts@.len() - i,
    {
        copy.push(texts[i].clone());
        i = i + 1;
    }
    assert(copy.deep_view() =~= texts.deep_view());
    copy
}

/// A copy of a text that may be absent.
fn copy_text(text: &Option<String>) -> (copy: Option<String>)
    ensures
        text_of(copy) == text_of(*text),
{
    match text {
        Some(text) => Some(text.clone()),
        None => None,
    }
}

/// The targets among `records`, in the order of the records.
fn targets(records: Vec<TaskRecord>) -> (pending: Vec<Pending>)
    ensures
        pending.deep_view() == awaiting(records.deep_view()),
{
    let mut pending: Vec<Pending> = Vec::new();
    let ghost all = records@;
    let ghost models = records.deep_view();
    assert(models.take(0) == Seq::<TaskRecordModel>::empty());
    assert(pending.deep_view() == Seq::<PendingModel>::empty());
    for record in iter: records
        invariant
            iter.seq() == all,
            models.len() == all.len(),
            forall|i: int| 0 <= i < all.len() ==> models[i] == (#[trigger] all[i])@,
            pending.deep_view() == awaiting(models.take(iter.index() as int)),
    {
        let ghost before = pending.deep_view();
        let ghost at = iter.index() as int;
        proof {
            assert(models.take(at + 1).drop_last() == models.take(at));
            assert(models.take(at + 1).last() == record@);
        }
        if record.takes_commands() {
            let TaskRecord { task_arn, last_status, enable_execute_command, task_definition_arn } =
                record;
            match (task_arn, task_definition_arn) {
                (Some(arn), Some(task_definition)) => {
                    let target = Pending { arn, task_definition };
                    pending.push(target);
                    assert(pending.deep_view() == before.push(target@));
                },
                _ => {},
            }
        }
    }
    assert(models.take(all.len() as int) == models);
    pending
}

/// Finds the targets among the tasks of one service.
pub struct TaskValidator {
    cluster: String,
    service_name: String,
    found: Vec<TaskInfo>,
    cursor: Option<String>,
    last_page: bool,
    awaited: Awaiting,
}

impl View for TaskValidator {
    type V = Validation;

    closed spec fn view(&self) -> Validation {
        Validation {
            cluster: self.cluster@,
            service_name: self.service_name@,
            found: self.found.deep_view(),
            cursor: text_of(self.cursor),
            last_page: self.last_page,
            awaited: self.awaited@,
        }
    }
}

/// What is waited for once a page is done with.
fn awaiting_after_page(last_page: bool) -> (awaited: Awaiting)
    ensures
        awaited@ == after_page(last_page),
{
    if last_page {
        Awaiting::Nothing
    } else {
        Awaiting::TaskPage
    }
}

/// What is waited for while `pending` are still to be looked up.
fn awaiting_after_target(pending: Vec<Pending>, last_page: bool) -> (awaited: Awaiting)
    ensures
        awaited@ == after_target(pending.deep_view(), last_page),
{
    let mut later = pending;
    if later.len() > 0 {
        let ghost all = later.deep_view();
        let of = later.remove(0);
        assert(later.deep_view() == all.drop_first());
        Awaiting::Definition { of, later }
    } else {
        awaiting_after_page(last_page)
    }
}

impl TaskValidator {
    /// A validator for the tasks of the service `service_name` in `cluster`,
    /// before its first call.
    pub fn new(cluster: String, service_name: String) -> (validator: Self)
        ensures
            validator@ == start(cluster@, service_name@),
    {
        let validator = TaskValidator {
            cluster,
            service_name,
            found: Vec::new(),
            cursor: None,
            last_page: false,
            awaited: Awaiting::TaskPage,
        };
        assert(validator.found.deep_view() == Seq::<TaskModel>::empty());
        validator
    }

    /// The name of the service whose tasks are listed.
    pub fn service_name(&self) -> (name: &str)
        ensures
            name@ == self@.service_name,
    {
        self.service_name.as_str()
    }

    /// The call to make next.
    pub fn next_request(&self) -> (request: TaskRequest)
        ensures
            request@ == request_of(self@),
    {
        match &self.awaited {
            Awaiting::TaskPage => TaskRequest::ListTasks {
                cluster: self.cluster.clone(),
                service_name: self.service_name.clone(),
                desired_status: String::from_str("RUNNING"),
                next_token: copy_text(&self.cursor),
            },
            Awaiting::Descriptions { tasks } => TaskRequest::DescribeTasks {
                cluster: self.cluster.clone(),
                tasks: copy_texts(tasks),
            },
            Awaiting::Definition { of, later } => TaskRequest::DescribeTaskDefinition {
                task_definition: of.task_definition.clone(),
            },
            Awaiting::Nothing => TaskRequest::Finished,
        }
    }

    /// Takes a page of the task listing.
    pub fn on_task_page(self, page: Page<String>) -> (next: Self)
        ensures
            next@ == with_task_page(self@, page.entries().map_values(|t: String| t@), page.token()),
    {
        let TaskValidator { cluster, service_name, found, cursor, last_page, awaited } = self;
        match awaited {
            Awaiting::TaskPage => {
                let Page { items, next_token } = page;
                let last_page = next_token.is_none();
                let tasks = match items {
                    Some(tasks) => tasks,
                    None => Vec::new(),
                };
                assert(tasks.deep_view() == page.entries().map_values(|t: String| t@));
                let awaited = if tasks.len() > 0 {
                    Awaiting::Descriptions { tasks }
                } else {
                    awaiting_after_page(last_page)
                };
                TaskValidator { cluster, service_name, found, cursor: next_token, last_page, awaited }
            },
            _ => TaskValidator { cluster, service_name, found, cursor, last_page, awaited },
        }
    }

    /// Takes the descriptions of the tasks of a page.
    pub fn on_descriptions(self, described: Option<Vec<TaskRecord>>) -> (next: Self)
        ensures
            next@ == with_descriptions(
                self@,
                match described {
                    Some(records) => Some(records.deep_view()),
                    None => None,
                },
            ),
    {
        let TaskValidator { cluster, service_name, found, cursor, last_page, awaited } = self;
        match awaited {
            Awaiting::Descriptions { tasks } => {
                let pending = match described {
                    Some(records) => targets(records),
                    None => Vec::new(),
                };
                assert(described is None ==> pending.deep_view() == Seq::<PendingModel>::empty());
                let awaited = awaiting_after_target(pending, last_page);
                TaskValidator { cluster, service_name, found, cursor, last_page, awaited }
            },
            _ => TaskValidator { cluster, service_name, found, cursor, last_page, awaited },
        }
    }

    /// Takes the answer on the definition of one target.
    pub fn on_definition(self, definition: Option<TaskDefinitionRecord>) -> (next: Self)
        ensures
            next@ == with_definition(
                self@,
                match definition {
                    Some(record) => Some(record@),
                    None => None,
                },
            ),
    {
        let TaskValidator { cluster, service_name, found, cursor, last_page, awaited } = self;
        match awaited {
            Awaiting::Definition { of, later } => {
                let mut found = found;
                let ghost before = found.deep_view();
                match definition {
                    Some(record) => {
                        let task = TaskInfo::new(of.arn, record);
                        found.push(task);
                        assert(found.deep_view() == before.push(task@));
                    },
                    None => {},
                }
                let awaited = awaiting_after_target(later, last_page);
                TaskValidator { cluster, service_name, found, cursor, last_page, awaited }
            },
            _ => TaskValidator { cluster, service_name, found, cursor, last_page, awaited },
        }
    }

    /// The candidates, sorted by name, once the listing has been read to its
    /// end; nothing before that. Candidates of one name stay in the order in
    /// which they were found.
    pub fn finish(self) -> (tasks: Option<Vec<TaskInfo>>)
        ensures
            tasks is Some == self@.awaited is Nothing,
            tasks matches Some(sorted) ==> is_stable_sort_of(
                sorted.deep_view(),
                self@.found,
                task_name_of(),
            ),
    {
        match self.finish_or_go_on() {
            Ok(sorted) => Some(sorted),
            Err(_) => None,
        }
    }

    /// The candidates, sorted by name, once the listing has been read to its
    /// end; before that, the validator as it is.
    pub fn finish_or_go_on(self) -> (outcome: Result<Vec<TaskInfo>, Self>)
        ensures
            match outcome {
                Ok(sorted) => self@.awaited is Nothing && is_stable_sort_of(
                    sorted.deep_view(),
                    self@.found,
                    task_name_of(),
                ),
                Err(validator) => !(self@.awaited is Nothing) && validator@ == self@,
            },
    {
        match self.awaited {
            Awaiting::Nothing => {
                let ghost found = self.found@;
                let sorted = sort_by_key(self.found);
                proof {
                    let stand_for = |task: TaskInfo| task@;
                    lemma_stable_sort_carries_over(
                        sorted@,
                        found,
                        key_of::<TaskInfo>(),
                        stand_for,
                        task_name_of(),
                    );
                    assert(sorted@.map_values(stand_for) == sorted.deep_view());
                    assert(found.map_values(stand_for) == self@.found);
                }
                Ok(sorted)
            },
            _ => Err(self),
        }
    }
}

} // verus!
