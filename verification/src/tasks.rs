//! Tasks: the third level of the hierarchy. Of the tasks of a service, only
//! those that run and take commands are candidates, each under the family
//! name of its definition.

use vstd::prelude::*;
use vstd::string::StringExecFns;
use crate::choice::Choice;
use crate::listing::Listed;
use crate::names::{final_segment, short_name};
use crate::text::{same_text, text_of};

verus! {

/// What the service reports of one task.
#[derive(Debug)]
pub struct TaskRecord {
    /// The full identifier of the task.
    pub task_arn: Option<String>,
    /// The state in which the task was last seen.
    pub last_status: Option<String>,
    /// Whether commands can be run in the task.
    pub enable_execute_command: bool,
    /// The identifier of the definition that the task was started from.
    pub task_definition_arn: Option<String>,
}

/// What a `TaskRecord` holds, as text.
pub struct TaskRecordModel {
    pub task_arn: Option<Seq<char>>,
    pub last_status: Option<Seq<char>>,
    pub enable_execute_command: bool,
    pub task_definition_arn: Option<Seq<char>>,
}

impl View for TaskRecord {
    type V = TaskRecordModel;

    open spec fn view(&self) -> TaskRecordModel {
        TaskRecordModel {
            task_arn: text_of(self.task_arn),
            last_status: text_of(self.last_status),
            enable_execute_command: self.enable_execute_command,
            task_definition_arn: text_of(self.task_definition_arn),
        }
    }
}

impl DeepView for TaskRecord {
    type V = TaskRecordModel;

    open spec fn deep_view(&self) -> TaskRecordModel {
        self@
    }
}

/// What the service reports of one task definition.
#[derive(Debug)]
pub struct TaskDefinitionRecord {
    /// The name that the definition keeps from one revision to the next.
    pub family: Option<String>,
}

/// What a `TaskDefinitionRecord` holds, as text.
pub struct TaskDefinitionModel {
    pub family: Option<Seq<char>>,
}

impl View for TaskDefinitionRecord {
    type V = TaskDefinitionModel;

    open spec fn view(&self) -> TaskDefinitionModel {
        TaskDefinitionModel { family: text_of(self.family) }
    }
}

/// A task that runs and takes commands.
#[derive(Debug)]
pub struct TaskInfo {
    /// The full identifier of the task.
    pub arn: String,
    /// The final segment of the identifier.
    pub task_id: String,
    /// The family name of the task's definition.
    pub task_name: String,
}

/// What a `TaskInfo` holds, as text.
pub struct TaskModel {
    pub arn: Seq<char>,
    pub task_id: Seq<char>,
    pub task_name: Seq<char>,
}

impl View for TaskInfo {
    type V = TaskModel;

    open spec fn view(&self) -> TaskModel {
        TaskModel { arn: self.arn@, task_id: self.task_id@, task_name: self.task_name@ }
    }
}

impl DeepView for TaskInfo {
    type V = TaskModel;

    open spec fn deep_view(&self) -> TaskModel {
        self@
    }
}

impl Clone for TaskInfo {
    fn clone(&self) -> (copy: Self)
        ensures
            copy@ == self@,
    {
        TaskInfo {
            arn: self.arn.clone(),
            task_id: self.task_id.clone(),
            task_name: self.task_name.clone(),
        }
    }
}

/// The state of a task that runs.
pub open spec fn running() -> Seq<char> {
    "RUNNING"@
}

/// The name given to a task whose definition tells no family.
pub open spec fn unknown_family() -> Seq<char> {
    "unknown"@
}

/// The label of a task: its name, and its short identifier in brackets.
pub open spec fn task_label(task: TaskModel) -> Seq<char> {
    task.task_name + " ("@ + task.task_id + ")"@
}

/// The name of a task, as a function.
pub open spec fn task_name_of() -> spec_fn(TaskModel) -> Seq<char> {
    |task: TaskModel| task.task_name
}

impl Listed for TaskInfo {
    /// Tasks are listed in the order of their names.
    open spec fn listing_key(&self) -> Seq<char> {
        self.task_name@
    }

    fn key(&self) -> (key: &str) {
        self.task_name.as_str()
    }
}

impl Choice for TaskInfo {
    /// A task is offered under its name and its short identifier.
    open spec fn label_text(&self) -> Seq<char> {
        task_label(self@)
    }

    fn label(&self) -> (label: String) {
        self.task_name.clone().concat(" (").concat(self.task_id.as_str()).concat(")")
    }
}

/// Whether a task is a target: it was last seen running, and commands can
/// be run in it. Both are asked of the record as it stands; a record without
/// a state is no target.
pub open spec fn takes_commands(record: TaskRecordModel) -> bool {
    record.last_status == Some(running()) && record.enable_execute_command
}

/// A target whose definition is still to be looked up.
pub struct PendingModel {
    pub arn: Seq<char>,
    pub task_definition: Seq<char>,
}

/// The look-up that a record calls for: one for a target that tells both its
/// identifier and its definition, none for any other record.
pub open spec fn pending_of(record: TaskRecordModel) -> Option<PendingModel> {
    if takes_commands(record) && record.task_arn is Some && record.task_definition_arn is Some {
        Some(PendingModel { arn: record.task_arn->0, task_definition: record.task_definition_arn->0 })
    } else {
        None
    }
}

/// The look-ups that `records` call for, in the order of the records.
pub open spec fn awaiting(records: Seq<TaskRecordModel>) -> Seq<PendingModel>
    decreases records.len(),
{
    if records.len() == 0 {
        Seq::empty()
    } else {
        let front = awaiting(records.drop_last());
        match pending_of(records.last()) {
            Some(pending) => front.push(pending),
            None => front,
        }
    }
}

/// The look-ups are those of the targets, no more and no less: one is
/// called for exactly if one of the records calls for it.
pub proof fn lemma_awaiting_exactly_targets(records: Seq<TaskRecordModel>)
    ensures
        awaiting(records).len() <= records.len(),
        forall|pending: PendingModel|
            awaiting(records).contains(pending) <==> exists|i: int|
                0 <= i < records.len() && pending_of(#[trigger] records[i]) == Some(pending),
    decreases records.len(),
{
    if records.len() > 0 {
        let front = records.drop_last();
        lemma_awaiting_exactly_targets(front);
        assert forall|pending: PendingModel|
            awaiting(records).contains(pending) <==> exists|i: int|
                0 <= i < records.len() && pending_of(#[trigger] records[i]) == Some(
                    pending,
                ) by {
            let last = pending_of(records.last());
            if awaiting(records).contains(pending) {
                let at = choose|at: int|
                    0 <= at < awaiting(records).len() && awaiting(records)[at] == pending;
                if at < awaiting(front).len() {
                    assert(awaiting(front)[at] == pending);
                    assert(awaiting(front).contains(pending));
                    let i = choose|i: int|
                        0 <= i < front.len() && pending_of(#[trigger] front[i]) == Some(pending);
                    assert(records[i] == front[i]);
                } else {
                    assert(pending_of(records[records.len() - 1]) == Some(pending));
                }
            }
            if exists|i: int|
                0 <= i < records.len() && pending_of(#[trigger] records[i]) == Some(pending) {
                let i = choose|i: int|
                    0 <= i < records.len() && pending_of(#[trigger] records[i]) == Some(pending);
                if i < front.len() {
                    assert(front[i] == records[i]);
                    assert(awaiting(front).contains(pending));
                    let at = choose|at: int|
                        0 <= at < awaiting(front).len() && awaiting(front)[at] == pending;
                    assert(awaiting(records)[at] == pending);
                } else {
                    assert(awaiting(records)[awaiting(front).len() as int] == pending);
                }
            }
        }
    }
}

/// Records of which none is a target call for no look-up, whatever else
/// they hold.
pub proof fn lemma_awaiting_none(records: Seq<TaskRecordModel>)
    requires
        forall|i: int| 0 <= i < records.len() ==> !takes_commands(#[trigger] records[i]),
    ensures
        awaiting(records) == Seq::<PendingModel>::empty(),
    decreases records.len(),
{
    if records.len() > 0 {
        let front = records.drop_last();
        assert forall|i: int| 0 <= i < front.len() implies !takes_commands(#[trigger] front[i]) by {
            assert(front[i] == records[i]);
        }
        lemma_awaiting_none(front);
        assert(!takes_commands(records[records.len() - 1]));
    }
}

/// The candidate with identifier `arn` whose definition is `definition`.
pub open spec fn task_of(arn: Seq<char>, definition: TaskDefinitionModel) -> TaskModel {
    TaskModel {
        arn,
        task_id: final_segment(arn),
        task_name: match definition.family {
            Some(family) => family,
            None => unknown_family(),
        },
    }
}

impl TaskRecord {
    /// Whether the task is a target.
    pub fn takes_commands(&self) -> (yes: bool)
        ensures
            yes == takes_commands(self@),
    {
        match &self.last_status {
            Some(status) => same_text(status.as_str(), "RUNNING") && self.enable_execute_command,
            None => false,
        }
    }
}

impl TaskInfo {
    /// The candidate with identifier `arn` whose definition is `definition`.
    pub fn new(arn: String, definition: TaskDefinitionRecord) -> (task: TaskInfo)
        ensures
            task@ == task_of(arn@, definition@),
    {
        let task_id = short_name(arn.as_str());
        let task_name = match definition.family {
            Some(family) => family,
            None => String::from_str("unknown"),
        };
        TaskInfo { arn, task_id, task_name }
    }
}

} // verus!
