//! The command that opens a shell in a task.

use vstd::prelude::*;
use vstd::string::StringExecFns;
use crate::names::{final_segment, short_name};

verus! {

/// A program and the arguments to start it with.
#[derive(Debug)]
pub struct ShellCommand {
    pub program: String,
    pub args: Vec<String>,
}

/// What a `ShellCommand` holds, as text.
pub struct ShellCommandModel {
    pub program: Seq<char>,
    pub args: Seq<Seq<char>>,
}

impl View for ShellCommand {
    type V = ShellCommandModel;

    open spec fn view(&self) -> ShellCommandModel {
        ShellCommandModel { program: self.program@, args: self.args.deep_view() }
    }
}

/// The command that opens an interactive shell in `container` of a task.
/// Cluster and task go by the final segments of their identifiers.
pub open spec fn shell_command_of(
    cluster: Seq<char>,
    task: Seq<char>,
    container: Seq<char>,
    profile: Seq<char>,
) -> ShellCommandModel {
    ShellCommandModel {
        program: "aws"@,
        args: seq![
            "ecs"@,
            "execute-command"@,
            "--cluster"@,
            final_segment(cluster),
            "--task"@,
            final_segment(task),
            "--container"@,
            container,
            "--command"@,
            "/bin/bash"@,
            "--interactive"@,
            "--profile"@,
            profile,
        ],
    }
}

/// The command that opens an interactive shell in `container` of the task
/// `task_arn`, which runs in the cluster `cluster_arn`.
pub fn shell_command(cluster_arn: &str, task_arn: &str, container: &str, profile: &str) -> (command:
    ShellCommand)
    ensures
        command@ == shell_command_of(cluster_arn@, task_arn@, container@, profile@),
{
    let mut args: Vec<String> = Vec::new();
    args.push(String::from_str("ecs"));
    args.push(String::from_str("execute-command"));
    args.push(String::from_str("--cluster"));
    args.push(short_name(cluster_arn));
    args.push(String::from_str("--task"));
    args.push(short_name(task_arn));
    args.push(String::from_str("--container"));
    args.push(container.to_owned());
    args.push(String::from_str("--command"));
    args.push(String::from_str("/bin/bash"));
    args.push(String::from_str("--interactive"));
    args.push(String::from_str("--profile"));
    args.push(profile.to_owned());
    let command = ShellCommand { program: String::from_str("aws"), args };
    assert(command@.args =~= shell_command_of(cluster_arn@, task_arn@, container@, profile@).args);
    command
}

} // verus!
