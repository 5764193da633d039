//! The command executor: what a task asks for, and what came of it.
//!
//! The executor itself starts no process. It says whether a task's outcome is
//! known at once or waits on the container runtime, and, once the runtime has
//! been run, what the outcome is.

use crate::json::member;
use crate::json::text;
use crate::json::JsonValue;
use crate::task::Task;
use crate::task::TaskType;
use crate::task::TaskView;
use crate::text::join;
use crate::text::read_text;
use crate::text::same_text;
use crate::text::text_of_bytes;
use vstd::prelude::*;

verus! {

/// The view of an outcome: the output of a task that succeeded, or the
/// message of one that failed.
pub open spec fn outcome_view(outcome: Result<String, String>) -> Result<Seq<char>, Seq<char>> {
    match outcome {
        Ok(output) => Ok(output@),
        Err(message) => Err(message@),
    }
}

/// A program and the arguments to start it with.
#[derive(Debug, PartialEq, Eq)]
pub struct Command {
    pub program: String,
    pub arguments: Vec<String>,
}

/// The mathematical value of a [`Command`].
pub struct CommandView {
    pub program: Seq<char>,
    pub arguments: Seq<Seq<char>>,
}

impl View for Command {
    type V = CommandView;

    open spec fn view(&self) -> CommandView {
        CommandView { program: self.program@, arguments: self.arguments.deep_view() }
    }
}

/// The container runtime's listing of all containers, one JSON object a line.
pub open spec fn list_containers_command_view() -> CommandView {
    CommandView {
        program: "docker"@,
        arguments: seq!["ps"@, "-a"@, "--format"@, "{{json .}}"@],
    }
}

/// The command that lists all containers, one JSON object a line.
pub fn list_containers_command() -> (command: Command)
    ensures
        command@ == list_containers_command_view(),
{
    let mut arguments: Vec<String> = Vec::new();
    arguments.push("ps".to_owned());
    arguments.push("-a".to_owned());
    arguments.push("--format".to_owned());
    arguments.push("{{json .}}".to_owned());
    let command = Command { program: "docker".to_owned(), arguments };
    assert(command@.arguments =~= list_containers_command_view().arguments);
    command
}

/// One run of a command, by how it ended.
#[derive(Debug, PartialEq, Eq)]
pub enum Run {
    /// The process ran and exited; `success` says whether its status was zero.
    Exited { success: bool, stdout: Vec<u8>, stderr: Vec<u8> },
    /// The process could not be started.
    NotLaunched { reason: String },
}

/// The mathematical value of a [`Run`].
pub enum RunView {
    Exited { success: bool, stdout: Seq<u8>, stderr: Seq<u8> },
    NotLaunched { reason: Seq<char> },
}

impl View for Run {
    type V = RunView;

    open spec fn view(&self) -> RunView {
        match self {
            Run::Exited { success, stdout, stderr } => RunView::Exited {
                success: *success,
                stdout: stdout@,
                stderr: stderr@,
            },
            Run::NotLaunched { reason } => RunView::NotLaunched { reason: reason@ },
        }
    }
}

/// What carrying out a task takes.
#[derive(Debug, PartialEq, Eq)]
pub enum Execution {
    /// Nothing more: the outcome is known.
    Finished { outcome: Result<String, String> },
    /// A run of the command that lists the containers.
    ListContainers,
}

/// The mathematical value of an [`Execution`].
pub enum ExecutionView {
    Finished { outcome: Result<Seq<char>, Seq<char>> },
    ListContainers,
}

impl View for Execution {
    type V = ExecutionView;

    open spec fn view(&self) -> ExecutionView {
        match self {
            Execution::Finished { outcome } => ExecutionView::Finished {
                outcome: outcome_view(*outcome),
            },
            Execution::ListContainers => ExecutionView::ListContainers,
        }
    }
}

/// The sub-action that a container task names: the string member `command`
/// of its details, and the empty text where the details have no such string.
pub open spec fn command_of(details: JsonValue) -> Seq<char> {
    match details.member("command"@) {
        Some(JsonValue::Text(command)) => command,
        _ => Seq::empty(),
    }
}

/// What carrying out a task takes.
///
/// A shell task is acknowledged and nothing is run. A container task that
/// asks for `list_containers` waits on the listing; any other command, the
/// empty one too, is refused by name.
pub open spec fn execution_of(task: TaskView) -> ExecutionView {
    match task.task_type {
        TaskType::Shell => ExecutionView::Finished {
            outcome: Ok("Shell command executed successfully."@),
        },
        TaskType::Docker => if command_of(task.details) == "list_containers"@ {
            ExecutionView::ListContainers
        } else {
            ExecutionView::Finished {
                outcome: Err("Unsupported Docker command: "@ + command_of(task.details)),
            }
        },
    }
}

/// The outcome of a container listing, by how its run ended.
///
/// A zero exit status makes the standard output the task's output. Any other
/// status makes the standard error the task's error message. A process that
/// never started gives a message that wraps the reason.
pub open spec fn listing_outcome(run: RunView) -> Result<Seq<char>, Seq<char>> {
    match run {
        RunView::Exited { success, stdout, stderr } => if success {
            Ok(text_of_bytes(stdout))
        } else {
            Err(text_of_bytes(stderr))
        },
        RunView::NotLaunched { reason } => Err("Failed to execute docker command: "@ + reason),
    }
}

/// The sub-action that a container task names.
pub fn command_name(task: &Task) -> (command: &str)
    ensures
        command@ == command_of(task@.details),
{
    let named = match member(&task.details, "command") {
        Some(found) => text(found),
        None => None,
    };
    match named {
        Some(command) => command,
        None => {
            proof {
                reveal_strlit("");
            }
            ""
        },
    }
}

/// Dispatches on the task's type and says what carrying the task out takes.
pub fn execute_task(task: &Task) -> (execution: Execution)
    ensures
        execution@ == execution_of(task@),
{
    match task.task_type {
        TaskType::Shell => Execution::Finished {
            outcome: Ok("Shell command executed successfully.".to_owned()),
        },
        TaskType::Docker => {
            let command = command_name(task);
            if same_text(command, "list_containers") {
                Execution::ListContainers
            } else {
                Execution::Finished { outcome: Err(join("Unsupported Docker command: ", command)) }
            }
        },
    }
}

/// The outcome of a container listing, once its command has been run.
pub fn finish_listing(run: &Run) -> (outcome: Result<String, String>)
    ensures
        outcome_view(outcome) == listing_outcome(run@),
{
    match run {
        Run::Exited { success, stdout, stderr } => if *success {
            Ok(read_text(stdout.as_slice()))
        } else {
            Err(read_text(stderr.as_slice()))
        },
        Run::NotLaunched { reason } => Err(
            join("Failed to execute docker command: ", reason.as_str()),
        ),
    }
}

} // verus!
