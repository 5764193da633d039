//! The worker loop, as a state machine.
//!
//! The worker is always waiting for one piece of outside work: a pop from the
//! queues, a run of the container runtime, a write to the broker, or a pause.
//! Each step takes the result of that work as an event and names the next
//! piece of work as an action. Whoever drives the machine performs the action
//! and hands back the event; the machine itself never stops.

use crate::executor::execute_task;
use crate::executor::execution_of;
use crate::executor::finish_listing;
use crate::executor::list_containers_command;
use crate::executor::list_containers_command_view;
use crate::executor::listing_outcome;
use crate::executor::Command;
use crate::executor::CommandView;
use crate::executor::Execution;
use crate::executor::ExecutionView;
use crate::executor::Run;
use crate::executor::RunView;
use crate::executor::command_of;
use crate::json::JsonValue;
use crate::record::record_of;
use crate::record::result_key_of;
use crate::record::ResultRecord;
use crate::record::ResultRecordView;
use crate::task::decode;
use crate::task::task_of_payload;
use crate::task::DecodeErrorView;
use crate::task::Task;
use crate::task::TaskType;
use crate::task::TaskView;
use crate::text::text_of_bytes;
use vstd::prelude::*;

verus! {

/// How long the worker pauses after the broker failed a pop, in seconds.
pub const BACKOFF_SECONDS: u64 = 5;

/// The queues that the worker pops from, in the order in which the broker is
/// to look at them.
pub open spec fn queue_names_view() -> Seq<Seq<char>> {
    seq!["mcp::tasks::shell"@, "mcp::tasks::docker"@]
}

/// The queues that the worker pops from.
pub fn queue_names() -> (queues: Vec<String>)
    ensures
        queues.deep_view() == queue_names_view(),
{
    let mut queues: Vec<String> = Vec::new();
    queues.push("mcp::tasks::shell".to_owned());
    queues.push("mcp::tasks::docker".to_owned());
    queues
}

/// What the worker is waiting for.
#[derive(Debug, PartialEq, Eq)]
pub enum Worker {
    /// An item from the queues.
    Popping,
    /// The container listing that `task` asked for.
    Listing { task: Task },
    /// The broker's answer to a write of a result record.
    Writing,
    /// The end of the pause after a failed pop.
    Sleeping,
}

/// The mathematical value of a [`Worker`].
pub enum WorkerView {
    Popping,
    Listing { task: TaskView },
    Writing,
    Sleeping,
}

impl View for Worker {
    type V = WorkerView;

    open spec fn view(&self) -> WorkerView {
        match self {
            Worker::Popping => WorkerView::Popping,
            Worker::Listing { task } => WorkerView::Listing { task: task@ },
            Worker::Writing => WorkerView::Writing,
            Worker::Sleeping => WorkerView::Sleeping,
        }
    }
}

/// The result of a piece of outside work.
#[derive(Debug, PartialEq, Eq)]
pub enum Event {
    /// The pop gave `payload`, taken from `queue`.
    Popped { queue: String, payload: String },
    /// The broker failed the pop.
    PopFailed,
    /// The run of the command ended as `run` says.
    Ran { run: Run },
    /// The broker stored the record.
    Written,
    /// The broker failed the write; the record is lost.
    WriteFailed,
    /// The pause is over.
    Slept,
}

/// The mathematical value of an [`Event`].
pub enum EventView {
    Popped { queue: Seq<char>, payload: Seq<char> },
    PopFailed,
    Ran { run: RunView },
    Written,
    WriteFailed,
    Slept,
}

impl View for Event {
    type V = EventView;

    open spec fn view(&self) -> EventView {
        match self {
            Event::Popped { queue, payload } => EventView::Popped {
                queue: queue@,
                payload: payload@,
            },
            Event::PopFailed => EventView::PopFailed,
            Event::Ran { run } => EventView::Ran { run: run@ },
            Event::Written => EventView::Written,
            Event::WriteFailed => EventView::WriteFailed,
            Event::Slept => EventView::Slept,
        }
    }
}

/// A piece of outside work for the driver to perform.
#[derive(Debug, PartialEq, Eq)]
pub enum Action {
    /// Pop one item from the first of `queues` that has one, waiting without
    /// a time limit while all are empty.
    Pop { queues: Vec<String> },
    /// Run `command` to its end and collect its status and output.
    Run { command: Command },
    /// Store `record` in the broker, over anything under the same key.
    Write { record: ResultRecord },
    /// Pause for `seconds`.
    Sleep { seconds: u64 },
}

/// The mathematical value of an [`Action`].
pub enum ActionView {
    Pop { queues: Seq<Seq<char>> },
    Run { command: CommandView },
    Write { record: ResultRecordView },
    Sleep { seconds: u64 },
}

impl View for Action {
    type V = ActionView;

    open spec fn view(&self) -> ActionView {
        match self {
            Action::Pop { queues } => ActionView::Pop { queues: queues.deep_view() },
            Action::Run { command } => ActionView::Run { command: command@ },
            Action::Write { record } => ActionView::Write { record: record@ },
            Action::Sleep { seconds } => ActionView::Sleep { seconds: *seconds },
        }
    }
}

/// Whether `event` is the result of the work that `state` waits for.
pub open spec fn awaits(state: WorkerView, event: EventView) -> bool {
    match state {
        WorkerView::Popping => event is Popped || event is PopFailed,
        WorkerView::Listing { .. } => event is Ran,
        WorkerView::Writing => event is Written || event is WriteFailed,
        WorkerView::Sleeping => event is Slept,
    }
}

/// Waiting for the next item: the state and the action that every finished
/// or dropped piece of work leads back to.
pub open spec fn next_pop() -> (WorkerView, ActionView) {
    (WorkerView::Popping, ActionView::Pop { queues: queue_names_view() })
}

/// Writing the record of task `id` with `outcome`.
pub open spec fn report(id: Seq<char>, outcome: Result<Seq<char>, Seq<char>>) -> (
    WorkerView,
    ActionView,
) {
    (WorkerView::Writing, ActionView::Write { record: record_of(id, outcome) })
}

/// What the worker does with a payload that it popped.
///
/// A payload that is no task is dropped: nothing is written and the worker
/// pops again. A task whose outcome is known at once is reported. A task that
/// asks for the container listing has the listing run first.
pub open spec fn on_payload(payload: Seq<char>) -> (WorkerView, ActionView) {
    match task_of_payload(payload) {
        Err(_) => next_pop(),
        Ok(task) => match execution_of(task) {
            ExecutionView::Finished { outcome } => report(task.id, outcome),
            ExecutionView::ListContainers => (
                WorkerView::Listing { task },
                ActionView::Run { command: list_containers_command_view() },
            ),
        },
    }
}

/// The worker's transition: the state and the action that follow `event` in
/// `state`, or nothing where the state does not wait for that event.
pub open spec fn next(state: WorkerView, event: EventView) -> Option<(WorkerView, ActionView)> {
    match (state, event) {
        (WorkerView::Popping, EventView::Popped { payload, .. }) => Some(on_payload(payload)),
        (WorkerView::Popping, EventView::PopFailed) => Some(
            (WorkerView::Sleeping, ActionView::Sleep { seconds: BACKOFF_SECONDS }),
        ),
        (WorkerView::Listing { task }, EventView::Ran { run }) => Some(
            report(task.id, listing_outcome(run)),
        ),
        (WorkerView::Writing, EventView::Written) => Some(next_pop()),
        (WorkerView::Writing, EventView::WriteFailed) => Some(next_pop()),
        (WorkerView::Sleeping, EventView::Slept) => Some(next_pop()),
        _ => None,
    }
}

/// The view of a step's result.
pub open spec fn step_view(stepped: Option<(Worker, Action)>) -> Option<(WorkerView, ActionView)> {
    match stepped {
        Some((state, action)) => Some((state@, action@)),
        None => None,
    }
}

impl Worker {
    /// A worker at the start of its loop, and its first action: a pop.
    pub fn start() -> (started: (Worker, Action))
        ensures
            (started.0@, started.1@) == next_pop(),
    {
        (Worker::Popping, Action::Pop { queues: queue_names() })
    }

    /// Takes the result of the work that the worker waited for and gives the
    /// state that follows and the work to do next. An event that the worker
    /// did not wait for gives nothing.
    pub fn step(self, event: Event) -> (stepped: Option<(Worker, Action)>)
        ensures
            step_view(stepped) == next(self@, event@),
            stepped is Some <==> awaits(self@, event@),
    {
        match (self, event) {
            (Worker::Popping, Event::Popped { payload, .. }) => Some(
                Worker::receive(payload.as_str()),
            ),
            (Worker::Popping, Event::PopFailed) => Some(
                (Worker::Sleeping, Action::Sleep { seconds: BACKOFF_SECONDS }),
            ),
            (Worker::Listing { task }, Event::Ran { run }) => {
                let outcome = finish_listing(&run);
                let record = ResultRecord::new(task.id.as_str(), &outcome);
                Some((Worker::Writing, Action::Write { record }))
            },
            (Worker::Writing, Event::Written) => Some(Worker::start()),
            (Worker::Writing, Event::WriteFailed) => Some(Worker::start()),
            (Worker::Sleeping, Event::Slept) => Some(Worker::start()),
            _ => None,
        }
    }

    /// Decodes a popped payload and dispatches the task, if it is one.
    pub fn receive(payload: &str) -> (stepped: (Worker, Action))
        ensures
            (stepped.0@, stepped.1@) == on_payload(payload@),
    {
        match decode(payload) {
            Err(_) => Worker::start(),
            Ok(task) => match execute_task(&task) {
                Execution::Finished { outcome } => (
                    Worker::Writing,
                    Action::Write { record: ResultRecord::new(task.id.as_str(), &outcome) },
                ),
                Execution::ListContainers => (
                    Worker::Listing { task },
                    Action::Run { command: list_containers_command() },
                ),
            },
        }
    }
}

/// The worker never stops: it always waits for something, and the result of
/// what it waits for always gives it a next state and a next action. Only an
/// event that it did not wait for gives nothing.
pub proof fn lemma_worker_never_stops(state: WorkerView, event: EventView)
    ensures
        next(state, event) is Some <==> awaits(state, event),
        exists|awaited: EventView| awaits(state, awaited),
{
    match state {
        WorkerView::Popping => {
            assert(awaits(state, EventView::PopFailed));
        },
        WorkerView::Listing { .. } => {
            let run = RunView::NotLaunched { reason: Seq::empty() };
            assert(awaits(state, EventView::Ran { run }));
        },
        WorkerView::Writing => {
            assert(awaits(state, EventView::Written));
        },
        WorkerView::Sleeping => {
            assert(awaits(state, EventView::Slept));
        },
    }
}

/// A payload that is no task is dropped: the worker writes nothing and pops
/// again. Only such a payload is passed over: for a task the worker goes on
/// to run the listing or to write a record.
pub proof fn lemma_undecodable_payload_is_dropped(queue: Seq<char>, payload: Seq<char>)
    ensures
        task_of_payload(payload) is Err ==> next(
            WorkerView::Popping,
            EventView::Popped { queue, payload },
        ) == Some(next_pop()),
        task_of_payload(payload) is Ok ==> {
            let action = next(WorkerView::Popping, EventView::Popped { queue, payload })->Some_0.1;
            action is Run || action is Write
        },
{
}

/// The life of a popped payload. A payload that is no task is dropped at
/// once. A task is answered with one write under the key of its id: at once,
/// or after the one run that it asked for. After the write, stored or not,
/// the worker pops again.
pub proof fn lemma_one_record_for_each_task(
    queue: Seq<char>,
    payload: Seq<char>,
    run: RunView,
    stored: bool,
)
    ensures
        ({
            let first = next(WorkerView::Popping, EventView::Popped { queue, payload })->Some_0;
            let answer = if stored {
                EventView::Written
            } else {
                EventView::WriteFailed
            };
            match task_of_payload(payload) {
                Err(_) => first == next_pop(),
                Ok(task) => {
                    ||| {
                        &&& first.0 is Writing
                        &&& first.1 matches ActionView::Write { record }
                        &&& record.key == result_key_of(task.id)
                        &&& next(first.0, answer) == Some(next_pop())
                    }
                    ||| {
                        let second = next(first.0, EventView::Ran { run })->Some_0;
                        &&& first.0 == WorkerView::Listing { task }
                        &&& first.1 is Run
                        &&& second.0 is Writing
                        &&& second.1 matches ActionView::Write { record }
                        &&& record.key == result_key_of(task.id)
                        &&& next(second.0, answer) == Some(next_pop())
                    }
                },
            }
        }),
{
}

/// Whatever the worker writes is the result record of a task: it stands under
/// the key of the task's id, says `SUCCESS: ` or `ERROR: ` and then the body,
/// and lives an hour.
pub proof fn lemma_every_write_is_a_result_record(state: WorkerView, event: EventView)
    ensures
        next(state, event) matches Some((_, ActionView::Write { record })) ==> {
            &&& record.ttl_seconds == 3600
            &&& exists|id: Seq<char>| record.key == "mcp::result::"@ + id
            &&& exists|body: Seq<char>|
                record.value == "SUCCESS: "@ + body || record.value == "ERROR: "@ + body
        },
{
    match (state, event) {
        (WorkerView::Popping, EventView::Popped { payload, .. }) => {
            match task_of_payload(payload) {
                Ok(task) => match execution_of(task) {
                    ExecutionView::Finished { outcome } => {
                        lemma_record_has_the_shape(task.id, outcome);
                    },
                    ExecutionView::ListContainers => {},
                },
                Err(_) => {},
            }
        },
        (WorkerView::Listing { task }, EventView::Ran { run }) => {
            lemma_record_has_the_shape(task.id, listing_outcome(run));
        },
        _ => {},
    }
}

/// The record of a task and an outcome has a key under the namespace and a
/// value that starts with the status.
proof fn lemma_record_has_the_shape(id: Seq<char>, outcome: Result<Seq<char>, Seq<char>>)
    ensures
        exists|some_id: Seq<char>| record_of(id, outcome).key == "mcp::result::"@ + some_id,
        exists|body: Seq<char>|
            record_of(id, outcome).value == "SUCCESS: "@ + body || record_of(id, outcome).value
                == "ERROR: "@ + body,
{
    match outcome {
        Ok(output) => {
            assert(record_of(id, outcome).value == "SUCCESS: "@ + output);
        },
        Err(message) => {
            assert(record_of(id, outcome).value == "ERROR: "@ + message);
        },
    }
}

/// A shell task is reported as a success with the fixed acknowledgement,
/// whatever its details hold, and nothing is run for it.
pub proof fn lemma_shell_task_is_acknowledged(queue: Seq<char>, payload: Seq<char>, task: TaskView)
    requires
        task_of_payload(payload) == Ok::<TaskView, DecodeErrorView>(task),
        task.task_type == TaskType::Shell,
    ensures
        next(WorkerView::Popping, EventView::Popped { queue, payload }) == Some(
            (
                WorkerView::Writing,
                ActionView::Write {
                    record: ResultRecordView {
                        key: "mcp::result::"@ + task.id,
                        value: "SUCCESS: Shell command executed successfully."@,
                        ttl_seconds: 3600,
                    },
                },
            ),
        ),
{
    reveal_strlit("SUCCESS: ");
    reveal_strlit("Shell command executed successfully.");
    reveal_strlit("SUCCESS: Shell command executed successfully.");
    assert("SUCCESS: "@ + "Shell command executed successfully."@
        =~= "SUCCESS: Shell command executed successfully."@);
}

/// A container task with any command but `list_containers` is reported as an
/// error that names the command, and nothing is run for it.
pub proof fn lemma_other_container_command_is_refused(
    queue: Seq<char>,
    payload: Seq<char>,
    task: TaskView,
)
    requires
        task_of_payload(payload) == Ok::<TaskView, DecodeErrorView>(task),
        task.task_type == TaskType::Docker,
        command_of(task.details) != "list_containers"@,
    ensures
        next(WorkerView::Popping, EventView::Popped { queue, payload }) == Some(
            (
                WorkerView::Writing,
                ActionView::Write {
                    record: ResultRecordView {
                        key: "mcp::result::"@ + task.id,
                        value: "ERROR: Unsupported Docker command: "@ + command_of(task.details),
                        ttl_seconds: 3600,
                    },
                },
            ),
        ),
{
    reveal_strlit("ERROR: ");
    reveal_strlit("Unsupported Docker command: ");
    reveal_strlit("ERROR: Unsupported Docker command: ");
    assert("ERROR: "@ + ("Unsupported Docker command: "@ + command_of(task.details))
        =~= "ERROR: Unsupported Docker command: "@ + command_of(task.details));
}

/// Details that hold no string member `command` name the empty command, which
/// is not `list_containers`.
pub proof fn lemma_absent_command_is_empty(details: JsonValue)
    requires
        details.member("command"@) is None || !(details.member("command"@)->Some_0 is Text),
    ensures
        command_of(details) == Seq::<char>::empty(),
        command_of(details) != "list_containers"@,
{
    reveal_strlit("list_containers");
    assert("list_containers"@.len() == 15);
}

/// A container task that asks for `list_containers` has the listing run, and
/// a run that exits with status zero is reported as a success whose body is
/// the standard output, as it stands.
pub proof fn lemma_listing_is_run_then_reported(
    queue: Seq<char>,
    payload: Seq<char>,
    task: TaskView,
    stdout: Seq<u8>,
    stderr: Seq<u8>,
)
    requires
        task_of_payload(payload) == Ok::<TaskView, DecodeErrorView>(task),
        task.task_type == TaskType::Docker,
        command_of(task.details) == "list_containers"@,
    ensures
        next(WorkerView::Popping, EventView::Popped { queue, payload }) == Some(
            (
                WorkerView::Listing { task },
                ActionView::Run { command: list_containers_command_view() },
            ),
        ),
        next(
            WorkerView::Listing { task },
            EventView::Ran { run: RunView::Exited { success: true, stdout, stderr } },
        ) == Some(
            (
                WorkerView::Writing,
                ActionView::Write {
                    record: ResultRecordView {
                        key: "mcp::result::"@ + task.id,
                        value: "SUCCESS: "@ + text_of_bytes(stdout),
                        ttl_seconds: 3600,
                    },
                },
            ),
        ),
{
}

/// A failed pop costs one pause of five seconds: the worker sleeps, waits for
/// nothing but the end of the pause, and then pops again.
pub proof fn lemma_failed_pop_pauses_once(event: EventView)
    ensures
        next(WorkerView::Popping, EventView::PopFailed) == Some(
            (WorkerView::Sleeping, ActionView::Sleep { seconds: 5 }),
        ),
        next(WorkerView::Sleeping, event) is Some <==> event == EventView::Slept,
        next(WorkerView::Sleeping, EventView::Slept) == Some(next_pop()),
{
}

} // verus!
