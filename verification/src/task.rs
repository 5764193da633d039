//! The task envelope: a unit of requested work and how a payload becomes one.

use crate::json::duplicate;
use crate::json::is_object;
use crate::json::json_of_text;
use crate::json::json_value;
use crate::json::member;
use crate::json::parse;
use crate::json::text;
use crate::json::JsonValue;
use crate::text::join;
use crate::text::same_text;
use vstd::prelude::*;

verus! {

/// What kind of work a task asks for. The set is closed.
#[derive(Clone, Copy, Debug, PartialEq, Eq, Structural)]
pub enum TaskType {
    Shell,
    Docker,
}

impl TaskType {
    /// The name under which a payload gives this type.
    pub open spec fn name_view(self) -> Seq<char> {
        match self {
            TaskType::Shell => "SHELL"@,
            TaskType::Docker => "DOCKER"@,
        }
    }

    /// The type that a name stands for. Names are matched as they are written,
    /// upper case; no other name stands for a type.
    pub open spec fn named(name: Seq<char>) -> Option<TaskType> {
        if name == "SHELL"@ {
            Some(TaskType::Shell)
        } else if name == "DOCKER"@ {
            Some(TaskType::Docker)
        } else {
            None
        }
    }

    /// The name under which a payload gives this type.
    pub fn name(self) -> (name: &'static str)
        ensures
            name@ == self.name_view(),
    {
        match self {
            TaskType::Shell => "SHELL",
            TaskType::Docker => "DOCKER",
        }
    }

    /// The type that `name` stands for, if any.
    pub fn from_name(name: &str) -> (found: Option<TaskType>)
        ensures
            found == TaskType::named(name@),
    {
        if same_text(name, "SHELL") {
            Some(TaskType::Shell)
        } else if same_text(name, "DOCKER") {
            Some(TaskType::Docker)
        } else {
            None
        }
    }
}

/// A member that every task payload has.
#[derive(Clone, Copy, Debug, PartialEq, Eq, Structural)]
pub enum Field {
    Id,
    TargetHost,
    TaskType,
    Details,
}

impl Field {
    /// The member's name in the payload.
    pub open spec fn name_view(self) -> Seq<char> {
        match self {
            Field::Id => "id"@,
            Field::TargetHost => "target_host"@,
            Field::TaskType => "task_type"@,
            Field::Details => "details"@,
        }
    }

    /// The member's name in the payload.
    pub fn name(self) -> (name: &'static str)
        ensures
            name@ == self.name_view(),
    {
        match self {
            Field::Id => "id",
            Field::TargetHost => "target_host",
            Field::TaskType => "task_type",
            Field::Details => "details",
        }
    }
}

/// A unit of requested work.
///
/// `id` is the submitter's key for the result; `target_host` is carried along
/// and not acted on; `details` is whatever the submitter sent, read only where
/// a task type needs a part of it.
#[derive(Debug, PartialEq, Eq)]
pub struct Task {
    pub id: String,
    pub target_host: String,
    pub task_type: TaskType,
    pub details: serde_json::Value,
}

/// The mathematical value of a [`Task`].
pub struct TaskView {
    pub id: Seq<char>,
    pub target_host: Seq<char>,
    pub task_type: TaskType,
    pub details: JsonValue,
}

impl View for Task {
    type V = TaskView;

    open spec fn view(&self) -> TaskView {
        TaskView {
            id: self.id@,
            target_host: self.target_host@,
            task_type: self.task_type,
            details: json_value(self.details),
        }
    }
}

/// Why a payload is no task.
#[derive(Debug, PartialEq, Eq)]
pub enum DecodeError {
    /// The payload is not one JSON value; the parser's complaint is kept.
    Malformed { complaint: String },
    /// The payload is JSON, but not an object.
    NotARecord,
    /// The object has no member of this name.
    Missing { field: Field },
    /// The member must be a string and is not.
    NotText { field: Field },
    /// `task_type` is a string that names no task type.
    UnknownTaskType { name: String },
}

/// The mathematical value of a [`DecodeError`].
pub enum DecodeErrorView {
    Malformed { complaint: Seq<char> },
    NotARecord,
    Missing { field: Field },
    NotText { field: Field },
    UnknownTaskType { name: Seq<char> },
}

impl View for DecodeError {
    type V = DecodeErrorView;

    open spec fn view(&self) -> DecodeErrorView {
        match self {
            DecodeError::Malformed { complaint } => DecodeErrorView::Malformed {
                complaint: complaint@,
            },
            DecodeError::NotARecord => DecodeErrorView::NotARecord,
            DecodeError::Missing { field } => DecodeErrorView::Missing { field: *field },
            DecodeError::NotText { field } => DecodeErrorView::NotText { field: *field },
            DecodeError::UnknownTaskType { name } => DecodeErrorView::UnknownTaskType {
                name: name@,
            },
        }
    }
}

/// What an error says, for a log.
pub open spec fn message_of(error: DecodeErrorView) -> Seq<char> {
    match error {
        DecodeErrorView::Malformed { complaint } => "malformed payload: "@ + complaint,
        DecodeErrorView::NotARecord => "payload is not an object"@,
        DecodeErrorView::Missing { field } => "missing field: "@ + field.name_view(),
        DecodeErrorView::NotText { field } => "field is not a string: "@ + field.name_view(),
        DecodeErrorView::UnknownTaskType { name } => "unknown task type: "@ + name,
    }
}

impl DecodeError {
    /// What the error says, for a log.
    pub fn message(&self) -> (message: String)
        ensures
            message@ == message_of(self@),
    {
        match self {
            DecodeError::Malformed { complaint } => join("malformed payload: ", complaint.as_str()),
            DecodeError::NotARecord => "payload is not an object".to_owned(),
            DecodeError::Missing { field } => join("missing field: ", field.name()),
            DecodeError::NotText { field } => join("field is not a string: ", field.name()),
            DecodeError::UnknownTaskType { name } => join("unknown task type: ", name.as_str()),
        }
    }
}

/// The text of a member that must be a string.
pub open spec fn text_member(record: JsonValue, field: Field) -> Result<Seq<char>, DecodeErrorView> {
    match record.member(field.name_view()) {
        None => Err(DecodeErrorView::Missing { field }),
        Some(JsonValue::Text(text)) => Ok(text),
        Some(_) => Err(DecodeErrorView::NotText { field }),
    }
}

/// Whether a JSON value describes a task: it is an object whose members
/// `id`, `target_host` and `task_type` are strings, the last one the name of
/// a task type, and it has a member `details`, of any shape.
pub open spec fn describes_task(value: JsonValue) -> bool {
    &&& value is Object
    &&& value.member("id"@) matches Some(id) && id is Text
    &&& value.member("target_host"@) matches Some(host) && host is Text
    &&& value.member("task_type"@) matches Some(JsonValue::Text(name)) && (name == "SHELL"@
        || name == "DOCKER"@)
    &&& value.member("details"@) is Some
}

/// The task that a JSON value describes, or what keeps it from being one.
///
/// Members of other names than the four are passed over. Where several
/// things are wrong, the error names the first of them: that the value is no
/// object, then `id`, `target_host`, `task_type` and `details` in this order.
pub open spec fn task_of_json(value: JsonValue) -> Result<TaskView, DecodeErrorView> {
    if !(value is Object) {
        Err(DecodeErrorView::NotARecord)
    } else {
        match (
            text_member(value, Field::Id),
            text_member(value, Field::TargetHost),
            text_member(value, Field::TaskType),
        ) {
            (Err(error), _, _) => Err(error),
            (Ok(_), Err(error), _) => Err(error),
            (Ok(_), Ok(_), Err(error)) => Err(error),
            (Ok(id), Ok(target_host), Ok(name)) => match (
                TaskType::named(name),
                value.member(Field::Details.name_view()),
            ) {
                (None, _) => Err(DecodeErrorView::UnknownTaskType { name }),
                (Some(_), None) => Err(DecodeErrorView::Missing { field: Field::Details }),
                (Some(task_type), Some(details)) => Ok(
                    TaskView { id, target_host, task_type, details },
                ),
            },
        }
    }
}

/// The task that a payload describes: the payload read as JSON, and the value
/// read as a task.
pub open spec fn task_of_payload(payload: Seq<char>) -> Result<TaskView, DecodeErrorView> {
    match json_of_text(payload) {
        Err(complaint) => Err(DecodeErrorView::Malformed { complaint }),
        Ok(value) => task_of_json(value),
    }
}

/// A value has a task exactly when it describes one. In particular a value
/// without `id` or without `task_type` has none.
pub proof fn lemma_task_of_what_describes_one(value: JsonValue)
    ensures
        task_of_json(value) is Ok <==> describes_task(value),
        value.member("id"@) is None ==> task_of_json(value) is Err,
        value.member("task_type"@) is None ==> task_of_json(value) is Err,
{
}

/// A payload that `serde_json` does not read as one JSON value is no task.
pub proof fn lemma_malformed_payload_is_no_task(payload: Seq<char>)
    requires
        json_of_text(payload) is Err,
    ensures
        task_of_payload(payload) is Err,
{
}

/// The view of what decoding gave.
pub open spec fn decoded_view(decoded: Result<Task, DecodeError>) -> Result<
    TaskView,
    DecodeErrorView,
> {
    match decoded {
        Ok(task) => Ok(task@),
        Err(error) => Err(error@),
    }
}

/// The text of a member that must be a string.
fn read_text_member(record: &serde_json::Value, field: Field) -> (read: Result<
    String,
    DecodeError,
>)
    ensures
        match read {
            Ok(text) => text_member(json_value(*record), field) == Ok::<
                Seq<char>,
                DecodeErrorView,
            >(text@),
            Err(error) => text_member(json_value(*record), field) == Err::<
                Seq<char>,
                DecodeErrorView,
            >(error@),
        },
{
    match member(record, field.name()) {
        None => Err(DecodeError::Missing { field }),
        Some(found) => match text(found) {
            Some(text) => Ok(text.to_owned()),
            None => Err(DecodeError::NotText { field }),
        },
    }
}

/// Reads a JSON value as a task.
pub fn decode_json(value: &serde_json::Value) -> (decoded: Result<Task, DecodeError>)
    ensures
        decoded_view(decoded) == task_of_json(json_value(*value)),
        decoded is Ok <==> describes_task(json_value(*value)),
{
    if !is_object(value) {
        return Err(DecodeError::NotARecord);
    }
    let id = match read_text_member(value, Field::Id) {
        Ok(id) => id,
        Err(error) => {
            return Err(error);
        },
    };
    let target_host = match read_text_member(value, Field::TargetHost) {
        Ok(target_host) => target_host,
        Err(error) => {
            return Err(error);
        },
    };
    let name = match read_text_member(value, Field::TaskType) {
        Ok(name) => name,
        Err(error) => {
            return Err(error);
        },
    };
    let task_type = match TaskType::from_name(name.as_str()) {
        Some(task_type) => task_type,
        None => {
            return Err(DecodeError::UnknownTaskType { name: name });
        },
    };
    match member(value, Field::Details.name()) {
        Some(details) => Ok(Task { id, target_host, task_type, details: duplicate(details) }),
        None => Err(DecodeError::Missing { field: Field::Details }),
    }
}

/// Reads a broker payload as a task.
pub fn decode(payload: &str) -> (decoded: Result<Task, DecodeError>)
    ensures
        decoded_view(decoded) == task_of_payload(payload@),
        decoded is Ok <==> (json_of_text(payload@) matches Ok(value) && describes_task(value)),
{
    match parse(payload) {
        Ok(value) => decode_json(&value),
        Err(complaint) => Err(DecodeError::Malformed { complaint }),
    }
}

} // verus!
