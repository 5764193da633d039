//! The result record: what the worker leaves in the broker for a task's
//! submitter.

use crate::executor::outcome_view;
use crate::text::join;
use vstd::prelude::*;

verus! {

/// How long the broker keeps a result record, in seconds.
pub const RESULT_TTL_SECONDS: u64 = 3600;

/// The outcome of one task as the broker stores it: a value under a key, with
/// a lifetime.
#[derive(Debug, PartialEq, Eq)]
pub struct ResultRecord {
    pub key: String,
    pub value: String,
    pub ttl_seconds: u64,
}

/// The mathematical value of a [`ResultRecord`].
pub struct ResultRecordView {
    pub key: Seq<char>,
    pub value: Seq<char>,
    pub ttl_seconds: u64,
}

impl View for ResultRecord {
    type V = ResultRecordView;

    open spec fn view(&self) -> ResultRecordView {
        ResultRecordView { key: self.key@, value: self.value@, ttl_seconds: self.ttl_seconds }
    }
}

/// The key under which the result of the task `id` is stored.
pub open spec fn result_key_of(id: Seq<char>) -> Seq<char> {
    "mcp::result::"@ + id
}

/// The stored value for an outcome: the status as a prefix, then the output
/// or the error message.
pub open spec fn result_value_of(outcome: Result<Seq<char>, Seq<char>>) -> Seq<char> {
    match outcome {
        Ok(output) => "SUCCESS: "@ + output,
        Err(message) => "ERROR: "@ + message,
    }
}

/// The record of the task `id` with the given outcome.
pub open spec fn record_of(id: Seq<char>, outcome: Result<Seq<char>, Seq<char>>) -> ResultRecordView {
    ResultRecordView {
        key: result_key_of(id),
        value: result_value_of(outcome),
        ttl_seconds: RESULT_TTL_SECONDS,
    }
}

/// The key under which the result of the task `id` is stored.
pub fn result_key(id: &str) -> (key: String)
    ensures
        key@ == result_key_of(id@),
{
    join("mcp::result::", id)
}

/// The stored value for an outcome.
pub fn result_value(outcome: &Result<String, String>) -> (value: String)
    ensures
        value@ == result_value_of(outcome_view(*outcome)),
{
    match outcome {
        Ok(output) => join("SUCCESS: ", output.as_str()),
        Err(message) => join("ERROR: ", message.as_str()),
    }
}

impl ResultRecord {
    /// The record of the task `id` with the given outcome.
    pub fn new(id: &str, outcome: &Result<String, String>) -> (record: ResultRecord)
        ensures
            record@ == record_of(id@, outcome_view(*outcome)),
    {
        ResultRecord {
            key: result_key(id),
            value: result_value(outcome),
            ttl_seconds: RESULT_TTL_SECONDS,
        }
    }
}

/// The broker's key-value store, as far as result records go: under each key
/// the record last written there.
pub type Store = Map<Seq<char>, ResultRecordView>;

/// The store after a record has been written: the record stands under its
/// key, in place of whatever stood there.
pub open spec fn store_after(store: Store, record: ResultRecordView) -> Store {
    store.insert(record.key, record)
}

/// Tasks with different ids have their results under different keys.
pub proof fn lemma_keys_tell_ids_apart(first: Seq<char>, second: Seq<char>)
    requires
        result_key_of(first) == result_key_of(second),
    ensures
        first == second,
{
    let prefix = "mcp::result::"@;
    assert((prefix + first).subrange(prefix.len() as int, (prefix + first).len() as int) =~= first);
    assert((prefix + second).subrange(prefix.len() as int, (prefix + second).len() as int)
        =~= second);
}

/// Writing the result of one task twice leaves one record: both go under the
/// same key, the second takes the place of the first, and the store holds no
/// more keys than after the first.
pub proof fn lemma_second_write_replaces_first(
    store: Store,
    id: Seq<char>,
    first: Result<Seq<char>, Seq<char>>,
    second: Result<Seq<char>, Seq<char>>,
)
    ensures
        record_of(id, first).key == record_of(id, second).key,
        store_after(store_after(store, record_of(id, first)), record_of(id, second))
            == store_after(store, record_of(id, second)),
        store_after(store_after(store, record_of(id, first)), record_of(id, second)).dom()
            == store_after(store, record_of(id, first)).dom(),
        store_after(store_after(store, record_of(id, first)), record_of(id, second))[result_key_of(
            id,
        )] == record_of(id, second),
{
}

} // verus!
