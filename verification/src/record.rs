//! The result record and its mathematical model.

use vstd::prelude::*;
use vstd::std_specs::cmp::PartialEqSpec;

verus! {

/// What a [`RunResult`] holds, as plain sequences of characters.
pub struct RunResultView {
    pub status: Seq<char>,
    pub message: Seq<char>,
}

/// Result of a run: a short status word and a message for a human reader.
#[derive(Debug)]
pub struct RunResult {
    status: String,
    message: String,
}

impl View for RunResult {
    type V = RunResultView;

    closed spec fn view(&self) -> RunResultView {
        RunResultView { status: self.status@, message: self.message@ }
    }
}

impl RunResult {
    /// Builds a record from its two fields.
    pub fn new(status: String, message: String) -> (record: RunResult)
        ensures
            record@.status == status@,
            record@.message == message@,
    {
        RunResult { status, message }
    }

    /// The status word.
    pub fn status(&self) -> (text: &str)
        ensures
            text@ == self@.status,
    {
        self.status.as_str()
    }

    /// The message.
    pub fn message(&self) -> (text: &str)
        ensures
            text@ == self@.message,
    {
        self.message.as_str()
    }
}

impl PartialEq for RunResult {
    /// Two records are equal when both fields hold the same text.
    fn eq(&self, other: &Self) -> (same: bool) {
        self.status == other.status && self.message == other.message
    }
}

impl Eq for RunResult {}

impl vstd::std_specs::cmp::PartialEqSpecImpl for RunResult {
    open spec fn obeys_eq_spec() -> bool {
        true
    }

    open spec fn eq_spec(&self, other: &Self) -> bool {
        self@ == other@
    }
}

/// Taking a record apart and building it again loses nothing: the record
/// that [`RunResult::new`] makes of the two fields of `record` is equal to
/// `record`.
pub proof fn rebuilt_record_is_equal(
    record: RunResult,
    status: String,
    message: String,
    rebuilt: RunResult,
)
    requires
        status@ == record@.status,
        message@ == record@.message,
        call_ensures(RunResult::new, (status, message), rebuilt),
    ensures
        rebuilt@ == record@,
        rebuilt.eq_spec(&record),
{
}

} // verus!
