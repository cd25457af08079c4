//! The producer: the one operation that yields a result record.

use vstd::prelude::*;
use vstd::std_specs::cmp::PartialEqSpec;
use crate::record::RunResult;

verus! {

/// Produces the record of a run that completed: the status `success` and a
/// fixed greeting. It takes nothing, cannot fail and has no effect besides
/// the value it returns.
pub fn run() -> (result: RunResult)
    ensures
        result@.status == "success"@,
        result@.message == "Hello from Rust project!"@,
{
    RunResult::new("success".to_owned(), "Hello from Rust project!".to_owned())
}

/// Any two records that [`run`] can return are equal: the producer is
/// deterministic.
pub proof fn run_is_deterministic(first: RunResult, second: RunResult)
    requires
        call_ensures(run, (), first),
        call_ensures(run, (), second),
    ensures
        first@ == second@,
        first.eq_spec(&second),
{
}

} // verus!
