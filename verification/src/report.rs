//! The line that reports a result record.

use vstd::prelude::*;
use vstd::string::StringExecFns;
use crate::record::RunResult;

verus! {

/// The text that the standard library's `{:?}` formatting gives for a string
/// slice: the slice between double quotes, with the characters that cannot
/// stand there as they are written as escapes. It depends on the characters
/// alone.
pub uninterp spec fn quoted(text: Seq<char>) -> Seq<char>;

/// Formats `text` with `{:?}`, that is through `<str as Debug>::fmt`.
///
/// Trusted, not proved: the result is [`quoted`] of the characters of `text`.
/// Nothing is claimed of what that text looks like.
#[verifier::external_body]
fn quote(text: &str) -> (out: String)
    ensures
        out@ == quoted(text@),
{
    format!("{:?}", text)
}

/// The report line for a record whose fields are already rendered: the word
/// `Result:`, then the type's name and, between braces, the two fields by
/// name, `status` first.
pub open spec fn report_line(status: Seq<char>, message: Seq<char>) -> Seq<char> {
    "Result: RunResult { status: "@ + status + ", message: "@ + message + " }"@
}

/// Lays out the report line round the two rendered fields.
pub fn compose_report(status: &str, message: &str) -> (line: String)
    ensures
        line@ == report_line(status@, message@),
{
    let mut line = "Result: RunResult { status: ".to_owned();
    line.append(status);
    line.append(", message: ");
    line.append(message);
    line.append(" }");
    line
}

/// Renders the line that reports `result`: each field quoted as `{:?}` quotes
/// a string, laid out by [`report_line`].
pub fn report(result: &RunResult) -> (line: String)
    ensures
        line@ == report_line(quoted(result@.status), quoted(result@.message)),
{
    let status = quote(result.status());
    let message = quote(result.message());
    compose_report(status.as_str(), message.as_str())
}

} // verus!
