//! What a finished child process amounts to: its captured output as text, or
//! the failure to start it.

use vstd::prelude::*;
use vstd::utf8::{decode_utf8, valid_utf8};
use crate::error::Error;

verus! {

/// How the attempt to run a command ended.
#[derive(Debug, Clone, PartialEq, Eq)]
pub enum ProcessOutcome {
    /// The process was started and has ended. `code` is its exit code, if it
    /// has one, and `stdout` is all that it wrote to standard output.
    Exited { code: Option<i32>, stdout: Vec<u8> },
    /// The operating system could not start the process.
    NotStarted(String),
}

/// The text that bytes stand for when every part of them that is not valid
/// UTF-8 is replaced by the replacement character U+FFFD.
pub uninterp spec fn lossy_text(bytes: Seq<u8>) -> Seq<char>;

/// `String::from_utf8_lossy` of the standard library, with its result made an
/// owned string. Trusted, not proved: the result is the lossy reading of the
/// bytes, which depends on the bytes alone, and for valid UTF-8 it is exactly
/// the text that the bytes encode.
#[verifier::external_body]
fn decode_lossy(bytes: &[u8]) -> (text: String)
    ensures
        text@ == lossy_text(bytes@),
        valid_utf8(bytes@) ==> text@ == decode_utf8(bytes@),
{
    String::from_utf8_lossy(bytes).into_owned()
}

/// Captured output as text. Bytes that are not valid UTF-8 are replaced, so
/// this never fails.
pub fn captured_text(stdout: &Vec<u8>) -> (text: String)
    ensures
        text@ == lossy_text(stdout@),
        valid_utf8(stdout@) ==> text@ == decode_utf8(stdout@),
{
    decode_lossy(stdout.as_slice())
}

/// `result` is what an execution that ended as `outcome` comes to: the
/// captured output as text for a process that was started, whatever its exit
/// code, and a launch failure with the operating system's message for one
/// that was not.
pub open spec fn is_execution_result(outcome: ProcessOutcome, result: Result<String, Error>) -> bool {
    match outcome {
        ProcessOutcome::Exited { code, stdout } => {
            &&& result matches Ok(text)
            &&& text@ == lossy_text(stdout@)
            &&& valid_utf8(stdout@) ==> text@ == decode_utf8(stdout@)
        },
        ProcessOutcome::NotStarted(reason) => result == Err::<String, Error>(
            Error::ProcessLaunchFailure(reason),
        ),
    }
}

/// The result of an execution. A process that was started gives its captured
/// output as text, whatever its exit code; only a process that could not be
/// started is a failure.
pub fn execution_result(outcome: ProcessOutcome) -> (result: Result<String, Error>)
    ensures
        is_execution_result(outcome, result),
{
    match outcome {
        ProcessOutcome::Exited { code, stdout } => Ok(captured_text(&stdout)),
        ProcessOutcome::NotStarted(reason) => Err(Error::ProcessLaunchFailure(reason)),
    }
}

} // verus!
