//! The operations for a host that takes plain values only: a failure shows as
//! text, as an empty path or as `false`, never as an error.

use vstd::prelude::*;
use crate::error::{unsupported_text, Error};

verus! {

/// The text that a host gets for a result: the captured output, or the text
/// of the error.
pub open spec fn reply_text(result: Result<String, Error>) -> Seq<char> {
    match result {
        Ok(text) => text@,
        Err(error) => error.text(),
    }
}

/// The text that a host gets for a result.
pub fn reply(result: Result<String, Error>) -> (text: String)
    ensures
        text@ == reply_text(result),
{
    match result {
        Ok(text) => text,
        Err(error) => error.message(),
    }
}

/// On a host without the spooler scripting shell the reply is the fixed
/// sentinel.
pub proof fn unsupported_reply_is_sentinel()
    ensures
        reply_text(Err(Error::PlatformUnsupported)) == unsupported_text(),
{
}

/// What creating a temporary file returns, given its path and how writing it
/// went: the path, or the empty string where writing failed.
pub fn create_temp_file(location: String, written: Result<(), String>) -> (created: String)
    ensures
        written is Ok ==> created == location,
        written is Err ==> created@.len() == 0,
{
    match written {
        Ok(()) => location,
        Err(_) => String::new(),
    }
}

/// Whether a temporary file was removed, given how deleting it went.
pub fn remove_temp_file(removed: Result<(), String>) -> (done: bool)
    ensures
        done == (removed is Ok),
{
    removed.is_ok()
}

} // verus!
