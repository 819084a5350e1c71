//! The print helper: an executable that is written to the temporary directory
//! once, at start-up, and started for every print request.

use vstd::prelude::*;
use vstd::string::*;
use crate::error::Error;

verus! {

/// The helper's file name.
pub open spec fn helper_file_name() -> Seq<char> {
    "sm.exe"@
}

/// The directory's text ends with a path separator.
pub open spec fn ends_with_separator(dir: Seq<char>) -> bool {
    dir.len() > 0 && (dir.last() == '/' || dir.last() == '\\')
}

/// The helper's path in a directory: the directory, a separator unless the
/// directory's text already ends with one, and the helper's file name.
pub open spec fn helper_path(dir: Seq<char>) -> Seq<char> {
    if ends_with_separator(dir) {
        dir + helper_file_name()
    } else {
        dir + seq!['/'] + helper_file_name()
    }
}

/// Where the print helper lies on disk.
#[derive(Debug, Clone, PartialEq, Eq)]
pub struct StagedHelper {
    pub path: String,
}

impl StagedHelper {
    /// The helper's place in the given temporary directory.
    pub fn in_dir(temp_dir: &str) -> (helper: StagedHelper)
        ensures
            helper.path@ == helper_path(temp_dir@),
    {
        let length = temp_dir.unicode_len();
        let mut path = String::from_str(temp_dir);
        let mut separated = false;
        if length > 0 {
            let last = temp_dir.get_char(length - 1);
            separated = last == '/' || last == '\\';
        }
        if !separated {
            path.append("/");
            proof {
                reveal_strlit("/");
                assert("/"@ =~= seq!['/']);
            }
        }
        path.append("sm.exe");
        StagedHelper { path }
    }
}

/// What start-up reports after the attempt to write the helper to its path:
/// success as it is, and a failure of the file system as a staging failure
/// with the same message.
pub fn init_windows(written: Result<(), String>) -> (staged: Result<(), Error>)
    ensures
        written is Ok ==> staged is Ok,
        written matches Err(reason) ==> staged == Err::<(), Error>(Error::StageFailure(reason)),
{
    match written {
        Ok(()) => Ok(()),
        Err(reason) => Err(Error::StageFailure(reason)),
    }
}

} // verus!
