//! The directory that holds the running program.

use vstd::prelude::*;

verus! {

/// The directory to report for the running program, given the parent of its
/// path as found (`None` where the path has no parent), or `Err` where the
/// path could not be found: the parent, else ".".
pub fn get_executable_directory(parent: Result<Option<String>, ()>) -> (r: Result<String, String>)
    ensures
        match parent {
            Ok(Some(p)) => r == Ok::<String, String>(p),
            Ok(None) => r is Ok && r->Ok_0@ == "."@,
            Err(_) => r is Err && r->Err_0@ == "Failed to get executable directory"@,
        },
{
    match parent {
        Ok(Some(p)) => Ok(p),
        Ok(None) => Ok(String::from_str(".")),
        Err(_) => Err(String::from_str("Failed to get executable directory")),
    }
}

} // verus!
