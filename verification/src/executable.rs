//! Locating the helper executable on the search path.
//!
//! The search itself runs through a trusted wrapper over the `which`
//! crate; the decision over its outcome is verified.  Absence of the
//! helper is always a terminal error: there is no fallback installation.

use vstd::prelude::*;

verus! {

use crate::error::Error;
use vstd::string::StringExecFns;

/// Relies on `which::which`: it searches the process's executable search
/// path and returns the first match, platform search-path order deciding
/// which match is first.  The result depends on the environment, so
/// nothing is promised of it.
#[verifier::external_body]
fn find_executable(name: &str) -> Option<String> {
    match which::which(name) {
        Ok(path) => Some(path.to_string_lossy().into_owned()),
        Err(_) => None,
    }
}

/// Decides resolution from a search outcome: a found path is returned
/// unchanged, and no match fails with [`Error::ExecutableNotFound`]
/// carrying the helper's name.
pub fn resolve_executable(found: Option<String>, name: &str) -> (r: Result<String, Error>)
    ensures
        found matches Some(p) ==> (r matches Ok(q) && q@ == p@),
        found is None ==> (r matches Err(e) && e matches Error::ExecutableNotFound { name: n }
            && n@ == name@),
{
    match found {
        Some(p) => Ok(p),
        None => Err(Error::ExecutableNotFound { name: name.to_owned() }),
    }
}

/// Searches the executable search path for `name` and decides resolution
/// over whatever the search reported: success hands back a path the
/// search produced, and failure is [`Error::ExecutableNotFound`] carrying
/// the name.
pub fn locate_executable(name: &str) -> (r: Result<String, Error>)
    ensures
        r matches Err(e) ==> (e matches Error::ExecutableNotFound { name: n } && n@ == name@),
{
    let found = find_executable(name);
    resolve_executable(found, name)
}

} // verus!
