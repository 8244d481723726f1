//! Validation of the configured repository path.
//!
//! The filesystem is probed through a trusted wrapper; everything the
//! probes report is captured in a [`RepositoryFacts`] record, and the
//! decision logic over those facts is verified.  The checks run in order
//! and short-circuit: existence first, then the presence of a `.git`
//! entry directly under the path.

use vstd::prelude::*;

verus! {

use crate::config::Settings;
use crate::error::Error;
use vstd::string::StringExecFns;

/// What the filesystem probes reported of the configured repository path.
#[derive(Clone, Copy, PartialEq, Eq, Structural)]
pub struct RepositoryFacts {
    /// The path exists.
    pub exists: bool,
    /// A `.git` entry exists directly under the path.
    pub has_git_entry: bool,
}

/// A repository path that passed validation: at probing time it existed
/// and held a `.git` entry directly under it.  Values of this type are
/// only ever produced by [`check_repository`], so a launch descriptor can
/// never be built from an unverified path.
pub struct ValidatedRepository {
    path: String,
}

impl ValidatedRepository {
    /// The validated repository path, exactly as configured.
    pub closed spec fn view(&self) -> Seq<char> {
        self.path@
    }

    /// The validated repository path, exactly as configured.
    pub fn path(&self) -> (r: &String)
        ensures
            r@ == self@,
    {
        &self.path
    }
}

/// Relies on `std::path::Path::exists`.  The result depends on what is on
/// disk at the moment of the call, so nothing is promised of it.
#[verifier::external_body]
fn path_exists(path: &str) -> bool {
    std::path::Path::new(path).exists()
}

/// Decides validation from the probed facts: an absent path fails with
/// [`Error::RepositoryNotFound`]; a present path without a `.git` entry
/// fails with [`Error::NotAGitRepository`]; otherwise the repository
/// string is wrapped unchanged (not canonicalized).
pub fn check_repository(settings: &Settings, facts: RepositoryFacts) -> (r: Result<
    ValidatedRepository,
    Error,
>)
    ensures
        !facts.exists ==> (r matches Err(e) && e matches Error::RepositoryNotFound { path }
            && path@ == settings.repository@),
        facts.exists && !facts.has_git_entry ==> (r matches Err(e) && e matches
            Error::NotAGitRepository { path } && path@ == settings.repository@),
        facts.exists && facts.has_git_entry ==> (r matches Ok(v) && v@ == settings.repository@),
{
    if !facts.exists {
        Err(Error::RepositoryNotFound { path: settings.repository.clone() })
    } else if !facts.has_git_entry {
        Err(Error::NotAGitRepository { path: settings.repository.clone() })
    } else {
        Ok(ValidatedRepository { path: settings.repository.clone() })
    }
}

/// Probes the filesystem for the configured repository path and decides
/// validation over what the probes reported.  Which facts come back
/// depends on the machine, so the contract states what holds of every
/// outcome: success wraps the configured path unchanged, and each failure
/// carries that same path.
pub fn validate_repository(settings: &Settings) -> (r: Result<ValidatedRepository, Error>)
    ensures
        r matches Ok(v) ==> v@ == settings.repository@,
        r matches Err(e) ==> ((e matches Error::RepositoryNotFound { path } && path@
            == settings.repository@) || (e matches Error::NotAGitRepository { path } && path@
            == settings.repository@)),
{
    let exists = path_exists(settings.repository.as_str());
    let has_git_entry = if exists {
        let git_entry = settings.repository.clone().concat("/.git");
        path_exists(git_entry.as_str())
    } else {
        false
    };
    check_repository(settings, RepositoryFacts { exists, has_git_entry })
}

} // verus!
