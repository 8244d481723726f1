//! The closed set of failure kinds of a resolution attempt.

use vstd::prelude::*;

verus! {

use vstd::string::StringExecFns;

/// Why a resolution attempt failed.  Every failure is terminal for the
/// invocation that produced it; the variants carry the structured fields
/// (path, name, decode detail) that the rendered message is built from.
#[derive(Debug)]
pub enum Error {
    /// No configuration value was supplied at all.
    MissingConfiguration,
    /// A configuration value was supplied but does not have the expected
    /// shape; `detail` says what was wrong with it.
    InvalidConfiguration { detail: String },
    /// The configured repository path does not exist on the filesystem.
    RepositoryNotFound { path: String },
    /// The configured repository path exists but holds no `.git` entry.
    NotAGitRepository { path: String },
    /// The helper executable was not found on the executable search path.
    ExecutableNotFound { name: String },
}

impl Error {
    /// The human-readable message that is surfaced to the host runtime.
    pub fn message(&self) -> (r: String)
        ensures
            self is MissingConfiguration ==> r@
                == "Missing repository setting. Please configure the repository path in settings.json"@,
            self matches Error::InvalidConfiguration { detail } ==> r@ == "Invalid repository settings: "@
                + detail@,
            self matches Error::RepositoryNotFound { path } ==> r@
                == "Repository path does not exist: "@ + path@,
            self matches Error::NotAGitRepository { path } ==> r@ == "Not a git repository: "@
                + path@,
            self matches Error::ExecutableNotFound { name } ==> r@ == name@
                + " command not found. Please install it with: npm install -g "@ + name@,
    {
        match self {
            Error::MissingConfiguration => String::from_str(
                "Missing repository setting. Please configure the repository path in settings.json",
            ),
            Error::InvalidConfiguration { detail } => String::from_str(
                "Invalid repository settings: ",
            ).concat(detail.as_str()),
            Error::RepositoryNotFound { path } => String::from_str(
                "Repository path does not exist: ",
            ).concat(path.as_str()),
            Error::NotAGitRepository { path } => String::from_str("Not a git repository: ").concat(
                path.as_str(),
            ),
            Error::ExecutableNotFound { name } => name.clone().concat(
                " command not found. Please install it with: npm install -g ",
            ).concat(name.as_str()),
        }
    }
}

} // verus!
