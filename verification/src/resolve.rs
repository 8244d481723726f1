//! The full resolution pipeline.
//!
//! One invocation runs the stages in a fixed order — decode the settings,
//! validate the repository, locate the helper executable, build the
//! command — and short-circuits on the first failure.
//! [`resolution_outcome`] pins the result of the pure pipeline for every
//! combination of configuration, probed facts, and search outcome;
//! [`context_server_command`] runs the same pipeline against the live
//! filesystem and search path.

use vstd::prelude::*;

verus! {

use crate::command::{build_command, command_args, command_env, Command};
use crate::config::{decode_settings, decoded_repository, invalid_detail, ConfigValue};
use crate::error::Error;
use crate::executable::{locate_executable, resolve_executable};
use crate::repository::{check_repository, validate_repository, RepositoryFacts};

/// The name of the helper executable searched for on the search path.
pub open spec fn helper_name() -> Seq<char> {
    "uvx"@
}

/// What a resolution attempt returns, for every combination of
/// configuration value, probed repository facts, and executable search
/// outcome.  The stages decide in order — configuration shape first, then
/// path existence, then the `.git` entry, then the executable search —
/// and the first failing stage names the error.
pub open spec fn resolution_outcome(
    config: Option<ConfigValue>,
    facts: RepositoryFacts,
    found: Option<String>,
    r: Result<Command, Error>,
) -> bool {
    &&& config is None ==> (r matches Err(e) && e is MissingConfiguration)
    &&& config matches Some(v) ==> (decoded_repository(config) is None ==> (r matches Err(e)
        && e matches Error::InvalidConfiguration { detail } && detail@ == invalid_detail(v)))
    &&& decoded_repository(config) matches Some(repo) ==> (if !facts.exists {
        r matches Err(e) && e matches Error::RepositoryNotFound { path } && path@ == repo
    } else if !facts.has_git_entry {
        r matches Err(e) && e matches Error::NotAGitRepository { path } && path@ == repo
    } else {
        match found {
            None => r matches Err(e) && e matches Error::ExecutableNotFound { name } && name@
                == helper_name(),
            Some(exe) => r matches Ok(c) && c.command@ == exe@ && c.args.deep_view()
                == command_args(repo) && c.env.deep_view() == command_env(),
        }
    })
}

/// The pure resolution pipeline: decides the outcome from the
/// configuration value, the probed repository facts, and the executable
/// search outcome alone.  The result is pinned by [`resolution_outcome`],
/// so identical inputs always yield a structurally identical result.
pub fn resolve(config: &Option<ConfigValue>, facts: RepositoryFacts, found: Option<String>) -> (r:
    Result<Command, Error>)
    ensures
        resolution_outcome(*config, facts, found, r),
{
    let settings = match decode_settings(config) {
        Ok(s) => s,
        Err(e) => {
            return Err(e);
        },
    };
    let repository = match check_repository(&settings, facts) {
        Ok(v) => v,
        Err(e) => {
            return Err(e);
        },
    };
    let executable = match resolve_executable(found, "uvx") {
        Ok(p) => p,
        Err(e) => {
            return Err(e);
        },
    };
    Ok(build_command(executable, &repository))
}

/// Resolves the launch command against the live machine: decodes the
/// settings, probes the filesystem for the configured repository path,
/// searches the executable search path for the helper, and builds the
/// descriptor.  Which probes succeed depends on the machine, so the
/// contract states what holds of every outcome: the decode stage is
/// decided exactly, every failure is one of the typed kinds carrying the
/// configured path or the helper name, and every descriptor carries
/// exactly the fixed argument sequence and environment for the configured
/// repository.
pub fn context_server_command(config: &Option<ConfigValue>) -> (r: Result<Command, Error>)
    ensures
        config is None ==> (r matches Err(e) && e is MissingConfiguration),
        config matches Some(v) ==> (decoded_repository(*config) is None ==> (r matches Err(e)
            && e matches Error::InvalidConfiguration { detail } && detail@ == invalid_detail(*v))),
        decoded_repository(*config) matches Some(repo) ==> (match r {
            Ok(c) => c.args.deep_view() == command_args(repo) && c.env.deep_view()
                == command_env(),
            Err(e) => {
                ||| (e matches Error::RepositoryNotFound { path } && path@ == repo)
                ||| (e matches Error::NotAGitRepository { path } && path@ == repo)
                ||| (e matches Error::ExecutableNotFound { name } && name@ == helper_name())
            },
        }),
{
    let settings = match decode_settings(config) {
        Ok(s) => s,
        Err(e) => {
            return Err(e);
        },
    };
    let repository = match validate_repository(&settings) {
        Ok(v) => v,
        Err(e) => {
            return Err(e);
        },
    };
    let executable = match locate_executable("uvx") {
        Ok(p) => p,
        Err(e) => {
            return Err(e);
        },
    };
    Ok(build_command(executable, &repository))
}

} // verus!
