//! The library-wide guarantees of the resolution pipeline, stated and
//! proved over [`resolution_outcome`], which pins the result of
//! [`crate::resolve`] for every input.

use vstd::prelude::*;

verus! {

use crate::command::{command_args, command_env, Command};
use crate::config::{decoded_repository, ConfigValue};
use crate::error::Error;
use crate::repository::RepositoryFacts;
use crate::resolve::{helper_name, resolution_outcome};

/// A configuration value that does not decode to a repository string —
/// absent, not an object, or without a string-valued `repository` member —
/// always fails with `MissingConfiguration` or `InvalidConfiguration`,
/// and never produces a descriptor.
pub proof fn lemma_no_repository_no_descriptor(
    config: Option<ConfigValue>,
    facts: RepositoryFacts,
    found: Option<String>,
    r: Result<Command, Error>,
)
    requires
        resolution_outcome(config, facts, found, r),
        decoded_repository(config) is None,
    ensures
        r is Err,
        r matches Err(e) ==> (e is MissingConfiguration || e is InvalidConfiguration),
{
}

/// A repository path that does not exist always fails with
/// `RepositoryNotFound` carrying that path.
pub proof fn lemma_absent_path_not_found(
    config: Option<ConfigValue>,
    facts: RepositoryFacts,
    found: Option<String>,
    r: Result<Command, Error>,
)
    requires
        resolution_outcome(config, facts, found, r),
        decoded_repository(config) is Some,
        !facts.exists,
    ensures
        r matches Err(e) && e matches Error::RepositoryNotFound { path } && path@
            == decoded_repository(config)->0,
{
}

/// A repository path that exists but holds no `.git` entry always fails
/// with `NotAGitRepository` carrying that path.
pub proof fn lemma_missing_git_entry_not_a_repository(
    config: Option<ConfigValue>,
    facts: RepositoryFacts,
    found: Option<String>,
    r: Result<Command, Error>,
)
    requires
        resolution_outcome(config, facts, found, r),
        decoded_repository(config) is Some,
        facts.exists,
        !facts.has_git_entry,
    ensures
        r matches Err(e) && e matches Error::NotAGitRepository { path } && path@
            == decoded_repository(config)->0,
{
}

/// A valid repository and a present helper always produce a descriptor
/// whose argument sequence is exactly the helper package name, the
/// `--repository` flag, and the repository path, and whose environment is
/// exactly the two fixed diagnostic entries.
pub proof fn lemma_descriptor_shape(
    config: Option<ConfigValue>,
    facts: RepositoryFacts,
    found: Option<String>,
    r: Result<Command, Error>,
)
    requires
        resolution_outcome(config, facts, found, r),
        decoded_repository(config) is Some,
        facts.exists,
        facts.has_git_entry,
        found is Some,
    ensures
        r matches Ok(c) && c.command@ == found->0@ && c.args.deep_view() == command_args(
            decoded_repository(config)->0,
        ) && c.env.deep_view() == command_env(),
{
}

/// Resolution is deterministic in its inputs: two attempts over the same
/// configuration, the same probed facts, and the same search outcome
/// agree on success, and two successes carry structurally identical
/// descriptors.
pub proof fn lemma_resolution_idempotent(
    config: Option<ConfigValue>,
    facts: RepositoryFacts,
    found: Option<String>,
    r1: Result<Command, Error>,
    r2: Result<Command, Error>,
)
    requires
        resolution_outcome(config, facts, found, r1),
        resolution_outcome(config, facts, found, r2),
    ensures
        r1 is Ok <==> r2 is Ok,
        r1 matches Ok(c1) ==> (r2 matches Ok(c2) ==> (c1.command@ == c2.command@
            && c1.args.deep_view() == c2.args.deep_view() && c1.env.deep_view()
            == c2.env.deep_view())),
{
}

/// An absent helper executable fails with `ExecutableNotFound` carrying
/// the helper's name — but only once the repository has passed
/// validation: the repository is checked first, so an invalid repository
/// wins over a missing helper.
pub proof fn lemma_missing_helper_after_valid_repository(
    config: Option<ConfigValue>,
    facts: RepositoryFacts,
    r: Result<Command, Error>,
)
    requires
        resolution_outcome(config, facts, None, r),
        decoded_repository(config) is Some,
    ensures
        (facts.exists && facts.has_git_entry) ==> (r matches Err(e) && e matches
            Error::ExecutableNotFound { name } && name@ == helper_name()),
        !facts.exists ==> (r matches Err(e) && e is RepositoryNotFound),
{
}

} // verus!
