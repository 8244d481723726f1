//! Resolution of a launch command for a Git context server.
//!
//! Given a project configuration value, this library decodes the configured
//! repository path, validates that the path names a Git repository, locates
//! the helper executable on the search path, and composes the command
//! invocation (executable, arguments, environment) that launches the helper.
//! Every failure mode is a typed error; each stage short-circuits on the
//! first failure.

mod command;
mod config;
mod error;
mod executable;
mod laws;
mod repository;
mod resolve;

pub use command::{build_command, command_args, command_env, Command};
pub use config::{
    decode_settings, decoded_repository, find_repository, invalid_detail, ConfigEntry,
    ConfigValue, FieldValue, Settings,
};
pub use error::Error;
pub use executable::{locate_executable, resolve_executable};
pub use laws::{
    lemma_absent_path_not_found, lemma_descriptor_shape,
    lemma_missing_git_entry_not_a_repository, lemma_missing_helper_after_valid_repository,
    lemma_no_repository_no_descriptor, lemma_resolution_idempotent,
};
pub use repository::{check_repository, validate_repository, RepositoryFacts, ValidatedRepository};
pub use resolve::{context_server_command, helper_name, resolution_outcome, resolve};
