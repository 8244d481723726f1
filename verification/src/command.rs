//! Composing the launch descriptor.
//!
//! The builder takes an already-resolved executable and an
//! already-validated repository — by construction it cannot be reached
//! with anything else — and produces the one output artifact of the
//! library: the command invocation for the helper process.

use vstd::prelude::*;

verus! {

use crate::repository::ValidatedRepository;
use vstd::string::StringExecFns;

/// The fully-specified launch descriptor: executable path, ordered
/// argument list, and environment variable mapping.
pub struct Command {
    pub command: String,
    pub args: Vec<String>,
    pub env: Vec<(String, String)>,
}

/// The fixed argument sequence for a given repository path: the helper
/// package name, the `--repository` flag, and the path, in that order.
pub open spec fn command_args(repository: Seq<char>) -> Seq<Seq<char>> {
    seq!["mcp-server-git"@, "--repository"@, repository]
}

/// The fixed environment of the helper process: the debug-mode flag and
/// the log-verbosity setting.  A stable contract with the helper, never
/// parameterized by caller input.
pub open spec fn command_env() -> Seq<(Seq<char>, Seq<char>)> {
    seq![("MCP_DEBUG"@, "1"@), ("RUST_LOG"@, "debug"@)]
}

/// Builds the launch descriptor from the resolved executable and the
/// validated repository: the executable is taken unchanged, the argument
/// sequence is exactly `command_args` of the repository path, and the
/// environment is exactly `command_env`.
pub fn build_command(executable: String, repository: &ValidatedRepository) -> (c: Command)
    ensures
        c.command@ == executable@,
        c.args.deep_view() == command_args(repository@),
        c.env.deep_view() == command_env(),
{
    let mut args: Vec<String> = Vec::new();
    args.push(String::from_str("mcp-server-git"));
    args.push(String::from_str("--repository"));
    args.push(repository.path().clone());
    let mut env: Vec<(String, String)> = Vec::new();
    env.push((String::from_str("MCP_DEBUG"), String::from_str("1")));
    env.push((String::from_str("RUST_LOG"), String::from_str("debug")));
    proof {
        assert(args.deep_view() =~= command_args(repository@));
        assert(env.deep_view() =~= command_env());
    }
    Command { command: executable, args, env }
}

} // verus!
