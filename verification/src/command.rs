//! Building the final launch command from a resolved binary.

use vstd::prelude::*;
use vstd::string::StringExecFns;

use crate::resolver::ResolvedBinary;

verus! {

/// What the host launches: an executable path, its arguments, and its
/// environment (always empty here).
#[derive(Debug, Clone, PartialEq)]
pub struct LaunchCommand {
    pub command: String,
    pub args: Vec<String>,
    pub env: Vec<(String, String)>,
}

/// The argument list the launch command defaults to when none was
/// configured anywhere in the resolution chain.
pub open spec fn default_args() -> Seq<Seq<char>> {
    seq!["lsp"@]
}

/// Combines a resolved binary with the default-argument rule: configured
/// arguments are passed through unchanged; with none, the argument list is
/// exactly `["lsp"]`. The environment is empty.
pub fn launch_command(binary: ResolvedBinary) -> (c: LaunchCommand)
    ensures
        c.command@ == binary.path@,
        c.env@ == Seq::<(String, String)>::empty(),
        match binary.args {
            Some(a) => c.args.deep_view() == a.deep_view(),
            None => c.args.deep_view() == default_args(),
        },
{
    let args = match binary.args {
        Some(a) => a,
        None => {
            let mut v: Vec<String> = Vec::new();
            v.push(String::from_str("lsp"));
            proof {
                assert(v.deep_view() =~= default_args());
            }
            v
        },
    };
    let env: Vec<(String, String)> = Vec::new();
    proof {
        assert(env@ =~= Seq::<(String, String)>::empty());
    }
    LaunchCommand { command: binary.path, args, env }
}

} // verus!
