//! The launcher's fatal errors and their process exit codes.
//!
//! Every fatal condition carries a distinct exit code: usage errors exit
//! with 64 before any security call is made; a rule that cannot be installed
//! exits with 111; an unavailable facility or a failed restriction exits
//! with 112; an unrepresentable or unlaunchable command exits with 126.

use vstd::prelude::*;
use crate::args::UsageError;
use crate::launch::LaunchError;
use crate::ruleset::SetupError;

verus! {

/// Exit code for a malformed invocation.
pub const USAGE_EXIT_CODE: i32 = 64;

/// Exit code for a path that cannot be opened or a rejected rule.
pub const RULE_EXIT_CODE: i32 = 111;

/// Exit code for an unavailable facility or a failed self-restriction.
pub const CAPABILITY_EXIT_CODE: i32 = 112;

/// Exit code for an invalid target or a failed image replacement.
pub const LAUNCH_EXIT_CODE: i32 = 126;

/// Any condition that terminates the launcher before the target runs.
pub enum FatalError {
    /// Malformed invocation; no security call has been made.
    Usage(UsageError),
    /// Negotiation, rule installation or self-restriction failed.
    Setup(SetupError),
    /// The target command cannot be represented.
    Launch(LaunchError),
}

/// The exit code each fatal condition maps to.
pub open spec fn spec_exit_code(e: FatalError) -> i32 {
    match e {
        FatalError::Usage(_) => USAGE_EXIT_CODE,
        FatalError::Setup(SetupError::RuleInstallation { .. }) => RULE_EXIT_CODE,
        FatalError::Setup(_) => CAPABILITY_EXIT_CODE,
        FatalError::Launch(_) => LAUNCH_EXIT_CODE,
    }
}

/// Maps a fatal condition to its process exit code.
pub fn exit_code(e: &FatalError) -> (c: i32)
    ensures
        c == spec_exit_code(*e),
{
    match e {
        FatalError::Usage(_) => USAGE_EXIT_CODE,
        FatalError::Setup(SetupError::RuleInstallation { .. }) => RULE_EXIT_CODE,
        FatalError::Setup(_) => CAPABILITY_EXIT_CODE,
        FatalError::Launch(_) => LAUNCH_EXIT_CODE,
    }
}

} // verus!
