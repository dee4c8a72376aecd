use vstd::prelude::*;

verus! {

/// `safety` subcommands.
#[derive(Clone, Debug, PartialEq, Eq)]
pub enum SafetyCommands {
    /// The system kill switch.
    KillSwitch(SafetyKillSwitchCommands),
}

/// `safety kill-switch` subcommands.
#[derive(Clone, Debug, PartialEq, Eq)]
pub enum SafetyKillSwitchCommands {
    /// Enable the kill switch, with a reason.
    Enable { reason: String },
    /// Disable the kill switch.
    Disable,
    /// Show the kill switch state.
    Status,
}

} // verus!
