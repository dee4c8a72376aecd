use vstd::prelude::*;

verus! {

/// `monitor config` subcommands.
#[derive(Clone, Debug, PartialEq, Eq)]
pub enum MonitorConfigCommands {
    /// Show the monitor configuration.
    Show,
    /// Change exactly one setting.
    Change { interval_seconds: Option<u64>, group: Option<String>, persist_events: Option<bool> },
    /// Drop the watchlist group restriction.
    ClearGroup,
}

/// `monitor daemon` subcommands.
#[derive(Clone, Debug, PartialEq, Eq)]
pub enum MonitorDaemonCommands {
    Run,
}

/// `monitor service` subcommands (the systemd user service).
#[derive(Clone, Debug, PartialEq, Eq)]
pub enum MonitorServiceCommands {
    Install,
    Uninstall,
    Start,
    Stop,
    Status,
    Enable,
    Disable,
}

/// `monitor service-config` subcommands.
#[derive(Clone, Debug, PartialEq, Eq)]
pub enum MonitorServiceConfigCommands {
    Show,
    Change { quantix_bin: String },
}

/// `monitor event` subcommands.
#[derive(Clone, Debug, PartialEq, Eq)]
pub enum MonitorEventCommands {
    List { limit: usize, code: Option<String>, event_type: Option<String> },
}

} // verus!
