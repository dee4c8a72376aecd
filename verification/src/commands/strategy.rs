use vstd::prelude::*;

verus! {

/// `strategy` subcommands.
#[derive(Clone, Debug, PartialEq, Eq)]
pub enum StrategyCommands {
    Create { id: String, name: String, code: String, params: Vec<String>, disabled: bool },
    Update {
        id: String,
        name: Option<String>,
        code: Option<String>,
        params: Vec<String>,
        enable: bool,
        disable: bool,
    },
    Delete { id: String },
    Run { name: String, mode: String, code: Option<String> },
    List,
    Show { name: Option<String>, id: Option<String> },
    Config(StrategyConfigCommands),
    Daemon(StrategyDaemonCommands),
    Signal(StrategySignalCommands),
    Request(StrategyRequestCommands),
    Service(StrategyServiceCommands),
    ServiceConfig(StrategyServiceConfigCommands),
}

/// `strategy config` subcommands.
#[derive(Clone, Debug, PartialEq, Eq)]
pub enum StrategyConfigCommands {
    Init,
    Show,
}

/// `strategy daemon` subcommands.
#[derive(Clone, Debug, PartialEq, Eq)]
pub enum StrategyDaemonCommands {
    Run { once: bool },
}

/// `strategy signal` subcommands.
#[derive(Clone, Debug, PartialEq, Eq)]
pub enum StrategySignalCommands {
    List {
        strategy_instance: Option<String>,
        strategy: Option<String>,
        code: Option<String>,
        approval_status: Option<String>,
        signal_status: Option<String>,
        limit: usize,
    },
    Approve { signal_id: String, target_mode: String, target_account: String },
    Reject { signal_id: String, reason: Option<String> },
}

/// `strategy request` subcommands.
#[derive(Clone, Debug, PartialEq, Eq)]
pub enum StrategyRequestCommands {
    List {
        status: Option<String>,
        target_mode: Option<String>,
        target_account: Option<String>,
        limit: usize,
        stats: bool,
    },
    Show { request_id: String, verbose: bool },
    Execute { request_id: String },
    Cancel { request_id: String, reason: Option<String> },
}

/// `strategy service` subcommands.
#[derive(Clone, Debug, PartialEq, Eq)]
pub enum StrategyServiceCommands {
    Install,
    Uninstall,
    Start,
    Stop,
    Status,
    Enable,
    Disable,
}

/// `strategy service-config` subcommands.
#[derive(Clone, Debug, PartialEq, Eq)]
pub enum StrategyServiceConfigCommands {
    Show,
    Change { quantix_bin: String, env_file: Option<String> },
}

} // verus!
