use vstd::prelude::*;

verus! {

/// `execution` subcommands.
#[derive(Clone, Debug, PartialEq, Eq)]
pub enum ExecutionCommands {
    Config(ExecutionConfigCommands),
    Daemon(ExecutionDaemonCommands),
    Bridge(ExecutionBridgeCommands),
    Qmt(ExecutionQmtCommands),
}

/// `execution config` subcommands.
#[derive(Clone, Debug, PartialEq, Eq)]
pub enum ExecutionConfigCommands {
    Init,
    Show,
}

/// `execution daemon` subcommands.
#[derive(Clone, Debug, PartialEq, Eq)]
pub enum ExecutionDaemonCommands {
    Run { once: bool },
}

/// `execution bridge` subcommands.
#[derive(Clone, Debug, PartialEq, Eq)]
pub enum ExecutionBridgeCommands {
    Status { checklist: bool },
    QmtPreview { request_id: String },
    QmtLive { request_id: String, yes: bool },
    QmtQuery { order_id: String },
    QmtAudit { request_id: Option<String>, task_id: Option<String>, local_submission_id: Option<String> },
    QmtCancel { order_id: String },
    QmtAccount,
    QmtPositions,
    QmtAsset,
}

/// `execution qmt` subcommands.
#[derive(Clone, Debug, PartialEq, Eq)]
pub enum ExecutionQmtCommands {
    Status { checklist: bool },
    Preview { request_id: String },
    Live { request_id: String, yes: bool },
    Query { order_id: String },
    Audit { request_id: Option<String>, task_id: Option<String>, local_submission_id: Option<String> },
    ManualInterventions {
        action: String,
        request_id: Option<String>,
        task_id: Option<String>,
        local_submission_id: Option<String>,
    },
    Cancel { order_id: String },
    Account,
    Positions,
    Asset,
}

} // verus!
