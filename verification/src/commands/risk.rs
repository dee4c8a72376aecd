use vstd::prelude::*;

verus! {

/// `risk` subcommands.
#[derive(Clone, Debug, PartialEq, Eq)]
pub enum RiskCommands {
    Import(RiskImportCommands),
    Sync(RiskSyncCommands),
    Rebuild(RiskRebuildCommands),
    Rule(RiskRuleCommands),
    Log { date: Option<String>, event_type: Option<String>, limit: usize },
    Lock(RiskLockCommands),
    Status { source: Option<String>, account: Option<String> },
    Pnl { source: Option<String>, account: Option<String> },
    Position { source: Option<String>, account: Option<String> },
}

/// `risk import` subcommands.
#[derive(Clone, Debug, PartialEq, Eq)]
pub enum RiskImportCommands {
    LiveTrades { account: String, input: String },
}

/// `risk sync` subcommands.
#[derive(Clone, Debug, PartialEq, Eq)]
pub enum RiskSyncCommands {
    Industry { standard: String },
}

/// `risk rebuild` subcommands.
#[derive(Clone, Debug, PartialEq, Eq)]
pub enum RiskRebuildCommands {
    LiveAccount { account: String },
}

/// `risk lock` subcommands.
#[derive(Clone, Debug, PartialEq, Eq)]
pub enum RiskLockCommands {
    Release,
}

/// `risk rule` subcommands.
#[derive(Clone, Debug, PartialEq, Eq)]
pub enum RiskRuleCommands {
    Change { rule_type: String, value: String },
    List,
    Enable { rule_type: String },
    Disable { rule_type: String },
}

} // verus!
