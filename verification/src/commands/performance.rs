use vstd::prelude::*;

verus! {

/// `performance` subcommands over saved backtest reports.
#[derive(Clone, Debug, PartialEq, Eq)]
pub enum PerformanceCommands {
    /// Performance details of one report.
    Report { id: String },
    /// List the reports.
    List,
    /// Compare reports.
    Compare { ids: Vec<String> },
}

} // verus!
