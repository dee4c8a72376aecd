use vstd::prelude::*;

verus! {

/// `backtest` subcommands.
#[derive(Clone, Debug, PartialEq, Eq)]
pub enum BacktestCommands {
    /// Run a backtest and save its report.
    Run {
        strategy: String,
        code: String,
        start: Option<String>,
        end: Option<String>,
        capital: String,
        commission_rate: String,
        slippage_bps: u32,
        short_period: usize,
        long_period: usize,
        max_positions: usize,
        max_position_ratio: String,
        risk_free_rate: String,
        limit: usize,
    },
    /// Show a saved report.
    Report { id: String },
    /// List saved reports.
    List,
    /// Compare saved reports.
    Compare { ids: Vec<String> },
}

} // verus!
