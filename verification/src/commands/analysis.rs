use vstd::prelude::*;

verus! {

/// `task` subcommands. Only the preset templates in the foreground are offered.
#[derive(Clone, Debug, PartialEq, Eq)]
pub enum TaskCommands {
    /// Add a scheduled task (not offered).
    Add { name: String, cron: String, command: String },
    /// List the preset task templates.
    List,
    /// Start the scheduler (`daemon` is not offered).
    Start { daemon: bool },
    /// Stop the foreground scheduler.
    Stop,
    /// Show what the task feature offers.
    Status,
}

/// `analyze` subcommands.
#[derive(Clone, Debug, PartialEq, Eq)]
pub enum AnalyzeCommands {
    /// Compute technical indicators (comma separated list).
    Indicators { code: String, indicators: String },
    /// Show a backtest report.
    Backtest { id: String },
    /// Recognise candle patterns from manual candles, stored klines or a TDX day file.
    CandlePattern {
        candle: Vec<String>,
        code: Option<String>,
        tdx_root: Option<String>,
        market: Option<String>,
        day_file: Option<String>,
        start: Option<String>,
        end: Option<String>,
        period: String,
        limit: usize,
        reference: Option<String>,
        previous_close: bool,
    },
    /// Stock screening.
    Screener(ScreenerCommands),
}

/// `analyze screener` subcommands.
#[derive(Clone, Debug, PartialEq, Eq)]
pub enum ScreenerCommands {
    /// List the built-in presets.
    PresetList,
    /// Run a screen over explicit codes or the watchlist.
    Run {
        codes: Option<String>,
        watchlist: bool,
        group: Option<String>,
        preset: Vec<String>,
        limit: Option<usize>,
        sort_by: Option<String>,
    },
}

} // verus!
