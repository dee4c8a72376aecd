use vstd::prelude::*;

verus! {

/// Output formats of the factor commands.
#[derive(Clone, Debug, PartialEq, Eq)]
pub enum FactorOutputFormat {
    Table,
    Csv,
    Json,
    Parquet,
}

/// `factor` subcommands.
#[derive(Clone, Debug, PartialEq, Eq)]
pub enum FactorCommands {
    /// List registered factors.
    List { category: Option<String>, verbose: bool },
    /// Compute factors for symbols over a date range.
    Compute {
        input: String,
        factors: Vec<String>,
        symbols: Vec<String>,
        start: String,
        end: String,
        format: FactorOutputFormat,
        output: Option<String>,
        skip_checks: bool,
    },
    /// Score symbols on the latest factor date.
    Score {
        input: String,
        factors: Vec<String>,
        symbols: Vec<String>,
        start: String,
        end: String,
        format: FactorOutputFormat,
        output: Option<String>,
        top: Option<usize>,
        skip_checks: bool,
    },
    /// Evaluate a factor against future returns.
    Evaluate {
        input: String,
        factor: String,
        symbols: Vec<String>,
        start: String,
        end: String,
        horizon: usize,
        format: FactorOutputFormat,
        output: Option<String>,
        skip_checks: bool,
    },
}

} // verus!
