use vstd::prelude::*;

verus! {

/// `data` subcommands.
#[derive(Clone, Debug, PartialEq, Eq)]
pub enum DataCommands {
    /// Data source management.
    Source(DataSourceCommands),
    /// Local read-only OpenStock checks.
    OpenStock(OpenStockCommands),
    /// Import market fundamental snapshots from a JSON file.
    ImportFundamentals { input: String },
    /// Query historical klines (`data_type` is the kline type, `daily` by default).
    Query { code: String, start: Option<String>, end: Option<String>, data_type: String, limit: usize },
    /// Export klines to a file (`csv` or `parquet`).
    Export { code: String, format: String, output: String },
    /// Import tick trades (dry run unless `apply`).
    ImportTicks { code: String, date: Option<String>, apply: bool },
    /// Import klines (dry run unless `apply`; `period` is day, week or month).
    ImportKlines { code: String, period: String, start: Option<String>, end: Option<String>, apply: bool },
}

/// `data source` subcommands.
#[derive(Clone, Debug, PartialEq, Eq)]
pub enum DataSourceCommands {
    /// List configured data sources.
    List { config_dir: String },
    /// Add or update a built-in data source.
    Add {
        config_dir: String,
        source_type: DataSourceKind,
        hosts: Vec<String>,
        port: Option<u16>,
        timeout: Option<u64>,
        base_url: Option<String>,
        rate_limit: Option<u32>,
    },
    /// Set the default data source.
    SetDefault { config_dir: String, name: DataSourceKind },
    /// Test a data source.
    Test { config_dir: String, name: DataSourceKind },
}

/// The built-in data source kinds.
#[derive(Clone, Copy, Debug, PartialEq, Eq)]
pub enum DataSourceKind {
    Tdx,
    TdxApi,
    Akshare,
}

impl DataSourceKind {
    /// The name of the kind as written in configuration files.
    pub open spec fn name_text(self) -> Seq<char> {
        match self {
            DataSourceKind::Tdx => "tdx"@,
            DataSourceKind::TdxApi => "tdx_api"@,
            DataSourceKind::Akshare => "akshare"@,
        }
    }

    /// The configuration name of the kind: `tdx`, `tdx_api` or `akshare`.
    pub fn as_str(self) -> (r: &'static str)
        ensures
            r@ == self.name_text(),
    {
        match self {
            DataSourceKind::Tdx => "tdx",
            DataSourceKind::TdxApi => "tdx_api",
            DataSourceKind::Akshare => "akshare",
        }
    }
}

/// `data openstock` subcommands.
#[derive(Clone, Debug, PartialEq, Eq)]
pub enum OpenStockCommands {
    ValidateFixture { file: String },
    ValidateLive { payload: String, symbol: String, period: String, start: String, end: String, limit: Option<u32> },
    PersistLive {
        payload: String,
        symbol: String,
        period: String,
        start: String,
        end: String,
        limit: Option<u32>,
        apply: bool,
    },
    ShadowRollback { batch_id: String },
    ShadowVerify { batch_id: String },
    ValidateCodes { payload: String, kind: Option<String> },
    ValidateCalendar { payload: String, kind: String },
    ValidateIndex { payload: String, symbol: String, start: Option<String>, end: Option<String> },
    FetchCodes,
    FetchCalendar { year: Option<u32>, start: Option<String>, end: Option<String> },
    FetchIndex { symbol: String, start: Option<String>, end: Option<String> },
    FetchAllStocks { day: Option<String> },
    FetchWorkdays { action: String, date: Option<String>, start: Option<String>, end: Option<String> },
    FetchKlines { symbol: String, period: String, adjust: String, start: Option<String>, end: Option<String> },
    FetchMinuteKlines { symbol: String, period: String, date: String, adjust: String },
}

} // verus!
