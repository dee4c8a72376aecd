use vstd::prelude::*;

verus! {

/// `notify` subcommands.
#[derive(Clone, Debug, PartialEq, Eq)]
pub enum NotifyCommands {
    Test { channel: String, message: Option<String> },
    Send { title: String, message: String, level: String, channel: Option<String> },
    List,
    Check { channel: String },
}

/// `ai` subcommands.
#[derive(Clone, Debug, PartialEq, Eq)]
pub enum AiCommands {
    Analyze { code: String, model: String, with_news: bool },
    Decide { code: String, position: Option<i64>, risk: String },
    Ask { question: String, code: Option<String>, model: String },
    Market { date: Option<String> },
    Config { show: bool, test: bool },
}

/// `news` subcommands.
#[derive(Clone, Debug, PartialEq, Eq)]
pub enum NewsCommands {
    Search { query: String, code: Option<String>, days: u32, max: usize, provider: Option<String> },
    Code { code: String, days: u32, max: usize },
    Trend { date: Option<String>, code: Option<String> },
    Providers,
}

/// `fundamental` subcommands.
#[derive(Clone, Debug, PartialEq, Eq)]
pub enum FundamentalCommands {
    Show { code: String },
    Valuation { code: String },
    Earnings { code: String, years: u32 },
    Institution { code: String },
    DragonTiger { code: Option<String>, days: u32 },
    Dividend { code: String, years: u32 },
}

/// `sentiment` subcommands.
#[derive(Clone, Debug, PartialEq, Eq)]
pub enum SentimentCommands {
    Show { code: String },
    History { code: String, days: u32 },
    Mentions { code: String, max: usize },
}

/// `import` subcommands.
#[derive(Clone, Debug, PartialEq, Eq)]
pub enum ImportCommands {
    FromImage { file: String, model: String },
    FromCsv { file: String },
    FromClipboard,
    FromText { text: String },
    Resolve { input: String },
}

} // verus!
