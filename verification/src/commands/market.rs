use vstd::prelude::*;

verus! {

/// `market` subcommands.
#[derive(Clone, Debug, PartialEq, Eq)]
pub enum MarketCommands {
    Foundation,
    Sector { top: Option<usize>, date: Option<String>, sort_by: Option<String> },
    Concept { top: Option<usize>, date: Option<String>, sort_by: Option<String> },
    North { date: Option<String> },
    Sentiment { date: Option<String> },
    Leader { sector: Option<String>, concept: Option<String>, all: bool, limit: Option<usize>, date: Option<String> },
    Overview { top: Option<usize>, date: Option<String> },
    Strength { date: Option<String>, strong_top: usize, weak_top: usize, stock_top: usize },
    /// The stock ranking of the strong sectors, restricted to one sector
    /// when `sector` is given.
    StrengthStocks { date: Option<String>, strong_top: usize, sector: Option<String>, metric: StrengthStockMetric, top: usize },
}

/// The metric by which strong-sector stocks are ranked.
#[derive(Clone, Copy, Debug, PartialEq, Eq)]
pub enum StrengthStockMetric {
    MarketCap,
    Profit,
}

/// `watchlist` subcommands.
#[derive(Clone, Debug, PartialEq, Eq)]
pub enum WatchlistCommands {
    Add { code: String, group: Option<String> },
    Remove { code: String },
    List { group: Option<String>, tag: Option<String>, with_price: bool },
    Move { code: String, group: String },
    Group(WatchlistGroupCommands),
    Tag(WatchlistTagCommands),
    History { code: Option<String>, limit: usize },
}

/// `watchlist group` subcommands.
#[derive(Clone, Debug, PartialEq, Eq)]
pub enum WatchlistGroupCommands {
    Create { name: String },
    List,
}

/// `watchlist tag` subcommands.
#[derive(Clone, Debug, PartialEq, Eq)]
pub enum WatchlistTagCommands {
    Add { code: String, tag: String },
    Remove { code: String, tag: String },
    List { code: String },
}

} // verus!
