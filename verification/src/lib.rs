//! Decision, validation and formatting logic of the quantix A-share trading
//! CLI: the command tree, the rules that accept or refuse each command's
//! arguments, and the text that each report prints.
pub mod account;
pub mod ai;
pub mod algo;
pub mod analysis;
pub mod audit_json;
pub mod backtest;
pub mod commands;
pub mod data_sources;
pub mod dates;
pub mod decimal;
pub mod error;
pub mod execution;
pub mod factor;
pub mod fundamental;
pub mod import;
pub mod init;
pub mod json_doc;
pub mod market;
pub mod market_output;
pub mod monitor;
pub mod probe;
pub mod qmt_audit;
pub mod qmt_live;
pub mod screener;
pub mod tasks;
pub mod text;
pub mod trade;
pub mod watchlist;
