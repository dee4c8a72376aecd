//! The command tree of the CLI as plain data: one enum per command family.
//! Parsing the command line into these values is the front end's job.
pub mod account;
pub mod analysis;
pub mod backtest;
pub mod data;
pub mod factor;
pub mod info;
pub mod market;
pub mod monitor;
pub mod performance;
pub mod risk;
pub mod safety;
pub mod strategy;
pub mod trade;
