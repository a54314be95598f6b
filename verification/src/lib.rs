//! Verified core of a trading bot: counters for log ids, transaction-log
//! bookkeeping, arbitrage path search and the decisions of the trading loop.

pub mod db;
pub mod trade;
pub mod utils;
pub mod arbitrage;
pub mod config;
pub mod token;
pub mod error_manager;
pub mod main_loop;
pub mod decimal;
pub mod backtest;
pub mod number_text;
