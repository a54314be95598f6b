pub mod abstract_trader;
pub mod arbitrage_trader;
pub mod db_handler;
pub mod derivative_trader;
pub mod dex_emulator;
pub mod forecast_trader;
pub mod price_history;
pub mod trade_position;
pub mod transaction_log;
pub mod fund_config;
pub mod fund_manager;
pub mod trend_value;
pub mod trader_config;

pub use abstract_trader::{find_index, Operation};
pub use derivative_trader::SampleInterval;
pub use forecast_trader::TradingPeriod;
pub use transaction_log::{AppState, TransactionLog};
pub use trend_value::{Trend, TrendState};
