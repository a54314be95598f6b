pub mod arbitrage;
pub mod price_history;

pub use arbitrage::find_index;
pub use price_history::TradingStrategy;
