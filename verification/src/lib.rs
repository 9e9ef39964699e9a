//! An automated spot-trading agent's core, verified: a volatility/window
//! classifier that turns a ticker stream into trade candidates, a scheduler
//! that allocates a fixed capital pool under admission control, and a
//! per-symbol order-execution state machine driving a position from entry
//! to exit under profit tiers, trailing drops, loss limits and time limits.
//! Prices, quantities and percents are fixed-point integers; the
//! application around the library owns all transport and timing and feeds
//! the state machines plain values.

use vstd::prelude::*;

pub mod amounts;
pub mod calc;
pub mod cli;
pub mod exchange_info;
pub mod execution;
pub mod filters;
pub mod json;
pub mod monitor;
pub mod orders;
pub mod scheduler;
pub mod settings;
pub mod prices;
pub mod types;
pub mod window;

pub use types::Asset;
pub use types::BaseAsset;
pub use types::CurrentTradingProfit;
pub use types::EmptyAsset;
pub use types::KlineSignal;
pub use types::OrderBookCmd;
pub use types::QuoteAsset;
pub use types::ReadMarketDepthNow;
pub use types::SendToTradeDecision;
pub use types::Symbol;
pub use types::SymbolAction;
pub use types::Trading;
pub use types::TradingDecision;
pub use types::TradingMode;
pub use types::TradingNextStep;
pub use types::reverse_symbol_action;

verus! {

} // verus!
