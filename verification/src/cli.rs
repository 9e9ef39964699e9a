use vstd::prelude::*;
use crate::types::TradingMode;

verus! {

/// Decides the trading mode from the command line's real-trading flag:
/// simulation unless real trading was explicitly requested.
pub fn determine_bot_trading_mode(real_trading_actions: bool) -> (r: TradingMode)
    ensures
        r == TradingMode::RealTrading <==> real_trading_actions,
{
    let mut trading_mode = TradingMode::Simulation;

    if real_trading_actions {
        trading_mode = TradingMode::RealTrading;
    }

    trading_mode
}

} // verus!
