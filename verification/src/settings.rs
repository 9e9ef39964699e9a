use vstd::prelude::*;
use crate::amounts::MAX_AMOUNT;
use crate::amounts::MAX_PERCENT;
use crate::amounts::PCT_SCALE;
use crate::types::Symbol;

verus! {

/// One hundred percent, in percent units.
pub const ONE_HUNDRED_PCT: i128 = 10_000_000_000;

/// A closed percent interval `[min, max]` from the configuration.
#[derive(Debug, Clone, Copy)]
pub struct PercentBand {
    pub min: i128,
    pub max: i128,
}

impl PercentBand {
    /// Whether a percent value falls inside the band.
    pub open spec fn spec_contains(&self, v: int) -> bool {
        self.min <= v <= self.max
    }

    /// Bounds that keep band comparisons inside i128 arithmetic.
    pub open spec fn wf(&self) -> bool {
        -MAX_PERCENT <= self.min <= MAX_PERCENT && -MAX_PERCENT <= self.max <= MAX_PERCENT
    }
}

/// Configuration of the volatility / window classifier.
#[derive(Debug, Clone)]
pub struct ConfigSymbolMonitor {
    /// Length N of each symbol's price history; split into three windows.
    pub symbol_price_list_length: usize,
    pub symbol_price_trigger_percent_value_rise_min: i128,
    pub symbol_price_trigger_percent_value_rise_max: i128,
    pub symbol_price_trigger_percent_value_drop: i128,
    pub symbol_price_trigger_time_period_secs: u64,
    pub symbol_price_trigger_count_within_period: i64,
    /// Rolling window, in seconds, within which fingerprint changes count.
    pub symbol_price_violatile_check_time_secs: u64,
    /// Fingerprint changes required before a selected symbol is emitted.
    pub symbol_price_violatile_required_count: u64,
    pub symbol_stat_list_len: u64,
    pub symbol_stat_list_display_period_secs: u64,
    /// Whether the pre window refines a positive main-window result.
    pub pre_window_analysis: bool,
    pub pre_window_price_value_rise_min_max_percent: PercentBand,
    pub pre_window_price_value_drop_min_max_percent: PercentBand,
    pub pre_window_price_value_monitor_min_max_percent: PercentBand,
    pub window_price_value_rise_min_max_percent: PercentBand,
    pub window_price_value_drop_min_max_percent: PercentBand,
    pub window_price_value_monitor_min_max_percent: PercentBand,
    /// Whether the post window refines a positive main-window result.
    pub post_window_analysis: bool,
    pub post_window_price_value_rise_min_max_percent: PercentBand,
    pub post_window_price_value_drop_min_max_percent: PercentBand,
    pub post_window_price_value_monitor_min_max_percent: PercentBand,
}

impl ConfigSymbolMonitor {
    pub open spec fn wf(&self) -> bool {
        &&& 3 <= self.symbol_price_list_length
        &&& self.pre_window_price_value_rise_min_max_percent.wf()
        &&& self.pre_window_price_value_drop_min_max_percent.wf()
        &&& self.pre_window_price_value_monitor_min_max_percent.wf()
        &&& self.window_price_value_rise_min_max_percent.wf()
        &&& self.window_price_value_drop_min_max_percent.wf()
        &&& self.window_price_value_monitor_min_max_percent.wf()
        &&& self.post_window_price_value_rise_min_max_percent.wf()
        &&& self.post_window_price_value_drop_min_max_percent.wf()
        &&& self.post_window_price_value_monitor_min_max_percent.wf()
    }
}

/// Configuration of the per-position execution state machine.
#[derive(Debug, Clone)]
pub struct ConfigOrderBookMonitor {
    /// Largest allowed spread between the monitored candidate price and the
    /// entry price, in percent units.
    pub allowed_buy_diff_from_symbol_monitor_percent: i128,
    /// Profit readings that jump more than this are noise-filtered.
    pub ignore_if_percent_profit_changed_more_than_percent: i128,
    /// How many consecutive jumpy readings may be ignored.
    pub maximum_count_of_profit_changed_ignored_readings: u64,
    pub use_profits_to_trade: bool,
    pub acceptable_liquidity_count: u64,
    /// Exchange commission, in percent units.
    pub exchange_comission: i128,
    /// Margin over the commission that counts as the absolute minimal
    /// profit, in percent units.
    pub absolute_minimal_profit_over_comission: i128,
    /// Holding-time limit before timeout exits are considered.
    pub time_limit_secs: u64,
    /// Whether a timeout exit still demands some profit.
    pub time_limit_requires_profit: bool,
    pub ultimate_time_limit_enabled: bool,
    pub ultimate_time_limit_secs: u64,
    pub ultimate_time_limit_profit_percent: i128,
    /// Whether the loss limiter may force an exit.
    pub loss_limit_enabled: bool,
    /// Loss magnitude, in percent units, at which an exit is forced.
    pub loss_limit_percent: i128,
    /// Loss magnitude, in percent units, that marks a sudden drop.
    pub loss_limit_sudden_drop_to_percent: i128,
    /// Profit percent that sets the Minimal tier.
    pub min_profit_percent: i128,
    /// Retrace from the Minimal high-water mark that triggers an exit.
    pub min_profit_crossed_allowed_drop_percent: i128,
    /// Profit percent that sets the Good tier.
    pub good_profit_percent: i128,
    /// Retrace from the Good high-water mark that triggers an exit.
    pub good_profit_crossed_allowed_drop_percent: i128,
    pub currently_trading_reminder_period_secs: u64,
    /// Cooldown before the same symbol may be admitted again.
    pub break_between_trading_same_symbol_secs: u64,
}

impl ConfigOrderBookMonitor {
    pub open spec fn wf(&self) -> bool {
        &&& 0 <= self.exchange_comission <= ONE_HUNDRED_PCT
        &&& 0 <= self.absolute_minimal_profit_over_comission <= ONE_HUNDRED_PCT
        &&& 0 <= self.min_profit_percent <= ONE_HUNDRED_PCT
        &&& 0 <= self.good_profit_percent <= ONE_HUNDRED_PCT
        &&& 0 <= self.allowed_buy_diff_from_symbol_monitor_percent <= MAX_PERCENT
        &&& 0 <= self.ignore_if_percent_profit_changed_more_than_percent <= MAX_PERCENT
        &&& 0 <= self.min_profit_crossed_allowed_drop_percent <= MAX_PERCENT
        &&& 0 <= self.good_profit_crossed_allowed_drop_percent <= MAX_PERCENT
        &&& 0 <= self.loss_limit_percent <= MAX_PERCENT
        &&& 0 <= self.loss_limit_sudden_drop_to_percent <= MAX_PERCENT
        &&& 0 <= self.ultimate_time_limit_profit_percent <= MAX_PERCENT
        &&& self.maximum_count_of_profit_changed_ignored_readings < 1000000000000000000
    }
}

/// Whole configuration of the trading agent.
#[derive(Debug, Clone)]
pub struct ConfigStruct {
    pub base_starting_assets: Vec<Symbol>,
    pub excluded_symbols: Vec<Symbol>,
    pub excluded_assets: Vec<String>,
    pub symbol_monitor: ConfigSymbolMonitor,
    pub orderbook_monitor: ConfigOrderBookMonitor,
    pub exchange_info_apis: Vec<String>,
    pub exchange_info_fetch_delay_secs: u64,
    /// Number of capital units in the pool.
    pub max_simultaneously_trading_pairs: u64,
    /// Value of one capital unit, in amount units.
    pub starting_asset_value: u64,
    pub cmd_dir: String,
    pub cmd_read_period_secs: u64,
    pub cmd_stop_and_sell_instantly: String,
}

impl ConfigStruct {
    pub open spec fn wf(&self) -> bool {
        &&& self.symbol_monitor.wf()
        &&& self.orderbook_monitor.wf()
        &&& 1 <= self.starting_asset_value <= MAX_AMOUNT
        &&& self.max_simultaneously_trading_pairs <= 1000000000
        &&& self.max_simultaneously_trading_pairs * self.starting_asset_value <= MAX_AMOUNT
    }
}

} // verus!
