use volatility_trader::calc::calculate_exit_qty;
use volatility_trader::execution::_symbol_action_qty_price_posibility;
use volatility_trader::execution::check_current_profit_percent;
use volatility_trader::execution::qty_times_price;
use volatility_trader::execution::ExecutorAction;
use volatility_trader::execution::OrderBookSync;
use volatility_trader::execution::TradingSymbol;
use volatility_trader::filters::ConstraintSet;
use volatility_trader::settings::ConfigOrderBookMonitor;
use volatility_trader::settings::ConfigStruct;
use volatility_trader::settings::ConfigSymbolMonitor;
use volatility_trader::settings::PercentBand;
use volatility_trader::types::CurrentTradingProfit;
use volatility_trader::types::ReadMarketDepthNow;
use volatility_trader::types::Symbol;
use volatility_trader::types::SymbolAction;
use volatility_trader::types::TradingDecision;
use volatility_trader::types::TradingNextStep;

// One whole, in fixed-point amount units.
const A: u64 = 100_000_000;

// One percent, in fixed-point percent units.
const P: i128 = 100_000_000;

fn band(min: i128, max: i128) -> PercentBand {
    PercentBand { min, max }
}

fn constraints() -> ConstraintSet {
    ConstraintSet {
        price_min: A / 100,
        price_max: 1_000_000 * A,
        price_tick: A / 100,
        percent_price_multi_up: 0,
        percent_price_multi_down: 0,
        percent_price_avg_min: 0,
        qty_min: A / 1000,
        qty_max: 1_000_000 * A,
        qty_step: A / 1000,
        notional_min: 0,
        notional_apply_to_market: false,
        notional_avg_price_mins: 0,
        market_qty_min: 0,
        market_qty_max: 0,
        market_qty_step: 0,
    }
}

fn config() -> ConfigStruct {
    ConfigStruct {
        base_starting_assets: vec![],
        excluded_symbols: vec![],
        excluded_assets: vec![],
        symbol_monitor: ConfigSymbolMonitor {
            symbol_price_list_length: 9,
            symbol_price_trigger_percent_value_rise_min: 0,
            symbol_price_trigger_percent_value_rise_max: 0,
            symbol_price_trigger_percent_value_drop: 0,
            symbol_price_trigger_time_period_secs: 0,
            symbol_price_trigger_count_within_period: 0,
            symbol_price_violatile_check_time_secs: 60,
            symbol_price_violatile_required_count: 3,
            symbol_stat_list_len: 0,
            symbol_stat_list_display_period_secs: 0,
            pre_window_analysis: false,
            pre_window_price_value_rise_min_max_percent: band(0, 0),
            pre_window_price_value_drop_min_max_percent: band(0, 0),
            pre_window_price_value_monitor_min_max_percent: band(0, 0),
            window_price_value_rise_min_max_percent: band(P, 100 * P),
            window_price_value_drop_min_max_percent: band(-100 * P, -P),
            window_price_value_monitor_min_max_percent: band(-100 * P, 100 * P),
            post_window_analysis: false,
            post_window_price_value_rise_min_max_percent: band(0, 0),
            post_window_price_value_drop_min_max_percent: band(0, 0),
            post_window_price_value_monitor_min_max_percent: band(0, 0),
        },
        orderbook_monitor: ConfigOrderBookMonitor {
            allowed_buy_diff_from_symbol_monitor_percent: 2 * P,
            ignore_if_percent_profit_changed_more_than_percent: 5 * P,
            maximum_count_of_profit_changed_ignored_readings: 3,
            use_profits_to_trade: false,
            acceptable_liquidity_count: 0,
            exchange_comission: P / 10,
            absolute_minimal_profit_over_comission: P / 10,
            time_limit_secs: 3600,
            time_limit_requires_profit: true,
            ultimate_time_limit_enabled: false,
            ultimate_time_limit_secs: 0,
            ultimate_time_limit_profit_percent: 0,
            loss_limit_enabled: true,
            loss_limit_percent: 10 * P,
            loss_limit_sudden_drop_to_percent: 5 * P,
            min_profit_percent: P,
            min_profit_crossed_allowed_drop_percent: P / 2,
            good_profit_percent: 3 * P,
            good_profit_crossed_allowed_drop_percent: P,
            currently_trading_reminder_period_secs: 600,
            break_between_trading_same_symbol_secs: 300,
        },
        exchange_info_apis: vec![],
        exchange_info_fetch_delay_secs: 60,
        max_simultaneously_trading_pairs: 2,
        starting_asset_value: 100 * A,
        cmd_dir: String::new(),
        cmd_read_period_secs: 10,
        cmd_stop_and_sell_instantly: String::new(),
    }
}

fn fresh(cfg: &ConfigStruct) -> TradingSymbol {
    TradingSymbol::new(
        Symbol(String::from("AAAUSDT")),
        100 * A, // quote budget
        10 * A,  // monitored candidate price
        constraints(),
        SymbolAction::Buy,
        0,
        cfg,
    )
}

#[test]
fn join_scan_takes_the_first_covering_ask() {
    let cfg = config();
    let mut ts = fresh(&cfg);
    // best ask 10.00 with 50 base on offer; the 100 quote budget buys 10 base
    let asks = vec![(10 * A, 50 * A)];
    ts.join_scan(&asks, &cfg);
    assert_eq!(ts.trade_decision, TradingDecision::Start);
    assert_eq!(ts.qty, 10 * A);
    assert_eq!(ts.price, 10 * A);
}

#[test]
fn join_scan_skips_a_thin_best_ask() {
    let cfg = config();
    let mut ts = fresh(&cfg);
    // the best ask offers too little; the next one covers the buy
    let asks = vec![(10 * A, A), (1005 * A / 100, 60 * A)];
    ts.join_scan(&asks, &cfg);
    assert_eq!(ts.trade_decision, TradingDecision::Start);
    assert_eq!(ts.price, 1005 * A / 100);
}

#[test]
fn join_scan_declines_a_wide_spread() {
    let cfg = config();
    let mut ts = fresh(&cfg);
    // entry at 11.00 deviates 10% from the monitored 10.00; allowed is 2%
    let asks = vec![(11 * A, 50 * A)];
    ts.join_scan(&asks, &cfg);
    assert_eq!(ts.trade_decision, TradingDecision::Decline);
}

#[test]
fn profit_prices_come_from_the_configured_percents() {
    let cfg = config();
    let mut ts = fresh(&cfg);
    ts.join_scan(&vec![(10 * A, 50 * A)], &cfg);
    ts.prepare_profit_prices(&cfg);
    assert_eq!(ts.min_profit_price, 101 * A / 10); // 10.10 at +1%
    assert_eq!(ts.good_profit_price, 103 * A / 10); // 10.30 at +3%
    assert_eq!(ts.trade_decision, TradingDecision::Continue);
}

#[test]
fn entry_fill_moves_the_position_to_leave() {
    let cfg = config();
    let mut ts = fresh(&cfg);
    ts.join_scan(&vec![(10 * A, 50 * A)], &cfg);
    ts.prepare_profit_prices(&cfg);
    ts.on_entry_result(10 * A, 100 * A, 42);
    assert_eq!(ts.trading_next_step, TradingNextStep::Leave);
    assert_eq!(ts.current_symbol_action, SymbolAction::Sell);
    assert_eq!(ts.qty, 10 * A);
    assert_eq!(ts.used_qty, 100 * A);
    assert_eq!(ts.trading_started, 42);
}

#[test]
fn zero_fill_stops_the_position() {
    let cfg = config();
    let mut ts = fresh(&cfg);
    ts.join_scan(&vec![(10 * A, 50 * A)], &cfg);
    ts.prepare_profit_prices(&cfg);
    ts.on_entry_result(0, 0, 42);
    assert_eq!(ts.trade_decision, TradingDecision::Stop);
    assert!(ts.should_report());
}

#[test]
fn profit_percent_is_measured_against_the_quote_spent() {
    let cfg = config();
    let mut ts = fresh(&cfg);
    ts.join_scan(&vec![(10 * A, 50 * A)], &cfg);
    ts.prepare_profit_prices(&cfg);
    ts.on_entry_result(10 * A, 100 * A, 42);
    // selling 10 base at bid 11.00 brings 110 quote for 100 spent: +10%
    let pct = check_current_profit_percent(ts, 0, 0, 0, 11 * A);
    assert_eq!(pct, 10 * P);
}

#[test]
fn notional_products_are_exact() {
    assert_eq!(qty_times_price(10 * A, 11 * A), Some(110 * A));
    assert_eq!(qty_times_price(0, 11 * A), Some(0));
}

#[test]
fn tiers_rise_and_never_fall_from_good() {
    let cfg = config();
    let mut ts = fresh(&cfg);
    ts.join_scan(&vec![(10 * A, 50 * A)], &cfg);
    ts.prepare_profit_prices(&cfg);
    ts.on_entry_result(10 * A, 100 * A, 42);

    ts.set_profit_tiers(102 * A / 10); // 10.20 crosses min (10.10)
    assert_eq!(ts.current_trading_profit, CurrentTradingProfit::MinimalProfit);
    assert_eq!(ts.highest_price_since_min_profit, 102 * A / 10);

    ts.set_profit_tiers(104 * A / 10); // 10.40 crosses good (10.30)
    assert_eq!(ts.current_trading_profit, CurrentTradingProfit::GoodProfit);
    assert_eq!(ts.highest_price_since_good_profit, 104 * A / 10);

    // once Good is reached the tier never reverts to Minimal or unreached
    ts.set_profit_tiers(5 * A);
    assert_eq!(ts.current_trading_profit, CurrentTradingProfit::GoodProfit);
}

#[test]
fn good_tier_trailing_drop_fires_an_exit() {
    let cfg = config();
    let mut ts = fresh(&cfg);
    ts.join_scan(&vec![(10 * A, 50 * A)], &cfg);
    ts.prepare_profit_prices(&cfg);
    ts.on_entry_result(10 * A, 100 * A, 42);
    ts.set_profit_tiers(105 * A / 10); // Good, high water 10.50

    // 10.35 retraces 1.44% from 10.50, over the allowed 1%, still >= 10.30
    let exit = ts.check_trailing_exit(1035 * A / 100, &cfg);
    assert!(exit);
    assert!(ts.finish_trading_now);
    assert_eq!(ts.price, 1035 * A / 100);
    // exit qty: 10 less the 0.1% commission, on the 0.001 step
    assert_eq!(ts.qty, 999 * A / 100);
}

#[test]
fn small_retrace_keeps_holding() {
    let cfg = config();
    let mut ts = fresh(&cfg);
    ts.join_scan(&vec![(10 * A, 50 * A)], &cfg);
    ts.prepare_profit_prices(&cfg);
    ts.on_entry_result(10 * A, 100 * A, 42);
    ts.set_profit_tiers(105 * A / 10);

    // 10.45 retraces only 0.47% from 10.50
    let exit = ts.check_trailing_exit(1045 * A / 100, &cfg);
    assert!(!exit);
    assert!(!ts.finish_trading_now);
}

#[test]
fn noise_filter_skips_jumpy_readings_then_accepts_a_baseline() {
    let cfg = config();
    let mut ts = fresh(&cfg);
    ts.join_scan(&vec![(10 * A, 50 * A)], &cfg);
    ts.prepare_profit_prices(&cfg);
    ts.on_entry_result(10 * A, 100 * A, 42);

    // first nonzero reading becomes the baseline
    assert_eq!(ts.apply_profit_noise_filter(2 * P, &cfg), ReadMarketDepthNow::YES);
    assert_eq!(ts.previous_profit_percent, 2 * P);

    // a jump of 8 points is ignored, up to 4 consecutive readings
    for _ in 0..4 {
        assert_eq!(ts.apply_profit_noise_filter(10 * P, &cfg), ReadMarketDepthNow::NO);
    }
    // the next jumpy reading becomes the new baseline
    assert_eq!(ts.apply_profit_noise_filter(10 * P, &cfg), ReadMarketDepthNow::YES);
    assert_eq!(ts.previous_profit_percent, 10 * P);
    assert_eq!(ts.previous_profit_large_change_count, 0);
}

#[test]
fn loss_limit_marks_then_forces_an_exit() {
    let cfg = config();
    let mut ts = fresh(&cfg);
    ts.join_scan(&vec![(10 * A, 50 * A)], &cfg);
    ts.prepare_profit_prices(&cfg);
    ts.on_entry_result(10 * A, 100 * A, 42);

    // a 6% loss exceeds the 5% sudden-drop mark but not the 10% limit
    ts.current_profit_percent = -6 * P;
    let exit = ts.apply_loss_limit(94 * A / 10, &cfg);
    assert!(!exit);
    assert_eq!(ts.current_trading_profit, CurrentTradingProfit::LossTooLarge);
    assert!(ts.loss_too_large_displayed);

    // a 12% loss in the marked state forces the exit
    ts.current_profit_percent = -12 * P;
    let exit = ts.apply_loss_limit(88 * A / 10, &cfg);
    assert!(exit);
    assert!(ts.finish_trading_now);
}

#[test]
fn timeout_exit_permitted_with_minimal_tier_at_trigger() {
    // holding time at the limit, tier Minimal, price at or above the
    // Minimal trigger, profit required: the exit is permitted
    let cfg = config();
    let mut ts = fresh(&cfg);
    ts.join_scan(&vec![(10 * A, 50 * A)], &cfg);
    ts.prepare_profit_prices(&cfg);
    ts.on_entry_result(10 * A, 100 * A, 0);
    ts.set_profit_tiers(102 * A / 10);
    ts.best_price_now = 102 * A / 10;

    let exit = ts.check_timeout_exit(3600, false, &cfg);
    assert!(exit);
    assert!(ts.soft_timeout_trading);
    assert_eq!(ts.price, 102 * A / 10);
}

#[test]
fn timeout_exit_withheld_without_profit_sets_the_soft_flag() {
    // same holding time but no tier reached and profit required: the exit
    // is withheld and the soft-timeout flag set
    let cfg = config();
    let mut ts = fresh(&cfg);
    ts.join_scan(&vec![(10 * A, 50 * A)], &cfg);
    ts.prepare_profit_prices(&cfg);
    ts.on_entry_result(10 * A, 100 * A, 0);
    ts.best_price_now = 10 * A;

    let exit = ts.check_timeout_exit(3600, false, &cfg);
    assert!(!exit);
    assert!(ts.soft_timeout_trading);
    assert_eq!(ts.trade_decision, TradingDecision::Continue);
}

#[test]
fn exit_qty_subtracts_commission_and_normalizes() {
    let cfg = config();
    let mut ts = fresh(&cfg);
    ts.join_scan(&vec![(10 * A, 50 * A)], &cfg);
    ts.prepare_profit_prices(&cfg);
    ts.on_entry_result(10 * A, 100 * A, 0);
    // 10 base less the 0.1% commission is 9.99 on the 0.001 step
    assert_eq!(calculate_exit_qty(&cfg, &ts), Some(999 * A / 100));
}

#[test]
fn depth_step_runs_entry_then_liquidates_on_command() {
    let cfg = config();
    let mut ts = fresh(&cfg);

    // entry event
    let asks = vec![(10 * A, 50 * A)];
    let bids: Vec<(u64, u64)> = vec![];
    let action = ts.on_depth_update(&asks, &bids, false, 1, &cfg);
    assert_eq!(action, ExecutorAction::PlaceEntryOrder);
    ts.on_entry_result(10 * A, 100 * A, 1);

    // liquidate command with a usable bid forces the exit at that bid,
    // with the post-commission quantity, irrespective of tier and time
    let bids = vec![(101 * A / 10, 40 * A)];
    let action = ts.on_depth_update(&vec![], &bids, true, 2, &cfg);
    assert_eq!(action, ExecutorAction::PlaceExitOrder);
    assert_eq!(ts.price, 101 * A / 10);
    assert_eq!(ts.qty, 999 * A / 100); // 10 base less the 0.1% commission
    assert!(ts.finish_trading_now);

    ts.on_exit_result(1009 * A / 10);
    assert_eq!(ts.trade_decision, TradingDecision::Stop);
    assert!(ts.should_report());
}

#[test]
fn loss_limit_fires_through_the_depth_step() {
    let cfg = config();
    let mut ts = fresh(&cfg);
    let action = ts.on_depth_update(&vec![(10 * A, 50 * A)], &vec![], false, 1, &cfg);
    assert_eq!(action, ExecutorAction::PlaceEntryOrder);
    ts.on_entry_result(10 * A, 100 * A, 1);

    // the bid falls to 9.30: a 7% loss passes the 5% sudden-drop mark and
    // marks the loss state, but stays under the 10% limit
    let action = ts.on_depth_update(&vec![], &vec![(93 * A / 10, 50 * A)], false, 2, &cfg);
    assert_eq!(action, ExecutorAction::DoNothing);
    assert_eq!(ts.current_trading_profit, CurrentTradingProfit::LossTooLarge);
    assert!(ts.loss_too_large_displayed);

    // the bid falls to 8.90: an 11% loss in the marked state forces the
    // exit regardless of tier
    let action = ts.on_depth_update(&vec![], &vec![(89 * A / 10, 50 * A)], false, 3, &cfg);
    assert_eq!(action, ExecutorAction::PlaceExitOrder);
    assert_eq!(ts.price, 89 * A / 10);
    assert_eq!(ts.qty, 999 * A / 100);
    assert!(ts.finish_trading_now);
}

#[test]
fn liquidate_while_joining_declines() {
    let cfg = config();
    let mut ts = fresh(&cfg);
    let action = ts.on_depth_update(&vec![(10 * A, 50 * A)], &vec![], true, 1, &cfg);
    assert_eq!(action, ExecutorAction::DoNothing);
    assert_eq!(ts.trade_decision, TradingDecision::Decline);
}

#[test]
fn order_possibility_probe_covers_both_sides() {
    let cfg = config();
    let mut ts = fresh(&cfg);

    // joining with a buy: the 100 quote budget buys 10 base at the ask
    let asks = vec![(10 * A, 50 * A)];
    let bids = vec![(99 * A / 10, 200 * A)];
    let buy = _symbol_action_qty_price_posibility(ts.clone(), asks.clone(), bids.clone());
    assert_eq!(buy, Some((10 * A, 10 * A)));

    // the probe reverses the default action once the phase is Leave:
    // 10 held base sell for a 99 quote notional at the 9.90 bid, whose 200
    // on offer covers it
    ts.trading_next_step = TradingNextStep::Leave;
    ts.qty = 10 * A;
    let sale = _symbol_action_qty_price_posibility(ts, asks, bids);
    assert_eq!(sale, Some((99 * A, 99 * A / 10)));
}

#[test]
fn orderbook_sync_applies_only_contiguous_updates() {
    let mut sync = OrderBookSync::new(100);
    assert!(!sync.accept_update(100, 105)); // overlaps the snapshot
    assert!(sync.accept_update(101, 105));
    assert_eq!(sync.last_update_id, 105);
    assert!(!sync.accept_update(105, 108)); // replay
    assert!(!sync.accept_update(107, 110)); // gap
    assert!(sync.accept_update(106, 110));
    assert_eq!(sync.last_update_id, 110);
}
