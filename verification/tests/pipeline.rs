use volatility_trader::execution::ExecutorAction;
use volatility_trader::execution::TradingSymbol;
use volatility_trader::filters::ConstraintSet;
use volatility_trader::monitor::SymbolsMonitor;
use volatility_trader::monitor::TickerEvent;
use volatility_trader::scheduler::Scheduler;
use volatility_trader::settings::ConfigOrderBookMonitor;
use volatility_trader::settings::ConfigStruct;
use volatility_trader::settings::ConfigSymbolMonitor;
use volatility_trader::settings::PercentBand;
use volatility_trader::types::Symbol;
use volatility_trader::types::SymbolAction;

// One whole, in fixed-point amount units.
const A: u64 = 100_000_000;

// One percent, in fixed-point percent units.
const P: i128 = 100_000_000;

fn band(min: i128, max: i128) -> PercentBand {
    PercentBand { min, max }
}

fn config() -> ConfigStruct {
    ConfigStruct {
        base_starting_assets: vec![Symbol(String::from("USDT"))],
        excluded_symbols: vec![],
        excluded_assets: vec![],
        symbol_monitor: ConfigSymbolMonitor {
            symbol_price_list_length: 3,
            symbol_price_trigger_percent_value_rise_min: 0,
            symbol_price_trigger_percent_value_rise_max: 0,
            symbol_price_trigger_percent_value_drop: 0,
            symbol_price_trigger_time_period_secs: 0,
            symbol_price_trigger_count_within_period: 0,
            symbol_price_violatile_check_time_secs: 60,
            symbol_price_violatile_required_count: 2,
            symbol_stat_list_len: 0,
            symbol_stat_list_display_period_secs: 0,
            pre_window_analysis: false,
            pre_window_price_value_rise_min_max_percent: band(0, 0),
            pre_window_price_value_drop_min_max_percent: band(0, 0),
            pre_window_price_value_monitor_min_max_percent: band(0, 0),
            window_price_value_rise_min_max_percent: band(P, 100 * P),
            window_price_value_drop_min_max_percent: band(-100 * P, -P),
            window_price_value_monitor_min_max_percent: band(-100 * P, 100 * P),
            post_window_analysis: false,
            post_window_price_value_rise_min_max_percent: band(0, 0),
            post_window_price_value_drop_min_max_percent: band(0, 0),
            post_window_price_value_monitor_min_max_percent: band(0, 0),
        },
        orderbook_monitor: ConfigOrderBookMonitor {
            allowed_buy_diff_from_symbol_monitor_percent: 5 * P,
            ignore_if_percent_profit_changed_more_than_percent: 50 * P,
            maximum_count_of_profit_changed_ignored_readings: 3,
            use_profits_to_trade: false,
            acceptable_liquidity_count: 0,
            exchange_comission: P / 10,
            absolute_minimal_profit_over_comission: P / 10,
            time_limit_secs: 3600,
            time_limit_requires_profit: true,
            ultimate_time_limit_enabled: false,
            ultimate_time_limit_secs: 0,
            ultimate_time_limit_profit_percent: 0,
            loss_limit_enabled: true,
            loss_limit_percent: 10 * P,
            loss_limit_sudden_drop_to_percent: 5 * P,
            min_profit_percent: P,
            min_profit_crossed_allowed_drop_percent: P / 2,
            good_profit_percent: 3 * P,
            good_profit_crossed_allowed_drop_percent: P,
            currently_trading_reminder_period_secs: 600,
            break_between_trading_same_symbol_secs: 300,
        },
        exchange_info_apis: vec![],
        exchange_info_fetch_delay_secs: 60,
        max_simultaneously_trading_pairs: 1,
        starting_asset_value: 100 * A,
        cmd_dir: String::new(),
        cmd_read_period_secs: 10,
        cmd_stop_and_sell_instantly: String::new(),
    }
}

fn constraints() -> ConstraintSet {
    ConstraintSet {
        price_min: A / 100,
        price_max: 1_000_000 * A,
        price_tick: A / 100,
        percent_price_multi_up: 0,
        percent_price_multi_down: 0,
        percent_price_avg_min: 0,
        qty_min: A / 1000,
        qty_max: 1_000_000 * A,
        qty_step: A / 1000,
        notional_min: 0,
        notional_apply_to_market: false,
        notional_avg_price_mins: 0,
        market_qty_min: 0,
        market_qty_max: 0,
        market_qty_step: 0,
    }
}

fn tick(bid: u64, seed: u64) -> TickerEvent {
    TickerEvent {
        symbol: Symbol(String::from("AAAUSDT")),
        best_bid: bid,
        best_ask: bid + 1,
        volume: seed,
        num_trades: seed,
        price_change: 0,
    }
}

#[test]
fn candidate_flows_from_ticker_to_completed_trade() {
    // classifier: three rising ticks with changing fingerprints make the
    // symbol a volatile candidate at its current price
    let cfg = config();
    let mut monitor = SymbolsMonitor::new();
    let valid = vec![Symbol(String::from("AAAUSDT"))];

    assert!(monitor.process_tick(&cfg, &valid, &tick(100 * A, 1), 0).is_none());
    assert!(monitor.process_tick(&cfg, &valid, &tick(101 * A, 2), 1).is_none());
    let (symbol, price) = monitor
        .process_tick(&cfg, &valid, &tick(103 * A, 3), 2)
        .expect("candidate emitted");

    // scheduler: the candidate is admitted and takes the only capital unit
    let mut scheduler = Scheduler::new(&cfg);
    let unit = scheduler
        .admit_symbol(&symbol, price, 10, &cfg)
        .expect("candidate admitted");
    assert_eq!(unit, 100 * A);
    assert_eq!(scheduler.pool_sum(), 0);

    // worker: enters at the best ask near the candidate price
    let mut ts = TradingSymbol::new(
        Symbol(symbol.0.clone()),
        unit,
        price,
        constraints(),
        SymbolAction::Buy,
        10,
        &cfg,
    );
    let asks = vec![(103 * A, 50 * A)];
    let action = ts.on_depth_update(&asks, &vec![], false, 10, &cfg);
    assert_eq!(action, ExecutorAction::PlaceEntryOrder);
    let bought = unit / 103; // 100 quote at 103.00: about 0.970 base
    ts.on_entry_result(bought, unit, 10);

    // the price runs 5% past the Good trigger and then retraces to it
    let high = 10815 * A / 100;
    let action = ts.on_depth_update(&vec![], &vec![(high, 50 * A)], false, 11, &cfg);
    assert_eq!(action, ExecutorAction::DoNothing);
    let retraced = 107 * A;
    let action = ts.on_depth_update(&vec![], &vec![(retraced, 50 * A)], false, 12, &cfg);
    assert_eq!(action, ExecutorAction::PlaceExitOrder);
    assert_eq!(ts.price, retraced);

    // the exit fill is reported and the capital unit returns with profit
    let received = 103 * A; // sold for 103 quote against 100 spent
    ts.on_exit_result(received);
    assert!(ts.should_report());

    let profit = scheduler.complete(&symbol, ts.qty, ts.used_qty, 20);
    assert_eq!(profit, Some((3 * A) as i128));
    assert_eq!(scheduler.pool_sum(), 100 * A);
}
