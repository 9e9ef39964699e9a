use volatility_trader::monitor::add_price_to_list;
use volatility_trader::monitor::price_is_constantly_rising;
use volatility_trader::monitor::SymbolTrack;
use volatility_trader::monitor::SymbolsMonitor;
use volatility_trader::monitor::TickerEvent;
use volatility_trader::monitor::VolatilityKey;
use volatility_trader::settings::ConfigOrderBookMonitor;
use volatility_trader::settings::ConfigStruct;
use volatility_trader::settings::ConfigSymbolMonitor;
use volatility_trader::settings::PercentBand;
use volatility_trader::types::Symbol;

// One whole, in fixed-point amount units.
const A: u64 = 100_000_000;

// One percent, in fixed-point percent units.
const P: i128 = 100_000_000;

fn band(min: i128, max: i128) -> PercentBand {
    PercentBand { min, max }
}

fn config() -> ConfigStruct {
    ConfigStruct {
        base_starting_assets: vec![],
        excluded_symbols: vec![],
        excluded_assets: vec![],
        symbol_monitor: ConfigSymbolMonitor {
            symbol_price_list_length: 3,
            symbol_price_trigger_percent_value_rise_min: 0,
            symbol_price_trigger_percent_value_rise_max: 0,
            symbol_price_trigger_percent_value_drop: 0,
            symbol_price_trigger_time_period_secs: 0,
            symbol_price_trigger_count_within_period: 0,
            symbol_price_violatile_check_time_secs: 60,
            symbol_price_violatile_required_count: 3,
            symbol_stat_list_len: 0,
            symbol_stat_list_display_period_secs: 0,
            pre_window_analysis: false,
            pre_window_price_value_rise_min_max_percent: band(0, 0),
            pre_window_price_value_drop_min_max_percent: band(0, 0),
            pre_window_price_value_monitor_min_max_percent: band(0, 0),
            window_price_value_rise_min_max_percent: band(P, 100 * P),
            window_price_value_drop_min_max_percent: band(-100 * P, -P),
            window_price_value_monitor_min_max_percent: band(-100 * P, 100 * P),
            post_window_analysis: false,
            post_window_price_value_rise_min_max_percent: band(0, 0),
            post_window_price_value_drop_min_max_percent: band(0, 0),
            post_window_price_value_monitor_min_max_percent: band(0, 0),
        },
        orderbook_monitor: ConfigOrderBookMonitor {
            allowed_buy_diff_from_symbol_monitor_percent: 2 * P,
            ignore_if_percent_profit_changed_more_than_percent: 5 * P,
            maximum_count_of_profit_changed_ignored_readings: 3,
            use_profits_to_trade: false,
            acceptable_liquidity_count: 0,
            exchange_comission: P / 10,
            absolute_minimal_profit_over_comission: P / 10,
            time_limit_secs: 3600,
            time_limit_requires_profit: true,
            ultimate_time_limit_enabled: false,
            ultimate_time_limit_secs: 0,
            ultimate_time_limit_profit_percent: 0,
            loss_limit_enabled: true,
            loss_limit_percent: 10 * P,
            loss_limit_sudden_drop_to_percent: 5 * P,
            min_profit_percent: P,
            min_profit_crossed_allowed_drop_percent: P / 2,
            good_profit_percent: 3 * P,
            good_profit_crossed_allowed_drop_percent: P,
            currently_trading_reminder_period_secs: 600,
            break_between_trading_same_symbol_secs: 300,
        },
        exchange_info_apis: vec![],
        exchange_info_fetch_delay_secs: 60,
        max_simultaneously_trading_pairs: 2,
        starting_asset_value: 100 * A,
        cmd_dir: String::new(),
        cmd_read_period_secs: 10,
        cmd_stop_and_sell_instantly: String::new(),
    }
}

fn key(seed: u64) -> VolatilityKey {
    VolatilityKey {
        num_trades: seed,
        price_change: seed as i64,
        best_bid: seed,
        best_ask: seed,
        volume: seed,
    }
}

fn event(symbol: &str, bid: u64, seed: u64) -> TickerEvent {
    TickerEvent {
        symbol: Symbol(String::from(symbol)),
        best_bid: bid,
        best_ask: bid + 1,
        volume: seed,
        num_trades: seed,
        price_change: seed as i64,
    }
}

#[test]
fn price_history_drops_oldest_once_full() {
    let cfg = config();
    let list = add_price_to_list(&cfg, vec![], A);
    assert_eq!(list, vec![A]);
    let list = add_price_to_list(&cfg, vec![A, 2 * A, 3 * A], 4 * A);
    assert_eq!(list, vec![2 * A, 3 * A, 4 * A]);
}

#[test]
fn rising_check_matches_sortedness() {
    assert!(price_is_constantly_rising(vec![]));
    assert!(price_is_constantly_rising(vec![A, A, 2 * A]));
    assert!(!price_is_constantly_rising(vec![2 * A, A]));
}

#[test]
fn unchanged_fingerprint_keeps_the_counter() {
    let cfg = config();
    let mut track = SymbolTrack::start(key(1), 100);
    track.step(key(1), A, 110, &cfg);
    assert_eq!(track.variability_count, 1);
    assert_eq!(track.var_window_start, 100);
}

#[test]
fn changed_fingerprint_counts_within_the_window() {
    let cfg = config();
    let mut track = SymbolTrack::start(key(1), 100);
    track.step(key(2), A, 110, &cfg); // 10s later, inside the 60s window
    assert_eq!(track.variability_count, 2);
    track.step(key(3), A, 120, &cfg);
    assert_eq!(track.variability_count, 3);
    assert_eq!(track.var_window_start, 100);
}

#[test]
fn expired_window_resets_the_counter() {
    let cfg = config();
    let mut track = SymbolTrack::start(key(1), 100);
    track.step(key(2), A, 110, &cfg);
    track.step(key(3), A, 200, &cfg); // 100s after the window started
    assert_eq!(track.variability_count, 1);
    assert_eq!(track.var_window_start, 200);
}

#[test]
fn unlisted_symbols_are_ignored() {
    let cfg = config();
    let mut m = SymbolsMonitor::new();
    let valid = vec![Symbol(String::from("AAAUSDT"))];
    let emitted = m.process_tick(&cfg, &valid, &event("ZZZUSDT", 100 * A, 1), 0);
    assert!(emitted.is_none());
    assert_eq!(m.tracks.len(), 0);
}

#[test]
fn volatile_qualifying_symbol_is_emitted() {
    // three ticks with fresh fingerprints fill the three-price history;
    // the main window rises 1%, so the symbol is selected, and the third
    // fingerprint change brings the volatility counter to the required 3
    let cfg = config();
    let mut m = SymbolsMonitor::new();
    let valid = vec![Symbol(String::from("AAAUSDT"))];

    let e1 = m.process_tick(&cfg, &valid, &event("AAAUSDT", 100 * A, 1), 0);
    assert!(e1.is_none());
    let e2 = m.process_tick(&cfg, &valid, &event("AAAUSDT", 101 * A, 2), 1);
    assert!(e2.is_none());
    let e3 = m.process_tick(&cfg, &valid, &event("AAAUSDT", 103 * A, 3), 2);
    let (sym, price) = e3.expect("the volatile qualifying symbol is emitted");
    assert_eq!(sym.0, "AAAUSDT");
    assert_eq!(price, 103 * A);
}

#[test]
fn quiet_symbol_is_not_emitted() {
    // an unchanged fingerprint (which fixes the bid too) never raises the
    // volatility counter, and a flat history never qualifies: no emission
    let cfg = config();
    let mut m = SymbolsMonitor::new();
    let valid = vec![Symbol(String::from("AAAUSDT"))];

    let quiet = event("AAAUSDT", 100 * A, 7);
    m.process_tick(&cfg, &valid, &quiet, 0);
    m.process_tick(&cfg, &valid, &quiet, 1);
    let e3 = m.process_tick(&cfg, &valid, &quiet, 2);
    assert!(e3.is_none());
    assert_eq!(m.tracks[0].1.variability_count, 1);
    assert_eq!(m.symbols_currently_selected_to_monitor.len(), 0);
}

#[test]
fn symbol_that_stops_qualifying_is_evicted() {
    let cfg = config();
    let mut m = SymbolsMonitor::new();
    let valid = vec![Symbol(String::from("AAAUSDT"))];

    m.process_tick(&cfg, &valid, &event("AAAUSDT", 100 * A, 1), 0);
    m.process_tick(&cfg, &valid, &event("AAAUSDT", 101 * A, 2), 1);
    m.process_tick(&cfg, &valid, &event("AAAUSDT", 103 * A, 3), 2);
    assert_eq!(m.symbols_currently_selected_to_monitor.len(), 1);

    // flat prices push the rise out of the window; the symbol is evicted
    m.process_tick(&cfg, &valid, &event("AAAUSDT", 103 * A, 4), 3);
    m.process_tick(&cfg, &valid, &event("AAAUSDT", 103 * A, 5), 4);
    m.process_tick(&cfg, &valid, &event("AAAUSDT", 103 * A, 6), 5);
    assert_eq!(m.symbols_currently_selected_to_monitor.len(), 0);
}
