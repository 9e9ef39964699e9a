use volatility_trader::amounts::amount_diff_rounded;
use volatility_trader::amounts::round_percent_to_hundredth;
use volatility_trader::cli::determine_bot_trading_mode;
use volatility_trader::exchange_info::exchange_info_response_usable;
use volatility_trader::exchange_info::randomly_select_api_address;
use volatility_trader::exchange_info::update_symbols_and_filters_list;
use volatility_trader::exchange_info::ExchangeSymbolRecord;
use volatility_trader::filters::FilterRecord;
use volatility_trader::filters::FilterType;
use volatility_trader::filters::FiltersParser;
use volatility_trader::orders::buy_order_poll_decision;
use volatility_trader::orders::order_placement_decision;
use volatility_trader::orders::OrderPlacementOutcome;
use volatility_trader::orders::SupervisorAction;
use volatility_trader::orders::sell_order_poll_decision;
use volatility_trader::orders::simulated_fill;
use volatility_trader::orders::BuyPollAction;
use volatility_trader::orders::OrderStatus;
use volatility_trader::orders::SellPollAction;
use volatility_trader::reverse_symbol_action;
use volatility_trader::settings::ConfigOrderBookMonitor;
use volatility_trader::settings::ConfigStruct;
use volatility_trader::settings::ConfigSymbolMonitor;
use volatility_trader::settings::PercentBand;
use volatility_trader::types::Asset;
use volatility_trader::types::BaseAsset;
use volatility_trader::types::QuoteAsset;
use volatility_trader::types::Symbol;
use volatility_trader::types::SymbolAction;
use volatility_trader::types::TradingMode;

// One whole, in fixed-point amount units.
const A: u64 = 100_000_000;

// One percent, in fixed-point percent units.
const P: i128 = 100_000_000;

fn band(min: i128, max: i128) -> PercentBand {
    PercentBand { min, max }
}

fn config() -> ConfigStruct {
    ConfigStruct {
        base_starting_assets: vec![Symbol(String::from("USDT"))],
        excluded_symbols: vec![Symbol(String::from("BADUSDT"))],
        excluded_assets: vec![String::from("SPAM")],
        symbol_monitor: ConfigSymbolMonitor {
            symbol_price_list_length: 9,
            symbol_price_trigger_percent_value_rise_min: 0,
            symbol_price_trigger_percent_value_rise_max: 0,
            symbol_price_trigger_percent_value_drop: 0,
            symbol_price_trigger_time_period_secs: 0,
            symbol_price_trigger_count_within_period: 0,
            symbol_price_violatile_check_time_secs: 60,
            symbol_price_violatile_required_count: 3,
            symbol_stat_list_len: 0,
            symbol_stat_list_display_period_secs: 0,
            pre_window_analysis: false,
            pre_window_price_value_rise_min_max_percent: band(0, 0),
            pre_window_price_value_drop_min_max_percent: band(0, 0),
            pre_window_price_value_monitor_min_max_percent: band(0, 0),
            window_price_value_rise_min_max_percent: band(P, 100 * P),
            window_price_value_drop_min_max_percent: band(-100 * P, -P),
            window_price_value_monitor_min_max_percent: band(-100 * P, 100 * P),
            post_window_analysis: false,
            post_window_price_value_rise_min_max_percent: band(0, 0),
            post_window_price_value_drop_min_max_percent: band(0, 0),
            post_window_price_value_monitor_min_max_percent: band(0, 0),
        },
        orderbook_monitor: ConfigOrderBookMonitor {
            allowed_buy_diff_from_symbol_monitor_percent: 2 * P,
            ignore_if_percent_profit_changed_more_than_percent: 5 * P,
            maximum_count_of_profit_changed_ignored_readings: 3,
            use_profits_to_trade: false,
            acceptable_liquidity_count: 0,
            exchange_comission: P / 10,
            absolute_minimal_profit_over_comission: P / 10,
            time_limit_secs: 3600,
            time_limit_requires_profit: true,
            ultimate_time_limit_enabled: false,
            ultimate_time_limit_secs: 0,
            ultimate_time_limit_profit_percent: 0,
            loss_limit_enabled: true,
            loss_limit_percent: 10 * P,
            loss_limit_sudden_drop_to_percent: 5 * P,
            min_profit_percent: P,
            min_profit_crossed_allowed_drop_percent: P / 2,
            good_profit_percent: 3 * P,
            good_profit_crossed_allowed_drop_percent: P,
            currently_trading_reminder_period_secs: 600,
            break_between_trading_same_symbol_secs: 300,
        },
        exchange_info_apis: vec![],
        exchange_info_fetch_delay_secs: 60,
        max_simultaneously_trading_pairs: 2,
        starting_asset_value: 100 * A,
        cmd_dir: String::new(),
        cmd_read_period_secs: 10,
        cmd_stop_and_sell_instantly: String::new(),
    }
}

fn price_filter() -> FilterRecord {
    FilterRecord {
        filter_type: FilterType::PriceFilter,
        min_price: Some(A / 100),
        max_price: Some(1_000_000 * A),
        tick_size: Some(A / 100),
        multiplier_up: None,
        multiplier_down: None,
        avg_price_mins: None,
        min_qty: None,
        max_qty: None,
        step_size: None,
        min_notional: None,
        apply_to_market: None,
    }
}

fn lot_filter() -> FilterRecord {
    FilterRecord {
        filter_type: FilterType::LotSize,
        min_price: None,
        max_price: None,
        tick_size: None,
        multiplier_up: None,
        multiplier_down: None,
        avg_price_mins: None,
        min_qty: Some(A / 1000),
        max_qty: Some(1_000_000 * A),
        step_size: Some(A / 1000),
        min_notional: None,
        apply_to_market: None,
    }
}

fn record(symbol: &str, status: &str, base: &str, quote: &str, spot: bool) -> ExchangeSymbolRecord {
    ExchangeSymbolRecord {
        symbol: String::from(symbol),
        status: String::from(status),
        base_asset: String::from(base),
        quote_asset: String::from(quote),
        permissions: if spot {
            vec![String::from("MARGIN"), String::from("SPOT")]
        } else {
            vec![String::from("MARGIN")]
        },
        filters: vec![price_filter(), lot_filter()],
    }
}

#[test]
fn filters_parse_into_a_constraint_set() {
    let parser = FiltersParser::new(&vec![price_filter(), lot_filter()]);
    assert_eq!(parser.min_price, A / 100);
    assert_eq!(parser.max_price, 1_000_000 * A);
    assert_eq!(parser.tick_size, A / 100);
    assert_eq!(parser.lot_min_qty, A / 1000);
    assert_eq!(parser.lot_step_size, A / 1000);
    // fields no record carries stay zero
    assert_eq!(parser.min_notional_min, 0);

    let c = parser.constraints();
    assert_eq!(c.price_tick, A / 100);
    assert_eq!(c.qty_step, A / 1000);
}

#[test]
fn later_filter_records_overwrite_earlier_ones() {
    let mut second = price_filter();
    second.tick_size = Some(A / 1000);
    second.min_price = None;
    let parser = FiltersParser::new(&vec![price_filter(), second]);
    assert_eq!(parser.tick_size, A / 1000);
    assert_eq!(parser.min_price, A / 100); // kept from the first record
}

#[test]
fn metadata_selects_spot_trading_pairs() {
    let cfg = config();
    let records = vec![
        record("AAAUSDT", "TRADING", "AAA", "USDT", true),
        record("BBBUSDT", "TRADING", "BBB", "USDT", false), // not spot
        record("BADUSDT", "TRADING", "BAD", "USDT", true),  // excluded symbol
        record("SPAMUSDT", "TRADING", "SPAM", "USDT", true), // excluded asset
        record("CCCUSDT", "BREAK", "CCC", "USDT", true),    // not trading
        record("DDDEUR", "TRADING", "DDD", "EUR", true),    // no starting asset
    ];
    let snapshot = update_symbols_and_filters_list(&cfg, &records);

    let valid: Vec<&str> = snapshot
        .valid_trading_symbols
        .iter()
        .map(|s| s.0.as_str())
        .collect();
    assert_eq!(valid, vec!["AAAUSDT"]);

    // actions are recorded for kept pairs whatever their status
    let actions: Vec<(&str, SymbolAction)> = snapshot
        .symbol_actions
        .iter()
        .map(|(s, a)| (s.0.as_str(), *a))
        .collect();
    assert_eq!(
        actions,
        vec![("AAAUSDT", SymbolAction::Buy), ("CCCUSDT", SymbolAction::Buy)]
    );

    assert_eq!(snapshot.filters_map.len(), 1);
    assert_eq!(snapshot.filters_map[0].0 .0, "AAAUSDT");
    assert_eq!(snapshot.filters_map[0].1.price_tick, A / 100);
}

#[test]
fn base_asset_match_opens_with_a_sell() {
    let cfg = config();
    let records = vec![record("USDTDAI", "TRADING", "USDT", "DAI", true)];
    let snapshot = update_symbols_and_filters_list(&cfg, &records);
    assert_eq!(snapshot.symbol_actions.len(), 1);
    assert_eq!(snapshot.symbol_actions[0].1, SymbolAction::Sell);
}

#[test]
fn rate_limited_responses_are_rejected() {
    assert!(exchange_info_response_usable(200));
    assert!(exchange_info_response_usable(500));
    assert!(!exchange_info_response_usable(429));
    assert!(!exchange_info_response_usable(418));
}

#[test]
fn api_address_comes_from_the_list() {
    let one = vec![String::from("https://one.example/api")];
    assert_eq!(randomly_select_api_address(&one), one[0]);

    let many = vec![
        String::from("https://one.example/api"),
        String::from("https://two.example/api"),
        String::from("https://three.example/api"),
    ];
    let picked = randomly_select_api_address(&many);
    assert!(many.contains(&picked));
}

#[test]
fn buy_polling_follows_the_retry_policy() {
    assert_eq!(
        buy_order_poll_decision(OrderStatus::Filled, 0, false, 0),
        BuyPollAction::AcceptFilled
    );
    assert_eq!(
        buy_order_poll_decision(OrderStatus::New, 0, false, 0),
        BuyPollAction::KeepWaiting
    );
    assert_eq!(
        buy_order_poll_decision(OrderStatus::New, 0, false, 3),
        BuyPollAction::CancelNow
    );
    assert_eq!(
        buy_order_poll_decision(OrderStatus::PartiallyFilled, A, true, 3),
        BuyPollAction::AcceptAfterCancel
    );
    assert_eq!(
        buy_order_poll_decision(OrderStatus::Canceled, 0, true, 3),
        BuyPollAction::ZeroFillFailure
    );
}

#[test]
fn sell_polling_gives_up_after_three_attempts() {
    assert_eq!(
        sell_order_poll_decision(OrderStatus::Filled, 0),
        SellPollAction::AcceptFilled
    );
    assert_eq!(
        sell_order_poll_decision(OrderStatus::New, 2),
        SellPollAction::KeepWaiting
    );
    assert_eq!(
        sell_order_poll_decision(OrderStatus::New, 3),
        SellPollAction::GiveUpLeaveResting
    );
}

#[test]
fn order_placement_errors_are_fatal() {
    assert_eq!(
        order_placement_decision(OrderPlacementOutcome::Accepted),
        SupervisorAction::ConfirmFill
    );
    assert_eq!(
        order_placement_decision(OrderPlacementOutcome::RejectedOrErrored),
        SupervisorAction::FatalAllStop
    );
}

#[test]
fn simulated_fills_always_succeed() {
    // buying 10 base at 10.00 spends 100 quote
    assert_eq!(simulated_fill(SymbolAction::Buy, 10 * A, 10 * A), Some((10 * A, 100 * A)));
    // selling 10 base at 10.00 brings 100 quote
    assert_eq!(simulated_fill(SymbolAction::Sell, 10 * A, 10 * A), Some((100 * A, 10 * A)));
}

#[test]
fn percent_rounding_truncates_toward_zero() {
    assert_eq!(round_percent_to_hundredth(-18_18181818), -18_18000000);
    assert_eq!(round_percent_to_hundredth(18_18181818), 18_18000000);
    assert_eq!(round_percent_to_hundredth(0), 0);
}

#[test]
fn profit_differences_round_to_hundredths() {
    assert_eq!(amount_diff_rounded(110 * A, 100 * A), (10 * A) as i128);
    assert_eq!(amount_diff_rounded(100 * A, 110 * A), -((10 * A) as i128));
    assert_eq!(amount_diff_rounded(10_12345678, 10 * A), 12_000_000);
}

#[test]
fn trading_mode_defaults_to_simulation() {
    assert_eq!(determine_bot_trading_mode(false), TradingMode::Simulation);
    assert_eq!(determine_bot_trading_mode(true), TradingMode::RealTrading);
}

#[test]
fn symbol_actions_reverse() {
    assert_eq!(reverse_symbol_action(SymbolAction::Buy), SymbolAction::Sell);
    assert_eq!(reverse_symbol_action(SymbolAction::Sell), SymbolAction::Buy);
}

#[test]
fn assets_convert_and_compare_by_text() {
    let b = BaseAsset(String::from("BTC"));
    let q = QuoteAsset(String::from("USDT"));
    assert_eq!(Asset::from(b.clone()), Asset::BaseAsset(BaseAsset(String::from("BTC"))));
    assert_eq!(Asset::from(q.clone()), Asset::QuoteAsset(QuoteAsset(String::from("USDT"))));
    assert_eq!(BaseAsset::from(q).to_text(), "USDT");
    assert_eq!(Symbol::from(String::from("BTCUSDT")).to_text(), "BTCUSDT");
    assert_eq!(SymbolAction::from(true), SymbolAction::Buy);
    assert_eq!(SymbolAction::from(false), SymbolAction::Sell);
    assert_eq!(Asset::EmptyAsset.to_text(), "");
}
