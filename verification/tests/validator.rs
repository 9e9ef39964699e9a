use volatility_trader::filters::ConstraintSet;
use volatility_trader::prices::get_round_number_based_on_ticker;
use volatility_trader::prices::process_symbol_price;
use volatility_trader::prices::process_symbol_qty;
use volatility_trader::types::Symbol;

// One whole, in fixed-point amount units.
const A: u64 = 100_000_000;

fn constraints() -> ConstraintSet {
    ConstraintSet {
        price_min: A,                   // 1.0
        price_max: 1_000_000 * A,       // 1000000.0
        price_tick: A / 100,            // 0.01
        percent_price_multi_up: 0,
        percent_price_multi_down: 0,
        percent_price_avg_min: 0,
        qty_min: A / 1000,              // 0.001
        qty_max: 1_000_000 * A,
        qty_step: A / 1000,             // 0.001
        notional_min: 0,
        notional_apply_to_market: false,
        notional_avg_price_mins: 0,
        market_qty_min: 0,
        market_qty_max: 0,
        market_qty_step: 0,
    }
}

fn sym() -> Symbol {
    Symbol(String::from("BTCUSDT"))
}

#[test]
fn price_truncates_to_tick() {
    // tick 0.01, price 123.456 -> 123.45
    let r = process_symbol_price(&sym(), 123_45600000, &constraints());
    assert_eq!(r, Some(123_45000000));
}

#[test]
fn qty_truncates_to_step() {
    // step 0.001, qty 1.23456 -> 1.234
    let r = process_symbol_qty(&sym(), 1_23456000, &constraints());
    assert_eq!(r, Some(1_23400000));
}

#[test]
fn price_below_min_is_rejected() {
    let r = process_symbol_price(&sym(), A - 1, &constraints());
    assert_eq!(r, None);
}

#[test]
fn price_above_max_is_rejected() {
    let r = process_symbol_price(&sym(), 1_000_001 * A, &constraints());
    assert_eq!(r, None);
}

#[test]
fn unknown_tick_is_rejected() {
    let mut c = constraints();
    c.price_tick = 3; // not a power of ten
    let r = process_symbol_price(&sym(), 2 * A, &c);
    assert_eq!(r, None);
}

#[test]
fn normalize_price_is_idempotent() {
    let c = constraints();
    let once = process_symbol_price(&sym(), 123_45678912, &c).unwrap();
    let twice = process_symbol_price(&sym(), once, &c).unwrap();
    assert_eq!(once, twice);
}

#[test]
fn normalize_qty_is_idempotent() {
    let c = constraints();
    let once = process_symbol_qty(&sym(), 7_77777777, &c).unwrap();
    let twice = process_symbol_qty(&sym(), once, &c).unwrap();
    assert_eq!(once, twice);
}

#[test]
fn round_numbers_follow_the_tick_table() {
    assert_eq!(get_round_number_based_on_ticker(100_000_000), Some(0));
    assert_eq!(get_round_number_based_on_ticker(1_000_000), Some(2));
    assert_eq!(get_round_number_based_on_ticker(1), Some(8));
    assert_eq!(get_round_number_based_on_ticker(25), None);
    assert_eq!(get_round_number_based_on_ticker(0), None);
}
