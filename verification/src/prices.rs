use vstd::prelude::*;
use crate::amounts::lemma_trunc_tick_bounds;
use crate::amounts::lemma_trunc_tick_fixed_point;
use crate::amounts::lemma_trunc_tick_keeps_floor;
use crate::amounts::trunc_to_tick;
use crate::filters::ConstraintSet;
use crate::types::Symbol;

verus! {

/// The ticks and steps the exchange may use: exactly the powers of ten from
/// one unit (10^-8 of a whole) up to one whole. Any other value is a hard
/// validation failure, not a rounding instruction.
pub open spec fn spec_valid_tick(t: int) -> bool {
    ||| t == 1
    ||| t == 10
    ||| t == 100
    ||| t == 1000
    ||| t == 10000
    ||| t == 100000
    ||| t == 1000000
    ||| t == 10000000
    ||| t == 100000000
}

/// Normalization of an amount against a band and a tick: `None` below the
/// band, above the band, or on an unknown tick; otherwise the amount
/// truncated down to a multiple of the tick.
pub open spec fn spec_normalize(v: int, lo: int, hi: int, step: int) -> Option<int> {
    if lo > v {
        None
    } else if hi < v {
        None
    } else if !spec_valid_tick(step) {
        None
    } else {
        Some(trunc_to_tick(v, step))
    }
}

/// How many decimal places a tick keeps: a tick of one whole keeps none, a
/// tick of one unit keeps all eight. Unknown ticks map to `None`.
pub fn get_round_number_based_on_ticker(tick_value: u64) -> (r: Option<u32>)
    ensures
        r is Some <==> spec_valid_tick(tick_value as int),
        tick_value == 100000000 ==> r == Some(0u32),
        tick_value == 10000000 ==> r == Some(1u32),
        tick_value == 1000000 ==> r == Some(2u32),
        tick_value == 100000 ==> r == Some(3u32),
        tick_value == 10000 ==> r == Some(4u32),
        tick_value == 1000 ==> r == Some(5u32),
        tick_value == 100 ==> r == Some(6u32),
        tick_value == 10 ==> r == Some(7u32),
        tick_value == 1 ==> r == Some(8u32),
{
    if tick_value == 100000000 {
        Some(0)
    } else if tick_value == 10000000 {
        Some(1)
    } else if tick_value == 1000000 {
        Some(2)
    } else if tick_value == 100000 {
        Some(3)
    } else if tick_value == 10000 {
        Some(4)
    } else if tick_value == 1000 {
        Some(5)
    } else if tick_value == 100 {
        Some(6)
    } else if tick_value == 10 {
        Some(7)
    } else if tick_value == 1 {
        Some(8)
    } else {
        None
    }
}

/// Shared normalization body for prices and quantities.
pub(crate) fn normalize_amount(v: u64, lo: u64, hi: u64, step: u64) -> (r: Option<u64>)
    ensures
        r is Some <==> spec_normalize(v as int, lo as int, hi as int, step as int) is Some,
        r is Some ==> r.unwrap() == spec_normalize(
            v as int,
            lo as int,
            hi as int,
            step as int,
        ).unwrap(),
        r is Some ==> r.unwrap() <= hi,
{
    if lo > v {
        return None;
    }

    if hi < v {
        return None;
    }

    if get_round_number_based_on_ticker(step).is_none() {
        return None;
    }

    proof {
        lemma_trunc_tick_bounds(v as int, step as int);
    }
    Some((v / step) * step)
}

/// Normalizes a price against the symbol's price band and tick. `None`
/// exactly when the price is below `price_min`, above `price_max`, or the
/// tick is not a recognized power of ten; otherwise the price truncated
/// down (never up) to the tick.
pub fn process_symbol_price(_symbol: &Symbol, symbol_price: u64, constraints: &ConstraintSet) -> (r:
    Option<u64>)
    ensures
        r is Some <==> spec_normalize(
            symbol_price as int,
            constraints.price_min as int,
            constraints.price_max as int,
            constraints.price_tick as int,
        ) is Some,
        r is Some ==> r.unwrap() == spec_normalize(
            symbol_price as int,
            constraints.price_min as int,
            constraints.price_max as int,
            constraints.price_tick as int,
        ).unwrap(),
{
    normalize_amount(
        symbol_price,
        constraints.price_min,
        constraints.price_max,
        constraints.price_tick,
    )
}

/// Normalizes a quantity against the symbol's lot band and step, exactly as
/// `process_symbol_price` does for prices.
pub fn process_symbol_qty(_symbol: &Symbol, symbol_qty: u64, constraints: &ConstraintSet) -> (r:
    Option<u64>)
    ensures
        r is Some <==> spec_normalize(
            symbol_qty as int,
            constraints.qty_min as int,
            constraints.qty_max as int,
            constraints.qty_step as int,
        ) is Some,
        r is Some ==> r.unwrap() == spec_normalize(
            symbol_qty as int,
            constraints.qty_min as int,
            constraints.qty_max as int,
            constraints.qty_step as int,
        ).unwrap(),
{
    normalize_amount(symbol_qty, constraints.qty_min, constraints.qty_max, constraints.qty_step)
}

/// Normalization is idempotent: once an amount has been normalized, running
/// it through the same band and tick again returns it unchanged. Holds
/// whenever the band's lower bound is itself a multiple of the tick (as
/// exchange constraints are published); without that, truncation could land
/// below the lower bound.
pub proof fn lemma_normalize_idempotent(v: int, lo: int, hi: int, step: int)
    requires
        0 <= lo,
        spec_normalize(v, lo, hi, step) is Some,
        lo % step == 0,
    ensures
        spec_normalize(spec_normalize(v, lo, hi, step).unwrap(), lo, hi, step) == spec_normalize(
            v,
            lo,
            hi,
            step,
        ),
{
    let r = spec_normalize(v, lo, hi, step).unwrap();
    lemma_trunc_tick_bounds(v, step);
    lemma_trunc_tick_keeps_floor(lo, v, step);
    lemma_trunc_tick_fixed_point(r, step);
}

} // verus!
