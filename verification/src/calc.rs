use vstd::prelude::*;
use crate::amounts::MAX_AMOUNT;
use crate::amounts::MAX_PERCENT;
use crate::amounts::PCT_NUM_FACTOR;
use crate::amounts::pct_of;
use crate::execution::TradingSymbol;
use crate::settings::ConfigStruct;

verus! {

/// The exit quantity of a position: the held quantity less the
/// exchange commission, normalized against the lot constraints.
pub open spec fn spec_exit_qty(config: ConfigStruct, ts: TradingSymbol) -> Option<int> {
    let deduction = (ts.qty * config.orderbook_monitor.exchange_comission) / (
    PCT_NUM_FACTOR as int);
    crate::prices::spec_normalize(
        ts.qty - deduction,
        ts.filters.qty_min as int,
        ts.filters.qty_max as int,
        ts.filters.qty_step as int,
    )
}

/// Recomputes the quantity to place an exit order with: the held quantity
/// less commission, run through the quantity validator. `None` exactly when
/// that amount violates the lot constraints.
pub fn calculate_exit_qty(config: &ConfigStruct, trading_symbol: &TradingSymbol) -> (r: Option<
    u64,
>)
    requires
        config.wf(),
        trading_symbol.wf(),
    ensures
        r is Some <==> spec_exit_qty(*config, *trading_symbol) is Some,
        r is Some ==> r.unwrap() == spec_exit_qty(*config, *trading_symbol).unwrap(),
        r is Some ==> r.unwrap() <= trading_symbol.filters.qty_max,
{
    let qty = trading_symbol.qty;
    let comission = config.orderbook_monitor.exchange_comission;
    proof {
        assert(0 <= (qty as int) * comission <= (qty as int) * 10_000_000_000) by (nonlinear_arith)
            requires
                0 <= comission <= 10_000_000_000,
                0 <= qty,
        ;
        assert((qty as int) * 10_000_000_000 <= 1_000_000_000_000_000_000 * 10_000_000_000) by (
        nonlinear_arith)
            requires
                0 <= qty <= 1_000_000_000_000_000_000,
        ;
        assert(((qty as int) * 10_000_000_000) / 10_000_000_000 == qty) by {
            vstd::arithmetic::div_mod::lemma_div_multiples_vanish(qty as int, 10_000_000_000);
            assert((qty as int) * 10_000_000_000 == 10_000_000_000 * (qty as int)) by (
            nonlinear_arith);
        };
        vstd::arithmetic::div_mod::lemma_div_is_ordered(
            (qty as int) * comission,
            (qty as int) * 10_000_000_000,
            10_000_000_000,
        );
        vstd::arithmetic::div_mod::lemma_div_pos_is_pos((qty as int) * comission, 10_000_000_000);
    }
    let deduction: u128 = ((qty as u128) * (comission as u128)) / 10_000_000_000u128;
    let exit_qty_tmp: u64 = qty - (deduction as u64);
    crate::prices::normalize_amount(
        exit_qty_tmp,
        trading_symbol.filters.qty_min,
        trading_symbol.filters.qty_max,
        trading_symbol.filters.qty_step,
    )
}

/// The percent change from `base` to `new_value`, in percent units,
/// truncated toward zero: `(new_value - base) * 100 / base` per cent.
pub fn percent_diff(base: u64, new_value: u64) -> (r: i128)
    requires
        1 <= base <= MAX_AMOUNT,
        new_value <= MAX_AMOUNT,
    ensures
        r == pct_of(base as int, new_value as int),
        -MAX_PERCENT <= r <= MAX_PERCENT,
{
    if new_value >= base {
        let diff: u128 = (new_value - base) as u128;
        let num: u128 = diff * 10_000_000_000u128;
        let q: u128 = num / (base as u128);
        proof {
            vstd::arithmetic::div_mod::lemma_div_nonincreasing(num as int, base as int);
        }
        q as i128
    } else {
        let diff: u128 = (base - new_value) as u128;
        let num: u128 = diff * 10_000_000_000u128;
        let q: u128 = num / (base as u128);
        proof {
            vstd::arithmetic::div_mod::lemma_div_nonincreasing(num as int, base as int);
        }
        -(q as i128)
    }
}

/// Percent change across a window of prices: from its first element to its
/// last. The first element is the base of the change.
pub fn percentage_change_between_first_and_last_element(list: &[u64]) -> (r: i128)
    requires
        list@.len() >= 1,
        1 <= list@[0] <= MAX_AMOUNT,
        list@[list@.len() - 1] <= MAX_AMOUNT,
    ensures
        r == pct_of(list@[0] as int, list@[list@.len() - 1] as int),
        -MAX_PERCENT <= r <= MAX_PERCENT,
{
    let before_last: u64 = *vstd::slice::slice_index_get(list, 0);
    let last: u64 = *vstd::slice::slice_index_get(list, list.len() - 1);
    percent_diff(before_last, last)
}

} // verus!
