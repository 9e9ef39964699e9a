use vstd::prelude::*;

verus! {

// Prices and quantities are fixed-point decimals held as integer counts of
// 1/100_000_000 (eight decimal places, the finest tick the exchange uses).
// Percent values are held the same way: PCT_SCALE units make one percent.

/// Number of units in one whole price or quantity (10^8).
pub const AMOUNT_SCALE: u64 = 100_000_000;

/// Number of percent units in one percent (10^8).
pub const PCT_SCALE: i128 = 100_000_000;

/// Multiplying a ratio numerator by this factor yields percent units:
/// 100 (per cent) times PCT_SCALE.
pub const PCT_NUM_FACTOR: u64 = 10_000_000_000;

/// Largest amount the library computes with; keeps every intermediate
/// product inside u128 / i128.
pub const MAX_AMOUNT: u64 = 1_000_000_000_000_000_000;

/// Largest percent magnitude that a ratio of amounts can produce:
/// MAX_AMOUNT * PCT_NUM_FACTOR.
pub const MAX_PERCENT: i128 = 10_000_000_000_000_000_000_000_000_000;

/// Percent units in one hundredth of a percent; amounts and percents are
/// reported truncated to this unit.
pub const HUNDREDTH_PCT: i128 = 1_000_000;

/// Amount units in one hundredth of a whole; realized profits are recorded
/// truncated to this unit.
pub const HUNDREDTH_AMOUNT: i128 = 1_000_000;

/// The percent change from `base` to `new_value`, in percent units,
/// truncated toward zero.
pub open spec fn pct_of(base: int, new_value: int) -> int {
    if new_value >= base {
        ((new_value - base) * PCT_NUM_FACTOR) / base
    } else {
        -(((base - new_value) * PCT_NUM_FACTOR) / base)
    }
}

/// `v` truncated toward zero to a multiple of `unit`.
pub open spec fn trunc_toward_zero(v: int, unit: int) -> int {
    if v >= 0 {
        (v / unit) * unit
    } else {
        -((-v / unit) * unit)
    }
}

/// A positive amount truncated down to a multiple of the tick `t`.
pub open spec fn trunc_to_tick(p: int, t: int) -> int {
    (p / t) * t
}

/// Truncating to a tick never increases an amount, keeps it non-negative,
/// and lands on a multiple of the tick.
pub proof fn lemma_trunc_tick_bounds(p: int, t: int)
    requires
        0 <= p,
        0 < t,
    ensures
        0 <= trunc_to_tick(p, t) <= p,
        trunc_to_tick(p, t) % t == 0,
{
    vstd::arithmetic::div_mod::lemma_fundamental_div_mod(p, t);
    vstd::arithmetic::div_mod::lemma_mod_bound(p, t);
    vstd::arithmetic::div_mod::lemma_div_pos_is_pos(p, t);
    vstd::arithmetic::div_mod::lemma_mod_multiples_basic(p / t, t);
    assert((p / t) * t == t * (p / t)) by (nonlinear_arith);
}

/// An amount that is already a multiple of the tick is unchanged by
/// truncation.
pub proof fn lemma_trunc_tick_fixed_point(r: int, t: int)
    requires
        0 <= r,
        0 < t,
        r % t == 0,
    ensures
        trunc_to_tick(r, t) == r,
{
    vstd::arithmetic::div_mod::lemma_fundamental_div_mod(r, t);
    assert(r == t * (r / t) + r % t);
    assert((r / t) * t == t * (r / t)) by (nonlinear_arith);
}

/// Truncating to a tick cannot cross below a tick multiple that the
/// amount was at or above.
pub proof fn lemma_trunc_tick_keeps_floor(m: int, p: int, t: int)
    requires
        0 <= m <= p,
        0 < t,
        m % t == 0,
    ensures
        m <= trunc_to_tick(p, t),
{
    vstd::arithmetic::div_mod::lemma_div_is_ordered(m, p, t);
    lemma_trunc_tick_fixed_point(m, t);
    assert(m / t <= p / t ==> (m / t) * t <= (p / t) * t) by (nonlinear_arith)
        requires
            0 < t,
    ;
}

/// Percent change is unchanged when both amounts are scaled by the same
/// positive factor: the ratio, and hence its truncation, is identical.
pub proof fn lemma_pct_scale_invariant(base: int, new_value: int, k: int)
    requires
        0 < base,
        0 <= new_value,
        0 < k,
    ensures
        pct_of(k * base, k * new_value) == pct_of(base, new_value),
{
    let f = PCT_NUM_FACTOR as int;
    if new_value >= base {
        let a = (new_value - base) * f;
        assert(0 <= a) by (nonlinear_arith)
            requires
                base <= new_value,
                f > 0,
                a == (new_value - base) * f,
        ;
        vstd::arithmetic::div_mod::lemma_div_multiples_vanish_quotient(k, a, base);
        assert((k * new_value - k * base) * f == k * a) by (nonlinear_arith)
            requires
                a == (new_value - base) * f,
        ;
        assert(k * new_value >= k * base) by (nonlinear_arith)
            requires
                0 < k,
                new_value >= base,
        ;
    } else {
        let a = (base - new_value) * f;
        assert(0 <= a) by (nonlinear_arith)
            requires
                new_value < base,
                f > 0,
                a == (base - new_value) * f,
        ;
        vstd::arithmetic::div_mod::lemma_div_multiples_vanish_quotient(k, a, base);
        assert((k * base - k * new_value) * f == k * a) by (nonlinear_arith)
            requires
                a == (base - new_value) * f,
        ;
        assert(k * new_value < k * base) by (nonlinear_arith)
            requires
                0 < k,
                new_value < base,
        ;
    }
}

/// Truncating toward zero never grows a value's magnitude and never
/// crosses zero.
pub proof fn lemma_trunc_toward_zero_bounds(v: int, unit: int)
    requires
        0 < unit,
    ensures
        v >= 0 ==> 0 <= trunc_toward_zero(v, unit) <= v,
        v < 0 ==> v <= trunc_toward_zero(v, unit) <= 0,
{
    if v >= 0 {
        lemma_trunc_tick_bounds(v, unit);
    } else {
        lemma_trunc_tick_bounds(-v, unit);
    }
}

/// The difference `received - used` of two amounts, truncated toward zero
/// to whole hundredths: the realized outcome of one closed position.
pub fn amount_diff_rounded(received: u64, used: u64) -> (r: i128)
    requires
        received <= MAX_AMOUNT,
        used <= MAX_AMOUNT,
    ensures
        r == trunc_toward_zero(received - used, HUNDREDTH_AMOUNT as int),
        -MAX_AMOUNT <= r <= MAX_AMOUNT,
{
    proof {
        lemma_trunc_toward_zero_bounds(received - used, HUNDREDTH_AMOUNT as int);
    }
    if received >= used {
        let diff: u64 = received - used;
        let q: u64 = diff / 1_000_000u64;
        (q * 1_000_000u64) as i128
    } else {
        let diff: u64 = used - received;
        let q: u64 = diff / 1_000_000u64;
        -((q * 1_000_000u64) as i128)
    }
}

/// Truncates a percent value toward zero to whole hundredths of a percent.
pub fn round_percent_to_hundredth(p: i128) -> (r: i128)
    requires
        -MAX_PERCENT <= p <= MAX_PERCENT,
    ensures
        r == trunc_toward_zero(p as int, HUNDREDTH_PCT as int),
{
    if p >= 0 {
        let q: i128 = p / HUNDREDTH_PCT;
        q * HUNDREDTH_PCT
    } else {
        let m: i128 = -p;
        let q: i128 = m / HUNDREDTH_PCT;
        -(q * HUNDREDTH_PCT)
    }
}

} // verus!
