use vstd::prelude::*;
use crate::amounts::MAX_AMOUNT;
use crate::amounts::MAX_PERCENT;
use crate::amounts::lemma_pct_scale_invariant;
use crate::amounts::pct_of;
use crate::calc::percentage_change_between_first_and_last_element;
use crate::settings::ConfigStruct;
use crate::settings::PercentBand;

verus! {

/// Result of holding one window's percent change against its thresholds.
/// The monitor gate decides whether the window is in scope at all; only
/// then are the rise and drop sub-thresholds evaluated.
#[derive(Debug, Clone)]
pub struct WindowStatus {
    pub percent_change: i128,
    pub monitor_threshold_reached: bool,
    pub rise_threshold_reached: bool,
    pub drop_threshold_reached: bool,
}

/// Result of the pre-window check; same shape as the main window's.
#[derive(Debug, Clone)]
pub struct PreWindowStatus {
    pub percent_change: i128,
    pub monitor_threshold_reached: bool,
    pub rise_threshold_reached: bool,
    pub drop_threshold_reached: bool,
}

/// Result of the post-window check; same shape as the main window's.
#[derive(Debug, Clone)]
pub struct PostWindowStatus {
    pub percent_change: i128,
    pub monitor_threshold_reached: bool,
    pub rise_threshold_reached: bool,
    pub drop_threshold_reached: bool,
}

/// The monitor gate: whether the window's change is in scope.
pub open spec fn spec_monitor_reached(pct: int, monitor: PercentBand) -> bool {
    monitor.spec_contains(pct)
}

/// The rise sub-threshold, evaluated only inside the monitor gate.
pub open spec fn spec_rise_reached(pct: int, monitor: PercentBand, rise: PercentBand) -> bool {
    monitor.spec_contains(pct) && rise.spec_contains(pct)
}

/// The drop sub-threshold, evaluated only inside the monitor gate.
pub open spec fn spec_drop_reached(pct: int, monitor: PercentBand, drop: PercentBand) -> bool {
    monitor.spec_contains(pct) && drop.spec_contains(pct)
}

/// Evaluates one window's percent change against a monitor gate and the
/// rise and drop bands inside it.
fn window_flags(pct: i128, monitor: PercentBand, rise: PercentBand, drop: PercentBand) -> (r: (
    bool,
    bool,
    bool,
))
    ensures
        r.0 == spec_monitor_reached(pct as int, monitor),
        r.1 == spec_rise_reached(pct as int, monitor, rise),
        r.2 == spec_drop_reached(pct as int, monitor, drop),
{
    let mut monitor_reached = false;
    let mut rise_reached = false;
    let mut drop_reached = false;

    if pct >= monitor.min && pct <= monitor.max {
        monitor_reached = true;

        if pct >= rise.min && pct <= rise.max {
            rise_reached = true;
        }

        if pct <= drop.max && pct >= drop.min {
            drop_reached = true;
        }
    }

    (monitor_reached, rise_reached, drop_reached)
}

/// Checks the main window: computes its percent change and holds it
/// against the main monitor gate and the rise and drop bands.
pub fn calculate_window(config: &ConfigStruct, window_list: &[u64]) -> (r: WindowStatus)
    requires
        window_list@.len() >= 1,
        1 <= window_list@[0] <= MAX_AMOUNT,
        window_list@[window_list@.len() - 1] <= MAX_AMOUNT,
    ensures
        r.percent_change == pct_of(
            window_list@[0] as int,
            window_list@[window_list@.len() - 1] as int,
        ),
        -MAX_PERCENT <= r.percent_change <= MAX_PERCENT,
        r.monitor_threshold_reached == spec_monitor_reached(
            r.percent_change as int,
            config.symbol_monitor.window_price_value_monitor_min_max_percent,
        ),
        r.rise_threshold_reached == spec_rise_reached(
            r.percent_change as int,
            config.symbol_monitor.window_price_value_monitor_min_max_percent,
            config.symbol_monitor.window_price_value_rise_min_max_percent,
        ),
        r.drop_threshold_reached == spec_drop_reached(
            r.percent_change as int,
            config.symbol_monitor.window_price_value_monitor_min_max_percent,
            config.symbol_monitor.window_price_value_drop_min_max_percent,
        ),
{
    let percent_change_window = percentage_change_between_first_and_last_element(window_list);
    let (monitor_reached, rise_reached, drop_reached) = window_flags(
        percent_change_window,
        config.symbol_monitor.window_price_value_monitor_min_max_percent,
        config.symbol_monitor.window_price_value_rise_min_max_percent,
        config.symbol_monitor.window_price_value_drop_min_max_percent,
    );

    WindowStatus {
        percent_change: percent_change_window,
        monitor_threshold_reached: monitor_reached,
        rise_threshold_reached: rise_reached,
        drop_threshold_reached: drop_reached,
    }
}

/// Checks the pre window with its own gate and bands; a refinement of a
/// positive main-window result, never a qualifier on its own.
pub fn calculate_pre_window(config: &ConfigStruct, pre_window_list: &[u64]) -> (r: PreWindowStatus)
    requires
        pre_window_list@.len() >= 1,
        1 <= pre_window_list@[0] <= MAX_AMOUNT,
        pre_window_list@[pre_window_list@.len() - 1] <= MAX_AMOUNT,
    ensures
        r.percent_change == pct_of(
            pre_window_list@[0] as int,
            pre_window_list@[pre_window_list@.len() - 1] as int,
        ),
        -MAX_PERCENT <= r.percent_change <= MAX_PERCENT,
        r.monitor_threshold_reached == spec_monitor_reached(
            r.percent_change as int,
            config.symbol_monitor.pre_window_price_value_monitor_min_max_percent,
        ),
        r.rise_threshold_reached == spec_rise_reached(
            r.percent_change as int,
            config.symbol_monitor.pre_window_price_value_monitor_min_max_percent,
            config.symbol_monitor.pre_window_price_value_rise_min_max_percent,
        ),
        r.drop_threshold_reached == spec_drop_reached(
            r.percent_change as int,
            config.symbol_monitor.pre_window_price_value_monitor_min_max_percent,
            config.symbol_monitor.pre_window_price_value_drop_min_max_percent,
        ),
{
    let percent_change_pre_window = percentage_change_between_first_and_last_element(
        pre_window_list,
    );
    let (monitor_reached, rise_reached, drop_reached) = window_flags(
        percent_change_pre_window,
        config.symbol_monitor.pre_window_price_value_monitor_min_max_percent,
        config.symbol_monitor.pre_window_price_value_rise_min_max_percent,
        config.symbol_monitor.pre_window_price_value_drop_min_max_percent,
    );

    PreWindowStatus {
        percent_change: percent_change_pre_window,
        monitor_threshold_reached: monitor_reached,
        rise_threshold_reached: rise_reached,
        drop_threshold_reached: drop_reached,
    }
}

/// Checks the post window with its own gate and bands; a refinement of a
/// positive main-window result, never a qualifier on its own.
pub fn calculate_post_window(config: &ConfigStruct, post_window_list: &[u64]) -> (r:
    PostWindowStatus)
    requires
        post_window_list@.len() >= 1,
        1 <= post_window_list@[0] <= MAX_AMOUNT,
        post_window_list@[post_window_list@.len() - 1] <= MAX_AMOUNT,
    ensures
        r.percent_change == pct_of(
            post_window_list@[0] as int,
            post_window_list@[post_window_list@.len() - 1] as int,
        ),
        -MAX_PERCENT <= r.percent_change <= MAX_PERCENT,
        r.monitor_threshold_reached == spec_monitor_reached(
            r.percent_change as int,
            config.symbol_monitor.post_window_price_value_monitor_min_max_percent,
        ),
        r.rise_threshold_reached == spec_rise_reached(
            r.percent_change as int,
            config.symbol_monitor.post_window_price_value_monitor_min_max_percent,
            config.symbol_monitor.post_window_price_value_rise_min_max_percent,
        ),
        r.drop_threshold_reached == spec_drop_reached(
            r.percent_change as int,
            config.symbol_monitor.post_window_price_value_monitor_min_max_percent,
            config.symbol_monitor.post_window_price_value_drop_min_max_percent,
        ),
{
    let percent_change_post_window = percentage_change_between_first_and_last_element(
        post_window_list,
    );
    let (monitor_reached, rise_reached, drop_reached) = window_flags(
        percent_change_post_window,
        config.symbol_monitor.post_window_price_value_monitor_min_max_percent,
        config.symbol_monitor.post_window_price_value_rise_min_max_percent,
        config.symbol_monitor.post_window_price_value_drop_min_max_percent,
    );

    PostWindowStatus {
        percent_change: percent_change_post_window,
        monitor_threshold_reached: monitor_reached,
        rise_threshold_reached: rise_reached,
        drop_threshold_reached: drop_reached,
    }
}

/// Scale invariance of the window percent change: multiplying every
/// element of a window by one positive constant leaves the change between
/// its first and last element unchanged.
pub proof fn lemma_window_percent_change_scale_invariant(w: Seq<int>, scaled: Seq<int>, k: int)
    requires
        w.len() >= 1,
        0 < w[0],
        0 <= w[w.len() - 1],
        0 < k,
        scaled.len() == w.len(),
        forall|i: int| 0 <= i < w.len() ==> scaled[i] == k * w[i],
    ensures
        pct_of(scaled[0], scaled[scaled.len() - 1]) == pct_of(w[0], w[w.len() - 1]),
{
    lemma_pct_scale_invariant(w[0], w[w.len() - 1], k);
    assert(scaled[0] == k * w[0]);
    assert(scaled[scaled.len() - 1] == k * w[w.len() - 1]);
    assert(0 <= k * w[w.len() - 1]) by (nonlinear_arith)
        requires
            0 < k,
            0 <= w[w.len() - 1],
    ;
}

} // verus!
