use vstd::prelude::*;
use crate::amounts::AMOUNT_SCALE;
use crate::amounts::HUNDREDTH_PCT;
use crate::amounts::MAX_AMOUNT;
use crate::amounts::MAX_PERCENT;
use crate::amounts::pct_of;
use crate::amounts::round_percent_to_hundredth;
use crate::amounts::trunc_toward_zero;
use crate::calc::percent_diff;
use crate::filters::ConstraintSet;
use crate::settings::ConfigStruct;
use crate::settings::ONE_HUNDRED_PCT;
use crate::types::CurrentTradingProfit;
use crate::types::Symbol;
use crate::types::SymbolAction;
use crate::types::TradingDecision;
use crate::types::TradingNextStep;

verus! {

/// Per-position execution state: everything one worker tracks for its
/// symbol from admission to the terminal report. Owned exclusively by that
/// worker; never shared.
#[derive(Debug, Clone)]
pub struct TradingSymbol {
    pub symbol: Symbol,
    /// Current working price: the entry price while joining, the chosen
    /// exit price while leaving.
    pub price: u64,
    /// Current working quantity: the quote budget while joining, the held
    /// base quantity after entry, the exit quantity once an exit fires.
    pub qty: u64,
    /// Snapshot of the symbol's constraints at admission.
    pub filters: ConstraintSet,
    pub current_trading_profit: CurrentTradingProfit,
    /// Price at which the Minimal tier triggers, normalized; zero if the
    /// candidate price could not be normalized.
    pub min_profit_price: u64,
    /// Price at which the Good tier triggers, normalized.
    pub good_profit_price: u64,
    /// Commission-derived floor, in percent units: profit at or above it
    /// counts as absolute minimal profit.
    pub absolute_minimal_profit_percent: i128,
    /// When the position was entered, seconds.
    pub trading_started: u64,
    pub highest_price_since_min_profit: u64,
    pub highest_price_since_good_profit: u64,
    /// Last usable best bid, kept for the timeout fallback.
    pub last_best_price: u64,
    /// Best bid found in the current depth reading; zero when none fit.
    pub best_price_now: u64,
    pub trading_next_step: TradingNextStep,
    pub previous_profit_percent: i128,
    pub previous_profit_large_change_count: u64,
    pub trade_decision: TradingDecision,
    pub current_symbol_action: SymbolAction,
    pub soft_timeout_trading: bool,
    pub current_profit_percent: i128,
    pub loss_too_large_displayed: bool,
    /// The capital unit this position was started with; reported back.
    pub started_qty: u64,
    /// Quote actually spent entering; profit is measured against it.
    pub used_qty: u64,
    /// The candidate price the classifier observed at admission.
    pub monitored_price: u64,
    /// Set when the scheduler has commanded liquidation.
    pub finishing_action_requested: bool,
    /// Set when an exit has been chosen and an exit order must be placed.
    pub finish_trading_now: bool,
}

impl TradingSymbol {
    /// Arithmetic bounds every reachable state satisfies.
    pub open spec fn wf(&self) -> bool {
        &&& self.price <= MAX_AMOUNT
        &&& self.qty <= MAX_AMOUNT
        &&& self.used_qty <= MAX_AMOUNT
        &&& self.started_qty <= MAX_AMOUNT
        &&& 1 <= self.monitored_price <= MAX_AMOUNT
        &&& self.min_profit_price <= MAX_AMOUNT
        &&& self.good_profit_price <= MAX_AMOUNT
        &&& self.highest_price_since_min_profit <= MAX_AMOUNT
        &&& self.highest_price_since_good_profit <= MAX_AMOUNT
        &&& self.last_best_price <= MAX_AMOUNT
        &&& self.best_price_now <= MAX_AMOUNT
        &&& -MAX_PERCENT <= self.previous_profit_percent <= MAX_PERCENT
        &&& -MAX_PERCENT <= self.current_profit_percent <= MAX_PERCENT
        &&& 0 <= self.absolute_minimal_profit_percent <= 2 * ONE_HUNDRED_PCT
        &&& self.filters.price_max <= MAX_AMOUNT
        &&& self.filters.qty_max <= MAX_AMOUNT
    }

    /// Builds the state a worker starts from: the whole capital unit as
    /// quote budget, decision `Wait`, phase `Join`, no tier reached, and
    /// the absolute-minimal-profit floor set to commission plus the
    /// configured margin.
    pub fn new(
        symbol: Symbol,
        my_starting_qty: u64,
        monitored_price: u64,
        filters: ConstraintSet,
        current_symbol_action: SymbolAction,
        now: u64,
        config: &ConfigStruct,
    ) -> (r: TradingSymbol)
        requires
            config.wf(),
            my_starting_qty <= MAX_AMOUNT,
            1 <= monitored_price <= MAX_AMOUNT,
            filters.price_max <= MAX_AMOUNT,
            filters.qty_max <= MAX_AMOUNT,
        ensures
            r.wf(),
            r.symbol@ == symbol@,
            r.price == 0,
            r.qty == my_starting_qty,
            r.started_qty == my_starting_qty,
            r.used_qty == 0,
            r.monitored_price == monitored_price,
            r.filters == filters,
            r.current_trading_profit == CurrentTradingProfit::Unknown,
            r.min_profit_price == 0,
            r.good_profit_price == 0,
            r.absolute_minimal_profit_percent == config.orderbook_monitor.exchange_comission
                + config.orderbook_monitor.absolute_minimal_profit_over_comission,
            r.trading_started == now,
            r.trading_next_step == TradingNextStep::Join,
            r.trade_decision == TradingDecision::Wait,
            r.current_symbol_action == current_symbol_action,
            !r.soft_timeout_trading,
            !r.loss_too_large_displayed,
            !r.finishing_action_requested,
            !r.finish_trading_now,
            r.previous_profit_percent == 0,
            r.current_profit_percent == 0,
            r.previous_profit_large_change_count == 0,
            r.highest_price_since_min_profit == 0,
            r.highest_price_since_good_profit == 0,
            r.last_best_price == 0,
            r.best_price_now == 0,
    {
        TradingSymbol {
            symbol,
            price: 0,
            qty: my_starting_qty,
            filters,
            current_trading_profit: CurrentTradingProfit::Unknown,
            min_profit_price: 0,
            good_profit_price: 0,
            absolute_minimal_profit_percent: config.orderbook_monitor.exchange_comission
                + config.orderbook_monitor.absolute_minimal_profit_over_comission,
            trading_started: now,
            highest_price_since_min_profit: 0,
            highest_price_since_good_profit: 0,
            last_best_price: 0,
            best_price_now: 0,
            trading_next_step: TradingNextStep::Join,
            previous_profit_percent: 0,
            previous_profit_large_change_count: 0,
            trade_decision: TradingDecision::Wait,
            current_symbol_action,
            soft_timeout_trading: false,
            current_profit_percent: 0,
            loss_too_large_displayed: false,
            started_qty: my_starting_qty,
            used_qty: 0,
            monitored_price,
            finishing_action_requested: false,
            finish_trading_now: false,
        }
    }
}

/// The base quantity a quote budget buys at a price, normalized against
/// the lot constraints: `budget / price` in base units, `None` when it
/// leaves the numeric range or fails normalization.
pub open spec fn spec_desired_base_qty(budget: int, price: int, f: ConstraintSet) -> Option<int> {
    let raw = (budget * AMOUNT_SCALE) / price;
    if raw > MAX_AMOUNT {
        None
    } else {
        crate::prices::spec_normalize(raw, f.qty_min as int, f.qty_max as int, f.qty_step as int)
    }
}

/// An ask list in the order the book hands it out: best (lowest price)
/// first. The scans walk the levels in this order.
pub open spec fn spec_asks_best_first(asks: Seq<(u64, u64)>) -> bool {
    forall|i: int, j: int| 0 <= i < j < asks.len() ==> (#[trigger] asks[i]).0 <= (#[trigger] asks[j]).0
}

/// A bid list in the order the book hands it out: best (highest price)
/// first.
pub open spec fn spec_bids_best_first(bids: Seq<(u64, u64)>) -> bool {
    forall|i: int, j: int| 0 <= i < j < bids.len() ==> (#[trigger] bids[i]).0 >= (#[trigger] bids[j]).0
}

/// The entry the Join scan finds: walking the asks from best (lowest)
/// outward, skipping removed (zero) levels, the first ask whose quantity
/// covers the base quantity the budget buys at its price; the result is
/// that normalized quantity and the ask's price.
pub open spec fn spec_entry_scan(budget: u64, f: ConstraintSet, asks: Seq<(u64, u64)>) -> Option<
    (u64, u64),
>
    decreases asks.len(),
{
    if asks.len() == 0 {
        None
    } else {
        let price = asks[0].0;
        let level_qty = asks[0].1;
        if price > 0 && level_qty > 0 && spec_desired_base_qty(budget as int, price as int, f)
            is Some && level_qty >= spec_desired_base_qty(
            budget as int,
            price as int,
            f,
        ).unwrap() {
            Some((spec_desired_base_qty(budget as int, price as int, f).unwrap() as u64, price))
        } else {
            spec_entry_scan(budget, f, asks.drop_first())
        }
    }
}

/// The normalized notional a held base quantity sells for at a price:
/// `held * price` in quote units, run through the lot constraints; `None`
/// when it leaves the numeric range or fails normalization.
pub open spec fn spec_sale_notional(held: int, price: int, f: ConstraintSet) -> Option<int> {
    let raw = (held * price) / (AMOUNT_SCALE as int);
    if raw > MAX_AMOUNT {
        None
    } else {
        crate::prices::spec_normalize(raw, f.qty_min as int, f.qty_max as int, f.qty_step as int)
    }
}

/// The sale the probe finds on the bids: walking them from best (highest)
/// outward, skipping removed (zero) levels, the first bid whose quantity
/// covers the normalized notional of the held quantity at its price; the
/// result is that notional and the bid's price.
pub open spec fn spec_sale_scan(held: u64, f: ConstraintSet, bids: Seq<(u64, u64)>) -> Option<
    (u64, u64),
>
    decreases bids.len(),
{
    if bids.len() == 0 {
        None
    } else {
        let price = bids[0].0;
        let level_qty = bids[0].1;
        if price > 0 && level_qty > 0 && spec_sale_notional(held as int, price as int, f) is Some
            && level_qty >= spec_sale_notional(held as int, price as int, f).unwrap() {
            Some((spec_sale_notional(held as int, price as int, f).unwrap() as u64, price))
        } else {
            spec_sale_scan(held, f, bids.drop_first())
        }
    }
}

/// The absolute value of a percent.
pub open spec fn spec_abs(v: int) -> int {
    if v >= 0 {
        v
    } else {
        -v
    }
}

/// A profit-tier trigger price: the entry price raised by the configured
/// percent, then normalized against the price constraints.
pub open spec fn spec_profit_trigger_price(price: int, pct: int, f: ConstraintSet) -> Option<int> {
    let candidate = price + (price * pct) / (crate::amounts::PCT_NUM_FACTOR as int);
    crate::prices::spec_normalize(
        candidate,
        f.price_min as int,
        f.price_max as int,
        f.price_tick as int,
    )
}

/// The notional `qty * price`, in amount units, or `None` when it leaves
/// the library's numeric range.
pub fn qty_times_price(qty: u64, price: u64) -> (r: Option<u64>)
    requires
        qty <= MAX_AMOUNT,
        price <= MAX_AMOUNT,
    ensures
        r is Some <==> (qty * price) / (AMOUNT_SCALE as int) <= MAX_AMOUNT,
        r is Some ==> r.unwrap() == (qty * price) / (AMOUNT_SCALE as int),
{
    proof {
        assert((qty as int) * (price as int) <= (MAX_AMOUNT as int) * (MAX_AMOUNT as int)) by (
        nonlinear_arith)
            requires
                qty <= MAX_AMOUNT,
                price <= MAX_AMOUNT,
        ;
    }
    let wide: u128 = (qty as u128) * (price as u128);
    let v: u128 = wide / 100_000_000u128;
    if v > 1_000_000_000_000_000_000u128 {
        None
    } else {
        Some(v as u64)
    }
}

/// Computes the base quantity the quote budget buys at a price, normalized.
fn desired_base_qty(budget: u64, price: u64, f: &ConstraintSet) -> (r: Option<u64>)
    requires
        budget <= MAX_AMOUNT,
        1 <= price,
    ensures
        r is Some <==> spec_desired_base_qty(budget as int, price as int, *f) is Some,
        r is Some ==> r.unwrap() == spec_desired_base_qty(budget as int, price as int, *f).unwrap(),
        r is Some ==> r.unwrap() <= f.qty_max,
{
    let raw: u128 = ((budget as u128) * 100_000_000u128) / (price as u128);
    if raw > 1_000_000_000_000_000_000u128 {
        return None;
    }
    crate::prices::normalize_amount(raw as u64, f.qty_min, f.qty_max, f.qty_step)
}

impl TradingSymbol {
    /// The Join scan: finds the entry the order book offers for this
    /// position's quote budget. With no fitting ask the state is unchanged.
    /// With one, the entry is declined outright if the ask's price deviates
    /// from the monitored candidate price by at least the configured
    /// allowed spread; otherwise the position takes the normalized base
    /// quantity and the ask's price and decides `Start`.
    pub fn join_scan(&mut self, asks: &Vec<(u64, u64)>, config: &ConfigStruct)
        requires
            old(self).wf(),
            config.wf(),
            old(self).trading_next_step == TradingNextStep::Join,
            spec_asks_best_first(asks@),
            forall|i: int|
                0 <= i < asks@.len() ==> (#[trigger] asks@[i]).0 <= MAX_AMOUNT && asks@[i].1
                    <= MAX_AMOUNT,
        ensures
            final(self).wf(),
            *final(self) == spec_join_scan(*old(self), asks@, *config),
    {
        let found = scan_asks_for_entry(self.qty, &self.filters, asks);

        if let Some((base_qty, ask_price)) = found {
            let spread = percent_diff(self.monitored_price, ask_price);
            let spread_abs: i128 = if spread >= 0 {
                spread
            } else {
                -spread
            };
            if spread_abs >= config.orderbook_monitor.allowed_buy_diff_from_symbol_monitor_percent {
                self.trade_decision = TradingDecision::Decline;
            } else {
                self.qty = base_qty;
                self.price = ask_price;
                self.trade_decision = TradingDecision::Start;
            }
        }
    }

    /// After an entry has been chosen, fixes the two tier trigger prices:
    /// each is the entry price raised by its configured percent and
    /// normalized. A Minimal trigger that fails normalization becomes zero;
    /// a Good trigger that fails normalization stops the position,
    /// otherwise the decision moves to `Continue`.
    pub fn prepare_profit_prices(&mut self, config: &ConfigStruct)
        requires
            old(self).wf(),
            config.wf(),
        ensures
            final(self).wf(),
            *final(self) == spec_prepare_profit_prices(*old(self), *config),
    {
        let min_candidate = raise_by_percent(
            self.price,
            config.orderbook_monitor.min_profit_percent,
        );
        self.min_profit_price = match crate::prices::normalize_amount(
            min_candidate,
            self.filters.price_min,
            self.filters.price_max,
            self.filters.price_tick,
        ) {
            Some(v) => v,
            None => 0,
        };

        let good_candidate = raise_by_percent(
            self.price,
            config.orderbook_monitor.good_profit_percent,
        );
        self.good_profit_price = match crate::prices::normalize_amount(
            good_candidate,
            self.filters.price_min,
            self.filters.price_max,
            self.filters.price_tick,
        ) {
            Some(v) => {
                self.trade_decision = TradingDecision::Continue;
                v
            },
            None => {
                self.trade_decision = TradingDecision::Stop;
                0
            },
        };
    }

    /// Applies the result of the entry order: a zero fill stops the
    /// worker; a positive fill records the received base quantity and the
    /// quote spent, reverses the action for the exit side, moves the phase
    /// to `Leave`, and starts the holding-duration clock.
    pub fn on_entry_result(&mut self, received_qty: u64, used_qty: u64, now: u64)
        requires
            old(self).wf(),
            received_qty <= MAX_AMOUNT,
            used_qty <= MAX_AMOUNT,
        ensures
            final(self).wf(),
            received_qty == 0 ==> *final(self) == (TradingSymbol {
                trade_decision: TradingDecision::Stop,
                ..*old(self)
            }),
            received_qty > 0 ==> *final(self) == (TradingSymbol {
                qty: received_qty,
                used_qty: used_qty,
                current_symbol_action: (if old(self).current_symbol_action == SymbolAction::Buy {
                    SymbolAction::Sell
                } else {
                    SymbolAction::Buy
                }),
                trading_next_step: TradingNextStep::Leave,
                trading_started: now,
                ..*old(self)
            }),
    {
        if received_qty == 0 {
            self.trade_decision = TradingDecision::Stop;
            return ;
        }
        self.qty = received_qty;
        self.used_qty = used_qty;
        self.current_symbol_action = crate::types::reverse_symbol_action(
            self.current_symbol_action,
        );
        self.trading_next_step = TradingNextStep::Leave;
        self.trading_started = now;
    }
}

/// The bid the Leave scan finds: walking the bids from best (highest)
/// outward, skipping removed (zero) levels, the first bid whose quantity
/// meets the held quantity; the result is that bid's price and quantity.
pub open spec fn spec_exit_bid_scan(held_qty: u64, bids: Seq<(u64, u64)>) -> Option<(u64, u64)>
    decreases bids.len(),
{
    if bids.len() == 0 {
        None
    } else {
        let price = bids[0].0;
        let level_qty = bids[0].1;
        if price > 0 && level_qty > 0 && level_qty >= held_qty {
            Some((price, level_qty))
        } else {
            spec_exit_bid_scan(held_qty, bids.drop_first())
        }
    }
}

/// The trailing retrace from a high-water mark, in percent units truncated
/// to hundredths.
pub open spec fn spec_trailing_drop(best: int, high_water: int) -> int {
    trunc_toward_zero(pct_of(best, high_water), HUNDREDTH_PCT as int)
}

/// The Join scan's transition: no fitting ask changes nothing; an entry
/// whose price strays from the monitored price by at least the allowed
/// spread declines the position; otherwise the position takes the
/// normalized quantity and the ask's price and decides Start.
pub open spec fn spec_join_scan(ts: TradingSymbol, asks: Seq<(u64, u64)>, c: ConfigStruct)
    -> TradingSymbol {
    match spec_entry_scan(ts.qty, ts.filters, asks) {
        None => ts,
        Some(entry) => {
            if spec_abs(pct_of(ts.monitored_price as int, entry.1 as int))
                >= c.orderbook_monitor.allowed_buy_diff_from_symbol_monitor_percent {
                TradingSymbol { trade_decision: TradingDecision::Decline, ..ts }
            } else {
                TradingSymbol {
                    qty: entry.0,
                    price: entry.1,
                    trade_decision: TradingDecision::Start,
                    ..ts
                }
            }
        },
    }
}

/// The tier-trigger transition after an entry was chosen: the Minimal
/// trigger, zero where it fails normalization; the Good trigger, which must
/// normalize for the position to continue.
pub open spec fn spec_prepare_profit_prices(ts: TradingSymbol, c: ConfigStruct) -> TradingSymbol {
    let min_price = (match spec_profit_trigger_price(
        ts.price as int,
        c.orderbook_monitor.min_profit_percent as int,
        ts.filters,
    ) {
        Some(v) => v,
        None => 0,
    }) as u64;
    match spec_profit_trigger_price(
        ts.price as int,
        c.orderbook_monitor.good_profit_percent as int,
        ts.filters,
    ) {
        Some(v) => TradingSymbol {
            min_profit_price: min_price,
            good_profit_price: v as u64,
            trade_decision: TradingDecision::Continue,
            ..ts
        },
        None => TradingSymbol {
            min_profit_price: min_price,
            good_profit_price: 0,
            trade_decision: TradingDecision::Stop,
            ..ts
        },
    }
}

/// The noise filter's transition on one profit reading, and whether the
/// reading may be acted on.
pub open spec fn spec_noise_filter(ts: TradingSymbol, new_pct: int, c: ConfigStruct) -> (
    TradingSymbol,
    crate::types::ReadMarketDepthNow,
) {
    let prev = ts.previous_profit_percent;
    let big = prev != new_pct && prev != 0 && spec_abs(new_pct - prev)
        >= c.orderbook_monitor.ignore_if_percent_profit_changed_more_than_percent;
    let skipped = big && ts.previous_profit_large_change_count
        <= c.orderbook_monitor.maximum_count_of_profit_changed_ignored_readings;
    (
        TradingSymbol {
            current_profit_percent: new_pct as i128,
            previous_profit_large_change_count: (if skipped {
                ts.previous_profit_large_change_count + 1
            } else if big {
                0
            } else {
                ts.previous_profit_large_change_count as int
            }) as u64,
            previous_profit_percent: if prev != new_pct && prev == 0 {
                new_pct as i128
            } else if big && !skipped {
                new_pct as i128
            } else {
                prev
            },
            ..ts
        },
        if skipped {
            crate::types::ReadMarketDepthNow::NO
        } else {
            crate::types::ReadMarketDepthNow::YES
        },
    )
}

/// The tier-raising transition on one usable best bid.
pub open spec fn spec_set_profit_tiers(ts: TradingSymbol, best_price: u64) -> TradingSymbol {
    let could_min = ts.current_trading_profit != CurrentTradingProfit::MinimalProfit
        && ts.current_trading_profit != CurrentTradingProfit::GoodProfit && best_price
        >= ts.min_profit_price;
    let could_good = ts.current_trading_profit != CurrentTradingProfit::GoodProfit && best_price
        >= ts.good_profit_price;
    TradingSymbol {
        current_trading_profit: if could_good {
            CurrentTradingProfit::GoodProfit
        } else if could_min {
            CurrentTradingProfit::MinimalProfit
        } else {
            ts.current_trading_profit
        },
        highest_price_since_min_profit: if could_min {
            best_price
        } else {
            ts.highest_price_since_min_profit
        },
        highest_price_since_good_profit: if could_good {
            best_price
        } else {
            ts.highest_price_since_good_profit
        },
        ..ts
    }
}

/// The trailing-drop transition for the held tier, and whether its exit
/// fires.
pub open spec fn spec_trailing_exit(ts: TradingSymbol, best_price: u64, c: ConfigStruct) -> (
    TradingSymbol,
    bool,
) {
    let good_case = ts.current_trading_profit == CurrentTradingProfit::GoodProfit;
    let min_case = ts.current_trading_profit == CurrentTradingProfit::MinimalProfit
        && ts.trade_decision == TradingDecision::Continue;
    let good_fires = good_case && best_price < ts.highest_price_since_good_profit
        && spec_trailing_drop(best_price as int, ts.highest_price_since_good_profit as int)
        >= c.orderbook_monitor.good_profit_crossed_allowed_drop_percent && best_price
        >= ts.good_profit_price;
    let min_fires = min_case && best_price < ts.highest_price_since_min_profit
        && spec_trailing_drop(best_price as int, ts.highest_price_since_min_profit as int)
        >= c.orderbook_monitor.min_profit_crossed_allowed_drop_percent && best_price
        >= ts.min_profit_price;
    let exit = (good_fires || min_fires) && crate::calc::spec_exit_qty(c, ts) is Some;
    (
        TradingSymbol {
            highest_price_since_good_profit: if good_case && best_price
                > ts.highest_price_since_good_profit {
                best_price
            } else {
                ts.highest_price_since_good_profit
            },
            highest_price_since_min_profit: if min_case && best_price
                > ts.highest_price_since_min_profit {
                best_price
            } else {
                ts.highest_price_since_min_profit
            },
            qty: if exit {
                crate::calc::spec_exit_qty(c, ts).unwrap() as u64
            } else {
                ts.qty
            },
            price: if exit {
                best_price
            } else {
                ts.price
            },
            finish_trading_now: ts.finish_trading_now || exit,
            ..ts
        },
        exit,
    )
}

/// The loss limiter's transition, and whether its forced exit fires.
pub open spec fn spec_loss_limit(ts: TradingSymbol, best_price: u64, c: ConfigStruct) -> (
    TradingSymbol,
    bool,
) {
    let engaged = c.orderbook_monitor.loss_limit_enabled && ts.trade_decision
        == TradingDecision::Continue && ts.current_profit_percent < 0;
    let loss = spec_abs(ts.current_profit_percent as int);
    let sudden = engaged && loss > c.orderbook_monitor.loss_limit_sudden_drop_to_percent;
    let fires = sudden && loss >= c.orderbook_monitor.loss_limit_percent;
    let exit = fires && crate::calc::spec_exit_qty(c, ts) is Some;
    (
        TradingSymbol {
            current_trading_profit: if sudden {
                CurrentTradingProfit::LossTooLarge
            } else {
                ts.current_trading_profit
            },
            loss_too_large_displayed: ts.loss_too_large_displayed || sudden,
            qty: if exit {
                crate::calc::spec_exit_qty(c, ts).unwrap() as u64
            } else {
                ts.qty
            },
            price: if exit {
                best_price
            } else {
                ts.price
            },
            finish_trading_now: ts.finish_trading_now || exit,
            ..ts
        },
        exit,
    )
}

/// The time limit's transition, and whether its exit fires.
pub open spec fn spec_timeout_exit(
    ts: TradingSymbol,
    now: u64,
    there_is_abs_minimal_profit_now: bool,
    c: ConfigStruct,
) -> (TradingSymbol, bool) {
    if ts.trade_decision != TradingDecision::Continue {
        (ts, false)
    } else if !(now - ts.trading_started >= c.orderbook_monitor.time_limit_secs
        || ts.soft_timeout_trading) {
        (ts, false)
    } else {
        let best = if ts.best_price_now != 0 {
            ts.best_price_now
        } else {
            ts.last_best_price
        };
        let can_leave = (ts.current_trading_profit == CurrentTradingProfit::GoodProfit
            && ts.good_profit_price <= best) || (ts.current_trading_profit
            == CurrentTradingProfit::MinimalProfit && ts.min_profit_price <= best)
            || there_is_abs_minimal_profit_now
            || !c.orderbook_monitor.time_limit_requires_profit;
        let exit = best > 0 && can_leave && crate::calc::spec_exit_qty(c, ts) is Some;
        (
            TradingSymbol {
                soft_timeout_trading: true,
                qty: if exit {
                    crate::calc::spec_exit_qty(c, ts).unwrap() as u64
                } else {
                    ts.qty
                },
                price: if exit {
                    best
                } else {
                    ts.price
                },
                finish_trading_now: ts.finish_trading_now || exit,
                ..ts
            },
            exit,
        )
    }
}

/// The whole depth-event step as a function from state and event to state
/// and action: the mathematical model of one tick of the order-execution
/// state machine. `on_depth_update` computes exactly this.
pub open spec fn spec_depth_step(
    ts: TradingSymbol,
    asks: Seq<(u64, u64)>,
    bids: Seq<(u64, u64)>,
    liquidate_command: bool,
    now: u64,
    c: ConfigStruct,
) -> (TradingSymbol, ExecutorAction) {
    if ts.trade_decision == TradingDecision::Decline || ts.trade_decision
        == TradingDecision::Stop {
        (ts, ExecutorAction::DoNothing)
    } else {
        let latched = TradingSymbol {
            finishing_action_requested: ts.finishing_action_requested || liquidate_command,
            finish_trading_now: ts.finish_trading_now || ts.finishing_action_requested
                || liquidate_command,
            ..ts
        };
        if latched.trading_next_step == TradingNextStep::Join {
            spec_join_step(latched, asks, c)
        } else if latched.trading_next_step == TradingNextStep::Leave && latched.trade_decision
            == TradingDecision::Continue {
            spec_leave_step(latched, bids, now, c)
        } else {
            (latched, ExecutorAction::DoNothing)
        }
    }
}

/// The Join phase of the depth step: a liquidation request declines the
/// position (nothing is held yet); otherwise the entry scan runs and, on
/// Start, the tier triggers are fixed and the entry order placed.
pub open spec fn spec_join_step(ts: TradingSymbol, asks: Seq<(u64, u64)>, c: ConfigStruct) -> (
    TradingSymbol,
    ExecutorAction,
) {
    if ts.finishing_action_requested {
        (
            TradingSymbol { trade_decision: TradingDecision::Decline, ..ts },
            ExecutorAction::DoNothing,
        )
    } else {
        let scanned = spec_join_scan(ts, asks, c);
        if scanned.trade_decision == TradingDecision::Start {
            let prepared = spec_prepare_profit_prices(scanned, c);
            if prepared.trade_decision == TradingDecision::Continue {
                (prepared, ExecutorAction::PlaceEntryOrder)
            } else {
                (prepared, ExecutorAction::DoNothing)
            }
        } else {
            (scanned, ExecutorAction::DoNothing)
        }
    }
}

/// The Leave phase of the depth step: find the best covering bid; with no
/// usable reading (no bid, nothing spent yet, or a notional out of range)
/// nothing further happens this tick. A usable reading goes through the
/// noise filter; an accepted one first serves a pending finish request with
/// an exit at the best bid, else raises tiers and runs the trailing, loss
/// and timeout exits in that order.
pub open spec fn spec_leave_step(
    ts: TradingSymbol,
    bids: Seq<(u64, u64)>,
    now: u64,
    c: ConfigStruct,
) -> (TradingSymbol, ExecutorAction) {
    let best = (match spec_exit_bid_scan(ts.qty, bids) {
        Some(bid) => bid.0,
        None => 0,
    });
    let scanned = TradingSymbol { best_price_now: best, ..ts };
    if best == 0 {
        (scanned, ExecutorAction::DoNothing)
    } else if scanned.current_symbol_action == SymbolAction::Sell && (scanned.used_qty == 0 || (
    scanned.qty * best) / (AMOUNT_SCALE as int) > MAX_AMOUNT) {
        (scanned, ExecutorAction::DoNothing)
    } else {
        let filtered = spec_noise_filter(
            scanned,
            spec_current_profit_pct(scanned, best as int),
            c,
        );
        if filtered.1 == crate::types::ReadMarketDepthNow::NO {
            (filtered.0, ExecutorAction::DoNothing)
        } else if filtered.0.finish_trading_now {
            if crate::calc::spec_exit_qty(c, filtered.0) is Some {
                (
                    TradingSymbol {
                        qty: crate::calc::spec_exit_qty(c, filtered.0).unwrap() as u64,
                        price: best,
                        ..filtered.0
                    },
                    ExecutorAction::PlaceExitOrder,
                )
            } else {
                (filtered.0, ExecutorAction::DoNothing)
            }
        } else {
            let held = TradingSymbol { last_best_price: best, ..filtered.0 };
            let abs_min_now = held.current_profit_percent >= held.absolute_minimal_profit_percent;
            let tiered = spec_set_profit_tiers(held, best);
            let trailing = spec_trailing_exit(tiered, best, c);
            if trailing.1 {
                (trailing.0, ExecutorAction::PlaceExitOrder)
            } else {
                let limited = spec_loss_limit(trailing.0, best, c);
                if limited.1 {
                    (limited.0, ExecutorAction::PlaceExitOrder)
                } else {
                    let timed = spec_timeout_exit(limited.0, now, abs_min_now, c);
                    if timed.1 {
                        (timed.0, ExecutorAction::PlaceExitOrder)
                    } else {
                        (timed.0, ExecutorAction::DoNothing)
                    }
                }
            }
        }
    }
}

impl TradingSymbol {
    /// Scans the bids (best first) for the first level that covers the held
    /// quantity.
    fn exit_bid_scan(&self, bids: &Vec<(u64, u64)>) -> (r: Option<(u64, u64)>)
        requires
            forall|i: int|
                0 <= i < bids@.len() ==> (#[trigger] bids@[i]).0 <= MAX_AMOUNT && bids@[i].1
                    <= MAX_AMOUNT,
        ensures
            r == spec_exit_bid_scan(self.qty, bids@),
            r is Some ==> 1 <= r.unwrap().0 <= MAX_AMOUNT && r.unwrap().1 <= MAX_AMOUNT,
    {
        let ghost whole = bids@;
        let mut i: usize = 0;
        let mut found: Option<(u64, u64)> = None;
        proof {
            assert(whole.skip(0) =~= whole);
        }
        while i < bids.len() && found.is_none()
            invariant
                i <= whole.len(),
                whole == bids@,
                forall|k: int|
                    0 <= k < whole.len() ==> (#[trigger] whole[k]).0 <= MAX_AMOUNT && whole[k].1
                        <= MAX_AMOUNT,
                found is None ==> spec_exit_bid_scan(self.qty, whole) == spec_exit_bid_scan(
                    self.qty,
                    whole.skip(i as int),
                ),
                found is Some ==> found == spec_exit_bid_scan(self.qty, whole),
                found is Some ==> 1 <= found.unwrap().0 <= MAX_AMOUNT && found.unwrap().1
                    <= MAX_AMOUNT,
            decreases whole.len() - i,
        {
            proof {
                assert(whole.skip(i as int).drop_first() =~= whole.skip(i as int + 1));
                assert(whole.skip(i as int)[0] == whole[i as int]);
            }
            let price = bids[i].0;
            let level_qty = bids[i].1;
            if price > 0 && level_qty > 0 && level_qty >= self.qty {
                found = Some((price, level_qty));
            }
            i = i + 1;
        }
        proof {
            if found is None {
                assert(whole.skip(whole.len() as int) =~= Seq::<(u64, u64)>::empty());
            }
        }
        found
    }

    /// The noise filter on profit readings: a reading that jumps from
    /// the previous one by at least the configured delta is ignored, up to
    /// the configured number of consecutive readings; one more such reading
    /// is then accepted as the new baseline. The very first nonzero reading
    /// becomes the baseline outright.
    pub fn apply_profit_noise_filter(&mut self, new_pct: i128, config: &ConfigStruct) -> (r:
        crate::types::ReadMarketDepthNow)
        requires
            old(self).wf(),
            config.wf(),
            -MAX_PERCENT <= new_pct <= MAX_PERCENT,
        ensures
            final(self).wf(),
            (*final(self), r) == spec_noise_filter(*old(self), new_pct as int, *config),
    {
        self.current_profit_percent = new_pct;
        let mut reading = crate::types::ReadMarketDepthNow::YES;

        if self.previous_profit_percent != new_pct {
            if self.previous_profit_percent != 0 {
                let diff: i128 = if new_pct >= self.previous_profit_percent {
                    new_pct - self.previous_profit_percent
                } else {
                    self.previous_profit_percent - new_pct
                };
                if diff
                    >= config.orderbook_monitor.ignore_if_percent_profit_changed_more_than_percent {
                    if self.previous_profit_large_change_count
                        <= config.orderbook_monitor.maximum_count_of_profit_changed_ignored_readings {
                        reading = crate::types::ReadMarketDepthNow::NO;
                        self.previous_profit_large_change_count =
                        self.previous_profit_large_change_count + 1;
                    }
                    if reading == crate::types::ReadMarketDepthNow::YES {
                        self.previous_profit_large_change_count = 0;
                        self.previous_profit_percent = new_pct;
                    }
                }
            }

            if self.previous_profit_percent == 0 {
                self.previous_profit_percent = new_pct;
            }
        }

        reading
    }

    /// Raises the profit tier when the best bid crosses a trigger:
    /// the Minimal tier when the bid reaches its trigger and neither tier
    /// is held yet, the Good tier when the bid reaches the Good trigger;
    /// each newly reached tier starts its high-water mark at that bid. Once
    /// Good is reached this function never leaves it.
    pub fn set_profit_tiers(&mut self, best_price: u64)
        requires
            old(self).wf(),
            best_price <= MAX_AMOUNT,
        ensures
            final(self).wf(),
            *final(self) == spec_set_profit_tiers(*old(self), best_price),
            old(self).current_trading_profit == CurrentTradingProfit::GoodProfit ==> final(self)
                .current_trading_profit == CurrentTradingProfit::GoodProfit,
    {
        if self.current_trading_profit != CurrentTradingProfit::MinimalProfit
            && self.current_trading_profit != CurrentTradingProfit::GoodProfit {
            if best_price >= self.min_profit_price {
                self.current_trading_profit = CurrentTradingProfit::MinimalProfit;
                self.highest_price_since_min_profit = best_price;
            }
        }

        if self.current_trading_profit != CurrentTradingProfit::GoodProfit {
            if best_price >= self.good_profit_price {
                self.current_trading_profit = CurrentTradingProfit::GoodProfit;
                self.highest_price_since_good_profit = best_price;
            }
        }
    }
}

impl TradingSymbol {
    /// The trailing-drop exit, for whichever tier is held. While the
    /// best bid makes new highs the tier's high-water mark follows it; once
    /// the bid has retraced from that mark by at least the tier's configured
    /// drop percent, and still sits at or above the tier's trigger price,
    /// the exit fires: the exit quantity and price are fixed and the finish
    /// flag is set. Good-tier logic takes priority simply because holding
    /// Good excludes holding Minimal. A failed exit-quantity normalization
    /// skips the exit, leaving the state unchanged.
    pub fn check_trailing_exit(&mut self, best_price: u64, config: &ConfigStruct) -> (exit: bool)
        requires
            old(self).wf(),
            config.wf(),
            1 <= best_price <= MAX_AMOUNT,
        ensures
            final(self).wf(),
            (*final(self), exit) == spec_trailing_exit(*old(self), best_price, *config),
            final(self).current_trading_profit == old(self).current_trading_profit,
    {
        if self.current_trading_profit == CurrentTradingProfit::GoodProfit {
            if best_price > self.highest_price_since_good_profit {
                self.highest_price_since_good_profit = best_price;
                return false;
            }
            if best_price < self.highest_price_since_good_profit {
                let price_drop_now = round_percent_to_hundredth(
                    percent_diff(best_price, self.highest_price_since_good_profit),
                );
                if price_drop_now
                    >= config.orderbook_monitor.good_profit_crossed_allowed_drop_percent
                    && best_price >= self.good_profit_price {
                    if let Some(exit_qty) = crate::calc::calculate_exit_qty(config, self) {
                        self.qty = exit_qty;
                        self.price = best_price;
                        self.finish_trading_now = true;
                        return true;
                    }
                }
            }
            return false;
        }

        if self.current_trading_profit == CurrentTradingProfit::MinimalProfit
            && self.trade_decision == TradingDecision::Continue {
            if best_price > self.highest_price_since_min_profit {
                self.highest_price_since_min_profit = best_price;
                return false;
            }
            if best_price < self.highest_price_since_min_profit {
                let percent_drop = round_percent_to_hundredth(
                    percent_diff(best_price, self.highest_price_since_min_profit),
                );
                if percent_drop
                    >= config.orderbook_monitor.min_profit_crossed_allowed_drop_percent
                    && best_price >= self.min_profit_price {
                    if let Some(exit_qty) = crate::calc::calculate_exit_qty(config, self) {
                        self.qty = exit_qty;
                        self.price = best_price;
                        self.finish_trading_now = true;
                        return true;
                    }
                }
            }
            return false;
        }

        false
    }

    /// The loss limiter: a negative profit reading whose magnitude
    /// exceeds the sudden-drop threshold marks the loss state (logged once
    /// through the displayed flag); a reading whose magnitude also reaches
    /// the hard loss limit while in that state forces an exit regardless of
    /// tier. Runs only while the limiter is enabled and the position is
    /// still continuing.
    pub fn apply_loss_limit(&mut self, best_price: u64, config: &ConfigStruct) -> (exit: bool)
        requires
            old(self).wf(),
            config.wf(),
            best_price <= MAX_AMOUNT,
        ensures
            final(self).wf(),
            (*final(self), exit) == spec_loss_limit(*old(self), best_price, *config),
            old(self).current_trading_profit == CurrentTradingProfit::GoodProfit ==> (final(self)
                .current_trading_profit == CurrentTradingProfit::GoodProfit || final(self)
                .current_trading_profit == CurrentTradingProfit::LossTooLarge),
    {
        if !config.orderbook_monitor.loss_limit_enabled || self.trade_decision
            != TradingDecision::Continue {
            return false;
        }

        if self.current_profit_percent < 0 {
            let loss_percent: i128 = -self.current_profit_percent;

            if loss_percent > config.orderbook_monitor.loss_limit_sudden_drop_to_percent {
                if !self.loss_too_large_displayed {
                    self.loss_too_large_displayed = true;
                }
                self.current_trading_profit = CurrentTradingProfit::LossTooLarge;

                if loss_percent >= config.orderbook_monitor.loss_limit_percent {
                    if let Some(exit_qty) = crate::calc::calculate_exit_qty(config, self) {
                        self.qty = exit_qty;
                        self.price = best_price;
                        self.finish_trading_now = true;
                        return true;
                    }
                }
            }
        }

        false
    }

    /// The time limit: once the holding duration has passed the
    /// configured limit (or a previous timeout already set the soft flag),
    /// the soft flag is set and an exit is permitted only with the Good
    /// tier at or above its trigger, the Minimal tier at or above its
    /// trigger, absolute minimal profit in hand, or a configuration that
    /// does not demand profit on timeout. The exit prices at the current
    /// best bid, falling back to the last usable one.
    pub fn check_timeout_exit(
        &mut self,
        now: u64,
        there_is_abs_minimal_profit_now: bool,
        config: &ConfigStruct,
    ) -> (exit: bool)
        requires
            old(self).wf(),
            config.wf(),
            now >= old(self).trading_started,
        ensures
            final(self).wf(),
            (*final(self), exit) == spec_timeout_exit(
                *old(self),
                now,
                there_is_abs_minimal_profit_now,
                *config,
            ),
            final(self).current_trading_profit == old(self).current_trading_profit,
    {
        if self.trade_decision != TradingDecision::Continue {
            return false;
        }
        if !(now - self.trading_started >= config.orderbook_monitor.time_limit_secs
            || self.soft_timeout_trading) {
            return false;
        }

        self.soft_timeout_trading = true;

        let best_price = if self.best_price_now != 0 {
            self.best_price_now
        } else {
            self.last_best_price
        };

        let mut we_can_leave_with_profit = false;

        if self.current_trading_profit == CurrentTradingProfit::GoodProfit
            && self.good_profit_price <= best_price {
            we_can_leave_with_profit = true;
        }

        if !we_can_leave_with_profit {
            if self.current_trading_profit == CurrentTradingProfit::MinimalProfit
                && self.min_profit_price <= best_price {
                we_can_leave_with_profit = true;
            }
        }

        if !we_can_leave_with_profit {
            if there_is_abs_minimal_profit_now
                || !config.orderbook_monitor.time_limit_requires_profit {
                we_can_leave_with_profit = true;
            }
        }

        if best_price > 0 && we_can_leave_with_profit {
            if let Some(exit_qty) = crate::calc::calculate_exit_qty(config, self) {
                self.qty = exit_qty;
                self.price = best_price;
                self.finish_trading_now = true;
                return true;
            }
        }

        false
    }

    /// Applies the result of the exit order: the received quote is the
    /// position's final quantity and the decision becomes `Stop`, after
    /// which the worker reports and halts.
    pub fn on_exit_result(&mut self, received_qty: u64)
        requires
            old(self).wf(),
            received_qty <= MAX_AMOUNT,
        ensures
            final(self).wf(),
            *final(self) == (TradingSymbol {
                qty: received_qty,
                trade_decision: TradingDecision::Stop,
                ..*old(self)
            }),
    {
        self.qty = received_qty;
        self.trade_decision = TradingDecision::Stop;
    }

    /// Whether the position has reached a terminal decision and must report
    /// `(symbol, final qty, used qty)` on the completion channel.
    pub fn should_report(&self) -> (r: bool)
        ensures
            r == (self.trade_decision == TradingDecision::Decline || self.trade_decision
                == TradingDecision::Stop),
    {
        self.trade_decision == TradingDecision::Decline || self.trade_decision
            == TradingDecision::Stop
    }
}

/// What the worker's loop must do after one depth event has been applied:
/// nothing, place the entry order, or place the exit order. After an entry
/// order the loop hands the fill to `on_entry_result`; after an exit order,
/// to `on_exit_result`.
#[derive(Debug, Clone, Copy, PartialEq, Eq, Structural)]
pub enum ExecutorAction {
    DoNothing,
    PlaceEntryOrder,
    PlaceExitOrder,
}

/// Snapshot-plus-incremental synchronization of one order book: a
/// snapshot fixes the last applied sequence id; updates are discarded until
/// one starts exactly one past it, and every applied update advances the id
/// to its end sequence.
#[derive(Debug, Clone)]
pub struct OrderBookSync {
    pub last_update_id: u64,
}

impl OrderBookSync {
    /// Starts synchronization from a depth snapshot's sequence id.
    pub fn new(snapshot_update_id: u64) -> (r: OrderBookSync)
        ensures
            r.last_update_id == snapshot_update_id,
    {
        OrderBookSync { last_update_id: snapshot_update_id }
    }

    /// Decides whether an incremental update may be applied: only one whose
    /// first sequence is exactly one past the last applied id, which then
    /// advances to the update's final id. Anything else is discarded.
    pub fn accept_update(&mut self, first_update_id: u64, final_update_id: u64) -> (r: bool)
        requires
            old(self).last_update_id < u64::MAX,
        ensures
            r == (first_update_id == old(self).last_update_id + 1),
            r ==> final(self).last_update_id == final_update_id,
            !r ==> *final(self) == *old(self),
    {
        if first_update_id == self.last_update_id + 1 {
            self.last_update_id = final_update_id;
            return true;
        }
        false
    }
}

impl TradingSymbol {
    /// One depth event, end to end: latches a liquidate command; in
    /// the Join phase scans for an entry (a liquidate command while still
    /// joining declines the position instead, there being nothing to exit);
    /// in the Leave phase finds the best fitting bid, takes a noise-filtered
    /// profit reading, applies the tier ladder with its trailing exits, the
    /// loss limiter and the time limit, and carries out a commanded
    /// liquidation as soon as the depth data is usable. The returned action
    /// tells the worker's loop which order, if any, to place.
    #[verifier::rlimit(100)]
    pub fn on_depth_update(
        &mut self,
        asks: &Vec<(u64, u64)>,
        bids: &Vec<(u64, u64)>,
        liquidate_command: bool,
        now: u64,
        config: &ConfigStruct,
    ) -> (action: ExecutorAction)
        requires
            old(self).wf(),
            config.wf(),
            now >= old(self).trading_started,
            spec_asks_best_first(asks@),
            spec_bids_best_first(bids@),
            forall|i: int|
                0 <= i < asks@.len() ==> (#[trigger] asks@[i]).0 <= MAX_AMOUNT && asks@[i].1
                    <= MAX_AMOUNT,
            forall|i: int|
                0 <= i < bids@.len() ==> (#[trigger] bids@[i]).0 <= MAX_AMOUNT && bids@[i].1
                    <= MAX_AMOUNT,
        ensures
            final(self).wf(),
            // the step computes exactly the spec-level transition: the state
            // and the action are those of `spec_depth_step`
            *final(self) == spec_depth_step(
                *old(self),
                asks@,
                bids@,
                liquidate_command,
                now,
                *config,
            ).0,
            action == spec_depth_step(
                *old(self),
                asks@,
                bids@,
                liquidate_command,
                now,
                *config,
            ).1,
            final(self).symbol@ == old(self).symbol@,
            final(self).filters == old(self).filters,
            final(self).started_qty == old(self).started_qty,
            final(self).used_qty == old(self).used_qty,
            final(self).monitored_price == old(self).monitored_price,
            // once Good, a single step can only keep Good or mark the loss
            // state; it never falls back to Minimal or to unreached
            old(self).current_trading_profit == CurrentTradingProfit::GoodProfit ==> (final(self)
                .current_trading_profit == CurrentTradingProfit::GoodProfit || final(self)
                .current_trading_profit == CurrentTradingProfit::LossTooLarge),
            // a terminal position never moves again
            (old(self).trade_decision == TradingDecision::Decline || old(self).trade_decision
                == TradingDecision::Stop) ==> *final(self) == *old(self) && action
                == ExecutorAction::DoNothing,
            // the liquidate command is latched permanently
            !(old(self).trade_decision == TradingDecision::Decline || old(self).trade_decision
                == TradingDecision::Stop) ==> final(self).finishing_action_requested == (old(
                self,
            ).finishing_action_requested || liquidate_command),
            // a liquidate command while still joining declines the position
            !(old(self).trade_decision == TradingDecision::Decline || old(self).trade_decision
                == TradingDecision::Stop) && old(self).trading_next_step == TradingNextStep::Join
                && (old(self).finishing_action_requested || liquidate_command) ==> final(self)
                .trade_decision == TradingDecision::Decline,
            action == ExecutorAction::PlaceEntryOrder ==> final(self).trading_next_step
                == TradingNextStep::Join && final(self).trade_decision == TradingDecision::Continue,
            // while leaving, the recorded best bid is the first one covering
            // the held quantity, or zero when none fits
            !(old(self).trade_decision == TradingDecision::Decline || old(self).trade_decision
                == TradingDecision::Stop) && old(self).trading_next_step == TradingNextStep::Leave
                && old(self).trade_decision == TradingDecision::Continue ==> final(self)
                .best_price_now as int == (match spec_exit_bid_scan(old(self).qty, bids@) {
                Some(bid) => bid.0 as int,
                None => 0int,
            }),
            action == ExecutorAction::PlaceExitOrder ==> final(self).finish_trading_now && final(self)
                .trading_next_step == TradingNextStep::Leave,
    {
        if self.trade_decision == TradingDecision::Decline || self.trade_decision
            == TradingDecision::Stop {
            return ExecutorAction::DoNothing;
        }

        if liquidate_command {
            self.finishing_action_requested = true;
        }
        if self.finishing_action_requested {
            self.finish_trading_now = true;
        }

        if self.trading_next_step == TradingNextStep::Join {
            if self.finishing_action_requested {
                // nothing is held yet; there is nothing to liquidate
                self.trade_decision = TradingDecision::Decline;
                return ExecutorAction::DoNothing;
            }

            self.join_scan(asks, config);
            if self.trade_decision == TradingDecision::Start {
                self.prepare_profit_prices(config);
                if self.trade_decision == TradingDecision::Continue {
                    return ExecutorAction::PlaceEntryOrder;
                }
            }
            return ExecutorAction::DoNothing;
        }

        if self.trading_next_step == TradingNextStep::Leave && self.trade_decision
            == TradingDecision::Continue {
            let mut reading = crate::types::ReadMarketDepthNow::YES;

            let found = self.exit_bid_scan(bids);
            let best_price: u64 = match found {
                Some(bid) => bid.0,
                None => 0,
            };
            self.best_price_now = best_price;
            if best_price == 0 {
                reading = crate::types::ReadMarketDepthNow::NO;
            }

            if reading == crate::types::ReadMarketDepthNow::YES {
                if self.current_symbol_action == SymbolAction::Sell {
                    if self.used_qty == 0 {
                        reading = crate::types::ReadMarketDepthNow::NO;
                    } else {
                        match qty_times_price(self.qty, best_price) {
                            Some(notional) => {
                                let pct = round_percent_to_hundredth(
                                    percent_diff(self.used_qty, notional),
                                );
                                proof {
                                    crate::amounts::lemma_trunc_toward_zero_bounds(
                                        pct_of(self.used_qty as int, notional as int),
                                        HUNDREDTH_PCT as int,
                                    );
                                }
                                reading = self.apply_profit_noise_filter(pct, config);
                            },
                            None => {
                                reading = crate::types::ReadMarketDepthNow::NO;
                            },
                        }
                    }
                } else {
                    reading = self.apply_profit_noise_filter(0, config);
                }
            }

            if self.finish_trading_now && reading == crate::types::ReadMarketDepthNow::YES {
                if let Some(exit_qty) = crate::calc::calculate_exit_qty(config, self) {
                    self.qty = exit_qty;
                    self.price = best_price;
                    return ExecutorAction::PlaceExitOrder;
                }
                return ExecutorAction::DoNothing;
            }

            let mut there_is_abs_minimal_profit_now = false;

            if reading == crate::types::ReadMarketDepthNow::YES {
                self.last_best_price = best_price;

                if self.current_profit_percent >= self.absolute_minimal_profit_percent {
                    there_is_abs_minimal_profit_now = true;
                }

                self.set_profit_tiers(best_price);

                if self.check_trailing_exit(best_price, config) {
                    return ExecutorAction::PlaceExitOrder;
                }

                if self.apply_loss_limit(best_price, config) {
                    return ExecutorAction::PlaceExitOrder;
                }

                if self.check_timeout_exit(now, there_is_abs_minimal_profit_now, config) {
                    return ExecutorAction::PlaceExitOrder;
                }
            }

            return ExecutorAction::DoNothing;
        }

        ExecutorAction::DoNothing
    }
}

/// A price raised by a percent of itself, truncated: the candidate tier
/// trigger before normalization.
fn raise_by_percent(price: u64, pct: i128) -> (r: u64)
    requires
        price <= MAX_AMOUNT,
        0 <= pct <= ONE_HUNDRED_PCT,
    ensures
        r == price + (price * pct) / (crate::amounts::PCT_NUM_FACTOR as int),
{
    proof {
        assert(0 <= (price as int) * pct <= (price as int) * 10_000_000_000) by (nonlinear_arith)
            requires
                0 <= pct <= 10_000_000_000,
                0 <= price,
        ;
        assert((price as int) * 10_000_000_000 <= 1_000_000_000_000_000_000 * 10_000_000_000) by (
        nonlinear_arith)
            requires
                0 <= price <= 1_000_000_000_000_000_000,
        ;
        assert(((price as int) * 10_000_000_000) / 10_000_000_000 == price) by {
            vstd::arithmetic::div_mod::lemma_div_multiples_vanish(price as int, 10_000_000_000);
            assert((price as int) * 10_000_000_000 == 10_000_000_000 * (price as int)) by (
            nonlinear_arith);
        };
        vstd::arithmetic::div_mod::lemma_div_is_ordered(
            (price as int) * pct,
            (price as int) * 10_000_000_000,
            10_000_000_000,
        );
        vstd::arithmetic::div_mod::lemma_div_pos_is_pos((price as int) * pct, 10_000_000_000);
    }
    let bump: u128 = ((price as u128) * (pct as u128)) / 10_000_000_000u128;
    price + (bump as u64)
}

/// Computes the normalized notional a held base quantity sells for.
fn sale_notional(held: u64, price: u64, f: &ConstraintSet) -> (r: Option<u64>)
    requires
        held <= MAX_AMOUNT,
        price <= MAX_AMOUNT,
    ensures
        r is Some <==> spec_sale_notional(held as int, price as int, *f) is Some,
        r is Some ==> r.unwrap() == spec_sale_notional(held as int, price as int, *f).unwrap(),
        r is Some ==> r.unwrap() <= f.qty_max,
{
    proof {
        assert((held as int) * (price as int) <= (MAX_AMOUNT as int) * (MAX_AMOUNT as int)) by (
        nonlinear_arith)
            requires
                held <= MAX_AMOUNT,
                price <= MAX_AMOUNT,
        ;
    }
    let raw: u128 = ((held as u128) * (price as u128)) / 100_000_000u128;
    if raw > 1_000_000_000_000_000_000u128 {
        return None;
    }
    crate::prices::normalize_amount(raw as u64, f.qty_min, f.qty_max, f.qty_step)
}

/// Scans the bids (best first) for a sale of the held quantity.
fn scan_bids_for_sale(held: u64, f: &ConstraintSet, bids: &Vec<(u64, u64)>) -> (r: Option<
    (u64, u64),
>)
    requires
        held <= MAX_AMOUNT,
        forall|i: int|
            0 <= i < bids@.len() ==> (#[trigger] bids@[i]).0 <= MAX_AMOUNT && bids@[i].1
                <= MAX_AMOUNT,
    ensures
        r == spec_sale_scan(held, *f, bids@),
{
    let ghost whole = bids@;
    let mut i: usize = 0;
    let mut found: Option<(u64, u64)> = None;
    proof {
        assert(whole.skip(0) =~= whole);
    }
    while i < bids.len() && found.is_none()
        invariant
            i <= whole.len(),
            whole == bids@,
            held <= MAX_AMOUNT,
            forall|k: int|
                0 <= k < whole.len() ==> (#[trigger] whole[k]).0 <= MAX_AMOUNT && whole[k].1
                    <= MAX_AMOUNT,
            found is None ==> spec_sale_scan(held, *f, whole) == spec_sale_scan(
                held,
                *f,
                whole.skip(i as int),
            ),
            found is Some ==> found == spec_sale_scan(held, *f, whole),
        decreases whole.len() - i,
    {
        proof {
            assert(whole.skip(i as int).drop_first() =~= whole.skip(i as int + 1));
            assert(whole.skip(i as int)[0] == whole[i as int]);
        }
        let price = bids[i].0;
        let level_qty = bids[i].1;
        if price > 0 && level_qty > 0 {
            if let Some(notional) = sale_notional(held, price, f) {
                if level_qty >= notional {
                    found = Some((notional, price));
                }
            }
        }
        i = i + 1;
    }
    proof {
        if found is None {
            assert(whole.skip(whole.len() as int) =~= Seq::<(u64, u64)>::empty());
        }
    }
    found
}

/// Probes whether the order books allow the position's next order, and at
/// what quantity and price. The side follows the position's action,
/// reversed once the phase is Leave. A buy walks the asks for the first
/// level covering the base quantity the budget buys and hands back that
/// quantity with the ask's price; a sale walks the bids for the first level
/// covering the held quantity's normalized notional and hands back that
/// notional with the bid's price. `None` means no order is possible now.
pub fn _symbol_action_qty_price_posibility(
    trading_symbol: TradingSymbol,
    asks_map: Vec<(u64, u64)>,
    bids_map: Vec<(u64, u64)>,
) -> (r: Option<(u64, u64)>)
    requires
        trading_symbol.wf(),
        spec_asks_best_first(asks_map@),
        spec_bids_best_first(bids_map@),
        forall|i: int|
            0 <= i < asks_map@.len() ==> (#[trigger] asks_map@[i]).0 <= MAX_AMOUNT
                && asks_map@[i].1 <= MAX_AMOUNT,
        forall|i: int|
            0 <= i < bids_map@.len() ==> (#[trigger] bids_map@[i]).0 <= MAX_AMOUNT
                && bids_map@[i].1 <= MAX_AMOUNT,
    ensures
        ({
            let action = if trading_symbol.trading_next_step == TradingNextStep::Leave {
                if trading_symbol.current_symbol_action == SymbolAction::Buy {
                    SymbolAction::Sell
                } else {
                    SymbolAction::Buy
                }
            } else {
                trading_symbol.current_symbol_action
            };
            if action == SymbolAction::Buy {
                r == spec_entry_scan(trading_symbol.qty, trading_symbol.filters, asks_map@)
            } else {
                r == spec_sale_scan(trading_symbol.qty, trading_symbol.filters, bids_map@)
            }
        }),
{
    let mut symbol_action = trading_symbol.current_symbol_action;

    if trading_symbol.trading_next_step == TradingNextStep::Leave {
        symbol_action = crate::types::reverse_symbol_action(trading_symbol.current_symbol_action);
    }

    if symbol_action == SymbolAction::Buy {
        return scan_asks_for_entry(trading_symbol.qty, &trading_symbol.filters, &asks_map);
    }

    scan_bids_for_sale(trading_symbol.qty, &trading_symbol.filters, &bids_map)
}

/// Scans the asks (best first) for the first level covering the base
/// quantity the quote budget buys.
fn scan_asks_for_entry(budget: u64, f: &ConstraintSet, asks: &Vec<(u64, u64)>) -> (r: Option<
    (u64, u64),
>)
    requires
        budget <= MAX_AMOUNT,
        forall|i: int|
            0 <= i < asks@.len() ==> (#[trigger] asks@[i]).0 <= MAX_AMOUNT && asks@[i].1
                <= MAX_AMOUNT,
    ensures
        r == spec_entry_scan(budget, *f, asks@),
        r is Some ==> r.unwrap().0 <= f.qty_max && 1 <= r.unwrap().1 <= MAX_AMOUNT,
{
    let ghost whole = asks@;
    let mut i: usize = 0;
    let mut found: Option<(u64, u64)> = None;
    proof {
        assert(whole.skip(0) =~= whole);
    }
    while i < asks.len() && found.is_none()
        invariant
            i <= whole.len(),
            whole == asks@,
            budget <= MAX_AMOUNT,
            forall|k: int|
                0 <= k < whole.len() ==> (#[trigger] whole[k]).0 <= MAX_AMOUNT && whole[k].1
                    <= MAX_AMOUNT,
            found is None ==> spec_entry_scan(budget, *f, whole) == spec_entry_scan(
                budget,
                *f,
                whole.skip(i as int),
            ),
            found is Some ==> found == spec_entry_scan(budget, *f, whole),
            found is Some ==> found.unwrap().0 <= f.qty_max && 1 <= found.unwrap().1 <= MAX_AMOUNT,
        decreases whole.len() - i,
    {
        proof {
            assert(whole.skip(i as int).drop_first() =~= whole.skip(i as int + 1));
            assert(whole.skip(i as int)[0] == whole[i as int]);
        }
        let price = asks[i].0;
        let level_qty = asks[i].1;
        if price > 0 && level_qty > 0 {
            if let Some(base_qty) = desired_base_qty(budget, price, f) {
                if level_qty >= base_qty {
                    found = Some((base_qty, price));
                }
            }
        }
        i = i + 1;
    }
    proof {
        if found is None {
            assert(whole.skip(whole.len() as int) =~= Seq::<(u64, u64)>::empty());
        }
    }
    found
}

/// The profit percent a sell at the given best bid would realize:
/// the percent difference between the quote spent entering and the quote a
/// sell of the held quantity at that bid would bring, truncated to
/// hundredths of a percent. Zero when the position's next action is not a
/// sell.
pub open spec fn spec_current_profit_pct(ts: TradingSymbol, best_bid_price: int) -> int {
    if ts.current_symbol_action == SymbolAction::Sell {
        trunc_toward_zero(
            pct_of(ts.used_qty as int, (ts.qty * best_bid_price) / (AMOUNT_SCALE as int)),
            HUNDREDTH_PCT as int,
        )
    } else {
        0
    }
}

/// Computes the running profit percent against the current best bid.
pub fn check_current_profit_percent(
    trading_symbol: TradingSymbol,
    _best_ask_qty: u64,
    _best_ask_price: u64,
    _best_bid_qty: u64,
    best_bid_price: u64,
) -> (r: i128)
    requires
        trading_symbol.wf(),
        best_bid_price <= MAX_AMOUNT,
        trading_symbol.current_symbol_action == SymbolAction::Sell ==> 1
            <= trading_symbol.used_qty,
        trading_symbol.current_symbol_action == SymbolAction::Sell ==> (trading_symbol.qty
            * best_bid_price) / (AMOUNT_SCALE as int) <= MAX_AMOUNT,
    ensures
        r == spec_current_profit_pct(trading_symbol, best_bid_price as int),
        -MAX_PERCENT <= r <= MAX_PERCENT,
{
    if trading_symbol.current_symbol_action == SymbolAction::Sell {
        let qty_tmp = match qty_times_price(trading_symbol.qty, best_bid_price) {
            Some(v) => v,
            None => {
                proof {
                    assert(false);
                }
                0
            },
        };
        let pct = percent_diff(trading_symbol.used_qty, qty_tmp);
        let r = round_percent_to_hundredth(pct);
        proof {
            crate::amounts::lemma_trunc_toward_zero_bounds(pct as int, HUNDREDTH_PCT as int);
        }
        r
    } else {
        0
    }
}

} // verus!
