use vstd::prelude::*;
use crate::amounts::AMOUNT_SCALE;
use crate::amounts::MAX_AMOUNT;
use crate::types::SymbolAction;

verus! {

/// Delay between fill checks of an entry order, seconds.
pub const FILL_BUY_ASK_DELAY: u64 = 2;

/// Fill checks granted to an entry order before it is cancelled.
pub const LIMIT_BUY_ATTEMPTS: u64 = 3;

/// Delay between fill checks of an exit order, seconds.
pub const FILL_SELL_ASK_DELAY: u64 = 10;

/// Fill checks granted to an exit order before it is left resting.
pub const LIMIT_SELL_ATTEMPTS: u64 = 3;

/// Status of an order as the exchange reports it.
#[derive(Debug, Clone, Copy, PartialEq, Eq, Structural)]
pub enum OrderStatus {
    New,
    PartiallyFilled,
    Filled,
    Canceled,
    Other,
}

/// What the entry-order confirmation loop does next: bounded retries
/// with a fixed delay; exhausting them cancels the order; a cancelled order
/// keeps its partial fill or reports a zero-fill failure.
#[derive(Debug, Clone, Copy, PartialEq, Eq, Structural)]
pub enum BuyPollAction {
    AcceptFilled,
    AcceptAfterCancel,
    ZeroFillFailure,
    CancelNow,
    KeepWaiting,
}

/// What the exit-order confirmation loop does next: bounded retries;
/// exhausting them leaves the order resting and reports a zero/zero
/// outcome.
#[derive(Debug, Clone, Copy, PartialEq, Eq, Structural)]
pub enum SellPollAction {
    AcceptFilled,
    GiveUpLeaveResting,
    KeepWaiting,
}

/// Decides one round of the entry-order confirmation loop from the order's
/// reported status, its executed quantity, whether a cancel was already
/// sent, and how many checks have run.
pub fn buy_order_poll_decision(
    status: OrderStatus,
    executed_qty: u64,
    order_was_cancelled: bool,
    attempts: u64,
) -> (r: BuyPollAction)
    ensures
        status == OrderStatus::Filled ==> r == BuyPollAction::AcceptFilled,
        status != OrderStatus::Filled && order_was_cancelled && status
            == OrderStatus::PartiallyFilled ==> r == BuyPollAction::AcceptAfterCancel,
        status != OrderStatus::Filled && order_was_cancelled && status
            != OrderStatus::PartiallyFilled && executed_qty == 0 ==> r
            == BuyPollAction::ZeroFillFailure,
        status != OrderStatus::Filled && order_was_cancelled && status
            != OrderStatus::PartiallyFilled && executed_qty > 0 ==> r
            == BuyPollAction::AcceptAfterCancel,
        status != OrderStatus::Filled && !order_was_cancelled && attempts >= LIMIT_BUY_ATTEMPTS
            ==> r == BuyPollAction::CancelNow,
        status != OrderStatus::Filled && !order_was_cancelled && attempts < LIMIT_BUY_ATTEMPTS
            ==> r == BuyPollAction::KeepWaiting,
{
    if status == OrderStatus::Filled {
        return BuyPollAction::AcceptFilled;
    }
    if order_was_cancelled {
        if status == OrderStatus::PartiallyFilled {
            return BuyPollAction::AcceptAfterCancel;
        }
        if executed_qty == 0 {
            return BuyPollAction::ZeroFillFailure;
        }
        return BuyPollAction::AcceptAfterCancel;
    }
    if attempts >= LIMIT_BUY_ATTEMPTS {
        return BuyPollAction::CancelNow;
    }
    BuyPollAction::KeepWaiting
}

/// Decides one round of the exit-order confirmation loop.
pub fn sell_order_poll_decision(status: OrderStatus, attempts: u64) -> (r: SellPollAction)
    ensures
        status == OrderStatus::Filled ==> r == SellPollAction::AcceptFilled,
        status != OrderStatus::Filled && attempts >= LIMIT_SELL_ATTEMPTS ==> r
            == SellPollAction::GiveUpLeaveResting,
        status != OrderStatus::Filled && attempts < LIMIT_SELL_ATTEMPTS ==> r
            == SellPollAction::KeepWaiting,
{
    if status == OrderStatus::Filled {
        return SellPollAction::AcceptFilled;
    }
    if attempts >= LIMIT_SELL_ATTEMPTS {
        return SellPollAction::GiveUpLeaveResting;
    }
    SellPollAction::KeepWaiting
}

/// How the exchange answered an order submission.
#[derive(Debug, Clone, Copy, PartialEq, Eq, Structural)]
pub enum OrderPlacementOutcome {
    Accepted,
    RejectedOrErrored,
}

/// What the supervisor does with an order submission's outcome.
#[derive(Debug, Clone, Copy, PartialEq, Eq, Structural)]
pub enum SupervisorAction {
    ConfirmFill,
    FatalAllStop,
}

/// The fail-fast policy on order placement: an accepted order proceeds to
/// fill confirmation; a submission the exchange rejects or errors stops the
/// whole agent, favoring capital safety over availability. The supervisor
/// receiving `FatalAllStop` performs the orderly shutdown.
pub fn order_placement_decision(outcome: OrderPlacementOutcome) -> (r: SupervisorAction)
    ensures
        r == SupervisorAction::FatalAllStop <==> outcome
            == OrderPlacementOutcome::RejectedOrErrored,
{
    if outcome == OrderPlacementOutcome::RejectedOrErrored {
        return SupervisorAction::FatalAllStop;
    }
    SupervisorAction::ConfirmFill
}

/// The fill a simulated order reports, always successful: a buy receives
/// the requested base quantity for a quote spend of `qty * price`; a sell
/// spends the base quantity and receives `qty * price` quote. `None` when
/// the notional leaves the numeric range.
pub fn simulated_fill(action: SymbolAction, qty: u64, price: u64) -> (r: Option<(u64, u64)>)
    requires
        qty <= MAX_AMOUNT,
        price <= MAX_AMOUNT,
    ensures
        r is Some <==> (qty * price) / (AMOUNT_SCALE as int) <= MAX_AMOUNT,
        r is Some && action == SymbolAction::Buy ==> r.unwrap().0 == qty && r.unwrap().1 == (qty
            * price) / (AMOUNT_SCALE as int),
        r is Some && action == SymbolAction::Sell ==> r.unwrap().0 == (qty * price) / (
        AMOUNT_SCALE as int) && r.unwrap().1 == qty,
{
    match crate::execution::qty_times_price(qty, price) {
        Some(notional) => {
            if action == SymbolAction::Buy {
                Some((qty, notional))
            } else {
                Some((notional, qty))
            }
        },
        None => None,
    }
}

} // verus!
