use vstd::prelude::*;

verus! {

/// A symbol's numeric trading constraints, as the exchange publishes them:
/// price band and tick, quantity band and step, notional floor, and the
/// market-order variants of the quantity bounds. Amounts are fixed-point
/// units of `crate::amounts::AMOUNT_SCALE`.
#[derive(Debug, Clone, Copy)]
pub struct ConstraintSet {
    pub price_min: u64,
    pub price_max: u64,
    pub price_tick: u64,
    pub percent_price_multi_up: u64,
    pub percent_price_multi_down: u64,
    pub percent_price_avg_min: u64,
    pub qty_min: u64,
    pub qty_max: u64,
    pub qty_step: u64,
    pub notional_min: u64,
    pub notional_apply_to_market: bool,
    pub notional_avg_price_mins: u64,
    pub market_qty_min: u64,
    pub market_qty_max: u64,
    pub market_qty_step: u64,
}

impl ConstraintSet {
    /// A constraint set with every field zeroed; fields are filled from the
    /// exchange's filter records.
    pub fn empty() -> (r: ConstraintSet)
        ensures
            r == ConstraintSet::spec_empty(),
    {
        ConstraintSet {
            price_min: 0,
            price_max: 0,
            price_tick: 0,
            percent_price_multi_up: 0,
            percent_price_multi_down: 0,
            percent_price_avg_min: 0,
            qty_min: 0,
            qty_max: 0,
            qty_step: 0,
            notional_min: 0,
            notional_apply_to_market: false,
            notional_avg_price_mins: 0,
            market_qty_min: 0,
            market_qty_max: 0,
            market_qty_step: 0,
        }
    }

    pub open spec fn spec_empty() -> ConstraintSet {
        ConstraintSet {
            price_min: 0,
            price_max: 0,
            price_tick: 0,
            percent_price_multi_up: 0,
            percent_price_multi_down: 0,
            percent_price_avg_min: 0,
            qty_min: 0,
            qty_max: 0,
            qty_step: 0,
            notional_min: 0,
            notional_apply_to_market: false,
            notional_avg_price_mins: 0,
            market_qty_min: 0,
            market_qty_max: 0,
            market_qty_step: 0,
        }
    }
}

/// The kinds of filter entry the exchange publishes per symbol.
#[derive(Debug, Clone, Copy, PartialEq, Eq, Structural)]
pub enum FilterType {
    PriceFilter,
    PercentPrice,
    LotSize,
    MinNotional,
    MarketLotSize,
    Other,
}

/// One filter entry of a symbol's metadata, reduced to plain values: its
/// kind and whichever numeric fields it carried. Amounts are fixed-point
/// units.
#[derive(Debug, Clone)]
pub struct FilterRecord {
    pub filter_type: FilterType,
    pub min_price: Option<u64>,
    pub max_price: Option<u64>,
    pub tick_size: Option<u64>,
    pub multiplier_up: Option<u64>,
    pub multiplier_down: Option<u64>,
    pub avg_price_mins: Option<u64>,
    pub min_qty: Option<u64>,
    pub max_qty: Option<u64>,
    pub step_size: Option<u64>,
    pub min_notional: Option<u64>,
    pub apply_to_market: Option<bool>,
}

/// The value an optional filter field contributes, keeping the fallback
/// where the field was absent.
pub open spec fn spec_field_or(v: Option<u64>, fallback: u64) -> u64 {
    match v {
        Some(x) => x,
        None => fallback,
    }
}

/// One filter record folded into a constraint set: the record's kind says
/// which fields it may overwrite, and only fields it actually carries are
/// overwritten.
pub open spec fn spec_apply_filter_record(acc: ConstraintSet, r: FilterRecord) -> ConstraintSet {
    match r.filter_type {
        FilterType::PriceFilter => ConstraintSet {
            price_min: spec_field_or(r.min_price, acc.price_min),
            price_max: spec_field_or(r.max_price, acc.price_max),
            price_tick: spec_field_or(r.tick_size, acc.price_tick),
            ..acc
        },
        FilterType::PercentPrice => ConstraintSet {
            percent_price_multi_up: spec_field_or(r.multiplier_up, acc.percent_price_multi_up),
            percent_price_multi_down: spec_field_or(
                r.multiplier_down,
                acc.percent_price_multi_down,
            ),
            percent_price_avg_min: spec_field_or(r.avg_price_mins, acc.percent_price_avg_min),
            ..acc
        },
        FilterType::LotSize => ConstraintSet {
            qty_min: spec_field_or(r.min_qty, acc.qty_min),
            qty_max: spec_field_or(r.max_qty, acc.qty_max),
            qty_step: spec_field_or(r.step_size, acc.qty_step),
            ..acc
        },
        FilterType::MinNotional => ConstraintSet {
            notional_min: spec_field_or(r.min_notional, acc.notional_min),
            notional_apply_to_market: (match r.apply_to_market {
                Some(b) => b,
                None => acc.notional_apply_to_market,
            }),
            notional_avg_price_mins: spec_field_or(r.avg_price_mins, acc.notional_avg_price_mins),
            ..acc
        },
        FilterType::MarketLotSize => ConstraintSet {
            market_qty_min: spec_field_or(r.min_qty, acc.market_qty_min),
            market_qty_max: spec_field_or(r.max_qty, acc.market_qty_max),
            market_qty_step: spec_field_or(r.step_size, acc.market_qty_step),
            ..acc
        },
        FilterType::Other => acc,
    }
}

/// A whole filter list folded left to right over a zeroed constraint set:
/// a later record of the same kind overwrites an earlier one.
pub open spec fn spec_fold_filter_records(s: Seq<FilterRecord>) -> ConstraintSet
    decreases s.len(),
{
    if s.len() == 0 {
        ConstraintSet::spec_empty()
    } else {
        spec_apply_filter_record(spec_fold_filter_records(s.drop_last()), s.last())
    }
}

/// Parses a symbol's filter list into its constraint set. Fields that no
/// record carries stay zero.
#[derive(Debug, Clone)]
pub struct FiltersParser {
    pub min_price: u64,
    pub max_price: u64,
    pub tick_size: u64,
    pub percent_price_multi_up: u64,
    pub percent_price_multi_down: u64,
    pub percent_price_avg_min: u64,
    pub lot_min_qty: u64,
    pub lot_max_qty: u64,
    pub lot_step_size: u64,
    pub min_notional_min: u64,
    pub notional_apply_to_market: bool,
    pub notional_avg_price_mins: u64,
    pub market_lot_min_qty: u64,
    pub market_lot_max_qty: u64,
    pub market_lot_step_size: u64,
}

impl FiltersParser {
    /// The constraint set this parse carries.
    pub open spec fn spec_constraints(&self) -> ConstraintSet {
        ConstraintSet {
            price_min: self.min_price,
            price_max: self.max_price,
            price_tick: self.tick_size,
            percent_price_multi_up: self.percent_price_multi_up,
            percent_price_multi_down: self.percent_price_multi_down,
            percent_price_avg_min: self.percent_price_avg_min,
            qty_min: self.lot_min_qty,
            qty_max: self.lot_max_qty,
            qty_step: self.lot_step_size,
            notional_min: self.min_notional_min,
            notional_apply_to_market: self.notional_apply_to_market,
            notional_avg_price_mins: self.notional_avg_price_mins,
            market_qty_min: self.market_lot_min_qty,
            market_qty_max: self.market_lot_max_qty,
            market_qty_step: self.market_lot_step_size,
        }
    }

    /// Folds a symbol's filter records, in order, into the parsed fields.
    pub fn new(v: &Vec<FilterRecord>) -> (r: FiltersParser)
        ensures
            r.spec_constraints() == spec_fold_filter_records(v@),
    {
        let mut acc = ConstraintSet::empty();
        let mut i: usize = 0;
        proof {
            assert(v@.subrange(0, 0) =~= Seq::<FilterRecord>::empty());
        }
        while i < v.len()
            invariant
                i <= v@.len(),
                acc == spec_fold_filter_records(v@.subrange(0, i as int)),
            decreases v@.len() - i,
        {
            proof {
                assert(v@.subrange(0, i + 1).drop_last() =~= v@.subrange(0, i as int));
                assert(v@.subrange(0, i + 1).last() == v@[i as int]);
            }
            acc = apply_filter_record(acc, &v[i]);
            i = i + 1;
        }
        proof {
            assert(v@.subrange(0, v@.len() as int) =~= v@);
        }

        FiltersParser {
            min_price: acc.price_min,
            max_price: acc.price_max,
            tick_size: acc.price_tick,
            percent_price_multi_up: acc.percent_price_multi_up,
            percent_price_multi_down: acc.percent_price_multi_down,
            percent_price_avg_min: acc.percent_price_avg_min,
            lot_min_qty: acc.qty_min,
            lot_max_qty: acc.qty_max,
            lot_step_size: acc.qty_step,
            min_notional_min: acc.notional_min,
            notional_apply_to_market: acc.notional_apply_to_market,
            notional_avg_price_mins: acc.notional_avg_price_mins,
            market_lot_min_qty: acc.market_qty_min,
            market_lot_max_qty: acc.market_qty_max,
            market_lot_step_size: acc.market_qty_step,
        }
    }

    /// The parsed fields as a constraint set.
    pub fn constraints(&self) -> (r: ConstraintSet)
        ensures
            r == self.spec_constraints(),
    {
        ConstraintSet {
            price_min: self.min_price,
            price_max: self.max_price,
            price_tick: self.tick_size,
            percent_price_multi_up: self.percent_price_multi_up,
            percent_price_multi_down: self.percent_price_multi_down,
            percent_price_avg_min: self.percent_price_avg_min,
            qty_min: self.lot_min_qty,
            qty_max: self.lot_max_qty,
            qty_step: self.lot_step_size,
            notional_min: self.min_notional_min,
            notional_apply_to_market: self.notional_apply_to_market,
            notional_avg_price_mins: self.notional_avg_price_mins,
            market_qty_min: self.market_lot_min_qty,
            market_qty_max: self.market_lot_max_qty,
            market_qty_step: self.market_lot_step_size,
        }
    }
}

/// Applies one filter record to a constraint set, exactly as the fold
/// specifies.
fn apply_filter_record(acc: ConstraintSet, r: &FilterRecord) -> (out: ConstraintSet)
    ensures
        out == spec_apply_filter_record(acc, *r),
{
    let mut out = acc;
    match r.filter_type {
        FilterType::PriceFilter => {
            if let Some(x) = r.min_price {
                out.price_min = x;
            }
            if let Some(x) = r.max_price {
                out.price_max = x;
            }
            if let Some(x) = r.tick_size {
                out.price_tick = x;
            }
        },
        FilterType::PercentPrice => {
            if let Some(x) = r.multiplier_up {
                out.percent_price_multi_up = x;
            }
            if let Some(x) = r.multiplier_down {
                out.percent_price_multi_down = x;
            }
            if let Some(x) = r.avg_price_mins {
                out.percent_price_avg_min = x;
            }
        },
        FilterType::LotSize => {
            if let Some(x) = r.min_qty {
                out.qty_min = x;
            }
            if let Some(x) = r.max_qty {
                out.qty_max = x;
            }
            if let Some(x) = r.step_size {
                out.qty_step = x;
            }
        },
        FilterType::MinNotional => {
            if let Some(x) = r.min_notional {
                out.notional_min = x;
            }
            if let Some(b) = r.apply_to_market {
                out.notional_apply_to_market = b;
            }
            if let Some(x) = r.avg_price_mins {
                out.notional_avg_price_mins = x;
            }
        },
        FilterType::MarketLotSize => {
            if let Some(x) = r.min_qty {
                out.market_qty_min = x;
            }
            if let Some(x) = r.max_qty {
                out.market_qty_max = x;
            }
            if let Some(x) = r.step_size {
                out.market_qty_step = x;
            }
        },
        FilterType::Other => {},
    }
    out
}

} // verus!
