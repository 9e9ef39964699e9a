use vstd::prelude::*;
use crate::amounts::MAX_AMOUNT;
use crate::amounts::HUNDREDTH_AMOUNT;
use crate::amounts::amount_diff_rounded;
use crate::amounts::trunc_toward_zero;
use crate::settings::ConfigStruct;
use crate::types::Symbol;

verus! {

/// One admitted position, as the scheduler tracks it: the symbol, the
/// capital unit it was started with, and the price the classifier saw.
#[derive(Debug, Clone)]
pub struct ActiveTrade {
    pub symbol: Symbol,
    pub started_qty: u64,
    pub monitored_price: u64,
}

/// One cooldown record: when trading of the symbol last completed.
#[derive(Debug, Clone)]
pub struct CooldownEntry {
    pub symbol: Symbol,
    pub finished_at: u64,
}

/// Sum of a sequence of capital units.
pub open spec fn sum_units(s: Seq<u64>) -> int
    decreases s.len(),
{
    if s.len() == 0 {
        0
    } else {
        sum_units(s.drop_last()) + s.last()
    }
}

/// Sum of the started quantities of a sequence of active positions.
pub open spec fn sum_started(s: Seq<ActiveTrade>) -> int
    decreases s.len(),
{
    if s.len() == 0 {
        0
    } else {
        sum_started(s.drop_last()) + s.last().started_qty
    }
}

/// Sum of a profit ledger.
pub open spec fn sum_profits(s: Seq<i128>) -> int
    decreases s.len(),
{
    if s.len() == 0 {
        0
    } else {
        sum_profits(s.drop_last()) + s.last()
    }
}

pub proof fn lemma_sum_units_nonneg(s: Seq<u64>)
    ensures
        0 <= sum_units(s),
    decreases s.len(),
{
    if s.len() > 0 {
        lemma_sum_units_nonneg(s.drop_last());
    }
}

pub proof fn lemma_sum_started_nonneg(s: Seq<ActiveTrade>)
    ensures
        0 <= sum_started(s),
    decreases s.len(),
{
    if s.len() > 0 {
        lemma_sum_started_nonneg(s.drop_last());
    }
}

pub proof fn lemma_sum_units_push(s: Seq<u64>, x: u64)
    ensures
        sum_units(s.push(x)) == sum_units(s) + x,
{
    assert(s.push(x).drop_last() =~= s);
}

pub proof fn lemma_sum_started_push(s: Seq<ActiveTrade>, x: ActiveTrade)
    ensures
        sum_started(s.push(x)) == sum_started(s) + x.started_qty,
{
    assert(s.push(x).drop_last() =~= s);
}

pub proof fn lemma_sum_profits_push(s: Seq<i128>, x: i128)
    ensures
        sum_profits(s.push(x)) == sum_profits(s) + x,
{
    assert(s.push(x).drop_last() =~= s);
}

pub proof fn lemma_sum_units_remove(s: Seq<u64>, i: int)
    requires
        0 <= i < s.len(),
    ensures
        sum_units(s.remove(i)) == sum_units(s) - s[i],
    decreases s.len(),
{
    if i == s.len() - 1 {
        assert(s.remove(i) =~= s.drop_last());
    } else {
        lemma_sum_units_remove(s.drop_last(), i);
        assert(s.remove(i).drop_last() =~= s.drop_last().remove(i));
        assert(s.remove(i).last() == s.last());
    }
}

pub proof fn lemma_sum_started_remove(s: Seq<ActiveTrade>, i: int)
    requires
        0 <= i < s.len(),
    ensures
        sum_started(s.remove(i)) == sum_started(s) - s[i].started_qty,
    decreases s.len(),
{
    if i == s.len() - 1 {
        assert(s.remove(i) =~= s.drop_last());
    } else {
        lemma_sum_started_remove(s.drop_last(), i);
        assert(s.remove(i).drop_last() =~= s.drop_last().remove(i));
        assert(s.remove(i).last() == s.last());
    }
}

/// How admission may change the cooldown registry: left unchanged, or with
/// exactly the candidate symbol's expired record pruned.
pub open spec fn spec_cooldowns_pruned(
    before: Seq<CooldownEntry>,
    after: Seq<CooldownEntry>,
    sym: Seq<char>,
    now: int,
    break_secs: int,
) -> bool {
    ||| after == before
    ||| exists|i: int|
        0 <= i < before.len() && before[i].symbol@ == sym && now - before[i].finished_at
            >= break_secs && after == before.remove(i)
}

/// The scheduler: owns the capital pool, the active-position registry, the
/// cooldown registry, the stop-admitting gate and the realized-profit
/// ledger. Nothing else mutates them.
#[derive(Debug)]
pub struct Scheduler {
    /// Free capital units; one is handed to each admitted position.
    pub available_pools_list: Vec<u64>,
    /// Positions currently running, at most one per symbol.
    pub active_trades: Vec<ActiveTrade>,
    /// When each recently traded symbol completed; pruned lazily.
    pub symbols_traded_recently: Vec<CooldownEntry>,
    /// Once set, no further symbol is admitted for the process lifetime.
    pub stop_accepting_symbols: bool,
    /// Realized profit of every completed position, in order.
    pub profits_list: Vec<i128>,
    /// Sum of all capital units at start; conserved forever.
    pub initial_pool_value: u64,
    /// Number of capital units at start.
    pub initial_pool_length: usize,
}

impl Scheduler {
    /// Capital conservation: free units plus the started quantities of the
    /// active positions always equal the initial pool value.
    pub open spec fn capital_conserved(&self) -> bool {
        sum_units(self.available_pools_list@) + sum_started(self.active_trades@)
            == self.initial_pool_value
    }

    /// Admission exclusivity: no symbol has two active positions.
    pub open spec fn active_symbols_distinct(&self) -> bool {
        forall|i: int, j: int|
            0 <= i < j < self.active_trades@.len() ==> self.active_trades@[i].symbol@
                != self.active_trades@[j].symbol@
    }

    pub open spec fn cooldown_symbols_distinct(&self) -> bool {
        forall|i: int, j: int|
            0 <= i < j < self.symbols_traded_recently@.len()
                ==> self.symbols_traded_recently@[i].symbol@
                != self.symbols_traded_recently@[j].symbol@
    }

    /// An active symbol is never simultaneously in cooldown.
    pub open spec fn active_not_in_cooldown(&self) -> bool {
        forall|i: int, j: int|
            0 <= i < self.active_trades@.len() && 0 <= j < self.symbols_traded_recently@.len()
                ==> self.active_trades@[i].symbol@ != self.symbols_traded_recently@[j].symbol@
    }

    pub open spec fn amounts_bounded(&self) -> bool {
        &&& forall|i: int|
            0 <= i < self.available_pools_list@.len() ==> self.available_pools_list@[i]
                <= MAX_AMOUNT
        &&& forall|i: int|
            0 <= i < self.active_trades@.len() ==> self.active_trades@[i].started_qty <= MAX_AMOUNT
        &&& forall|i: int|
            0 <= i < self.profits_list@.len() ==> (#[trigger] self.profits_list@[i]) <= MAX_AMOUNT
                && -MAX_AMOUNT <= self.profits_list@[i]
    }

    /// Every state the scheduler reaches satisfies this: conservation,
    /// exclusivity, registry consistency, and arithmetic bounds.
    pub open spec fn wf(&self) -> bool {
        &&& self.capital_conserved()
        &&& self.active_symbols_distinct()
        &&& self.cooldown_symbols_distinct()
        &&& self.active_not_in_cooldown()
        &&& self.amounts_bounded()
        &&& self.available_pools_list@.len() + self.active_trades@.len()
            == self.initial_pool_length
        &&& self.initial_pool_length <= 1000000000
        &&& self.initial_pool_value <= MAX_AMOUNT
    }

    /// Whether a symbol currently has an active position.
    pub open spec fn spec_is_active(&self, sym: Seq<char>) -> bool {
        exists|i: int| 0 <= i < self.active_trades@.len() && self.active_trades@[i].symbol@ == sym
    }

    /// Whether a symbol has a cooldown record at all (expired or not).
    pub open spec fn spec_in_cooldown_registry(&self, sym: Seq<char>) -> bool {
        exists|i: int|
            0 <= i < self.symbols_traded_recently@.len()
                && self.symbols_traded_recently@[i].symbol@ == sym
    }

    /// Whether a symbol's cooldown is still in force at time `now`.
    pub open spec fn spec_cooldown_in_force(&self, sym: Seq<char>, now: int, break_secs: int)
        -> bool {
        exists|i: int|
            0 <= i < self.symbols_traded_recently@.len()
                && self.symbols_traded_recently@[i].symbol@ == sym && now
                - self.symbols_traded_recently@[i].finished_at < break_secs
    }

    /// The admission rule of the scheduler: a candidate is admitted
    /// exactly when it is not active, admissions have not been stopped, its
    /// cooldown is not in force, and a free capital unit exists.
    pub open spec fn spec_admission_allowed(&self, sym: Seq<char>, now: int, break_secs: int)
        -> bool {
        &&& !self.spec_is_active(sym)
        &&& !self.stop_accepting_symbols
        &&& !self.spec_cooldown_in_force(sym, now, break_secs)
        &&& self.available_pools_list@.len() > 0
    }

    /// Builds the scheduler: `max_simultaneously_trading_pairs` capital
    /// units, each of `starting_asset_value`, all free; nothing active, no
    /// cooldowns, gate open, empty ledger.
    pub fn new(config: &ConfigStruct) -> (s: Scheduler)
        requires
            config.wf(),
        ensures
            s.wf(),
            s.available_pools_list@.len() == config.max_simultaneously_trading_pairs,
            forall|i: int|
                0 <= i < s.available_pools_list@.len() ==> s.available_pools_list@[i]
                    == config.starting_asset_value,
            s.active_trades@.len() == 0,
            s.symbols_traded_recently@.len() == 0,
            s.profits_list@.len() == 0,
            !s.stop_accepting_symbols,
            s.initial_pool_value == config.max_simultaneously_trading_pairs
                * config.starting_asset_value,
    {
        let n: u64 = config.max_simultaneously_trading_pairs;
        let mut available_pools_list: Vec<u64> = Vec::new();
        let mut k: u64 = 0;
        while k < n
            invariant
                k <= n,
                config.wf(),
                n == config.max_simultaneously_trading_pairs,
                available_pools_list@.len() == k,
                forall|i: int|
                    0 <= i < k ==> available_pools_list@[i] == config.starting_asset_value,
                sum_units(available_pools_list@) == k * config.starting_asset_value,
            decreases n - k,
        {
            proof {
                lemma_sum_units_push(available_pools_list@, config.starting_asset_value);
                assert((k + 1) * config.starting_asset_value == k * config.starting_asset_value
                    + config.starting_asset_value) by (nonlinear_arith);
            }
            available_pools_list.push(config.starting_asset_value);
            k = k + 1;
        }

        proof {
            assert(n * config.starting_asset_value <= MAX_AMOUNT);
        }
        let initial_pool_value: u64 = n * config.starting_asset_value;

        Scheduler {
            available_pools_list,
            active_trades: Vec::new(),
            symbols_traded_recently: Vec::new(),
            stop_accepting_symbols: false,
            profits_list: Vec::new(),
            initial_pool_value,
            initial_pool_length: n as usize,
        }
    }

    /// Index of the symbol's active position, if any.
    fn find_active_index(&self, symbol: &Symbol) -> (r: Option<usize>)
        ensures
            match r {
                Some(i) => i < self.active_trades@.len() && self.active_trades@[i as int].symbol@
                    == symbol@,
                None => !self.spec_is_active(symbol@),
            },
    {
        let mut i: usize = 0;
        while i < self.active_trades.len()
            invariant
                i <= self.active_trades@.len(),
                forall|j: int| 0 <= j < i ==> self.active_trades@[j].symbol@ != symbol@,
            decreases self.active_trades@.len() - i,
        {
            if self.active_trades[i].symbol == *symbol {
                return Some(i);
            }
            i = i + 1;
        }
        None
    }

    /// Index of the symbol's cooldown record, if any.
    fn find_cooldown_index(&self, symbol: &Symbol) -> (r: Option<usize>)
        ensures
            match r {
                Some(i) => i < self.symbols_traded_recently@.len()
                    && self.symbols_traded_recently@[i as int].symbol@ == symbol@,
                None => !self.spec_in_cooldown_registry(symbol@),
            },
    {
        let mut i: usize = 0;
        while i < self.symbols_traded_recently.len()
            invariant
                i <= self.symbols_traded_recently@.len(),
                forall|j: int| 0 <= j < i ==> self.symbols_traded_recently@[j].symbol@ != symbol@,
            decreases self.symbols_traded_recently@.len() - i,
        {
            if self.symbols_traded_recently[i].symbol == *symbol {
                return Some(i);
            }
            i = i + 1;
        }
        None
    }

    /// Admission control, in the scheduler's order: reject a symbol that is
    /// already active or arrives after admissions stopped; reject one whose
    /// cooldown is still in force (pruning an expired record); reject when
    /// no free capital unit remains. Otherwise pop the oldest unit, record
    /// the position, and hand the unit back as the position's budget.
    pub fn admit_symbol(&mut self, symbol: &Symbol, price: u64, now: u64, config: &ConfigStruct) -> (r:
        Option<u64>)
        requires
            old(self).wf(),
            forall|i: int|
                0 <= i < old(self).symbols_traded_recently@.len() ==> old(
                    self,
                ).symbols_traded_recently@[i].finished_at <= now,
        ensures
            final(self).wf(),
            final(self).initial_pool_value == old(self).initial_pool_value,
            final(self).initial_pool_length == old(self).initial_pool_length,
            final(self).stop_accepting_symbols == old(self).stop_accepting_symbols,
            final(self).profits_list@ == old(self).profits_list@,
            r is Some <==> old(self).spec_admission_allowed(
                symbol@,
                now as int,
                config.orderbook_monitor.break_between_trading_same_symbol_secs as int,
            ),
            r is Some ==> {
                &&& r.unwrap() == old(self).available_pools_list@[0]
                &&& final(self).available_pools_list@ == old(self).available_pools_list@.remove(0)
                &&& final(self).active_trades@.len() == old(self).active_trades@.len() + 1
                &&& final(self).active_trades@.drop_last() == old(self).active_trades@
                &&& final(self).active_trades@.last().symbol@ == symbol@
                &&& final(self).active_trades@.last().started_qty == old(
                    self,
                ).available_pools_list@[0]
                &&& final(self).active_trades@.last().monitored_price == price
                &&& final(self).spec_is_active(symbol@)
            },
            r is None ==> {
                &&& final(self).available_pools_list@ == old(self).available_pools_list@
                &&& final(self).active_trades@ == old(self).active_trades@
            },
            // the cooldown registry is unchanged, except that the symbol's
            // expired record is pruned once the cooldown check runs
            spec_cooldowns_pruned(
                old(self).symbols_traded_recently@,
                final(self).symbols_traded_recently@,
                symbol@,
                now as int,
                config.orderbook_monitor.break_between_trading_same_symbol_secs as int,
            ),
    {
        if self.find_active_index(symbol).is_some() || self.stop_accepting_symbols {
            return None;
        }

        if let Some(i) = self.find_cooldown_index(symbol) {
            let finished_at = self.symbols_traded_recently[i].finished_at;
            if now - finished_at
                < config.orderbook_monitor.break_between_trading_same_symbol_secs {
                proof {
                    assert(old(self).spec_cooldown_in_force(
                        symbol@,
                        now as int,
                        config.orderbook_monitor.break_between_trading_same_symbol_secs as int,
                    ));
                }
                return None;
            }
            self.symbols_traded_recently.remove(i);
            proof {
                assert(forall|j: int|
                    0 <= j < self.symbols_traded_recently@.len()
                        ==> self.symbols_traded_recently@[j]
                        == if j < i as int {
                        old(self).symbols_traded_recently@[j]
                    } else {
                        old(self).symbols_traded_recently@[j + 1]
                    });
                assert(!self.spec_in_cooldown_registry(symbol@));
            }
        }

        if self.available_pools_list.len() == 0 {
            return None;
        }

        proof {
            assert(!old(self).spec_cooldown_in_force(
                symbol@,
                now as int,
                config.orderbook_monitor.break_between_trading_same_symbol_secs as int,
            ));
        }

        let unit = self.available_pools_list.remove(0);
        let entry = ActiveTrade {
            symbol: Symbol(symbol.0.clone()),
            started_qty: unit,
            monitored_price: price,
        };
        proof {
            lemma_sum_units_remove(old(self).available_pools_list@, 0);
            lemma_sum_started_push(self.active_trades@, entry);
        }
        self.active_trades.push(entry);
        Some(unit)
    }

    /// Completion: returns the worker's original capital unit to the pool,
    /// records realized profit (`received - used`, truncated to hundredths)
    /// exactly when both quantities are positive, starts the symbol's
    /// cooldown at `now`, and removes the position from the registry.
    pub fn complete(&mut self, symbol: &Symbol, received_qty: u64, used_qty: u64, now: u64) -> (r:
        Option<i128>)
        requires
            old(self).wf(),
            old(self).spec_is_active(symbol@),
            received_qty <= MAX_AMOUNT,
            used_qty <= MAX_AMOUNT,
        ensures
            final(self).wf(),
            final(self).initial_pool_value == old(self).initial_pool_value,
            final(self).initial_pool_length == old(self).initial_pool_length,
            final(self).stop_accepting_symbols == old(self).stop_accepting_symbols,
            !final(self).spec_is_active(symbol@),
            exists|i: int|
                0 <= i < old(self).active_trades@.len() && old(self).active_trades@[i].symbol@
                    == symbol@ && final(self).active_trades@ == old(self).active_trades@.remove(i)
                    && final(self).available_pools_list@ == old(self).available_pools_list@.push(
                    old(self).active_trades@[i].started_qty,
                ),
            r is Some <==> (received_qty > 0 && used_qty > 0),
            r is Some ==> r.unwrap() == trunc_toward_zero(
                received_qty - used_qty,
                HUNDREDTH_AMOUNT as int,
            ) && final(self).profits_list@ == old(self).profits_list@.push(r.unwrap()),
            r is None ==> final(self).profits_list@ == old(self).profits_list@,
            final(self).symbols_traded_recently@.len() == old(
                self,
            ).symbols_traded_recently@.len() + 1,
            final(self).symbols_traded_recently@.drop_last() == old(
                self,
            ).symbols_traded_recently@,
            final(self).symbols_traded_recently@.last().symbol@ == symbol@,
            final(self).symbols_traded_recently@.last().finished_at == now,
    {
        let idx = match self.find_active_index(symbol) {
            Some(i) => i,
            None => {
                proof {
                    assert(false);
                }
                0
            },
        };

        let entry_qty = self.active_trades[idx].started_qty;

        proof {
            lemma_sum_started_remove(old(self).active_trades@, idx as int);
            lemma_sum_units_push(self.available_pools_list@, entry_qty);
        }

        self.active_trades.remove(idx);
        self.available_pools_list.push(entry_qty);

        proof {
            assert(forall|j: int|
                0 <= j < self.active_trades@.len() ==> self.active_trades@[j] == if j < idx as int {
                    old(self).active_trades@[j]
                } else {
                    old(self).active_trades@[j + 1]
                });
            assert(!self.spec_is_active(symbol@));
        }

        let cooldown = CooldownEntry { symbol: Symbol(symbol.0.clone()), finished_at: now };
        self.symbols_traded_recently.push(cooldown);

        if received_qty > 0 && used_qty > 0 {
            let profit = amount_diff_rounded(received_qty, used_qty);
            proof {
                lemma_sum_profits_push(self.profits_list@, profit);
            }
            self.profits_list.push(profit);
            Some(profit)
        } else {
            None
        }
    }

    /// Sets the stop-admitting gate (permanent) and hands back the symbols
    /// of every active position, so each can be told to liquidate.
    pub fn liquidate_all(&mut self) -> (syms: Vec<Symbol>)
        requires
            old(self).wf(),
        ensures
            final(self).wf(),
            final(self).stop_accepting_symbols,
            final(self).available_pools_list@ == old(self).available_pools_list@,
            final(self).active_trades@ == old(self).active_trades@,
            final(self).symbols_traded_recently@ == old(self).symbols_traded_recently@,
            final(self).profits_list@ == old(self).profits_list@,
            final(self).initial_pool_value == old(self).initial_pool_value,
            final(self).initial_pool_length == old(self).initial_pool_length,
            syms@.len() == final(self).active_trades@.len(),
            forall|i: int|
                0 <= i < syms@.len() ==> syms@[i]@ == final(self).active_trades@[i].symbol@,
    {
        self.stop_accepting_symbols = true;
        let mut syms: Vec<Symbol> = Vec::new();
        let mut i: usize = 0;
        while i < self.active_trades.len()
            invariant
                i <= self.active_trades@.len(),
                syms@.len() == i,
                forall|j: int| 0 <= j < i ==> syms@[j]@ == self.active_trades@[j].symbol@,
            decreases self.active_trades@.len() - i,
        {
            let s = self.active_trades[i].symbol.clone();
            syms.push(s);
            i = i + 1;
        }
        syms
    }

    /// Sum of the currently free capital units.
    pub fn pool_sum(&self) -> (r: u64)
        requires
            self.wf(),
        ensures
            r == sum_units(self.available_pools_list@),
            r <= MAX_AMOUNT,
    {
        proof {
            lemma_sum_started_nonneg(self.active_trades@);
            lemma_sum_units_nonneg(self.available_pools_list@);
        }
        let ghost whole = self.available_pools_list@;
        let mut acc: u64 = 0;
        let mut i: usize = 0;
        while i < self.available_pools_list.len()
            invariant
                self.wf(),
                whole == self.available_pools_list@,
                i <= whole.len(),
                acc == sum_units(whole.subrange(0, i as int)),
                acc <= MAX_AMOUNT,
            decreases whole.len() - i,
        {
            proof {
                assert(whole.subrange(0, i + 1).drop_last() =~= whole.subrange(0, i as int));
                lemma_sum_prefix_le(whole, i + 1);
                lemma_sum_started_nonneg(self.active_trades@);
            }
            acc = acc + self.available_pools_list[i];
            i = i + 1;
        }
        proof {
            assert(whole.subrange(0, whole.len() as int) =~= whole);
        }
        acc
    }

    /// Sum of the realized-profit ledger.
    pub fn profit_sum(&self) -> (r: i128)
        requires
            self.wf(),
        ensures
            r == sum_profits(self.profits_list@),
    {
        let ghost whole = self.profits_list@;
        let mut acc: i128 = 0;
        let mut i: usize = 0;
        while i < self.profits_list.len()
            invariant
                self.wf(),
                whole == self.profits_list@,
                i <= whole.len(),
                acc == sum_profits(whole.subrange(0, i as int)),
                -(i as int) * MAX_AMOUNT <= acc <= (i as int) * MAX_AMOUNT,
            decreases whole.len() - i,
        {
            proof {
                assert(whole.subrange(0, i + 1).drop_last() =~= whole.subrange(0, i as int));
                assert((i + 1) * MAX_AMOUNT == i * MAX_AMOUNT + MAX_AMOUNT) by (nonlinear_arith);
                assert(i * MAX_AMOUNT < 0x8000000000000000000000000000000 * 0x100) by (
                nonlinear_arith)
                    requires
                        i <= 0xffffffffffffffff,
                ;
            }
            acc = acc + self.profits_list[i];
            i = i + 1;
        }
        proof {
            assert(whole.subrange(0, whole.len() as int) =~= whole);
        }
        acc
    }

    /// Capital conservation, as a law of every well-formed state: the free
    /// pool plus the capital out with active positions is the initial pool.
    pub proof fn lemma_capital_conservation(&self)
        requires
            self.wf(),
        ensures
            sum_units(self.available_pools_list@) + sum_started(self.active_trades@)
                == self.initial_pool_value,
    {
    }

    /// Admission exclusivity, as a law of every well-formed state: two
    /// distinct active positions never share a symbol.
    pub proof fn lemma_admission_exclusivity(&self, i: int, j: int)
        requires
            self.wf(),
            0 <= i < self.active_trades@.len(),
            0 <= j < self.active_trades@.len(),
            i != j,
        ensures
            self.active_trades@[i].symbol@ != self.active_trades@[j].symbol@,
    {
    }
}

/// A prefix sum of capital units never exceeds the whole sum.
pub proof fn lemma_sum_prefix_le(s: Seq<u64>, i: int)
    requires
        0 <= i <= s.len(),
    ensures
        sum_units(s.subrange(0, i)) <= sum_units(s),
    decreases s.len() - i,
{
    if i == s.len() {
        assert(s.subrange(0, i) =~= s);
    } else {
        lemma_sum_prefix_le(s, i + 1);
        assert(s.subrange(0, i + 1).drop_last() =~= s.subrange(0, i));
    }
}

} // verus!
