use vstd::prelude::*;
use crate::amounts::MAX_AMOUNT;
use crate::amounts::MAX_PERCENT;
use crate::amounts::pct_of;
use crate::settings::ConfigStruct;
use crate::types::SendToTradeDecision;
use crate::types::Symbol;
use crate::window::calculate_post_window;
use crate::window::calculate_pre_window;
use crate::window::calculate_window;
use crate::window::spec_drop_reached;
use crate::window::spec_rise_reached;

verus! {

/// Fingerprint of one ticker payload: a change in any of these fields
/// counts as one unit of volatility, independent of the price itself.
#[derive(Debug, Clone, Copy, PartialEq, Eq, Structural)]
pub struct VolatilityKey {
    pub num_trades: u64,
    pub price_change: i64,
    pub best_bid: u64,
    pub best_ask: u64,
    pub volume: u64,
}

/// One tick of the all-market ticker stream, reduced to the fields the
/// classifier reads. Amounts are fixed-point units.
#[derive(Debug, Clone)]
pub struct TickerEvent {
    pub symbol: Symbol,
    pub best_bid: u64,
    pub best_ask: u64,
    pub volume: u64,
    pub num_trades: u64,
    pub price_change: i64,
}

impl TickerEvent {
    /// The volatility fingerprint this tick carries.
    pub open spec fn spec_key(&self) -> VolatilityKey {
        VolatilityKey {
            num_trades: self.num_trades,
            price_change: self.price_change,
            best_bid: self.best_bid,
            best_ask: self.best_ask,
            volume: self.volume,
        }
    }

    /// Extracts the volatility fingerprint.
    pub fn key(&self) -> (k: VolatilityKey)
        ensures
            k == self.spec_key(),
    {
        VolatilityKey {
            num_trades: self.num_trades,
            price_change: self.price_change,
            best_bid: self.best_bid,
            best_ask: self.best_ask,
            volume: self.volume,
        }
    }
}

/// What the classifier tracks per symbol: the bounded price history and the
/// volatility counter with its fingerprint and rolling-window start.
#[derive(Debug, Clone)]
pub struct SymbolTrack {
    pub prices: Vec<u64>,
    pub variability_count: u64,
    pub var_last_key: VolatilityKey,
    pub var_window_start: u64,
}

/// The mathematical model of one symbol's track.
#[verifier::ext_equal]
pub struct TrackModel {
    pub prices: Seq<u64>,
    pub variability_count: u64,
    pub var_last_key: VolatilityKey,
    pub var_window_start: u64,
}

impl View for SymbolTrack {
    type V = TrackModel;

    open spec fn view(&self) -> TrackModel {
        TrackModel {
            prices: self.prices@,
            variability_count: self.variability_count,
            var_last_key: self.var_last_key,
            var_window_start: self.var_window_start,
        }
    }
}

/// A price history after one more price: append-only until the
/// configured length is reached, then drop-oldest.
pub open spec fn spec_prices_next(s: Seq<u64>, price: u64, n: int) -> Seq<u64> {
    if s.len() < n {
        s.push(price)
    } else {
        s.subrange(1, s.len() as int).push(price)
    }
}

/// One volatility/history step of a track: an unchanged fingerprint
/// leaves the counter alone; a changed one resets the counter to one when
/// the check window has expired, and increments it otherwise (capped at the
/// machine's limit); the price is appended either way.
pub open spec fn spec_track_step(
    t: TrackModel,
    key: VolatilityKey,
    price: u64,
    now: u64,
    check_secs: u64,
    n: int,
) -> TrackModel {
    let unchanged = key == t.var_last_key;
    TrackModel {
        prices: spec_prices_next(t.prices, price, n),
        variability_count: if unchanged {
            t.variability_count
        } else if now - t.var_window_start >= check_secs {
            1u64
        } else if t.variability_count == u64::MAX {
            u64::MAX
        } else {
            (t.variability_count + 1) as u64
        },
        var_last_key: if unchanged {
            t.var_last_key
        } else {
            key
        },
        var_window_start: if !unchanged && now - t.var_window_start >= check_secs {
            now
        } else {
            t.var_window_start
        },
    }
}

impl SymbolTrack {
    /// Prices a track may hold: positive and within the numeric range.
    pub open spec fn prices_ok(&self) -> bool {
        forall|i: int|
            0 <= i < self.prices@.len() ==> 1 <= (#[trigger] self.prices@[i]) <= MAX_AMOUNT
    }

    /// A fresh track for a symbol seen for the first time: counter one,
    /// this fingerprint, the window starting now, no prices yet.
    pub fn start(key: VolatilityKey, now: u64) -> (r: SymbolTrack)
        ensures
            r@.prices == Seq::<u64>::empty(),
            r@.variability_count == 1,
            r@.var_last_key == key,
            r@.var_window_start == now,
            r.prices_ok(),
    {
        SymbolTrack { prices: Vec::new(), variability_count: 1, var_last_key: key,
            var_window_start: now }
    }

    /// Applies one tick to the track: the volatility rule and the
    /// drop-oldest price append.
    pub fn step(&mut self, key: VolatilityKey, price: u64, now: u64, config: &ConfigStruct)
        requires
            old(self).prices_ok(),
            config.wf(),
            1 <= price <= MAX_AMOUNT,
            old(self).var_window_start <= now,
        ensures
            final(self)@ == spec_track_step(
                old(self)@,
                key,
                price,
                now,
                config.symbol_monitor.symbol_price_violatile_check_time_secs,
                config.symbol_monitor.symbol_price_list_length as int,
            ),
            final(self).prices_ok(),
    {
        if key != self.var_last_key {
            self.var_last_key = key;
            if now - self.var_window_start
                >= config.symbol_monitor.symbol_price_violatile_check_time_secs {
                self.variability_count = 1;
                self.var_window_start = now;
            } else if self.variability_count < u64::MAX {
                self.variability_count = self.variability_count + 1;
            }
        }

        if self.prices.len() < config.symbol_monitor.symbol_price_list_length {
            self.prices.push(price);
        } else {
            self.prices.remove(0);
            self.prices.push(price);
            proof {
                assert(self.prices@ =~= old(self).prices@.subrange(
                    1,
                    old(self).prices@.len() as int,
                ).push(price));
                assert(final(self)@ =~= spec_track_step(
                    old(self)@,
                    key,
                    price,
                    now,
                    config.symbol_monitor.symbol_price_violatile_check_time_secs,
                    config.symbol_monitor.symbol_price_list_length as int,
                ));
            }
        }
    }
}

/// Appends a price to a bounded history: append-only until the
/// configured length is reached, then drop-oldest.
pub fn add_price_to_list(config: &ConfigStruct, old_vec: Vec<u64>, price: u64) -> (r: Vec<u64>)
    requires
        config.wf(),
    ensures
        r@ == spec_prices_next(
            old_vec@,
            price,
            config.symbol_monitor.symbol_price_list_length as int,
        ),
{
    let mut new_list = old_vec;
    if new_list.len() < config.symbol_monitor.symbol_price_list_length {
        new_list.push(price);
        return new_list;
    }

    let ghost before = new_list@;
    new_list.remove(0);
    new_list.push(price);
    proof {
        assert(new_list@ =~= before.subrange(1, before.len() as int).push(price));
    }
    new_list
}

/// Whether a price history never falls: each price at least the one before
/// it.
pub fn price_is_constantly_rising(list: Vec<u64>) -> (r: bool)
    ensures
        r == (forall|i: int| 0 <= i < list@.len() - 1 ==> #[trigger] list@[i] <= list@[i + 1]),
{
    let mut i: usize = 0;
    if list.len() == 0 {
        return true;
    }
    while i < list.len() - 1
        invariant
            list@.len() >= 1,
            i <= list@.len() - 1,
            forall|j: int| 0 <= j < i ==> #[trigger] list@[j] <= list@[j + 1],
        decreases list@.len() - i,
    {
        if list[i] > list[i + 1] {
            return false;
        }
        i = i + 1;
    }
    true
}

/// The percent change of the pre window: over the first third of the
/// history.
pub open spec fn spec_pre_pct(prices: Seq<u64>) -> int {
    let d = prices.len() as int / 3;
    pct_of(prices[0] as int, prices[d - 1] as int)
}

/// The percent change of the main window: from the pre window's boundary to
/// two thirds of the history.
pub open spec fn spec_main_pct(prices: Seq<u64>) -> int {
    let d = prices.len() as int / 3;
    pct_of(prices[d - 1] as int, prices[2 * d - 1] as int)
}

/// The percent change of the post window: from the main window's boundary
/// to the end of the history.
pub open spec fn spec_post_pct(prices: Seq<u64>) -> int {
    let d = prices.len() as int / 3;
    pct_of(prices[2 * d - 1] as int, prices[prices.len() - 1] as int)
}

/// Whether one window qualifies: the monitor gate admits its percent
/// change and the rise or the drop band holds it.
pub open spec fn spec_window_qualifies(
    pct: int,
    monitor: crate::settings::PercentBand,
    rise: crate::settings::PercentBand,
    drop: crate::settings::PercentBand,
) -> bool {
    spec_rise_reached(pct, monitor, rise) || spec_drop_reached(pct, monitor, drop)
}

/// The classification of a full price history: the main window alone
/// qualifies a symbol; the pre and post windows, where enabled, only
/// upgrade the tag of an already qualifying symbol.
pub open spec fn spec_classify(c: ConfigStruct, prices: Seq<u64>) -> SendToTradeDecision {
    let m = c.symbol_monitor;
    if !spec_window_qualifies(
        spec_main_pct(prices),
        m.window_price_value_monitor_min_max_percent,
        m.window_price_value_rise_min_max_percent,
        m.window_price_value_drop_min_max_percent,
    ) {
        SendToTradeDecision::Negative
    } else {
        let pre_up = m.pre_window_analysis && spec_window_qualifies(
            spec_pre_pct(prices),
            m.pre_window_price_value_monitor_min_max_percent,
            m.pre_window_price_value_rise_min_max_percent,
            m.pre_window_price_value_drop_min_max_percent,
        );
        let post_up = m.post_window_analysis && spec_window_qualifies(
            spec_post_pct(prices),
            m.post_window_price_value_monitor_min_max_percent,
            m.post_window_price_value_rise_min_max_percent,
            m.post_window_price_value_drop_min_max_percent,
        );
        if pre_up && post_up {
            SendToTradeDecision::MainWindowAndBothWindowsPositiveAnalysis
        } else if pre_up {
            SendToTradeDecision::MainWindowAndPreWindowPositiveAnalysis
        } else if post_up {
            SendToTradeDecision::MainWindowAndPostWindowPositiveAnalysis
        } else {
            SendToTradeDecision::MainWindowPositiveAnalysis
        }
    }
}

/// Whether a symbol occurs in a list of symbols.
pub open spec fn spec_symbol_listed(list: Seq<Symbol>, sym: Seq<char>) -> bool {
    exists|i: int| 0 <= i < list.len() && list[i]@ == sym
}

/// The volatility / window classifier: one per ticker stream. Owns
/// each known symbol's track and the set of symbols currently selected to
/// monitor, with the main-window percent change recorded at selection.
#[derive(Debug)]
pub struct SymbolsMonitor {
    pub tracks: Vec<(Symbol, SymbolTrack)>,
    pub symbols_currently_selected_to_monitor: Vec<(Symbol, i128)>,
}

impl SymbolsMonitor {
    pub open spec fn tracks_distinct(&self) -> bool {
        forall|i: int, j: int|
            0 <= i < j < self.tracks@.len() ==> self.tracks@[i].0@ != self.tracks@[j].0@
    }

    pub open spec fn selected_distinct(&self) -> bool {
        forall|i: int, j: int|
            0 <= i < j < self.symbols_currently_selected_to_monitor@.len()
                ==> self.symbols_currently_selected_to_monitor@[i].0@
                != self.symbols_currently_selected_to_monitor@[j].0@
    }

    pub open spec fn wf(&self) -> bool {
        &&& self.tracks_distinct()
        &&& self.selected_distinct()
        &&& forall|i: int|
            0 <= i < self.tracks@.len() ==> (#[trigger] self.tracks@[i]).1.prices_ok()
    }

    /// Whether a symbol is in the currently selected set.
    pub open spec fn spec_selected(&self, sym: Seq<char>) -> bool {
        exists|i: int|
            0 <= i < self.symbols_currently_selected_to_monitor@.len()
                && self.symbols_currently_selected_to_monitor@[i].0@ == sym
    }

    /// Whether a symbol has a track.
    pub open spec fn spec_tracked(&self, sym: Seq<char>) -> bool {
        exists|i: int| 0 <= i < self.tracks@.len() && self.tracks@[i].0@ == sym
    }

    /// A classifier with nothing tracked and nothing selected.
    pub fn new() -> (r: SymbolsMonitor)
        ensures
            r.wf(),
            r.tracks@.len() == 0,
            r.symbols_currently_selected_to_monitor@.len() == 0,
    {
        SymbolsMonitor { tracks: Vec::new(), symbols_currently_selected_to_monitor: Vec::new() }
    }

    /// Index of a symbol's track, if any.
    fn find_track_index(&self, symbol: &Symbol) -> (r: Option<usize>)
        ensures
            match r {
                Some(i) => i < self.tracks@.len() && self.tracks@[i as int].0@ == symbol@,
                None => !self.spec_tracked(symbol@),
            },
    {
        let mut i: usize = 0;
        while i < self.tracks.len()
            invariant
                i <= self.tracks@.len(),
                forall|j: int| 0 <= j < i ==> self.tracks@[j].0@ != symbol@,
            decreases self.tracks@.len() - i,
        {
            if self.tracks[i].0 == *symbol {
                return Some(i);
            }
            i = i + 1;
        }
        None
    }

    /// Index of a symbol's selected-set entry, if any.
    fn find_selected_index(&self, symbol: &Symbol) -> (r: Option<usize>)
        ensures
            match r {
                Some(i) => i < self.symbols_currently_selected_to_monitor@.len()
                    && self.symbols_currently_selected_to_monitor@[i as int].0@ == symbol@,
                None => !self.spec_selected(symbol@),
            },
    {
        let mut i: usize = 0;
        while i < self.symbols_currently_selected_to_monitor.len()
            invariant
                i <= self.symbols_currently_selected_to_monitor@.len(),
                forall|j: int|
                    0 <= j < i ==> self.symbols_currently_selected_to_monitor@[j].0@ != symbol@,
            decreases self.symbols_currently_selected_to_monitor@.len() - i,
        {
            if self.symbols_currently_selected_to_monitor[i].0 == *symbol {
                return Some(i);
            }
            i = i + 1;
        }
        None
    }

    /// Whether a symbol is in the tradable-symbol snapshot.
    fn symbol_is_listed(symbol: &Symbol, valid_symbols: &Vec<Symbol>) -> (r: bool)
        ensures
            r == spec_symbol_listed(valid_symbols@, symbol@),
    {
        let mut i: usize = 0;
        while i < valid_symbols.len()
            invariant
                i <= valid_symbols@.len(),
                forall|j: int| 0 <= j < i ==> valid_symbols@[j]@ != symbol@,
            decreases valid_symbols@.len() - i,
        {
            if valid_symbols[i] == *symbol {
                return true;
            }
            i = i + 1;
        }
        false
    }

    /// One ticker tick, for one symbol, against the current
    /// tradable-symbol snapshot. A tick of an unlisted symbol changes
    /// nothing. A listed symbol's track takes the volatility step and the
    /// price append; once its history is full, the history is classified
    /// and the selected set updated: a qualifying symbol enters it (keeping
    /// its first recorded percent change), a non-qualifying one leaves it.
    /// The candidate `(symbol, price)` is emitted exactly when the symbol
    /// ends the tick selected with its volatility counter at or above the
    /// configured required count.
    pub fn process_tick(
        &mut self,
        config: &ConfigStruct,
        valid_symbols: &Vec<Symbol>,
        event: &TickerEvent,
        now: u64,
    ) -> (emit: Option<(Symbol, u64)>)
        requires
            old(self).wf(),
            config.wf(),
            1 <= event.best_bid <= MAX_AMOUNT,
            forall|i: int|
                0 <= i < old(self).tracks@.len() ==> (#[trigger] old(
                    self,
                ).tracks@[i]).1.var_window_start <= now,
        ensures
            final(self).wf(),
            !spec_symbol_listed(valid_symbols@, event.symbol@) ==> final(self).tracks@ == old(
                self,
            ).tracks@ && final(self).symbols_currently_selected_to_monitor@ == old(
                self,
            ).symbols_currently_selected_to_monitor@ && emit is None,
            // the symbol's track after the tick
            spec_symbol_listed(valid_symbols@, event.symbol@) && old(self).spec_tracked(
                event.symbol@,
            ) ==> exists|i: int|
                0 <= i < old(self).tracks@.len() && old(self).tracks@[i].0@ == event.symbol@
                    && final(self).tracks@.len() == old(self).tracks@.len() && final(self).tracks@[i].0@ == event.symbol@ && final(self).tracks@[i].1@ == spec_track_step(
                    old(self).tracks@[i].1@,
                    event.spec_key(),
                    event.best_bid,
                    now,
                    config.symbol_monitor.symbol_price_violatile_check_time_secs,
                    config.symbol_monitor.symbol_price_list_length as int,
                ) && (forall|j: int|
                    0 <= j < old(self).tracks@.len() && j != i ==> final(self).tracks@[j] == old(
                        self,
                    ).tracks@[j]),
            // a first tick of a listed symbol starts its track
            spec_symbol_listed(valid_symbols@, event.symbol@) && !old(self).spec_tracked(
                event.symbol@,
            ) ==> final(self).tracks@.len() == old(self).tracks@.len() + 1 && final(self).tracks@.drop_last() == old(self).tracks@ && final(self).tracks@.last().0@
                == event.symbol@ && final(self).tracks@.last().1@.variability_count == 1 && final(self).tracks@.last().1@.var_last_key == event.spec_key() && final(self).tracks@.last().1@.var_window_start == now && final(self).tracks@.last().1@.prices
                == Seq::<u64>::empty().push(event.best_bid),
            // selection: decided by the classification of the full
            // history; an unfilled history leaves the selected set alone
            spec_symbol_listed(valid_symbols@, event.symbol@) ==> exists|i: int|
                0 <= i < final(self).tracks@.len() && (#[trigger] final(self).tracks@[i]).0@
                    == event.symbol@ && (if final(self).tracks@[i].1@.prices.len()
                    == config.symbol_monitor.symbol_price_list_length {
                    if spec_classify(*config, final(self).tracks@[i].1@.prices)
                        != SendToTradeDecision::Negative {
                        final(self).spec_selected(event.symbol@)
                    } else {
                        !final(self).spec_selected(event.symbol@)
                    }
                } else {
                    final(self).symbols_currently_selected_to_monitor@ == old(
                        self,
                    ).symbols_currently_selected_to_monitor@
                }),
            // emission: exactly when the symbol ends the tick selected
            // and volatile enough
            emit is Some <==> spec_symbol_listed(valid_symbols@, event.symbol@) && final(self).spec_selected(event.symbol@) && (exists|i: int|
                0 <= i < final(self).tracks@.len() && final(self).tracks@[i].0@ == event.symbol@
                    && final(self).tracks@[i].1@.variability_count
                    >= config.symbol_monitor.symbol_price_violatile_required_count),
            emit is Some ==> emit.unwrap().0@ == event.symbol@ && emit.unwrap().1 == event.best_bid,
    {
        if !Self::symbol_is_listed(&event.symbol, valid_symbols) {
            return None;
        }

        let key = event.key();

        // volatility step and price append for this symbol's track
        let track_idx: usize = match self.find_track_index(&event.symbol) {
            Some(i) => {
                let mut track = self.tracks[i].1.clone_track();
                track.step(key, event.best_bid, now, config);
                self.tracks.set(i, (Symbol(event.symbol.0.clone()), track));
                proof {
                    assert(self.tracks@[i as int].0@ == event.symbol@);
                }
                i
            },
            None => {
                let mut track = SymbolTrack::start(key, now);
                track.step(key, event.best_bid, now, config);
                proof {
                    assert(track@.prices =~= Seq::<u64>::empty().push(event.best_bid));
                }
                self.tracks.push((Symbol(event.symbol.0.clone()), track));
                self.tracks.len() - 1
            },
        };

        proof {
            assert(self.tracks@[track_idx as int].0@ == event.symbol@);
            assert(forall|k: int|
                0 <= k < self.tracks@.len() && k != track_idx as int ==> (#[trigger] self.tracks@[k]).0@
                    != event.symbol@);
        }

        let count = self.tracks[track_idx].1.variability_count;

        // classification and the selected set, once the history is full
        if self.tracks[track_idx].1.prices.len()
            == config.symbol_monitor.symbol_price_list_length {
            let (decision, main_pct) = classify_price_history(
                config,
                &self.tracks[track_idx].1.prices,
            );

            let selected_idx = self.find_selected_index(&event.symbol);
            if decision != SendToTradeDecision::Negative {
                if selected_idx.is_none() {
                    self.symbols_currently_selected_to_monitor.push(
                        (Symbol(event.symbol.0.clone()), main_pct),
                    );
                    proof {
                        let n = self.symbols_currently_selected_to_monitor@.len() - 1;
                        assert(self.symbols_currently_selected_to_monitor@[n].0@
                            == event.symbol@);
                        assert(self.spec_selected(event.symbol@));
                    }
                } else {
                    proof {
                        assert(self.spec_selected(event.symbol@));
                    }
                }
            } else {
                if let Some(i) = selected_idx {
                    self.symbols_currently_selected_to_monitor.remove(i);
                    proof {
                        assert(forall|j: int|
                            0 <= j < final(self).symbols_currently_selected_to_monitor@.len()
                                ==> final(self).symbols_currently_selected_to_monitor@[j] == if j
                                < i as int {
                                old(self).symbols_currently_selected_to_monitor@[j]
                            } else {
                                old(self).symbols_currently_selected_to_monitor@[j + 1]
                            });
                    }
                }
            }
        }

        proof {
            assert(forall|i: int|
                0 <= i < self.tracks@.len() && (#[trigger] self.tracks@[i]).0@ == event.symbol@
                    ==> i == track_idx as int);
            let ti = track_idx as int;
            assert(0 <= ti < self.tracks@.len());
            assert(self.tracks@[ti].0@ == event.symbol@);
            if self.tracks@[ti].1@.prices.len()
                == config.symbol_monitor.symbol_price_list_length {
                if spec_classify(*config, self.tracks@[ti].1@.prices)
                    != SendToTradeDecision::Negative {
                    assert(self.spec_selected(event.symbol@));
                } else {
                    assert(!self.spec_selected(event.symbol@));
                }
            } else {
                assert(self.symbols_currently_selected_to_monitor@ == old(
                    self,
                ).symbols_currently_selected_to_monitor@);
            }
        }

        // emission: selected and volatile enough
        if self.find_selected_index(&event.symbol).is_some()
            && count >= config.symbol_monitor.symbol_price_violatile_required_count {
            return Some((Symbol(event.symbol.0.clone()), event.best_bid));
        }

        None
    }
}

impl SymbolTrack {
    /// A copy of the track, model for model.
    pub fn clone_track(&self) -> (r: SymbolTrack)
        ensures
            r@ == self@,
    {
        let mut prices: Vec<u64> = Vec::new();
        let mut i: usize = 0;
        while i < self.prices.len()
            invariant
                i <= self.prices@.len(),
                prices@ == self.prices@.subrange(0, i as int),
            decreases self.prices@.len() - i,
        {
            prices.push(self.prices[i]);
            proof {
                assert(prices@ =~= self.prices@.subrange(0, i + 1));
            }
            i = i + 1;
        }
        proof {
            assert(prices@ =~= self.prices@);
        }
        SymbolTrack {
            prices,
            variability_count: self.variability_count,
            var_last_key: self.var_last_key,
            var_window_start: self.var_window_start,
        }
    }
}

/// Splits a full price history into its three windows — pre, main and post,
/// each beginning at the previous window's last price — and classifies the
/// symbol. Returns the tag and the main window's percent change.
pub fn classify_price_history(config: &ConfigStruct, prices: &Vec<u64>) -> (r: (
    SendToTradeDecision,
    i128,
))
    requires
        config.wf(),
        prices@.len() >= 3,
        forall|i: int| 0 <= i < prices@.len() ==> 1 <= (#[trigger] prices@[i]) <= MAX_AMOUNT,
    ensures
        r.0 == spec_classify(*config, prices@),
        r.1 == spec_main_pct(prices@),
        -MAX_PERCENT <= r.1 <= MAX_PERCENT,
{
    let len = prices.len();
    let divider = len / 3;
    proof {
        vstd::arithmetic::div_mod::lemma_fundamental_div_mod(len as int, 3);
        vstd::arithmetic::div_mod::lemma_mod_bound(len as int, 3);
    }

    let whole = prices.as_slice();
    let pre_window = vstd::slice::slice_subrange(whole, 0, divider);
    let main_window = vstd::slice::slice_subrange(whole, divider - 1, 2 * divider);
    let post_window = vstd::slice::slice_subrange(whole, 2 * divider - 1, len);

    let window_status = calculate_window(config, main_window);
    let main_qualifies = window_status.rise_threshold_reached
        || window_status.drop_threshold_reached;

    if !main_qualifies {
        return (SendToTradeDecision::Negative, window_status.percent_change);
    }

    let mut pre_up = false;
    if config.symbol_monitor.pre_window_analysis {
        let pre_status = calculate_pre_window(config, pre_window);
        pre_up = pre_status.rise_threshold_reached || pre_status.drop_threshold_reached;
    }

    let mut post_up = false;
    if config.symbol_monitor.post_window_analysis {
        let post_status = calculate_post_window(config, post_window);
        post_up = post_status.rise_threshold_reached || post_status.drop_threshold_reached;
    }

    let decision = if pre_up && post_up {
        SendToTradeDecision::MainWindowAndBothWindowsPositiveAnalysis
    } else if pre_up {
        SendToTradeDecision::MainWindowAndPreWindowPositiveAnalysis
    } else if post_up {
        SendToTradeDecision::MainWindowAndPostWindowPositiveAnalysis
    } else {
        SendToTradeDecision::MainWindowPositiveAnalysis
    };

    (decision, window_status.percent_change)
}

} // verus!
