use vstd::prelude::*;
use rand::seq::IteratorRandom;
use crate::filters::ConstraintSet;
use crate::filters::FilterRecord;
use crate::filters::FiltersParser;
use crate::filters::spec_fold_filter_records;
use crate::settings::ConfigStruct;
use crate::types::Symbol;
use crate::types::SymbolAction;

verus! {

/// One symbol's entry of the exchange-information document, reduced to the
/// fields the selection logic reads.
#[derive(Debug, Clone)]
pub struct ExchangeSymbolRecord {
    pub symbol: String,
    pub status: String,
    pub base_asset: String,
    pub quote_asset: String,
    pub permissions: Vec<String>,
    pub filters: Vec<FilterRecord>,
}

/// The wholesale-replaced read-only snapshot the metadata refresh builds:
/// the tradable symbols, each symbol's opening action, and each tradable
/// symbol's constraint set.
#[derive(Debug)]
pub struct MetadataSnapshot {
    pub valid_trading_symbols: Vec<Symbol>,
    pub symbol_actions: Vec<(Symbol, SymbolAction)>,
    pub filters_map: Vec<(Symbol, ConstraintSet)>,
}

/// Whether a string occurs in a list of strings.
pub open spec fn spec_string_listed(list: Seq<String>, s: Seq<char>) -> bool {
    exists|i: int| 0 <= i < list.len() && list[i]@ == s
}

/// A spot-market record: its permissions name SPOT.
pub open spec fn spec_is_spot(r: ExchangeSymbolRecord) -> bool {
    spec_string_listed(r.permissions@, "SPOT"@)
}

/// A record whose base or quote asset the configuration excludes.
pub open spec fn spec_asset_excluded(c: ConfigStruct, r: ExchangeSymbolRecord) -> bool {
    exists|i: int|
        0 <= i < c.excluded_assets@.len() && ((#[trigger] c.excluded_assets@[i])@ == r.base_asset@
            || c.excluded_assets@[i]@ == r.quote_asset@)
}

/// A record whose symbol the configuration excludes.
pub open spec fn spec_symbol_excluded(c: ConfigStruct, r: ExchangeSymbolRecord) -> bool {
    exists|i: int| 0 <= i < c.excluded_symbols@.len() && c.excluded_symbols@[i]@ == r.symbol@
}

/// Whether every configured starting asset appears in the pair as its base
/// or its quote; a pair that misses any of them is skipped.
pub open spec fn spec_matches_starting_assets(c: ConfigStruct, r: ExchangeSymbolRecord) -> bool {
    forall|i: int|
        0 <= i < c.base_starting_assets@.len() ==> ((#[trigger] c.base_starting_assets@[i])@
            == r.base_asset@ || c.base_starting_assets@[i]@ == r.quote_asset@)
}

/// A record the selection keeps: a spot pair, not excluded by asset or by
/// symbol, carrying every configured starting asset.
pub open spec fn spec_record_kept(c: ConfigStruct, r: ExchangeSymbolRecord) -> bool {
    &&& spec_is_spot(r)
    &&& !spec_asset_excluded(c, r)
    &&& !spec_symbol_excluded(c, r)
    &&& spec_matches_starting_assets(c, r)
}

/// The opening action the starting assets give a pair: selling when a
/// starting asset is the pair's base, buying when it is the quote; a later
/// configured asset overrides an earlier one, and the base match wins over
/// the quote match of one asset.
pub open spec fn spec_record_action(assets: Seq<Symbol>, r: ExchangeSymbolRecord) -> Option<
    SymbolAction,
>
    decreases assets.len(),
{
    if assets.len() == 0 {
        None
    } else {
        let a = assets.last();
        if a@ == r.base_asset@ {
            Some(SymbolAction::Sell)
        } else if a@ == r.quote_asset@ {
            Some(SymbolAction::Buy)
        } else {
            spec_record_action(assets.drop_last(), r)
        }
    }
}

/// A kept record whose status is TRADING: its symbol is tradable and its
/// filters become the symbol's constraint set.
pub open spec fn spec_record_tradable(c: ConfigStruct, r: ExchangeSymbolRecord) -> bool {
    spec_record_kept(c, r) && r.status@ == "TRADING"@
}

/// The tradable symbols of a record list, in order.
pub open spec fn spec_valid_symbols(c: ConfigStruct, rs: Seq<ExchangeSymbolRecord>) -> Seq<
    Seq<char>,
>
    decreases rs.len(),
{
    if rs.len() == 0 {
        Seq::empty()
    } else {
        let rest = spec_valid_symbols(c, rs.drop_last());
        if spec_record_tradable(c, rs.last()) {
            rest.push(rs.last().symbol@)
        } else {
            rest
        }
    }
}

/// The opening actions of a record list, in order: one entry per kept
/// record that some starting asset gives an action.
pub open spec fn spec_symbol_actions(c: ConfigStruct, rs: Seq<ExchangeSymbolRecord>) -> Seq<
    (Seq<char>, SymbolAction),
>
    decreases rs.len(),
{
    if rs.len() == 0 {
        Seq::empty()
    } else {
        let rest = spec_symbol_actions(c, rs.drop_last());
        let r = rs.last();
        if spec_record_kept(c, r) && spec_record_action(c.base_starting_assets@, r) is Some {
            rest.push((r.symbol@, spec_record_action(c.base_starting_assets@, r).unwrap()))
        } else {
            rest
        }
    }
}

/// The constraint sets of a record list, in order: one entry per tradable
/// record, its filters folded into a constraint set.
pub open spec fn spec_filters_map(c: ConfigStruct, rs: Seq<ExchangeSymbolRecord>) -> Seq<
    (Seq<char>, ConstraintSet),
>
    decreases rs.len(),
{
    if rs.len() == 0 {
        Seq::empty()
    } else {
        let rest = spec_filters_map(c, rs.drop_last());
        if spec_record_tradable(c, rs.last()) {
            rest.push((rs.last().symbol@, spec_fold_filter_records(rs.last().filters@)))
        } else {
            rest
        }
    }
}

/// Whether the record is a spot pair.
fn record_is_spot(r: &ExchangeSymbolRecord) -> (out: bool)
    ensures
        out == spec_is_spot(*r),
{
    let spot = String::from_str("SPOT");
    let mut i: usize = 0;
    while i < r.permissions.len()
        invariant
            i <= r.permissions@.len(),
            spot@ == "SPOT"@,
            forall|j: int| 0 <= j < i ==> r.permissions@[j]@ != "SPOT"@,
        decreases r.permissions@.len() - i,
    {
        if r.permissions[i] == spot {
            return true;
        }
        i = i + 1;
    }
    false
}

/// Whether the configuration excludes the record's base or quote asset.
fn record_asset_excluded(config: &ConfigStruct, r: &ExchangeSymbolRecord) -> (out: bool)
    ensures
        out == spec_asset_excluded(*config, *r),
{
    let mut i: usize = 0;
    while i < config.excluded_assets.len()
        invariant
            i <= config.excluded_assets@.len(),
            forall|j: int|
                0 <= j < i ==> (#[trigger] config.excluded_assets@[j])@ != r.base_asset@
                    && config.excluded_assets@[j]@ != r.quote_asset@,
        decreases config.excluded_assets@.len() - i,
    {
        if config.excluded_assets[i] == r.base_asset || config.excluded_assets[i] == r.quote_asset {
            return true;
        }
        i = i + 1;
    }
    false
}

/// Whether the configuration excludes the record's symbol.
fn record_symbol_excluded(config: &ConfigStruct, r: &ExchangeSymbolRecord) -> (out: bool)
    ensures
        out == spec_symbol_excluded(*config, *r),
{
    let mut i: usize = 0;
    while i < config.excluded_symbols.len()
        invariant
            i <= config.excluded_symbols@.len(),
            forall|j: int| 0 <= j < i ==> config.excluded_symbols@[j]@ != r.symbol@,
        decreases config.excluded_symbols@.len() - i,
    {
        if config.excluded_symbols[i].0 == r.symbol {
            return true;
        }
        i = i + 1;
    }
    false
}

/// Whether the pair carries every configured starting asset.
fn record_matches_starting_assets(config: &ConfigStruct, r: &ExchangeSymbolRecord) -> (out: bool)
    ensures
        out == spec_matches_starting_assets(*config, *r),
{
    let mut i: usize = 0;
    while i < config.base_starting_assets.len()
        invariant
            i <= config.base_starting_assets@.len(),
            forall|j: int|
                0 <= j < i ==> ((#[trigger] config.base_starting_assets@[j])@ == r.base_asset@
                    || config.base_starting_assets@[j]@ == r.quote_asset@),
        decreases config.base_starting_assets@.len() - i,
    {
        let a = &config.base_starting_assets[i];
        if !(a.0 == r.base_asset || a.0 == r.quote_asset) {
            return false;
        }
        i = i + 1;
    }
    true
}

/// The opening action the starting assets give the pair.
fn record_action(config: &ConfigStruct, r: &ExchangeSymbolRecord) -> (out: Option<SymbolAction>)
    ensures
        out == spec_record_action(config.base_starting_assets@, *r),
{
    let assets = &config.base_starting_assets;
    let ghost whole = assets@;
    let mut out: Option<SymbolAction> = None;
    let mut i: usize = 0;
    proof {
        assert(whole.subrange(0, 0) =~= Seq::<Symbol>::empty());
    }
    while i < assets.len()
        invariant
            i <= whole.len(),
            whole == assets@,
            out == spec_record_action(whole.subrange(0, i as int), *r),
        decreases whole.len() - i,
    {
        proof {
            assert(whole.subrange(0, i + 1).drop_last() =~= whole.subrange(0, i as int));
            assert(whole.subrange(0, i + 1).last() == whole[i as int]);
        }
        let a = &assets[i];
        if a.0 == r.base_asset {
            out = Some(SymbolAction::Sell);
        } else if a.0 == r.quote_asset {
            out = Some(SymbolAction::Buy);
        }
        i = i + 1;
    }
    proof {
        assert(whole.subrange(0, whole.len() as int) =~= whole);
    }
    out
}

/// Rebuilds the metadata snapshot from the exchange-information records,
/// wholesale: selects the spot pairs that the configuration admits, gives
/// each its opening action, and parses each tradable pair's filters into
/// its constraint set.
pub fn update_symbols_and_filters_list(config: &ConfigStruct, records: &Vec<ExchangeSymbolRecord>)
    -> (snapshot: MetadataSnapshot)
    ensures
        snapshot.valid_trading_symbols@.len() == spec_valid_symbols(*config, records@).len(),
        forall|k: int|
            0 <= k < snapshot.valid_trading_symbols@.len()
                ==> (#[trigger] snapshot.valid_trading_symbols@[k])@ == spec_valid_symbols(
                *config,
                records@,
            )[k],
        snapshot.symbol_actions@.len() == spec_symbol_actions(*config, records@).len(),
        forall|k: int|
            0 <= k < snapshot.symbol_actions@.len() ==> (#[trigger] snapshot.symbol_actions@[k]).0@
                == spec_symbol_actions(*config, records@)[k].0 && snapshot.symbol_actions@[k].1
                == spec_symbol_actions(*config, records@)[k].1,
        snapshot.filters_map@.len() == spec_filters_map(*config, records@).len(),
        forall|k: int|
            0 <= k < snapshot.filters_map@.len() ==> (#[trigger] snapshot.filters_map@[k]).0@
                == spec_filters_map(*config, records@)[k].0 && snapshot.filters_map@[k].1
                == spec_filters_map(*config, records@)[k].1,
{
    let ghost whole = records@;
    let mut valid_trading_symbols: Vec<Symbol> = Vec::new();
    let mut symbol_actions: Vec<(Symbol, SymbolAction)> = Vec::new();
    let mut filters_map: Vec<(Symbol, ConstraintSet)> = Vec::new();

    let trading = String::from_str("TRADING");

    let mut i: usize = 0;
    proof {
        assert(whole.subrange(0, 0) =~= Seq::<ExchangeSymbolRecord>::empty());
    }
    while i < records.len()
        invariant
            i <= whole.len(),
            whole == records@,
            trading@ == "TRADING"@,
            valid_trading_symbols@.len() == spec_valid_symbols(
                *config,
                whole.subrange(0, i as int),
            ).len(),
            forall|k: int|
                0 <= k < valid_trading_symbols@.len() ==> (#[trigger] valid_trading_symbols@[k])@
                    == spec_valid_symbols(*config, whole.subrange(0, i as int))[k],
            symbol_actions@.len() == spec_symbol_actions(
                *config,
                whole.subrange(0, i as int),
            ).len(),
            forall|k: int|
                0 <= k < symbol_actions@.len() ==> (#[trigger] symbol_actions@[k]).0@
                    == spec_symbol_actions(*config, whole.subrange(0, i as int))[k].0
                    && symbol_actions@[k].1 == spec_symbol_actions(
                    *config,
                    whole.subrange(0, i as int),
                )[k].1,
            filters_map@.len() == spec_filters_map(*config, whole.subrange(0, i as int)).len(),
            forall|k: int|
                0 <= k < filters_map@.len() ==> (#[trigger] filters_map@[k]).0@ == spec_filters_map(
                    *config,
                    whole.subrange(0, i as int),
                )[k].0 && filters_map@[k].1 == spec_filters_map(
                    *config,
                    whole.subrange(0, i as int),
                )[k].1,
        decreases whole.len() - i,
    {
        proof {
            assert(whole.subrange(0, i + 1).drop_last() =~= whole.subrange(0, i as int));
            assert(whole.subrange(0, i + 1).last() == whole[i as int]);
        }

        let r = &records[i];
        let kept = record_is_spot(r) && !record_asset_excluded(config, r)
            && !record_symbol_excluded(config, r) && record_matches_starting_assets(config, r);

        if kept {
            if let Some(action) = record_action(config, r) {
                symbol_actions.push((Symbol(r.symbol.clone()), action));
            }

            if r.status == trading {
                let parser = FiltersParser::new(&r.filters);
                filters_map.push((Symbol(r.symbol.clone()), parser.constraints()));
                valid_trading_symbols.push(Symbol(r.symbol.clone()));
            }
        }

        i = i + 1;
    }
    proof {
        assert(whole.subrange(0, whole.len() as int) =~= whole);
    }

    MetadataSnapshot { valid_trading_symbols, symbol_actions, filters_map }
}

/// The acceptance rule on an exchange-information response: usable unless
/// the exchange answered 429 (rate limited) or 418 (banned), which must
/// back the caller off; a transport error carries no response at all.
pub fn exchange_info_response_usable(status_code: u16) -> (r: bool)
    ensures
        r == (status_code != 429 && status_code != 418),
{
    status_code != 429 && status_code != 418
}

/// Relies on rand's `IteratorRandom::choose_stable` with `thread_rng`: on a
/// nonempty iterator it returns `Some` of one of the iterator's elements.
/// Which element comes back depends on chance, so only membership is
/// promised.
#[verifier::external_body]
pub fn randomly_select_api_address(list: &Vec<String>) -> (r: String)
    requires
        list@.len() > 0,
    ensures
        spec_string_listed(list@, r@),
{
    let mut rng = rand::thread_rng();
    list.iter().choose_stable(&mut rng).unwrap().to_string()
}

} // verus!
