use vstd::prelude::*;

verus! {

/// An exchange pair identifier (base and quote asset names concatenated).
/// Equality is plain string equality; symbols key every per-symbol record.
#[derive(Debug)]
pub struct Symbol(pub String);

impl Clone for Symbol {
    fn clone(&self) -> (r: Symbol)
        ensures
            r@ == self@,
    {
        Symbol(self.0.clone())
    }
}

impl View for Symbol {
    type V = Seq<char>;

    open spec fn view(&self) -> Seq<char> {
        self.0@
    }
}

impl PartialEq for Symbol {
    fn eq(&self, other: &Symbol) -> (r: bool) {
        self.0 == other.0
    }
}

impl vstd::std_specs::cmp::PartialEqSpecImpl for Symbol {
    open spec fn obeys_eq_spec() -> bool {
        true
    }

    open spec fn eq_spec(&self, other: &Symbol) -> bool {
        self.0@ == other.0@
    }
}

impl Symbol {
    /// The symbol's text, for display.
    pub fn to_text(&self) -> (s: String)
        ensures
            s@ == self@,
    {
        self.0.clone()
    }
}

/// Whether orders placed through the library are real or simulated.
#[derive(Debug, Clone, PartialEq, Eq, Hash, Structural)]
pub enum TradingMode {
    Simulation,
    RealTrading,
}

/// An asset name that is not known to be base or quote.
#[derive(Debug, Clone, Default)]
pub struct EmptyAsset(pub String);

/// The base asset of a pair.
#[derive(Debug, Clone, Default)]
pub struct BaseAsset(pub String);

/// The quote asset of a pair.
#[derive(Debug, Clone, Default)]
pub struct QuoteAsset(pub String);

impl PartialEq for BaseAsset {
    fn eq(&self, other: &BaseAsset) -> (r: bool) {
        self.0 == other.0
    }
}

impl vstd::std_specs::cmp::PartialEqSpecImpl for BaseAsset {
    open spec fn obeys_eq_spec() -> bool {
        true
    }

    open spec fn eq_spec(&self, other: &BaseAsset) -> bool {
        self.0@ == other.0@
    }
}

impl PartialEq for QuoteAsset {
    fn eq(&self, other: &QuoteAsset) -> (r: bool) {
        self.0 == other.0
    }
}

impl vstd::std_specs::cmp::PartialEqSpecImpl for QuoteAsset {
    open spec fn obeys_eq_spec() -> bool {
        true
    }

    open spec fn eq_spec(&self, other: &QuoteAsset) -> bool {
        self.0@ == other.0@
    }
}

impl BaseAsset {
    /// The asset's text, for display.
    pub fn to_text(&self) -> (s: String)
        ensures
            s@ == self.0@,
    {
        self.0.clone()
    }
}

impl QuoteAsset {
    /// The asset's text, for display.
    pub fn to_text(&self) -> (s: String)
        ensures
            s@ == self.0@,
    {
        self.0.clone()
    }
}

/// Either side of a pair, or no asset at all.
#[derive(Debug, Clone)]
pub enum Asset {
    BaseAsset(BaseAsset),
    QuoteAsset(QuoteAsset),
    EmptyAsset,
}

impl Asset {
    /// The name this asset carries: base or quote text, or empty.
    pub open spec fn spec_text(&self) -> Seq<char> {
        match self {
            Asset::BaseAsset(b) => b.0@,
            Asset::QuoteAsset(q) => q.0@,
            Asset::EmptyAsset => Seq::<char>::empty(),
        }
    }

    /// The asset's text, for display.
    pub fn to_text(&self) -> (s: String)
        ensures
            s@ == self.spec_text(),
    {
        match self {
            Asset::BaseAsset(b) => b.0.clone(),
            Asset::QuoteAsset(q) => q.0.clone(),
            Asset::EmptyAsset => String::new(),
        }
    }
}

impl PartialEq for Asset {
    fn eq(&self, other: &Asset) -> (r: bool) {
        match (self, other) {
            (Asset::BaseAsset(a), Asset::BaseAsset(b)) => a.0 == b.0,
            (Asset::QuoteAsset(a), Asset::QuoteAsset(b)) => a.0 == b.0,
            (Asset::EmptyAsset, Asset::EmptyAsset) => true,
            _ => false,
        }
    }
}

impl vstd::std_specs::cmp::PartialEqSpecImpl for Asset {
    open spec fn obeys_eq_spec() -> bool {
        true
    }

    open spec fn eq_spec(&self, other: &Asset) -> bool {
        match (self, other) {
            (Asset::BaseAsset(a), Asset::BaseAsset(b)) => a.0@ == b.0@,
            (Asset::QuoteAsset(a), Asset::QuoteAsset(b)) => a.0@ == b.0@,
            (Asset::EmptyAsset, Asset::EmptyAsset) => true,
            _ => false,
        }
    }
}

/// Control signal for a running worker.
#[derive(Debug, Clone, PartialEq, Eq, Hash, Structural)]
pub enum KlineSignal {
    Start,
    SoftStop,
    KillNow,
}

/// Side of an order on the exchange.
#[derive(Debug, Clone, Copy, PartialEq, Eq, Hash, Structural)]
pub enum SymbolAction {
    Buy,
    Sell,
}

/// Phase of a position: seeking entry, then seeking exit.
#[derive(Debug, Clone, PartialEq, Eq, Hash, Structural)]
pub enum TradingNextStep {
    Join,
    Leave,
}

/// Decision field of a position's state machine.
#[derive(Debug, Clone, Copy, PartialEq, Eq, Hash, Structural)]
pub enum TradingDecision {
    Start,
    Continue,
    Decline,
    Stop,
    Wait,
}

/// Profit tier a position has reached.
#[derive(Debug, Clone, Copy, PartialEq, Eq, Hash, Structural)]
pub enum CurrentTradingProfit {
    Unknown,
    AbsoluteMinimalProfit,
    MinimalProfit,
    GoodProfit,
    Loss,
    LossTooLarge,
}

/// Whether the current depth reading is usable this round.
#[derive(Debug, Clone, Copy, PartialEq, Eq, Hash, Structural)]
pub enum ReadMarketDepthNow {
    YES,
    NO,
}

/// Overall trade verdict for a candidate.
#[derive(Debug, Clone, PartialEq, Eq, Hash, Structural)]
pub enum Trading {
    Start,
    Decline,
    Hold,
}

/// Command the scheduler can send a running worker.
#[derive(Debug, Clone, PartialEq, Eq, Hash, Structural)]
pub enum OrderBookCmd {
    StopAndInstantSell,
    StopAndLimitSell,
}

/// Outcome of classifying a symbol's price windows: which windows, if any,
/// passed their thresholds. Only outcomes with a positive main window can
/// make a symbol a candidate.
#[derive(Debug, Clone, Copy, PartialEq, Eq, Hash, Structural)]
pub enum SendToTradeDecision {
    Negative,
    MainWindowPositiveAnalysis,
    MainWindowAndPreWindowPositiveAnalysis,
    MainWindowAndPostWindowPositiveAnalysis,
    MainWindowAndBothWindowsPositiveAnalysis,
}

impl From<bool> for SymbolAction {
    fn from(value: bool) -> (r: SymbolAction) {
        if value {
            SymbolAction::Buy
        } else {
            SymbolAction::Sell
        }
    }
}

impl vstd::std_specs::convert::FromSpecImpl<bool> for SymbolAction {
    open spec fn obeys_from_spec() -> bool {
        true
    }

    open spec fn from_spec(value: bool) -> SymbolAction {
        if value {
            SymbolAction::Buy
        } else {
            SymbolAction::Sell
        }
    }
}

impl From<String> for Symbol {
    fn from(value: String) -> (r: Symbol) {
        Symbol(value)
    }
}

impl vstd::std_specs::convert::FromSpecImpl<String> for Symbol {
    open spec fn obeys_from_spec() -> bool {
        true
    }

    open spec fn from_spec(value: String) -> Symbol {
        Symbol(value)
    }
}

impl From<BaseAsset> for Asset {
    fn from(value: BaseAsset) -> (r: Asset) {
        Asset::BaseAsset(value)
    }
}

impl vstd::std_specs::convert::FromSpecImpl<BaseAsset> for Asset {
    open spec fn obeys_from_spec() -> bool {
        true
    }

    open spec fn from_spec(value: BaseAsset) -> Asset {
        Asset::BaseAsset(value)
    }
}

impl From<QuoteAsset> for Asset {
    fn from(value: QuoteAsset) -> (r: Asset) {
        Asset::QuoteAsset(value)
    }
}

impl vstd::std_specs::convert::FromSpecImpl<QuoteAsset> for Asset {
    open spec fn obeys_from_spec() -> bool {
        true
    }

    open spec fn from_spec(value: QuoteAsset) -> Asset {
        Asset::QuoteAsset(value)
    }
}

impl From<QuoteAsset> for BaseAsset {
    fn from(value: QuoteAsset) -> (r: BaseAsset) {
        BaseAsset(value.0)
    }
}

impl vstd::std_specs::convert::FromSpecImpl<QuoteAsset> for BaseAsset {
    open spec fn obeys_from_spec() -> bool {
        true
    }

    open spec fn from_spec(value: QuoteAsset) -> BaseAsset {
        BaseAsset(value.0)
    }
}

/// Reverses a trade side: entering with a buy means leaving with a sell,
/// and the other way round.
pub fn reverse_symbol_action(symbol_action: SymbolAction) -> (r: SymbolAction)
    ensures
        symbol_action == SymbolAction::Buy ==> r == SymbolAction::Sell,
        symbol_action == SymbolAction::Sell ==> r == SymbolAction::Buy,
{
    if symbol_action == SymbolAction::Buy {
        return SymbolAction::Sell;
    }

    SymbolAction::Buy
}

} // verus!
