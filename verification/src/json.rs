use vstd::prelude::*;

verus! {

/// Source of the exchange-information document: implemented by the
/// application around whatever transport it uses; the library only reads
/// the document it hands back.
pub trait JsonInterface {
    fn get_exchange_info(&self) -> Option<String>;
}

} // verus!
