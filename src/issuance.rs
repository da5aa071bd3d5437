//! The last total issuance read from the chain, kept for currency conversion.
use vstd::prelude::*;
use crate::network::{total_issuance_from, total_issuance_result, QueryError};
use crate::records::bytes_view;

verus! {

/// Holds the total issuance. It starts at zero and changes only by `set`,
/// which must run at least once before conversions are relied on.
#[derive(Clone, Copy, Debug)]
pub struct IssuanceCache {
    value: u128,
}

impl View for IssuanceCache {
    type V = u128;

    closed spec fn view(&self) -> u128 {
        self.value
    }
}

impl IssuanceCache {
    /// An empty cache: the issuance is zero until the first `set`.
    pub fn new() -> (r: IssuanceCache)
        ensures
            r@ == 0,
    {
        IssuanceCache { value: 0 }
    }
}

/// The issuance that the last `set` stored.
pub fn get(cache: &IssuanceCache) -> (r: u128)
    ensures
        r == cache@,
{
    cache.value
}

/// Stores the total issuance that the node holds under its key (zero where
/// nothing is stored). Bytes that are no issuance leave the cache unchanged.
pub fn set(cache: &mut IssuanceCache, raw: Option<Vec<u8>>) -> (r: Result<(), QueryError>)
    ensures
        match total_issuance_result(bytes_view(raw)) {
            Ok(v) => r is Ok && final(cache)@ == v,
            Err(e) => r == Err::<(), QueryError>(e) && final(cache)@ == old(cache)@,
        },
{
    match total_issuance_from(raw) {
        Ok(v) => {
            cache.value = v;
            Ok(())
        },
        Err(e) => Err(e),
    }
}

} // verus!
