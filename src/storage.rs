//! Storage keys: where the node keeps a value, derived from the names of its
//! module and item and, for maps, from a lookup key.
use vstd::prelude::*;
use vstd::slice::slice_to_vec;
use crate::hashing::{blake2_128, blake2_128_of, twox_128, twox_128_of, twox_64, twox_64_of};

verus! {

/// How a lookup key is folded into a map's storage key. It must be the hasher
/// that the node declares for that map: nothing here can check it, and a key
/// built with another hasher simply finds no value.
#[derive(Clone, Copy, Debug, PartialEq, Eq)]
pub enum HashStrategy {
    /// 128-bit xxHash of the lookup key; the key itself is not kept.
    Twox128,
    /// 128-bit Blake2b of the lookup key; the key itself is not kept.
    Blake2_128,
    /// 64-bit xxHash of the lookup key, followed by the key.
    Twox64Concat,
    /// 128-bit Blake2b of the lookup key, followed by the key.
    Blake2_128Concat,
}

/// Number of bytes that the hash part of a strategy's output takes.
pub open spec fn hash_width(strategy: HashStrategy) -> nat {
    match strategy {
        HashStrategy::Twox64Concat => 8,
        _ => 16,
    }
}

/// Whether a strategy appends the lookup key after its hash.
pub open spec fn keeps_key(strategy: HashStrategy) -> bool {
    match strategy {
        HashStrategy::Twox64Concat | HashStrategy::Blake2_128Concat => true,
        _ => false,
    }
}

/// The hash part of a strategy's output.
pub open spec fn strategy_hash(strategy: HashStrategy, raw: Seq<u8>) -> Seq<u8> {
    match strategy {
        HashStrategy::Twox128 => twox_128_of(raw)@,
        HashStrategy::Blake2_128 | HashStrategy::Blake2_128Concat => blake2_128_of(raw)@,
        HashStrategy::Twox64Concat => twox_64_of(raw)@,
    }
}

/// What a strategy makes of a raw lookup key.
pub open spec fn hashed(strategy: HashStrategy, raw: Seq<u8>) -> Seq<u8> {
    if keeps_key(strategy) {
        strategy_hash(strategy, raw) + raw
    } else {
        strategy_hash(strategy, raw)
    }
}

/// The key of a singleton item: hash of the module name, then of the item name.
pub open spec fn value_key_of(module: Seq<u8>, item: Seq<u8>) -> Seq<u8> {
    twox_128_of(module)@ + twox_128_of(item)@
}

/// The key of a map entry: the item's key, then the hashed lookup key.
pub open spec fn map_key_of(
    strategy: HashStrategy,
    module: Seq<u8>,
    item: Seq<u8>,
    lookup: Seq<u8>,
) -> Seq<u8> {
    value_key_of(module, item) + hashed(strategy, lookup)
}

/// Folds a raw lookup key into its part of a storage key.
pub fn apply_hasher(strategy: HashStrategy, raw: &[u8]) -> (r: Vec<u8>)
    ensures
        r@ == hashed(strategy, raw@),
        r@.len() == hash_width(strategy) + if keeps_key(strategy) { raw@.len() } else { 0 },
{
    match strategy {
        HashStrategy::Twox128 => twox_128(raw),
        HashStrategy::Blake2_128 => blake2_128(raw),
        HashStrategy::Twox64Concat => {
            let mut h = twox_64(raw);
            let mut tail = slice_to_vec(raw);
            h.append(&mut tail);
            h
        },
        HashStrategy::Blake2_128Concat => {
            let mut h = blake2_128(raw);
            let mut tail = slice_to_vec(raw);
            h.append(&mut tail);
            h
        },
    }
}

/// The storage key of a singleton (non-map) item.
pub fn value_key(module: &[u8], item: &[u8]) -> (r: Vec<u8>)
    ensures
        r@ == value_key_of(module@, item@),
        r@.len() == 32,
{
    let mut k = twox_128(module);
    let mut i = twox_128(item);
    k.append(&mut i);
    k
}

/// The storage key of the entry under `lookup` in a map item whose lookup keys
/// are hashed with `strategy`.
pub fn map_key(strategy: HashStrategy, module: &[u8], item: &[u8], lookup: &[u8]) -> (r: Vec<u8>)
    ensures
        r@ == map_key_of(strategy, module@, item@, lookup@),
{
    let mut k = value_key(module, item);
    let mut h = apply_hasher(strategy, lookup);
    k.append(&mut h);
    k
}

/// A singleton item's key depends on the module and item names alone: equal
/// names give equal keys, always 32 bytes long.
pub proof fn value_key_is_stable(module1: Seq<u8>, item1: Seq<u8>, module2: Seq<u8>, item2: Seq<u8>)
    requires
        module1 == module2,
        item1 == item2,
    ensures
        value_key_of(module1, item1) == value_key_of(module2, item2),
        value_key_of(module1, item1).len() == 32,
{
}

/// A map entry's key is the item's 32-byte key followed by the strategy's
/// hash of the lookup key; a strategy that keeps the key ends with the lookup
/// key itself, which stripping the known widths gives back.
pub proof fn map_key_layout(strategy: HashStrategy, module: Seq<u8>, item: Seq<u8>, lookup: Seq<u8>)
    ensures
        ({
            let k = map_key_of(strategy, module, item, lookup);
            &&& k.len() == 32 + hash_width(strategy) + if keeps_key(strategy) { lookup.len() } else { 0 }
            &&& k.subrange(0, 32) == value_key_of(module, item)
            &&& k.subrange(32, 32 + hash_width(strategy) as int) == strategy_hash(strategy, lookup)
            &&& keeps_key(strategy) ==> k.subrange(32 + hash_width(strategy) as int, k.len() as int) == lookup
        }),
{
    let k = map_key_of(strategy, module, item, lookup);
    let w = hash_width(strategy) as int;
    assert(k.subrange(0, 32) =~= value_key_of(module, item));
    assert(k.subrange(32, 32 + w) =~= strategy_hash(strategy, lookup));
    if keeps_key(strategy) {
        assert(k.subrange(32 + w, k.len() as int) =~= lookup);
    }
}

} // verus!
