use chain_storage::issuance::{self, IssuanceCache};
use chain_storage::network::{
    account_data_from, account_key, events_key, head_from, identity_from, identity_key,
    nick_from, nick_key, total_issuance_from, total_issuance_key, CurrencyToVoteHandler,
    QueryError,
};
use chain_storage::records::{AccountData, AccountInfo};
use chain_storage::storage::{apply_hasher, map_key, value_key, HashStrategy};
use parity_scale_codec::Encode;

fn hex(bytes: &[u8]) -> String {
    bytes.iter().map(|b| format!("{:02x}", b)).collect()
}

fn le128(v: u128) -> Vec<u8> {
    v.to_le_bytes().to_vec()
}

/// A registration with no judgements, no extra fields, the given display
/// field and empty remaining fields.
fn registration(display: &[u8]) -> Vec<u8> {
    let mut out = vec![0u8];
    out.extend_from_slice(&le128(7));
    out.push(0);
    out.extend_from_slice(display);
    out.extend_from_slice(&[0, 0, 0, 0, 0, 0, 0]);
    out
}

#[test]
fn value_key_matches_known_prefixes() {
    assert_eq!(
        hex(&value_key(b"System", b"Account")),
        "26aa394eea5630e07c48ae0c9558cef7b99d880ec681799c0cf30e8886371da9"
    );
    assert_eq!(
        hex(&total_issuance_key()),
        "c2261276cc9d1f8598ea4b6a74b15c2f57c875e4cff74148e4628f264b974c80"
    );
    assert_eq!(
        hex(&events_key()),
        "26aa394eea5630e07c48ae0c9558cef780d41e5e16056765bc8461851072c9d7"
    );
}

#[test]
fn value_key_is_stable_across_calls() {
    let a = value_key(b"Balances", b"TotalIssuance");
    let b = value_key(b"Balances", b"TotalIssuance");
    assert_eq!(a, b);
    assert_eq!(a.len(), 32);
    assert_ne!(a, value_key(b"Balances", b"Locks"));
}

#[test]
fn map_key_layout_per_strategy() {
    let lookup = [9u8; 32];
    let prefix = value_key(b"System", b"Account");
    let cases = [
        (HashStrategy::Twox128, 16, false),
        (HashStrategy::Blake2_128, 16, false),
        (HashStrategy::Twox64Concat, 8, true),
        (HashStrategy::Blake2_128Concat, 16, true),
    ];
    for (strategy, width, keeps) in cases {
        let k = map_key(strategy, b"System", b"Account", &lookup);
        let expected_len = 32 + width + if keeps { lookup.len() } else { 0 };
        assert_eq!(k.len(), expected_len);
        assert_eq!(&k[..32], &prefix[..]);
        assert_eq!(&k[32..32 + width], &apply_hasher(strategy, &lookup)[..width]);
        if keeps {
            assert_eq!(&k[32 + width..], &lookup[..]);
        }
    }
}

#[test]
fn hashers_do_not_hand_back_their_input() {
    let raw = [1u8, 2, 3, 4, 5, 6, 7, 8, 9, 10, 11, 12, 13, 14, 15, 16];
    assert_ne!(apply_hasher(HashStrategy::Twox128, &raw), raw.to_vec());
    assert_ne!(apply_hasher(HashStrategy::Blake2_128, &raw), raw.to_vec());
    assert_ne!(
        apply_hasher(HashStrategy::Twox128, &raw),
        apply_hasher(HashStrategy::Blake2_128, &raw)
    );
    assert_ne!(&apply_hasher(HashStrategy::Twox64Concat, &raw)[..8], &raw[..8]);
}

#[test]
fn query_keys_use_their_strategies() {
    let who = [3u8; 32];
    assert_eq!(
        account_key(&who),
        map_key(HashStrategy::Blake2_128Concat, b"System", b"Account", &who)
    );
    assert_eq!(
        identity_key(&who),
        map_key(HashStrategy::Twox64Concat, b"Identity", b"IdentityOf", &who)
    );
    assert_eq!(nick_key(&who), map_key(HashStrategy::Twox64Concat, b"Nicks", b"NameOf", &who));
}

#[test]
fn missing_account_is_an_error() {
    assert_eq!(account_data_from(None), Err(QueryError::Absent));
}

#[test]
fn account_record_decodes() {
    let mut raw = Vec::new();
    raw.extend_from_slice(&5u32.to_le_bytes());
    raw.extend_from_slice(&1u32.to_le_bytes());
    raw.extend_from_slice(&le128(1000));
    raw.extend_from_slice(&le128(20));
    raw.extend_from_slice(&le128(3));
    raw.extend_from_slice(&le128(4));
    let expected = AccountInfo {
        nonce: 5,
        refcount: 1,
        data: AccountData { free: 1000, reserved: 20, misc_frozen: 3, fee_frozen: 4 },
    };
    assert_eq!(account_data_from(Some(raw.clone())), Ok(expected));
    raw.pop();
    assert_eq!(account_data_from(Some(raw)), Err(QueryError::Malformed));
}

#[test]
fn identity_sentinels() {
    assert_eq!(identity_from(None), Ok("NO_IDENT".to_string()));
    let mut hashed = vec![34u8];
    hashed.extend_from_slice(&[0xab; 32]);
    assert_eq!(identity_from(Some(registration(&hashed))), Ok("OPAQUE_IDENTITY".to_string()));
    assert_eq!(identity_from(Some(registration(&[0]))), Ok("OPAQUE_IDENTITY".to_string()));
}

#[test]
fn identity_raw_display() {
    let mut display = vec![6u8];
    display.extend_from_slice(b"alice");
    assert_eq!(identity_from(Some(registration(&display))), Ok("alice".to_string()));
    assert_eq!(
        identity_from(Some(registration(&[3, 0xff, 0xfe]))),
        Err(QueryError::NotUtf8)
    );
}

#[test]
fn identity_with_judgements_and_extra_fields() {
    let mut raw = vec![2u8 << 2];
    raw.extend_from_slice(&0u32.to_le_bytes());
    raw.push(1);
    raw.extend_from_slice(&le128(50));
    raw.extend_from_slice(&1u32.to_le_bytes());
    raw.push(3);
    raw.extend_from_slice(&le128(9));
    raw.push(1 << 2);
    raw.extend_from_slice(&[2, b'k', 0]);
    raw.extend_from_slice(&[4, b'b', b'o', b'b']);
    raw.extend_from_slice(&[0, 0, 0, 0]);
    raw.push(1);
    raw.extend_from_slice(&[7u8; 20]);
    raw.extend_from_slice(&[0, 0]);
    assert_eq!(identity_from(Some(raw.clone())), Ok("bob".to_string()));
    raw.pop();
    assert_eq!(identity_from(Some(raw)), Err(QueryError::Malformed));
}

#[test]
fn identity_bad_tags_are_malformed() {
    assert_eq!(identity_from(Some(registration(&[38]))), Err(QueryError::Malformed));
    let mut raw = vec![1u8 << 2];
    raw.extend_from_slice(&0u32.to_le_bytes());
    raw.push(7);
    assert_eq!(identity_from(Some(raw)), Err(QueryError::Malformed));
}

#[test]
fn missing_nick_is_the_sentinel() {
    assert_eq!(nick_from(None), Ok("[NO_NICK]".to_string()));
}

#[test]
fn nick_decodes_from_its_encoding() {
    let raw = (b"dave".to_vec(), 77u128).encode();
    assert_eq!(nick_from(Some(raw)), Ok("dave".to_string()));
    let long = vec![b'x'; 100];
    let raw = (long.clone(), 1u128).encode();
    assert_eq!(nick_from(Some(raw)), Ok(String::from_utf8(long).unwrap()));
    let big = vec![b'y'; 20000];
    let raw = (big.clone(), 1u128).encode();
    assert_eq!(nick_from(Some(raw)), Ok(String::from_utf8(big).unwrap()));
    let bad = (vec![0xc3u8], 1u128).encode();
    assert_eq!(nick_from(Some(bad)), Err(QueryError::NotUtf8));
    assert_eq!(nick_from(Some(vec![8, b'a'])), Err(QueryError::Malformed));
}

#[test]
fn non_canonical_compact_is_malformed() {
    let mut raw = vec![0b0000_0101u8, 0];
    raw.push(b'a');
    raw.extend_from_slice(&le128(0));
    assert_eq!(nick_from(Some(raw)), Err(QueryError::Malformed));
}

#[test]
fn total_issuance_defaults_to_zero() {
    assert_eq!(total_issuance_from(None), Ok(0));
    assert_eq!(total_issuance_from(Some(12345u128.encode())), Ok(12345));
    assert_eq!(total_issuance_from(Some(vec![1, 2, 3])), Err(QueryError::Malformed));
}

#[test]
fn head_hash_is_the_first_32_bytes() {
    let h: Vec<u8> = (0u8..32).collect();
    assert_eq!(head_from(Some(h.clone())), Ok(h.clone()));
    assert_eq!(head_from(None), Err(QueryError::Absent));
    assert_eq!(head_from(Some(h[..31].to_vec())), Err(QueryError::Malformed));
}

#[test]
fn empty_cache_gives_unit_factor() {
    let cache = IssuanceCache::new();
    assert_eq!(issuance::get(&cache), 0);
    let handler = CurrencyToVoteHandler::new(&cache);
    assert_eq!(handler.factor(), 1);
    assert_eq!(handler.convert_forward(500), 500);
}

#[test]
fn set_then_convert() {
    let mut cache = IssuanceCache::new();
    let issuance_value: u128 = 3 << 64;
    assert_eq!(issuance::set(&mut cache, Some(issuance_value.encode())), Ok(()));
    assert_eq!(issuance::get(&cache), issuance_value);
    let handler = CurrencyToVoteHandler::new(&cache);
    assert_eq!(handler.factor(), 3);
    assert_eq!(handler.convert_forward(10), 3);
    assert_eq!(handler.convert_back(3), 9);
    assert_eq!(issuance::set(&mut cache, Some(vec![1])), Err(QueryError::Malformed));
    assert_eq!(issuance::get(&cache), issuance_value);
    assert_eq!(issuance::set(&mut cache, None), Ok(()));
    assert_eq!(issuance::get(&cache), 0);
}

#[test]
fn factor_is_at_least_one_for_small_issuance() {
    for value in [0u128, 1, u64::MAX as u128, (1u128 << 64) - 1] {
        let handler = CurrencyToVoteHandler { issuance: value };
        assert_eq!(handler.factor(), 1);
    }
    let handler = CurrencyToVoteHandler { issuance: u128::MAX };
    assert_eq!(handler.factor(), u64::MAX as u128);
    assert_eq!(handler.convert_back(u64::MAX as u128), (u64::MAX as u128) * (u64::MAX as u128));
}

#[test]
fn conversion_is_lossy_and_bounded() {
    let handler = CurrencyToVoteHandler { issuance: 4 << 64 };
    let x: u128 = 4 * 1000 + 3;
    let w = handler.convert_forward(x);
    assert_eq!(w, 1000);
    let back = handler.convert_back(w as u128);
    assert_eq!(back, 4000);
    assert!(back <= x && x - back < handler.factor());
    let unit = CurrencyToVoteHandler { issuance: 0 };
    assert_eq!(unit.convert_forward((1u128 << 64) + 5), 5);
}
