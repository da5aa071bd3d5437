//! The named queries of the chain: where each one's value is stored, how its
//! bytes are read, and what each one makes of a missing value.
use vstd::prelude::*;
use vstd::string::StringSliceAdditionalSpecFns;
use crate::records::{
    account_info_of, bytes_view, decode_account_info, decode_nick_record,
    decode_registration_display, nick_record_of, registration_display_of, AccountInfo,
};
use crate::scale::{bytes_at, read_bytes, read_u128, u128_at};
use crate::issuance::{get, IssuanceCache};
use crate::storage::{map_key, map_key_of, value_key, value_key_of, HashStrategy};

verus! {

/// Why a query gave no value.
#[derive(Clone, Copy, Debug, PartialEq, Eq)]
pub enum QueryError {
    /// Nothing is stored where the query requires a value.
    Absent,
    /// The stored bytes are not a record of the expected type.
    Malformed,
    /// A name that must be text is not valid UTF-8.
    NotUtf8,
}

/// The text that a byte string decodes to as UTF-8, if it is valid UTF-8.
pub uninterp spec fn utf8_text_of(bytes: Seq<u8>) -> Option<Seq<char>>;

/// Relies on `String::from_utf8`: the text of valid UTF-8 bytes, an error
/// otherwise; which of the two depends on the bytes alone.
#[verifier::external_body]
fn text_from_utf8(bytes: Vec<u8>) -> (r: Option<String>)
    ensures
        match r {
            Some(s) => utf8_text_of(bytes@) == Some(s@),
            None => utf8_text_of(bytes@) is None,
        },
{
    String::from_utf8(bytes).ok()
}

/// The view of a textual result.
pub open spec fn text_view(r: Result<String, QueryError>) -> Result<Seq<char>, QueryError> {
    match r {
        Ok(s) => Ok(s@),
        Err(e) => Err(e),
    }
}

/// Where an account's record is stored.
pub fn account_key(account: &[u8]) -> (r: Vec<u8>)
    ensures
        r@ == map_key_of(
            HashStrategy::Blake2_128Concat,
            "System".spec_bytes(),
            "Account".spec_bytes(),
            account@,
        ),
{
    map_key(HashStrategy::Blake2_128Concat, "System".as_bytes(), "Account".as_bytes(), account)
}

/// Where an account's identity registration is stored.
pub fn identity_key(who: &[u8]) -> (r: Vec<u8>)
    ensures
        r@ == map_key_of(
            HashStrategy::Twox64Concat,
            "Identity".spec_bytes(),
            "IdentityOf".spec_bytes(),
            who@,
        ),
{
    map_key(HashStrategy::Twox64Concat, "Identity".as_bytes(), "IdentityOf".as_bytes(), who)
}

/// Where an account's nickname is stored.
pub fn nick_key(who: &[u8]) -> (r: Vec<u8>)
    ensures
        r@ == map_key_of(
            HashStrategy::Twox64Concat,
            "Nicks".spec_bytes(),
            "NameOf".spec_bytes(),
            who@,
        ),
{
    map_key(HashStrategy::Twox64Concat, "Nicks".as_bytes(), "NameOf".as_bytes(), who)
}

/// Where the total issuance is stored.
pub fn total_issuance_key() -> (r: Vec<u8>)
    ensures
        r@ == value_key_of("Balances".spec_bytes(), "TotalIssuance".spec_bytes()),
{
    value_key("Balances".as_bytes(), "TotalIssuance".as_bytes())
}

/// Where the event log of a block is stored.
pub fn events_key() -> (r: Vec<u8>)
    ensures
        r@ == value_key_of("System".spec_bytes(), "Events".spec_bytes()),
{
    value_key("System".as_bytes(), "Events".as_bytes())
}

/// An account's record, from what the node stored under its key. The record
/// must exist: a missing one is an error, never a default.
pub open spec fn account_result(raw: Option<Seq<u8>>) -> Result<AccountInfo, QueryError> {
    match raw {
        None => Err(QueryError::Absent),
        Some(b) => match account_info_of(b) {
            Some(a) => Ok(a),
            None => Err(QueryError::Malformed),
        },
    }
}

/// An account's display name, from what the node stored under its identity
/// key: `NO_IDENT` when nothing is stored, `OPAQUE_IDENTITY` when the display
/// field is not a raw value.
pub open spec fn identity_result(raw: Option<Seq<u8>>) -> Result<Seq<char>, QueryError> {
    match raw {
        None => Ok("NO_IDENT"@),
        Some(b) => match registration_display_of(b) {
            None => Err(QueryError::Malformed),
            Some(None) => Ok("OPAQUE_IDENTITY"@),
            Some(Some(d)) => match utf8_text_of(d) {
                Some(t) => Ok(t),
                None => Err(QueryError::NotUtf8),
            },
        },
    }
}

/// An account's nickname, from what the node stored under its nickname key:
/// `[NO_NICK]` when nothing is stored.
pub open spec fn nick_result(raw: Option<Seq<u8>>) -> Result<Seq<char>, QueryError> {
    match raw {
        None => Ok("[NO_NICK]"@),
        Some(b) => match nick_record_of(b) {
            None => Err(QueryError::Malformed),
            Some((name, _)) => match utf8_text_of(name) {
                Some(t) => Ok(t),
                None => Err(QueryError::NotUtf8),
            },
        },
    }
}

/// The total issuance, from what the node stored under its key: zero when
/// nothing is stored.
pub open spec fn total_issuance_result(raw: Option<Seq<u8>>) -> Result<u128, QueryError> {
    match raw {
        None => Ok(0),
        Some(b) => match u128_at(b, 0) {
            Some((v, _)) => Ok(v),
            None => Err(QueryError::Malformed),
        },
    }
}

/// A block hash, from the node's answer to a head query: the answer must be
/// there, and its first 32 bytes are the hash.
pub open spec fn head_result(raw: Option<Seq<u8>>) -> Result<Seq<u8>, QueryError> {
    match raw {
        None => Err(QueryError::Absent),
        Some(b) => match bytes_at(b, 0, 32) {
            Some((h, _)) => Ok(h),
            None => Err(QueryError::Malformed),
        },
    }
}

/// Decodes an account's record.
pub fn account_data_from(raw: Option<Vec<u8>>) -> (r: Result<AccountInfo, QueryError>)
    ensures
        r == account_result(bytes_view(raw)),
{
    match raw {
        None => Err(QueryError::Absent),
        Some(b) => match decode_account_info(b.as_slice()) {
            Some(a) => Ok(a),
            None => Err(QueryError::Malformed),
        },
    }
}

/// Decodes an account's display name.
pub fn identity_from(raw: Option<Vec<u8>>) -> (r: Result<String, QueryError>)
    ensures
        text_view(r) == identity_result(bytes_view(raw)),
{
    match raw {
        None => {
            let s = "NO_IDENT".to_owned();
            Ok(s)
        },
        Some(b) => match decode_registration_display(b.as_slice()) {
            None => Err(QueryError::Malformed),
            Some(None) => Ok("OPAQUE_IDENTITY".to_owned()),
            Some(Some(d)) => match text_from_utf8(d) {
                Some(t) => Ok(t),
                None => Err(QueryError::NotUtf8),
            },
        },
    }
}

/// Decodes an account's nickname.
pub fn nick_from(raw: Option<Vec<u8>>) -> (r: Result<String, QueryError>)
    ensures
        text_view(r) == nick_result(bytes_view(raw)),
{
    match raw {
        None => Ok("[NO_NICK]".to_owned()),
        Some(b) => match decode_nick_record(b.as_slice()) {
            None => Err(QueryError::Malformed),
            Some((name, _)) => match text_from_utf8(name) {
                Some(t) => Ok(t),
                None => Err(QueryError::NotUtf8),
            },
        },
    }
}

/// Decodes the total issuance.
pub fn total_issuance_from(raw: Option<Vec<u8>>) -> (r: Result<u128, QueryError>)
    ensures
        r == total_issuance_result(bytes_view(raw)),
{
    match raw {
        None => Ok(0),
        Some(b) => match read_u128(b.as_slice(), 0) {
            Some((v, _)) => Ok(v),
            None => Err(QueryError::Malformed),
        },
    }
}

/// Decodes the hash of the finalized head.
pub fn head_from(raw: Option<Vec<u8>>) -> (r: Result<Vec<u8>, QueryError>)
    ensures
        match r {
            Ok(h) => head_result(bytes_view(raw)) == Ok::<Seq<u8>, QueryError>(h@),
            Err(e) => head_result(bytes_view(raw)) == Err::<Seq<u8>, QueryError>(e),
        },
{
    match raw {
        None => Err(QueryError::Absent),
        Some(b) => match read_bytes(b.as_slice(), 0, 32) {
            Some((h, _)) => Ok(h),
            None => Err(QueryError::Malformed),
        },
    }
}

} // verus!

verus! {

/// The divisor by which balances are scaled into 64-bit weights.
pub const SCALE_UNIT: u128 = 0x1_0000_0000_0000_0000;

/// The scaling factor for a given total issuance: the issuance over 2^64,
/// and never less than one.
pub open spec fn factor_of(issuance: u128) -> nat {
    if issuance / SCALE_UNIT >= 1 {
        (issuance / SCALE_UNIT) as nat
    } else {
        1
    }
}

/// Converts balances to bounded voting weights and back, by the total
/// issuance that it was made with. Precision is lost on purpose: a weight
/// drops the remainder of the division by the factor.
#[derive(Clone, Copy, Debug)]
pub struct CurrencyToVoteHandler {
    pub issuance: u128,
}

impl CurrencyToVoteHandler {
    /// A converter by the issuance that `cache` holds.
    pub fn new(cache: &IssuanceCache) -> (r: CurrencyToVoteHandler)
        ensures
            r.issuance == cache@,
    {
        CurrencyToVoteHandler { issuance: get(cache) }
    }

    /// The scaling factor, at least one.
    pub fn factor(&self) -> (r: u128)
        ensures
            r == factor_of(self.issuance),
            r >= 1,
    {
        let f = self.issuance / SCALE_UNIT;
        if f >= 1 {
            f
        } else {
            1
        }
    }

    /// A balance as a weight: the balance over the factor, truncated to its
    /// low 64 bits.
    pub fn convert_forward(&self, x: u128) -> (r: u64)
        ensures
            r == (x as nat / factor_of(self.issuance)) % 0x1_0000_0000_0000_0000,
    {
        let f = self.factor();
        let q = x / f;
        let r = #[verifier::truncate] (q as u64);
        assert(r == q % 0x1_0000_0000_0000_0000) by (bit_vector)
            requires
                r == q as u64,
        ;
        r
    }

    /// A weight as a balance: the weight times the factor.
    pub fn convert_back(&self, x: u128) -> (r: u128)
        requires
            x * factor_of(self.issuance) <= u128::MAX,
        ensures
            r == x * factor_of(self.issuance),
    {
        let f = self.factor();
        x * f
    }
}

} // verus!

verus! {

/// The factor is at least one for every issuance, zero included.
pub proof fn factor_at_least_one(issuance: u128)
    ensures
        factor_of(issuance) >= 1,
        issuance == 0 ==> factor_of(issuance) == 1,
{
}

/// Converting a balance to a weight and back loses less than one factor and
/// never gains: the weight fits 64 bits, the way back never overflows for any
/// 64-bit weight, and where the quotient fits 64 bits the balance comes back
/// rounded down to a multiple of the factor.
pub proof fn conversion_round_trip(issuance: u128, x: u128)
    ensures
        ({
            let f = factor_of(issuance);
            let w = (x as nat / f) % 0x1_0000_0000_0000_0000;
            &&& w <= u64::MAX
            &&& forall|v: u64| #![trigger (v as nat) * f] (v as nat) * f <= u128::MAX
            &&& x as nat / f <= u64::MAX ==> w * f <= x && x < w * f + f
        }),
{
    let f = factor_of(issuance);
    assert(f <= u64::MAX) by {
        assert(issuance as nat / SCALE_UNIT as nat <= u64::MAX) by (nonlinear_arith)
            requires
                issuance <= u128::MAX,
                SCALE_UNIT == 0x1_0000_0000_0000_0000u128,
        ;
    }
    assert forall|v: u64| #![trigger (v as nat) * f] (v as nat) * f <= u128::MAX by {
        assert((v as nat) * f <= u128::MAX) by (nonlinear_arith)
            requires
                v <= u64::MAX,
                f <= u64::MAX,
        ;
    }
    let q = x as nat / f;
    if q <= u64::MAX {
        assert(q % 0x1_0000_0000_0000_0000 == q);
        assert(q * f <= x && x < q * f + f) by (nonlinear_arith)
            requires
                q == x as nat / f,
                f >= 1,
        ;
    }
}

} // verus!
