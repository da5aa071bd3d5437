//! The records that the node stores under the keys this library reads, and
//! how their bytes are laid out.
use vstd::prelude::*;
use crate::scale::{
    byte_at, byte_vec_at, bytes_at, compact_at, compact_bytes, compact_only_from_encoding,
    compact_round_trip, compact_u32_of, le_bytes, le_bytes_round_trip, le_value_encodes, pow256,
    read_byte, read_byte_vec, read_bytes, read_compact, read_u128, read_u32, skip_bytes, u128_at,
    u32_at,
};

verus! {

/// Balances held by an account.
#[derive(Clone, Copy, Debug, PartialEq, Eq)]
pub struct AccountData {
    pub free: u128,
    pub reserved: u128,
    pub misc_frozen: u128,
    pub fee_frozen: u128,
}

/// An account's record: its nonce, its reference count and its balances.
#[derive(Clone, Copy, Debug, PartialEq, Eq)]
pub struct AccountInfo {
    pub nonce: u32,
    pub refcount: u32,
    pub data: AccountData,
}

/// A position, if any, as an integer.
pub open spec fn pos_int(r: Option<usize>) -> Option<int> {
    match r {
        Some(p) => Some(p as int),
        None => None,
    }
}

/// The view of an optional byte vector.
pub open spec fn bytes_view(r: Option<Vec<u8>>) -> Option<Seq<u8>> {
    match r {
        Some(b) => Some(b@),
        None => None,
    }
}

/// An account record at the start of `s`: two `u32`s, then four `u128`s.
pub open spec fn account_info_of(s: Seq<u8>) -> Option<AccountInfo> {
    match u32_at(s, 0) {
        None => None,
        Some((nonce, p1)) => match u32_at(s, p1) {
            None => None,
            Some((refcount, p2)) => match u128_at(s, p2) {
                None => None,
                Some((free, p3)) => match u128_at(s, p3) {
                    None => None,
                    Some((reserved, p4)) => match u128_at(s, p4) {
                        None => None,
                        Some((misc_frozen, p5)) => match u128_at(s, p5) {
                            None => None,
                            Some((fee_frozen, _)) => Some(
                                AccountInfo {
                                    nonce,
                                    refcount,
                                    data: AccountData { free, reserved, misc_frozen, fee_frozen },
                                },
                            ),
                        },
                    },
                },
            },
        },
    }
}

/// A nickname record at the start of `s`: the name as a length-prefixed byte
/// string, then the deposit as a `u128`.
pub open spec fn nick_record_of(s: Seq<u8>) -> Option<(Seq<u8>, u128)> {
    match byte_vec_at(s, 0) {
        None => None,
        Some((name, p)) => match u128_at(s, p) {
            None => None,
            Some((deposit, _)) => Some((name, deposit)),
        },
    }
}

/// An identity field at `pos`: a tag byte, then a raw value of up to 32 bytes
/// (tags 1 to 33, one more than its length) or a 32-byte hash (tags 34 to
/// 37); tag 0 is an empty field. The result holds the bytes of a raw value,
/// and nothing for the other kinds.
pub open spec fn data_at(s: Seq<u8>, pos: int) -> Option<(Option<Seq<u8>>, int)> {
    match byte_at(s, pos) {
        None => None,
        Some((tag, p)) => if tag == 0 {
            Some((None, p))
        } else if tag <= 33 {
            match bytes_at(s, p, (tag - 1) as nat) {
                Some((b, q)) => Some((Some(b), q)),
                None => None,
            }
        } else if tag <= 37 {
            match bytes_at(s, p, 32) {
                Some((_, q)) => Some((None, q)),
                None => None,
            }
        } else {
            None
        },
    }
}

/// The end of an identity field at `pos`.
pub open spec fn data_end(s: Seq<u8>, pos: int) -> Option<int> {
    match data_at(s, pos) {
        Some((_, p)) => Some(p),
        None => None,
    }
}

/// The end of an identity field that starts where another part ended.
pub open spec fn after_data(s: Seq<u8>, pos: Option<int>) -> Option<int> {
    match pos {
        Some(p) => data_end(s, p),
        None => None,
    }
}

/// The end of a registrar's judgement at `pos`: a tag from 0 to 6, where tag 1
/// carries a `u128` fee.
pub open spec fn judgement_end(s: Seq<u8>, pos: int) -> Option<int> {
    match byte_at(s, pos) {
        None => None,
        Some((tag, p)) => if tag == 1 {
            match u128_at(s, p) {
                Some((_, q)) => Some(q),
                None => None,
            }
        } else if tag <= 6 {
            Some(p)
        } else {
            None
        },
    }
}

/// The end of `n` pairs of a registrar index (`u32`) and a judgement.
pub open spec fn judgements_end(s: Seq<u8>, pos: int, n: nat) -> Option<int>
    decreases n,
{
    if n == 0 {
        Some(pos)
    } else {
        match u32_at(s, pos) {
            None => None,
            Some((_, p)) => match judgement_end(s, p) {
                None => None,
                Some(q) => judgements_end(s, q, (n - 1) as nat),
            },
        }
    }
}

/// The end of `n` pairs of identity fields.
pub open spec fn data_pairs_end(s: Seq<u8>, pos: int, n: nat) -> Option<int>
    decreases n,
{
    if n == 0 {
        Some(pos)
    } else {
        match after_data(s, data_end(s, pos)) {
            None => None,
            Some(q) => data_pairs_end(s, q, (n - 1) as nat),
        }
    }
}

/// The end of an optional 20-byte key fingerprint at `pos`.
pub open spec fn fingerprint_end(s: Seq<u8>, pos: int) -> Option<int> {
    match byte_at(s, pos) {
        None => None,
        Some((tag, p)) => if tag == 0 {
            Some(p)
        } else if tag == 1 {
            match bytes_at(s, p, 20) {
                Some((_, q)) => Some(q),
                None => None,
            }
        } else {
            None
        },
    }
}

/// The end of the fields that follow the display name in an identity: four
/// fields (legal name, web, chat handle, email), a fingerprint, two fields
/// (image, twitter handle).
pub open spec fn info_tail_end(s: Seq<u8>, pos: int) -> Option<int> {
    match after_data(s, after_data(s, after_data(s, data_end(s, pos)))) {
        None => None,
        Some(q) => after_data(s, after_data(s, fingerprint_end(s, q))),
    }
}

/// The display field of an identity registration at the start of `s`:
/// judgements, deposit, extra field pairs, display name, then the fields of
/// `info_tail_end`. The whole record must be well formed.
pub open spec fn registration_display_of(s: Seq<u8>) -> Option<Option<Seq<u8>>> {
    match compact_at(s, 0) {
        None => None,
        Some((nj, p1)) => match judgements_end(s, p1, nj as nat) {
            None => None,
            Some(p2) => match u128_at(s, p2) {
                None => None,
                Some((_, p3)) => match compact_at(s, p3) {
                    None => None,
                    Some((na, p4)) => match data_pairs_end(s, p4, na as nat) {
                        None => None,
                        Some(p5) => match data_at(s, p5) {
                            None => None,
                            Some((display, p6)) => match info_tail_end(s, p6) {
                                None => None,
                                Some(_) => Some(display),
                            },
                        },
                    },
                },
            },
        },
    }
}

/// The encoding of an account record.
pub open spec fn account_info_bytes(a: AccountInfo) -> Seq<u8> {
    le_bytes(a.nonce as nat, 4) + le_bytes(a.refcount as nat, 4) + le_bytes(a.data.free as nat, 16)
        + le_bytes(a.data.reserved as nat, 16) + le_bytes(a.data.misc_frozen as nat, 16)
        + le_bytes(a.data.fee_frozen as nat, 16)
}

/// The encoding of a nickname record.
pub open spec fn nick_record_bytes(name: Seq<u8>, deposit: u128) -> Seq<u8> {
    compact_bytes(name.len()) + name + le_bytes(deposit as nat, 16)
}

/// Fixed-width encodings fit their values.
proof fn integer_widths()
    ensures
        pow256(4) == 0x1_0000_0000,
        pow256(16) == 0x1_0000_0000_0000_0000_0000_0000_0000_0000,
{
    reveal_with_fuel(pow256, 17);
}

/// A `u128` reads back from its encoding, whatever follows it.
pub proof fn u128_round_trip(v: u128, tail: Seq<u8>)
    ensures
        u128_at(le_bytes(v as nat, 16) + tail, 0) == Some((v, 16int)),
{
    integer_widths();
    le_bytes_round_trip(v as nat, 16);
    assert((le_bytes(v as nat, 16) + tail).subrange(0, 16) =~= le_bytes(v as nat, 16));
}

/// An account record reads back from its encoding, whatever follows it.
pub proof fn account_info_round_trip(a: AccountInfo, tail: Seq<u8>)
    ensures
        account_info_of(account_info_bytes(a) + tail) == Some(a),
{
    integer_widths();
    let b0 = le_bytes(a.nonce as nat, 4);
    let b1 = le_bytes(a.refcount as nat, 4);
    let b2 = le_bytes(a.data.free as nat, 16);
    let b3 = le_bytes(a.data.reserved as nat, 16);
    let b4 = le_bytes(a.data.misc_frozen as nat, 16);
    let b5 = le_bytes(a.data.fee_frozen as nat, 16);
    le_bytes_round_trip(a.nonce as nat, 4);
    le_bytes_round_trip(a.refcount as nat, 4);
    le_bytes_round_trip(a.data.free as nat, 16);
    le_bytes_round_trip(a.data.reserved as nat, 16);
    le_bytes_round_trip(a.data.misc_frozen as nat, 16);
    le_bytes_round_trip(a.data.fee_frozen as nat, 16);
    let s = account_info_bytes(a) + tail;
    assert(s.subrange(0, 4) =~= b0);
    assert(s.subrange(4, 8) =~= b1);
    assert(s.subrange(8, 24) =~= b2);
    assert(s.subrange(24, 40) =~= b3);
    assert(s.subrange(40, 56) =~= b4);
    assert(s.subrange(56, 72) =~= b5);
}

/// Only an encoded account record reads as one: the bytes that were read are
/// the encoding of the record they gave.
pub proof fn account_info_only_from_encoding(s: Seq<u8>)
    requires
        account_info_of(s) is Some,
    ensures
        s.len() >= 72,
        s.take(72) == account_info_bytes(account_info_of(s).unwrap()),
{
    integer_widths();
    let a = account_info_of(s).unwrap();
    le_value_encodes(s.subrange(0, 4));
    le_value_encodes(s.subrange(4, 8));
    le_value_encodes(s.subrange(8, 24));
    le_value_encodes(s.subrange(24, 40));
    le_value_encodes(s.subrange(40, 56));
    le_value_encodes(s.subrange(56, 72));
    assert(s.take(72) =~= s.subrange(0, 4) + s.subrange(4, 8) + s.subrange(8, 24) + s.subrange(
        24,
        40,
    ) + s.subrange(40, 56) + s.subrange(56, 72));
}

/// A nickname record reads back from its encoding, whatever follows it.
pub proof fn nick_record_round_trip(name: Seq<u8>, deposit: u128, tail: Seq<u8>)
    requires
        name.len() < 0x1_0000_0000,
    ensures
        nick_record_of(nick_record_bytes(name, deposit) + tail) == Some((name, deposit)),
{
    integer_widths();
    let c = compact_bytes(name.len());
    let d = le_bytes(deposit as nat, 16);
    let s = nick_record_bytes(name, deposit) + tail;
    assert(s =~= c + (name + d + tail));
    compact_round_trip(name.len(), name + d + tail);
    assert(s.subrange(0, s.len() as int) =~= s);
    let w = c.len() as int;
    assert(s.subrange(w, w + name.len()) =~= name);
    le_bytes_round_trip(deposit as nat, 16);
    assert(s.subrange(w + name.len(), w + name.len() + 16) =~= d);
}

/// Only an encoded `u128` reads as one.
pub proof fn u128_only_from_encoding(s: Seq<u8>)
    requires
        u128_at(s, 0) is Some,
    ensures
        s.len() >= 16,
        s.take(16) == le_bytes(u128_at(s, 0).unwrap().0 as nat, 16),
{
    integer_widths();
    le_value_encodes(s.subrange(0, 16));
    assert(s.take(16) =~= s.subrange(0, 16));
}

/// Only an encoded nickname record reads as one: the bytes that were read are
/// the encoding of the name and deposit they gave.
pub proof fn nick_record_only_from_encoding(s: Seq<u8>)
    requires
        nick_record_of(s) is Some,
    ensures
        ({
            let (name, deposit) = nick_record_of(s).unwrap();
            let e = nick_record_bytes(name, deposit);
            s.len() >= e.len() && s.take(e.len() as int) == e
        }),
{
    integer_widths();
    let (name, deposit) = nick_record_of(s).unwrap();
    assert(s.subrange(0, s.len() as int) =~= s);
    compact_only_from_encoding(s);
    let (n, w) = compact_u32_of(s).unwrap();
    let w = w as int;
    let d = s.subrange(w + n, w + n + 16);
    le_value_encodes(d);
    let e = nick_record_bytes(name, deposit);
    assert(s.take(e.len() as int) =~= s.take(w) + s.subrange(w, w + n) + d);
}

/// Decodes an account record.
pub fn decode_account_info(input: &[u8]) -> (r: Option<AccountInfo>)
    ensures
        r == account_info_of(input@),
{
    let (nonce, p1) = match read_u32(input, 0) {
        Some(x) => x,
        None => return None,
    };
    let (refcount, p2) = match read_u32(input, p1) {
        Some(x) => x,
        None => return None,
    };
    let (free, p3) = match read_u128(input, p2) {
        Some(x) => x,
        None => return None,
    };
    let (reserved, p4) = match read_u128(input, p3) {
        Some(x) => x,
        None => return None,
    };
    let (misc_frozen, p5) = match read_u128(input, p4) {
        Some(x) => x,
        None => return None,
    };
    let (fee_frozen, _) = match read_u128(input, p5) {
        Some(x) => x,
        None => return None,
    };
    Some(
        AccountInfo {
            nonce,
            refcount,
            data: AccountData { free, reserved, misc_frozen, fee_frozen },
        },
    )
}

/// Decodes a nickname record into the name's bytes and the deposit.
pub fn decode_nick_record(input: &[u8]) -> (r: Option<(Vec<u8>, u128)>)
    ensures
        match r {
            Some((name, deposit)) => nick_record_of(input@) == Some((name@, deposit)),
            None => nick_record_of(input@) is None,
        },
{
    let (name, p) = match read_byte_vec(input, 0) {
        Some(x) => x,
        None => return None,
    };
    match read_u128(input, p) {
        Some((deposit, _)) => Some((name, deposit)),
        None => None,
    }
}

/// Reads an identity field at `pos`.
pub fn read_data(input: &[u8], pos: usize) -> (r: Option<(Option<Vec<u8>>, usize)>)
    ensures
        match r {
            Some((d, p)) => data_at(input@, pos as int) == Some((bytes_view(d), p as int)),
            None => data_at(input@, pos as int) is None,
        },
{
    let (tag, p) = match read_byte(input, pos) {
        Some(x) => x,
        None => return None,
    };
    if tag == 0 {
        Some((None, p))
    } else if tag <= 33 {
        match read_bytes(input, p, (tag - 1) as usize) {
            Some((b, q)) => Some((Some(b), q)),
            None => None,
        }
    } else if tag <= 37 {
        match skip_bytes(input, p, 32) {
            Some(q) => Some((None, q)),
            None => None,
        }
    } else {
        None
    }
}

/// Skips an identity field at `pos`.
pub fn skip_data(input: &[u8], pos: usize) -> (r: Option<usize>)
    ensures
        pos_int(r) == data_end(input@, pos as int),
{
    match read_data(input, pos) {
        Some((_, p)) => Some(p),
        None => None,
    }
}

/// Skips a judgement at `pos`.
pub fn skip_judgement(input: &[u8], pos: usize) -> (r: Option<usize>)
    ensures
        pos_int(r) == judgement_end(input@, pos as int),
{
    let (tag, p) = match read_byte(input, pos) {
        Some(x) => x,
        None => return None,
    };
    if tag == 1 {
        match read_u128(input, p) {
            Some((_, q)) => Some(q),
            None => None,
        }
    } else if tag <= 6 {
        Some(p)
    } else {
        None
    }
}

/// Skips `n` registrar judgements from `pos` on.
pub fn skip_judgements(input: &[u8], pos: usize, n: u32) -> (r: Option<usize>)
    ensures
        pos_int(r) == judgements_end(input@, pos as int, n as nat),
{
    let mut p = pos;
    let mut i: u32 = 0;
    while i < n
        invariant
            i <= n,
            judgements_end(input@, pos as int, n as nat) == judgements_end(
                input@,
                p as int,
                (n - i) as nat,
            ),
        decreases n - i,
    {
        let (_, q) = match read_u32(input, p) {
            Some(x) => x,
            None => return None,
        };
        p = match skip_judgement(input, q) {
            Some(x) => x,
            None => return None,
        };
        i = i + 1;
    }
    Some(p)
}

/// Skips `n` pairs of identity fields from `pos` on.
pub fn skip_data_pairs(input: &[u8], pos: usize, n: u32) -> (r: Option<usize>)
    ensures
        pos_int(r) == data_pairs_end(input@, pos as int, n as nat),
{
    let mut p = pos;
    let mut i: u32 = 0;
    while i < n
        invariant
            i <= n,
            data_pairs_end(input@, pos as int, n as nat) == data_pairs_end(
                input@,
                p as int,
                (n - i) as nat,
            ),
        decreases n - i,
    {
        let q = match skip_data(input, p) {
            Some(x) => x,
            None => return None,
        };
        p = match skip_data(input, q) {
            Some(x) => x,
            None => return None,
        };
        i = i + 1;
    }
    Some(p)
}

/// Skips an optional fingerprint at `pos`.
pub fn skip_fingerprint(input: &[u8], pos: usize) -> (r: Option<usize>)
    ensures
        pos_int(r) == fingerprint_end(input@, pos as int),
{
    let (tag, p) = match read_byte(input, pos) {
        Some(x) => x,
        None => return None,
    };
    if tag == 0 {
        Some(p)
    } else if tag == 1 {
        skip_bytes(input, p, 20)
    } else {
        None
    }
}

/// Skips the fields that follow the display name.
pub fn skip_info_tail(input: &[u8], pos: usize) -> (r: Option<usize>)
    ensures
        pos_int(r) == info_tail_end(input@, pos as int),
{
    let legal = match skip_data(input, pos) {
        Some(x) => x,
        None => return None,
    };
    let web = match skip_data(input, legal) {
        Some(x) => x,
        None => return None,
    };
    let riot = match skip_data(input, web) {
        Some(x) => x,
        None => return None,
    };
    let email = match skip_data(input, riot) {
        Some(x) => x,
        None => return None,
    };
    let fingerprint = match skip_fingerprint(input, email) {
        Some(x) => x,
        None => return None,
    };
    let image = match skip_data(input, fingerprint) {
        Some(x) => x,
        None => return None,
    };
    skip_data(input, image)
}

/// Decodes an identity registration and returns its display field: the bytes
/// of a raw value, or nothing for the other kinds.
pub fn decode_registration_display(input: &[u8]) -> (r: Option<Option<Vec<u8>>>)
    ensures
        match r {
            Some(d) => registration_display_of(input@) == Some(bytes_view(d)),
            None => registration_display_of(input@) is None,
        },
{
    let (nj, p1) = match read_compact(input, 0) {
        Some(x) => x,
        None => return None,
    };
    let p2 = match skip_judgements(input, p1, nj) {
        Some(x) => x,
        None => return None,
    };
    let (_, p3) = match read_u128(input, p2) {
        Some(x) => x,
        None => return None,
    };
    let (na, p4) = match read_compact(input, p3) {
        Some(x) => x,
        None => return None,
    };
    let p5 = match skip_data_pairs(input, p4, na) {
        Some(x) => x,
        None => return None,
    };
    let (display, p6) = match read_data(input, p5) {
        Some(x) => x,
        None => return None,
    };
    match skip_info_tail(input, p6) {
        Some(_) => Some(display),
        None => None,
    }
}

} // verus!
