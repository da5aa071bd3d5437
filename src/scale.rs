//! Reading the node's binary encoding: fixed-width little-endian integers,
//! compact lengths and byte strings, each from a position in a buffer.
use vstd::prelude::*;
use vstd::slice::{slice_subrange, slice_to_vec};

verus! {

/// The little-endian value of a byte string.
pub open spec fn le_value(s: Seq<u8>) -> nat
    decreases s.len(),
{
    if s.len() == 0 {
        0
    } else {
        s[0] as nat + 256 * le_value(s.subrange(1, s.len() as int))
    }
}

/// A compact-encoded `u32` at the start of `s`, in its canonical form only:
/// the value and the number of bytes it takes.
pub open spec fn compact_u32_of(s: Seq<u8>) -> Option<(u32, nat)> {
    if s.len() == 0 {
        None
    } else if s[0] % 4 == 0 {
        Some(((s[0] / 4) as u32, 1))
    } else if s[0] % 4 == 1 {
        if s.len() < 2 {
            None
        } else {
            let x = le_value(s.take(2)) / 4;
            if 64 <= x && x <= 0x3fff { Some((x as u32, 2)) } else { None }
        }
    } else if s[0] % 4 == 2 {
        if s.len() < 4 {
            None
        } else {
            let x = le_value(s.take(4)) / 4;
            if 0x4000 <= x && x <= 0x3fff_ffff { Some((x as u32, 4)) } else { None }
        }
    } else {
        if s[0] != 3 || s.len() < 5 {
            None
        } else {
            let x = le_value(s.subrange(1, 5));
            if x > 0x3fff_ffff { Some((x as u32, 5)) } else { None }
        }
    }
}

/// A position-carrying result, with the position as an integer.
pub open spec fn at_int<T>(r: Option<(T, usize)>) -> Option<(T, int)> {
    match r {
        Some((v, p)) => Some((v, p as int)),
        None => None,
    }
}

/// The byte at `pos`, and the position after it.
pub open spec fn byte_at(s: Seq<u8>, pos: int) -> Option<(u8, int)> {
    if 0 <= pos < s.len() { Some((s[pos], pos + 1)) } else { None }
}

/// The `n` bytes from `pos` on, and the position after them.
pub open spec fn bytes_at(s: Seq<u8>, pos: int, n: nat) -> Option<(Seq<u8>, int)> {
    if 0 <= pos && pos + n <= s.len() { Some((s.subrange(pos, pos + n), pos + n)) } else { None }
}

/// A little-endian `u32` at `pos`.
pub open spec fn u32_at(s: Seq<u8>, pos: int) -> Option<(u32, int)> {
    match bytes_at(s, pos, 4) {
        Some((b, p)) => Some((le_value(b) as u32, p)),
        None => None,
    }
}

/// A little-endian `u128` at `pos`.
pub open spec fn u128_at(s: Seq<u8>, pos: int) -> Option<(u128, int)> {
    match bytes_at(s, pos, 16) {
        Some((b, p)) => Some((le_value(b) as u128, p)),
        None => None,
    }
}

/// A compact `u32` at `pos`.
pub open spec fn compact_at(s: Seq<u8>, pos: int) -> Option<(u32, int)> {
    if 0 <= pos <= s.len() {
        match compact_u32_of(s.subrange(pos, s.len() as int)) {
            Some((v, w)) => Some((v, pos + w)),
            None => None,
        }
    } else {
        None
    }
}

/// A length-prefixed byte string at `pos`.
pub open spec fn byte_vec_at(s: Seq<u8>, pos: int) -> Option<(Seq<u8>, int)> {
    match compact_at(s, pos) {
        Some((n, p)) => bytes_at(s, p, n as nat),
        None => None,
    }
}

/// 256 to the power `n`.
pub open spec fn pow256(n: nat) -> nat
    decreases n,
{
    if n == 0 {
        1
    } else {
        256 * pow256((n - 1) as nat)
    }
}

/// The `n`-byte little-endian encoding of `v`.
pub open spec fn le_bytes(v: nat, n: nat) -> Seq<u8>
    decreases n,
{
    if n == 0 {
        Seq::empty()
    } else {
        seq![(v % 256) as u8] + le_bytes(v / 256, (n - 1) as nat)
    }
}

/// The compact encoding of `n`, in its shortest form.
pub open spec fn compact_bytes(n: nat) -> Seq<u8> {
    if n < 64 {
        seq![(n * 4) as u8]
    } else if n < 0x4000 {
        le_bytes(n * 4 + 1, 2)
    } else if n < 0x4000_0000 {
        le_bytes(n * 4 + 2, 4)
    } else {
        seq![3u8] + le_bytes(n, 4)
    }
}

/// Reading `n` little-endian bytes gives back the value they encode.
pub proof fn le_bytes_round_trip(v: nat, n: nat)
    requires
        v < pow256(n),
    ensures
        le_bytes(v, n).len() == n,
        le_value(le_bytes(v, n)) == v,
    decreases n,
{
    if n > 0 {
        let m = (n - 1) as nat;
        assert(v / 256 < pow256(m)) by (nonlinear_arith)
            requires
                v < 256 * pow256(m),
        ;
        le_bytes_round_trip(v / 256, m);
        let s = le_bytes(v, n);
        assert(s.subrange(1, s.len() as int) =~= le_bytes(v / 256, m));
        assert(v == v % 256 + 256 * (v / 256)) by (nonlinear_arith);
    }
}

/// Any `n` bytes are the `n`-byte encoding of the value read from them.
pub proof fn le_value_encodes(b: Seq<u8>)
    ensures
        le_value(b) < pow256(b.len()),
        le_bytes(le_value(b), b.len()) == b,
    decreases b.len(),
{
    if b.len() > 0 {
        let rest = b.subrange(1, b.len() as int);
        le_value_encodes(rest);
        let v = le_value(b);
        let r = le_value(rest);
        assert(v == b[0] as nat + 256 * r);
        assert(v % 256 == b[0] as nat && v / 256 == r) by (nonlinear_arith)
            requires
                v == b[0] as nat + 256 * r,
                b[0] < 256,
        ;
        assert(v < pow256(b.len())) by (nonlinear_arith)
            requires
                v == b[0] as nat + 256 * r,
                b[0] < 256,
                r < pow256(rest.len()),
                pow256(b.len()) == 256 * pow256(rest.len()),
        ;
        assert(le_bytes(v, b.len()) =~= b);
    }
}

/// A compact length read back after the bytes that follow it: the value and
/// the width of its encoding.
pub proof fn compact_round_trip(n: nat, tail: Seq<u8>)
    requires
        n < 0x1_0000_0000,
    ensures
        compact_u32_of(compact_bytes(n) + tail) == Some((n as u32, compact_bytes(n).len())),
{
    reveal_with_fuel(pow256, 5);
    let c = compact_bytes(n);
    let s = c + tail;
    if n < 64 {
        assert(s[0] == (n * 4) as u8);
        assert((n * 4) % 4 == 0 && (n * 4) / 4 == n) by (nonlinear_arith);
    } else if n < 0x4000 {
        let v = n * 4 + 1;
        le_bytes_round_trip(v, 2);
        assert(s.take(2) =~= c);
        assert(s[0] == c[0]);
        reveal_with_fuel(le_bytes, 2);
        assert(c[0] == (v % 256) as u8);
        assert((v % 256) % 4 == 1 && v / 4 == n) by (nonlinear_arith)
            requires
                v == n * 4 + 1,
        ;
    } else if n < 0x4000_0000 {
        let v = n * 4 + 2;
        le_bytes_round_trip(v, 4);
        assert(s.take(4) =~= c);
        assert(s[0] == c[0]);
        reveal_with_fuel(le_bytes, 2);
        assert(c[0] == (v % 256) as u8);
        assert((v % 256) % 4 == 2 && v / 4 == n) by (nonlinear_arith)
            requires
                v == n * 4 + 2,
        ;
    } else {
        le_bytes_round_trip(n, 4);
        assert(s.subrange(1, 5) =~= le_bytes(n, 4));
    }
}

/// Only the shortest encoding of a value reads as a compact length: the bytes
/// that were read are that encoding.
pub proof fn compact_only_from_encoding(s: Seq<u8>)
    requires
        compact_u32_of(s) is Some,
    ensures
        ({
            let (n, w) = compact_u32_of(s).unwrap();
            s.len() >= w && s.take(w as int) == compact_bytes(n as nat)
        }),
{
    let (n, w) = compact_u32_of(s).unwrap();
    let b0 = s[0];
    if b0 % 4 == 0 {
        assert(n as nat * 4 == b0 as nat);
        assert(s.take(1) =~= compact_bytes(n as nat));
    } else if b0 % 4 == 1 {
        let t = s.take(2);
        le_value_encodes(t);
        let v = le_value(t);
        reveal_with_fuel(le_value, 3);
        assert(t.subrange(1, 2).subrange(1, 1) =~= Seq::<u8>::empty());
        assert(v == b0 as nat + 256 * (t[1] as nat));
        assert(v == n as nat * 4 + 1) by (nonlinear_arith)
            requires
                v == b0 as nat + 256 * (t[1] as nat),
                b0 % 4 == 1,
                n as nat == v / 4,
        ;
        assert(compact_bytes(n as nat) == le_bytes(v, 2));
    } else if b0 % 4 == 2 {
        let t = s.take(4);
        le_value_encodes(t);
        let v = le_value(t);
        let u = t.subrange(1, 4);
        assert(v == b0 as nat + 256 * le_value(u));
        assert(v == n as nat * 4 + 2) by (nonlinear_arith)
            requires
                v == b0 as nat + 256 * le_value(u),
                b0 % 4 == 2,
                n as nat == v / 4,
        ;
        assert(compact_bytes(n as nat) == le_bytes(v, 4));
    } else {
        let t = s.subrange(1, 5);
        le_value_encodes(t);
        reveal_with_fuel(pow256, 5);
        assert(n as nat == le_value(t));
        assert(s.take(5) =~= seq![3u8] + t);
    }
    assert(s.take(w as int) == compact_bytes(n as nat));
}

/// Relies on parity_scale_codec's `Decode` for `u32` on a byte slice: the
/// first four bytes, little endian, or an error when fewer are there.
#[verifier::external_body]
fn codec_u32(input: &[u8]) -> (r: Option<u32>)
    ensures
        match r {
            Some(v) => input@.len() >= 4 && v as nat == le_value(input@.take(4)),
            None => input@.len() < 4,
        },
{
    let mut cursor: &[u8] = input;
    <u32 as parity_scale_codec::Decode>::decode(&mut cursor).ok()
}

/// Relies on parity_scale_codec's `Decode` for `u128` on a byte slice: the
/// first sixteen bytes, little endian, or an error when fewer are there.
#[verifier::external_body]
fn codec_u128(input: &[u8]) -> (r: Option<u128>)
    ensures
        match r {
            Some(v) => input@.len() >= 16 && v as nat == le_value(input@.take(16)),
            None => input@.len() < 16,
        },
{
    let mut cursor: &[u8] = input;
    <u128 as parity_scale_codec::Decode>::decode(&mut cursor).ok()
}

/// Relies on parity_scale_codec's `Decode` for `Compact<u32>` on a byte
/// slice: the two low bits of the first byte select a one-, two-, four- or
/// five-byte form, and a value written in a longer form than it needs is an
/// error.
#[verifier::external_body]
fn codec_compact_u32(input: &[u8]) -> (r: Option<u32>)
    ensures
        r == match compact_u32_of(input@) {
            Some(p) => Some(p.0),
            None => None::<u32>,
        },
{
    let mut cursor: &[u8] = input;
    <parity_scale_codec::Compact<u32> as parity_scale_codec::Decode>::decode(&mut cursor).ok().map(
        |c| c.0,
    )
}

/// Reads the byte at `pos`.
pub fn read_byte(input: &[u8], pos: usize) -> (r: Option<(u8, usize)>)
    ensures
        at_int(r) == byte_at(input@, pos as int),
{
    if pos < input.len() {
        Some((input[pos], pos + 1))
    } else {
        None
    }
}

/// Reads `n` bytes from `pos` on.
pub fn read_bytes(input: &[u8], pos: usize, n: usize) -> (r: Option<(Vec<u8>, usize)>)
    ensures
        match r {
            Some((b, p)) => bytes_at(input@, pos as int, n as nat) == Some((b@, p as int)),
            None => bytes_at(input@, pos as int, n as nat) is None,
        },
{
    if pos <= input.len() && n <= input.len() - pos {
        let b = slice_to_vec(slice_subrange(input, pos, pos + n));
        Some((b, pos + n))
    } else {
        None
    }
}

/// Skips `n` bytes from `pos` on.
pub fn skip_bytes(input: &[u8], pos: usize, n: usize) -> (r: Option<usize>)
    ensures
        match r {
            Some(p) => bytes_at(input@, pos as int, n as nat) matches Some((_, q)) && q == p,
            None => bytes_at(input@, pos as int, n as nat) is None,
        },
{
    if pos <= input.len() && n <= input.len() - pos {
        Some(pos + n)
    } else {
        None
    }
}

/// Reads a little-endian `u32` at `pos`.
pub fn read_u32(input: &[u8], pos: usize) -> (r: Option<(u32, usize)>)
    ensures
        at_int(r) == u32_at(input@, pos as int),
{
    if pos > input.len() {
        return None;
    }
    let tail = slice_subrange(input, pos, input.len());
    match codec_u32(tail) {
        Some(v) => {
            assert(tail@.take(4) =~= input@.subrange(pos as int, pos + 4));
            Some((v, pos + 4))
        },
        None => None,
    }
}

/// Reads a little-endian `u128` at `pos`.
pub fn read_u128(input: &[u8], pos: usize) -> (r: Option<(u128, usize)>)
    ensures
        at_int(r) == u128_at(input@, pos as int),
{
    if pos > input.len() {
        return None;
    }
    let tail = slice_subrange(input, pos, input.len());
    match codec_u128(tail) {
        Some(v) => {
            assert(tail@.take(16) =~= input@.subrange(pos as int, pos + 16));
            Some((v, pos + 16))
        },
        None => None,
    }
}

/// Reads a compact `u32` at `pos`.
pub fn read_compact(input: &[u8], pos: usize) -> (r: Option<(u32, usize)>)
    ensures
        at_int(r) == compact_at(input@, pos as int),
{
    if pos >= input.len() {
        return None;
    }
    let tail = slice_subrange(input, pos, input.len());
    match codec_compact_u32(tail) {
        Some(v) => {
            let mode = input[pos] % 4;
            let width: usize = if mode == 0 {
                1
            } else if mode == 1 {
                2
            } else if mode == 2 {
                4
            } else {
                5
            };
            Some((v, pos + width))
        },
        None => None,
    }
}

/// Reads a length-prefixed byte string at `pos`.
pub fn read_byte_vec(input: &[u8], pos: usize) -> (r: Option<(Vec<u8>, usize)>)
    ensures
        match r {
            Some((b, p)) => byte_vec_at(input@, pos as int) == Some((b@, p as int)),
            None => byte_vec_at(input@, pos as int) is None,
        },
{
    match read_compact(input, pos) {
        Some((n, p)) => read_bytes(input, p, n as usize),
        None => None,
    }
}

} // verus!
