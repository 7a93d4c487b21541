//! The primitive layer of the wire format: little-endian integers of fixed
//! width and the compact form of a length. The formats are stated as spec
//! functions on byte sequences; the executable functions call
//! `parity_scale_codec` and are specified against those statements.

use vstd::prelude::*;

verus! {

/// 256 to the power `width`: the number of values that `width` bytes can hold.
pub open spec fn pow256(width: nat) -> nat
    decreases width,
{
    if width == 0 {
        1
    } else {
        256 * pow256((width - 1) as nat)
    }
}

/// The `width` low bytes of `v`, least significant byte first.
pub open spec fn le_bytes(v: nat, width: nat) -> Seq<u8>
    decreases width,
{
    if width == 0 {
        Seq::empty()
    } else {
        seq![(v % 256) as u8] + le_bytes(v / 256, (width - 1) as nat)
    }
}

/// The number that `s` holds, least significant byte first.
pub open spec fn le_value(s: Seq<u8>) -> nat
    decreases s.len(),
{
    if s.len() == 0 {
        0
    } else {
        (s[0] as nat) + 256 * le_value(s.drop_first())
    }
}

/// Writing a number out in `width` bytes gives `width` bytes.
pub proof fn lemma_le_bytes_len(v: nat, width: nat)
    ensures
        le_bytes(v, width).len() == width,
    decreases width,
{
    if width > 0 {
        lemma_le_bytes_len(v / 256, (width - 1) as nat);
    }
}

/// The number that a byte sequence holds is below 256 to the power of its
/// length.
pub proof fn lemma_le_value_bound(s: Seq<u8>)
    ensures
        le_value(s) < pow256(s.len()),
    decreases s.len(),
{
    if s.len() > 0 {
        lemma_le_value_bound(s.drop_first());
    }
}

/// Reading back the bytes of a number that fits gives the number.
pub proof fn lemma_le_value_of_bytes(v: nat, width: nat)
    requires
        v < pow256(width),
    ensures
        le_value(le_bytes(v, width)) == v,
    decreases width,
{
    if width > 0 {
        let tail = le_bytes(v / 256, (width - 1) as nat);
        lemma_le_bytes_len(v / 256, (width - 1) as nat);
        lemma_le_value_of_bytes(v / 256, (width - 1) as nat);
        assert(le_bytes(v, width).drop_first() =~= tail);
    }
}

/// Writing out the number that a byte sequence holds gives the sequence.
pub proof fn lemma_le_bytes_of_value(s: Seq<u8>)
    ensures
        le_bytes(le_value(s), s.len()) == s,
    decreases s.len(),
{
    if s.len() > 0 {
        lemma_le_bytes_of_value(s.drop_first());
    }
}

/// The powers of 256 that the widths of this format need.
pub proof fn lemma_pow256_values()
    ensures
        pow256(1) == 0x100,
        pow256(2) == 0x1_0000,
        pow256(4) == 0x1_0000_0000,
        pow256(8) == 0x1_0000_0000_0000_0000,
        pow256(16) == 0x1_0000_0000_0000_0000_0000_0000_0000_0000,
{
    reveal_with_fuel(pow256, 17);
}

/// The largest length that the compact form can carry.
pub const MAX_LEN: usize = 0xffff_ffff;

/// The compact form of `n`, for `n` up to `MAX_LEN`: one, two, four or five
/// bytes, the two low bits of the first byte telling which.
pub open spec fn compact(n: nat) -> Seq<u8> {
    if n < 0x40 {
        le_bytes(4 * n, 1)
    } else if n < 0x4000 {
        le_bytes(4 * n + 1, 2)
    } else if n < 0x4000_0000 {
        le_bytes(4 * n + 2, 4)
    } else {
        seq![3u8] + le_bytes(n, 4)
    }
}

/// The number at the head of `s` in compact form, with the count of bytes it
/// takes. Only the shortest form of a number is accepted.
pub open spec fn parse_compact(s: Seq<u8>) -> Option<(nat, nat)> {
    if s.len() == 0 {
        None
    } else if s[0] % 4 == 0 {
        Some(((s[0] / 4) as nat, 1))
    } else if s[0] % 4 == 1 {
        if s.len() < 2 || le_value(s.subrange(0, 2)) / 4 < 0x40 {
            None
        } else {
            Some((le_value(s.subrange(0, 2)) / 4, 2))
        }
    } else if s[0] % 4 == 2 {
        if s.len() < 4 || le_value(s.subrange(0, 4)) / 4 < 0x4000 {
            None
        } else {
            Some((le_value(s.subrange(0, 4)) / 4, 4))
        }
    } else {
        if s[0] != 3 || s.len() < 5 || le_value(s.subrange(1, 5)) < 0x4000_0000 {
            None
        } else {
            Some((le_value(s.subrange(1, 5)), 5))
        }
    }
}

/// A compact form takes between one and five bytes.
pub proof fn lemma_compact_len(n: nat)
    ensures
        1 <= compact(n).len() <= 5,
{
    lemma_le_bytes_len(4 * n, 1);
    lemma_le_bytes_len(4 * n + 1, 2);
    lemma_le_bytes_len(4 * n + 2, 4);
    lemma_le_bytes_len(n, 4);
}

/// A compact form, followed by anything, parses back to its number.
pub proof fn lemma_parse_compact_of_compact(n: nat, rest: Seq<u8>)
    requires
        n <= MAX_LEN,
    ensures
        parse_compact(compact(n) + rest) == Some((n, compact(n).len())),
{
    let s = compact(n) + rest;
    lemma_pow256_values();
    lemma_compact_len(n);
    if n < 0x40 {
        lemma_le_bytes_len(4 * n, 1);
        reveal_with_fuel(le_bytes, 2);
    } else if n < 0x4000 {
        lemma_le_bytes_len(4 * n + 1, 2);
        lemma_le_value_of_bytes(4 * n + 1, 2);
        reveal_with_fuel(le_bytes, 3);
        assert(s.subrange(0, 2) =~= compact(n));
    } else if n < 0x4000_0000 {
        lemma_le_bytes_len(4 * n + 2, 4);
        lemma_le_value_of_bytes(4 * n + 2, 4);
        reveal_with_fuel(le_bytes, 5);
        assert(s.subrange(0, 4) =~= compact(n));
    } else {
        lemma_le_bytes_len(n, 4);
        lemma_le_value_of_bytes(n, 4);
        assert(s[0] == 3);
        assert(s.subrange(1, 5) =~= le_bytes(n, 4));
    }
}

/// What parses as a compact form is the compact form of the number found.
pub proof fn lemma_compact_of_parse_compact(s: Seq<u8>)
    ensures
        parse_compact(s) matches Some((n, used)) ==> n <= MAX_LEN && used <= s.len() && compact(n)
            == s.subrange(0, used as int),
{
    lemma_pow256_values();
    if s.len() > 0 {
        if s[0] % 4 == 0 {
            reveal_with_fuel(le_bytes, 2);
        } else if s[0] % 4 == 1 {
            if s.len() >= 2 {
                let head = s.subrange(0, 2);
                lemma_le_value_bound(head);
                lemma_le_bytes_of_value(head);
                reveal_with_fuel(le_value, 3);
            }
        } else if s[0] % 4 == 2 {
            if s.len() >= 4 {
                let head = s.subrange(0, 4);
                lemma_le_value_bound(head);
                lemma_le_bytes_of_value(head);
                reveal_with_fuel(le_value, 5);
            }
        } else {
            if s[0] == 3 && s.len() >= 5 {
                let body = s.subrange(1, 5);
                lemma_le_value_bound(body);
                lemma_le_bytes_of_value(body);
            }
        }
    }
}

/// The number of bytes that the compact form of `n` takes.
pub fn compact_len(n: u32) -> (len: usize)
    ensures
        len == compact(n as nat).len(),
{
    proof {
        lemma_le_bytes_len(4 * (n as nat), 1);
        lemma_le_bytes_len(4 * (n as nat) + 1, 2);
        lemma_le_bytes_len(4 * (n as nat) + 2, 4);
        lemma_le_bytes_len(n as nat, 4);
    }
    if n < 0x40 {
        1
    } else if n < 0x4000 {
        2
    } else if n < 0x4000_0000 {
        4
    } else {
        5
    }
}

/// The error of `parity_scale_codec`, carried through and never read.
#[verifier::external_type_specification]
#[verifier::external_body]
pub struct ExCodecError(parity_scale_codec::Error);

/// `parity_scale_codec::Encode::encode` on a `u32`. Claimed of it: the result
/// is the four bytes of `v`, least significant first.
#[verifier::external_body]
pub(crate) fn encode_u32(v: u32) -> (r: Vec<u8>)
    ensures
        r@ == le_bytes(v as nat, 4),
{
    parity_scale_codec::Encode::encode(&v)
}

/// `parity_scale_codec::Encode::encode` on a `u128`. Claimed of it: the result
/// is the sixteen bytes of `v`, least significant first.
#[verifier::external_body]
pub(crate) fn encode_u128(v: u128) -> (r: Vec<u8>)
    ensures
        r@ == le_bytes(v as nat, 16),
{
    parity_scale_codec::Encode::encode(&v)
}

/// `parity_scale_codec::Encode::encode` on a `Compact<u32>`. Claimed of it:
/// the result is the compact form of `n`.
#[verifier::external_body]
fn encode_compact_u32(n: u32) -> (r: Vec<u8>)
    ensures
        r@ == compact(n as nat),
{
    parity_scale_codec::Encode::encode(&parity_scale_codec::Compact(n))
}

/// `parity_scale_codec::Decode::decode` for `u32` on a byte slice. Claimed of
/// it: it fails exactly when fewer than four bytes are given; else it returns
/// the number that the first four hold, least significant first.
#[verifier::external_body]
pub(crate) fn decode_u32(input: &[u8]) -> (r: Result<u32, parity_scale_codec::Error>)
    ensures
        input@.len() < 4 ==> r is Err,
        input@.len() >= 4 ==> r is Ok && r->Ok_0 as nat == le_value(input@.subrange(0, 4)),
{
    let mut rest: &[u8] = input;
    <u32 as parity_scale_codec::Decode>::decode(&mut rest)
}

/// `parity_scale_codec::Decode::decode` for `u128` on a byte slice. Claimed of
/// it: it fails exactly when fewer than sixteen bytes are given; else it
/// returns the number that the first sixteen hold, least significant first.
#[verifier::external_body]
pub(crate) fn decode_u128(input: &[u8]) -> (r: Result<u128, parity_scale_codec::Error>)
    ensures
        input@.len() < 16 ==> r is Err,
        input@.len() >= 16 ==> r is Ok && r->Ok_0 as nat == le_value(input@.subrange(0, 16)),
{
    let mut rest: &[u8] = input;
    <u128 as parity_scale_codec::Decode>::decode(&mut rest)
}

/// `parity_scale_codec::Decode::decode` for `Compact<u32>` on a byte slice.
/// Claimed of it: it succeeds exactly on the inputs on which `parse_compact`
/// finds a number, and returns that number.
#[verifier::external_body]
fn decode_compact_u32(input: &[u8]) -> (r: Result<u32, parity_scale_codec::Error>)
    ensures
        parse_compact(input@) is None ==> r is Err,
        parse_compact(input@) matches Some(found) ==> r is Ok && r->Ok_0 as nat == found.0,
{
    let mut rest: &[u8] = input;
    let n = <parity_scale_codec::Compact<u32> as parity_scale_codec::Decode>::decode(&mut rest)?;
    Ok(n.0)
}

/// Appends the compact form of `n` to `out`.
pub fn encode_len(n: u32, out: &mut Vec<u8>)
    ensures
        final(out)@ == old(out)@ + compact(n as nat),
{
    let mut bytes = encode_compact_u32(n);
    out.append(&mut bytes);
}

/// Reads the number at the head of `input` in compact form; returns it with
/// the number of bytes read, or `None` where none parses.
pub fn decode_len(input: &[u8]) -> (r: Option<(u32, usize)>)
    ensures
        match r {
            Some((n, used)) => parse_compact(input@) == Some((n as nat, used as nat)),
            None => parse_compact(input@) is None,
        },
{
    proof {
        lemma_compact_of_parse_compact(input@);
    }
    match decode_compact_u32(input) {
        Ok(n) => Some((n, compact_len(n))),
        Err(_) => None,
    }
}

} // verus!
