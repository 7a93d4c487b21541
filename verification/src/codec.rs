//! Values that cross the wire. A type that can be sent implements `Encode`;
//! one that can also be read back implements `Decode`, with the two laws that
//! tie reading to writing. A composite value is the concatenation of its
//! parts in declaration order; a sequence is its length in compact form
//! followed by its items.

use crate::scale::{
    decode_u128, decode_u32, encode_u128, encode_u32, le_bytes, le_value, lemma_le_bytes_len,
    lemma_le_bytes_of_value, lemma_le_value_bound, lemma_le_value_of_bytes, lemma_pow256_values,
};
use vstd::prelude::*;

verus! {

/// A value with a canonical byte form.
pub trait Encode {
    /// The mathematical value that an executable value stands for.
    type Value;

    spec fn value(&self) -> Self::Value;

    /// The values that have a byte form: those whose lengths the format can
    /// carry.
    spec fn valid(v: Self::Value) -> bool;

    /// The byte form of a value.
    spec fn wire(v: Self::Value) -> Seq<u8>;

    /// Whether this value has a byte form.
    fn encodable(&self) -> (ok: bool)
        ensures
            ok == Self::valid(self.value()),
    ;

    /// Appends the byte form of this value to `out`.
    fn encode_to(&self, out: &mut Vec<u8>)
        requires
            Self::valid(self.value()),
        ensures
            final(out)@ == old(out)@ + Self::wire(self.value()),
    ;
}

/// A value that can be read back from its byte form.
pub trait Decode: Encode + Sized {
    /// The value at the head of `s` and the number of bytes it takes, if
    /// there is one.
    spec fn parse(s: Seq<u8>) -> Option<(Self::Value, nat)>;

    /// A byte form, followed by anything, parses back to its value.
    proof fn lemma_parse_of_wire(v: Self::Value, rest: Seq<u8>)
        requires
            Self::valid(v),
        ensures
            Self::parse(Self::wire(v) + rest) == Some((v, Self::wire(v).len())),
    ;

    /// Whatever parses is the byte form of the value found.
    proof fn lemma_wire_of_parse(s: Seq<u8>)
        ensures
            Self::parse(s) matches Some((v, used)) ==> Self::valid(v) && used <= s.len()
                && Self::wire(v) == s.subrange(0, used as int),
    ;

    /// Reads the value at the head of `input`; returns it with the number of
    /// bytes read, or `None` where no value parses.
    fn decode(input: &[u8]) -> (r: Option<(Self, usize)>)
        ensures
            match r {
                Some((x, used)) => Self::parse(input@) == Some((x.value(), used as nat)),
                None => Self::parse(input@) is None,
            },
    ;
}

/// The value that `s` is the byte form of, all of `s`, if there is one.
pub open spec fn parse_all<D: Decode>(s: Seq<u8>) -> Option<D::Value> {
    match D::parse(s) {
        Some((v, used)) => if used == s.len() {
            Some(v)
        } else {
            None
        },
        None => None,
    }
}

/// Appends `bytes` to `out`.
pub fn extend_bytes(out: &mut Vec<u8>, bytes: &[u8])
    ensures
        final(out)@ == old(out)@ + bytes@,
{
    let ghost before = out@;
    let mut i: usize = 0;
    while i < bytes.len()
        invariant
            i <= bytes@.len(),
            out@ == before + bytes@.take(i as int),
        decreases bytes@.len() - i,
    {
        out.push(bytes[i]);
        i += 1;
    }
}

/// The byte form of `x`.
pub fn to_bytes<E: Encode>(x: &E) -> (bytes: Vec<u8>)
    requires
        E::valid(x.value()),
    ensures
        bytes@ == E::wire(x.value()),
{
    let mut out: Vec<u8> = Vec::new();
    x.encode_to(&mut out);
    out
}

/// The byte form of `x`, or `None` where `x` has none.
pub fn try_to_bytes<E: Encode>(x: &E) -> (r: Option<Vec<u8>>)
    ensures
        match r {
            Some(bytes) => E::valid(x.value()) && bytes@ == E::wire(x.value()),
            None => !E::valid(x.value()),
        },
{
    if x.encodable() {
        Some(to_bytes(x))
    } else {
        None
    }
}

/// The value that `input` is the byte form of, or `None` where `input` is
/// the byte form of no value. Bytes left over make the input malformed.
pub fn from_bytes<D: Decode>(input: &[u8]) -> (r: Option<D>)
    ensures
        match r {
            Some(x) => parse_all::<D>(input@) == Some(x.value()),
            None => parse_all::<D>(input@) is None,
        },
{
    match D::decode(input) {
        Some((x, used)) => {
            if used == input.len() {
                Some(x)
            } else {
                None
            }
        },
        None => None,
    }
}

/// Decoding the byte form of a value gives the value back.
pub proof fn lemma_round_trip<D: Decode>(v: D::Value)
    requires
        D::valid(v),
    ensures
        parse_all::<D>(D::wire(v)) == Some(v),
{
    D::lemma_parse_of_wire(v, Seq::empty());
}

/// Only the byte form of a value decodes to it: what decodes is valid, and
/// encoding it gives the input back.
pub proof fn lemma_decoded_is_canonical<D: Decode>(s: Seq<u8>)
    ensures
        parse_all::<D>(s) matches Some(v) ==> D::valid(v) && D::wire(v) == s,
{
    D::lemma_wire_of_parse(s);
}

/// Two values with the same byte form are the same value.
pub proof fn lemma_wire_injective<D: Decode>(a: D::Value, b: D::Value)
    requires
        D::valid(a),
        D::valid(b),
        D::wire(a) == D::wire(b),
    ensures
        a == b,
{
    lemma_round_trip::<D>(a);
    lemma_round_trip::<D>(b);
}

impl Encode for u8 {
    type Value = u8;

    open spec fn value(&self) -> u8 {
        *self
    }

    open spec fn valid(v: u8) -> bool {
        true
    }

    open spec fn wire(v: u8) -> Seq<u8> {
        seq![v]
    }

    fn encodable(&self) -> (ok: bool) {
        true
    }

    fn encode_to(&self, out: &mut Vec<u8>) {
        out.push(*self);
    }
}

impl Decode for u8 {
    open spec fn parse(s: Seq<u8>) -> Option<(u8, nat)> {
        if s.len() == 0 {
            None
        } else {
            Some((s[0], 1))
        }
    }

    proof fn lemma_parse_of_wire(v: u8, rest: Seq<u8>) {
    }

    proof fn lemma_wire_of_parse(s: Seq<u8>) {
    }

    fn decode(input: &[u8]) -> (r: Option<(u8, usize)>) {
        if input.len() == 0 {
            None
        } else {
            Some((input[0], 1))
        }
    }
}

impl Encode for u32 {
    type Value = u32;

    open spec fn value(&self) -> u32 {
        *self
    }

    open spec fn valid(v: u32) -> bool {
        true
    }

    open spec fn wire(v: u32) -> Seq<u8> {
        le_bytes(v as nat, 4)
    }

    fn encodable(&self) -> (ok: bool) {
        true
    }

    fn encode_to(&self, out: &mut Vec<u8>) {
        let mut bytes = encode_u32(*self);
        out.append(&mut bytes);
    }
}

impl Decode for u32 {
    open spec fn parse(s: Seq<u8>) -> Option<(u32, nat)> {
        if s.len() < 4 {
            None
        } else {
            Some((le_value(s.subrange(0, 4)) as u32, 4))
        }
    }

    proof fn lemma_parse_of_wire(v: u32, rest: Seq<u8>) {
        lemma_pow256_values();
        lemma_le_bytes_len(v as nat, 4);
        lemma_le_value_of_bytes(v as nat, 4);
        assert((le_bytes(v as nat, 4) + rest).subrange(0, 4) =~= le_bytes(v as nat, 4));
    }

    proof fn lemma_wire_of_parse(s: Seq<u8>) {
        if s.len() >= 4 {
            lemma_pow256_values();
            lemma_le_value_bound(s.subrange(0, 4));
            lemma_le_bytes_of_value(s.subrange(0, 4));
        }
    }

    fn decode(input: &[u8]) -> (r: Option<(u32, usize)>) {
        proof {
            lemma_pow256_values();
            if input@.len() >= 4 {
                lemma_le_value_bound(input@.subrange(0, 4));
            }
        }
        match decode_u32(input) {
            Ok(v) => Some((v, 4)),
            Err(_) => None,
        }
    }
}

impl Encode for u128 {
    type Value = u128;

    open spec fn value(&self) -> u128 {
        *self
    }

    open spec fn valid(v: u128) -> bool {
        true
    }

    open spec fn wire(v: u128) -> Seq<u8> {
        le_bytes(v as nat, 16)
    }

    fn encodable(&self) -> (ok: bool) {
        true
    }

    fn encode_to(&self, out: &mut Vec<u8>) {
        let mut bytes = encode_u128(*self);
        out.append(&mut bytes);
    }
}

impl Decode for u128 {
    open spec fn parse(s: Seq<u8>) -> Option<(u128, nat)> {
        if s.len() < 16 {
            None
        } else {
            Some((le_value(s.subrange(0, 16)) as u128, 16))
        }
    }

    proof fn lemma_parse_of_wire(v: u128, rest: Seq<u8>) {
        lemma_pow256_values();
        lemma_le_bytes_len(v as nat, 16);
        lemma_le_value_of_bytes(v as nat, 16);
        assert((le_bytes(v as nat, 16) + rest).subrange(0, 16) =~= le_bytes(v as nat, 16));
    }

    proof fn lemma_wire_of_parse(s: Seq<u8>) {
        if s.len() >= 16 {
            lemma_pow256_values();
            lemma_le_value_bound(s.subrange(0, 16));
            lemma_le_bytes_of_value(s.subrange(0, 16));
        }
    }

    fn decode(input: &[u8]) -> (r: Option<(u128, usize)>) {
        proof {
            lemma_pow256_values();
            if input@.len() >= 16 {
                lemma_le_value_bound(input@.subrange(0, 16));
            }
        }
        match decode_u128(input) {
            Ok(v) => Some((v, 16)),
            Err(_) => None,
        }
    }
}

} // verus!
