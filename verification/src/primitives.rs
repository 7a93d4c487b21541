//! The identifiers that every module shares: account identifiers and hashes,
//! both 32 bytes that go on the wire as they are.

use crate::codec::{extend_bytes, Decode, Encode};
use vstd::prelude::*;

verus! {

/// Number of bytes in an account identifier and in a hash.
pub const ID_LEN: usize = 32;

/// The first 32 bytes of `s`, if it has that many.
pub open spec fn parse_id(s: Seq<u8>) -> Option<(Seq<u8>, nat)> {
    if s.len() < ID_LEN {
        None
    } else {
        Some((s.subrange(0, ID_LEN as int), ID_LEN as nat))
    }
}

/// Copies the first 32 bytes of `input`.
pub fn take_id(input: &[u8]) -> (r: Option<[u8; 32]>)
    ensures
        match r {
            Some(id) => parse_id(input@) == Some((id@, ID_LEN as nat)),
            None => parse_id(input@) is None,
        },
{
    if input.len() < ID_LEN {
        return None;
    }
    let mut id = [0u8; 32];
    let mut i: usize = 0;
    while i < ID_LEN
        invariant
            i <= ID_LEN,
            input@.len() >= ID_LEN,
            forall|j: int| 0 <= j < i ==> id@[j] == input@[j],
        decreases ID_LEN - i,
    {
        id[i] = input[i];
        i += 1;
    }
    Some(id)
}

/// A value that is 32 bytes on the wire and converts to and from them.
pub trait FixedBytes: Encode + Sized {
    fn to_fixed_bytes(&self) -> (bytes: [u8; 32])
        ensures
            bytes@ == Self::wire(self.value()),
    ;

    fn from_fixed_bytes(bytes: [u8; 32]) -> (r: Self)
        ensures
            Self::valid(r.value()),
            Self::wire(r.value()) == bytes@,
    ;
}

/// A 256-bit hash.
#[derive(Clone, Copy, Debug, PartialEq, Eq, PartialOrd, Ord, Hash, Default)]
pub struct H256(pub [u8; 32]);

/// The identifier of an account: the 32 bytes of its public key.
#[derive(Clone, Debug, PartialEq, Eq, PartialOrd, Ord, Hash, Default)]
pub struct AccountId32(pub [u8; 32]);

impl Encode for H256 {
    type Value = Seq<u8>;

    open spec fn value(&self) -> Seq<u8> {
        self.0@
    }

    open spec fn valid(v: Seq<u8>) -> bool {
        v.len() == ID_LEN
    }

    open spec fn wire(v: Seq<u8>) -> Seq<u8> {
        v
    }

    fn encodable(&self) -> (ok: bool) {
        true
    }

    fn encode_to(&self, out: &mut Vec<u8>) {
        extend_bytes(out, self.0.as_slice());
    }
}

impl Decode for H256 {
    open spec fn parse(s: Seq<u8>) -> Option<(Seq<u8>, nat)> {
        parse_id(s)
    }

    proof fn lemma_parse_of_wire(v: Seq<u8>, rest: Seq<u8>) {
    }

    proof fn lemma_wire_of_parse(s: Seq<u8>) {
    }

    fn decode(input: &[u8]) -> (r: Option<(Self, usize)>) {
        match take_id(input) {
            Some(id) => Some((H256(id), ID_LEN)),
            None => None,
        }
    }
}

impl Encode for AccountId32 {
    type Value = Seq<u8>;

    open spec fn value(&self) -> Seq<u8> {
        self.0@
    }

    open spec fn valid(v: Seq<u8>) -> bool {
        v.len() == ID_LEN
    }

    open spec fn wire(v: Seq<u8>) -> Seq<u8> {
        v
    }

    fn encodable(&self) -> (ok: bool) {
        true
    }

    fn encode_to(&self, out: &mut Vec<u8>) {
        extend_bytes(out, self.0.as_slice());
    }
}

impl Decode for AccountId32 {
    open spec fn parse(s: Seq<u8>) -> Option<(Seq<u8>, nat)> {
        parse_id(s)
    }

    proof fn lemma_parse_of_wire(v: Seq<u8>, rest: Seq<u8>) {
    }

    proof fn lemma_wire_of_parse(s: Seq<u8>) {
    }

    fn decode(input: &[u8]) -> (r: Option<(Self, usize)>) {
        match take_id(input) {
            Some(id) => Some((AccountId32(id), ID_LEN)),
            None => None,
        }
    }
}

impl FixedBytes for H256 {
    fn to_fixed_bytes(&self) -> (bytes: [u8; 32]) {
        self.0
    }

    fn from_fixed_bytes(bytes: [u8; 32]) -> (r: Self) {
        H256(bytes)
    }
}

impl FixedBytes for AccountId32 {
    fn to_fixed_bytes(&self) -> (bytes: [u8; 32]) {
        self.0
    }

    fn from_fixed_bytes(bytes: [u8; 32]) -> (r: Self) {
        AccountId32(bytes)
    }
}

} // verus!
