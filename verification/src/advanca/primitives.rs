//! The records that the advanca-core module keeps and takes.

use crate::codec::{extend_bytes, Decode, Encode};
use vstd::prelude::*;

verus! {

/// A registered user.
#[derive(Clone, Debug, Default, Eq, PartialEq)]
pub struct User<AccountId> {
    /// The account that registered.
    pub account_id: AccountId,
    /// The public key that the user registered with.
    pub public_key: Vec<u8>,
}

/// The enclave that a worker runs tasks in.
#[derive(Clone, Debug, Default, Eq, PartialEq)]
pub struct Enclave<AccountId> {
    /// The account of the enclave.
    pub account_id: AccountId,
    /// The public key of the enclave.
    pub public_key: Vec<u8>,
    /// The attestation of the enclave.
    pub attestation: Vec<u8>,
}

/// A value of a schema that this library does not read, held in its byte
/// form. It goes on the wire as it is, and nothing tells where it ends: it
/// can be written, not read back.
#[derive(Clone, Debug, Default, Eq, PartialEq)]
pub struct Encoded {
    pub bytes: Vec<u8>,
}

impl<A: Encode> Encode for User<A> {
    type Value = <(A, Vec<u8>) as Encode>::Value;

    open spec fn value(&self) -> Self::Value {
        (self.account_id.value(), self.public_key.value())
    }

    open spec fn valid(v: Self::Value) -> bool {
        <(A, Vec<u8>)>::valid(v)
    }

    open spec fn wire(v: Self::Value) -> Seq<u8> {
        <(A, Vec<u8>)>::wire(v)
    }

    fn encodable(&self) -> (ok: bool) {
        self.account_id.encodable() && self.public_key.encodable()
    }

    fn encode_to(&self, out: &mut Vec<u8>) {
        self.account_id.encode_to(out);
        self.public_key.encode_to(out);
    }
}

impl<A: Decode> Decode for User<A> {
    open spec fn parse(s: Seq<u8>) -> Option<(Self::Value, nat)> {
        <(A, Vec<u8>)>::parse(s)
    }

    proof fn lemma_parse_of_wire(v: Self::Value, rest: Seq<u8>) {
        <(A, Vec<u8>)>::lemma_parse_of_wire(v, rest);
    }

    proof fn lemma_wire_of_parse(s: Seq<u8>) {
        <(A, Vec<u8>)>::lemma_wire_of_parse(s);
    }

    fn decode(input: &[u8]) -> (r: Option<(Self, usize)>) {
        match <(A, Vec<u8>)>::decode(input) {
            Some(((account_id, public_key), used)) => Some((User { account_id, public_key }, used)),
            None => None,
        }
    }
}

impl<A: Encode> Encode for Enclave<A> {
    type Value = <(A, Vec<u8>, Vec<u8>) as Encode>::Value;

    open spec fn value(&self) -> Self::Value {
        (self.account_id.value(), self.public_key.value(), self.attestation.value())
    }

    open spec fn valid(v: Self::Value) -> bool {
        <(A, Vec<u8>, Vec<u8>)>::valid(v)
    }

    open spec fn wire(v: Self::Value) -> Seq<u8> {
        <(A, Vec<u8>, Vec<u8>)>::wire(v)
    }

    fn encodable(&self) -> (ok: bool) {
        self.account_id.encodable() && self.public_key.encodable() && self.attestation.encodable()
    }

    fn encode_to(&self, out: &mut Vec<u8>) {
        self.account_id.encode_to(out);
        self.public_key.encode_to(out);
        self.attestation.encode_to(out);
    }
}

impl<A: Decode> Decode for Enclave<A> {
    open spec fn parse(s: Seq<u8>) -> Option<(Self::Value, nat)> {
        <(A, Vec<u8>, Vec<u8>)>::parse(s)
    }

    proof fn lemma_parse_of_wire(v: Self::Value, rest: Seq<u8>) {
        <(A, Vec<u8>, Vec<u8>)>::lemma_parse_of_wire(v, rest);
    }

    proof fn lemma_wire_of_parse(s: Seq<u8>) {
        <(A, Vec<u8>, Vec<u8>)>::lemma_wire_of_parse(s);
    }

    fn decode(input: &[u8]) -> (r: Option<(Self, usize)>) {
        match <(A, Vec<u8>, Vec<u8>)>::decode(input) {
            Some(((account_id, public_key, attestation), used)) => Some(
                (Enclave { account_id, public_key, attestation }, used),
            ),
            None => None,
        }
    }
}

impl Encode for Encoded {
    type Value = Seq<u8>;

    open spec fn value(&self) -> Seq<u8> {
        self.bytes@
    }

    open spec fn valid(v: Seq<u8>) -> bool {
        true
    }

    open spec fn wire(v: Seq<u8>) -> Seq<u8> {
        v
    }

    fn encodable(&self) -> (ok: bool) {
        true
    }

    fn encode_to(&self, out: &mut Vec<u8>) {
        extend_bytes(out, self.bytes.as_slice());
    }
}

} // verus!
