//! Calls on the wire: the two index bytes that address the operation, then
//! the byte form of its arguments.

use crate::codec::{
    from_bytes, lemma_decoded_is_canonical, lemma_round_trip, parse_all, Decode, Encode,
};
use vstd::prelude::*;
use vstd::slice::slice_subrange;

verus! {

/// The pair of indices that addresses a call or an event of a module.
#[derive(Clone, Copy, Debug, PartialEq, Eq, Structural)]
pub struct Address {
    pub module_index: u8,
    pub item_index: u8,
}

/// The arguments of a remote operation.
pub trait Call: Encode {
    /// The name of the module that offers the operation.
    const MODULE: &'static str;

    /// The name of the operation within its module.
    const FUNCTION: &'static str;
}

/// The byte form of the call at `address` with the arguments `v`.
pub open spec fn call_wire<C: Call>(address: Address, v: C::Value) -> Seq<u8> {
    seq![address.module_index, address.item_index] + C::wire(v)
}

/// The arguments that `s` carries for the call at `address`, if `s` is the
/// byte form of such a call.
pub open spec fn call_parse<C: Call + Decode>(address: Address, s: Seq<u8>) -> Option<C::Value> {
    if s.len() >= 2 && s[0] == address.module_index && s[1] == address.item_index {
        parse_all::<C>(s.skip(2))
    } else {
        None
    }
}

/// The bytes to submit for `call` at `address`.
pub fn encode_call<C: Call>(address: Address, call: &C) -> (bytes: Vec<u8>)
    requires
        C::valid(call.value()),
    ensures
        bytes@ == call_wire::<C>(address, call.value()),
{
    let mut out: Vec<u8> = Vec::new();
    out.push(address.module_index);
    out.push(address.item_index);
    call.encode_to(&mut out);
    out
}

/// The bytes to submit for `call` at `address`, or `None` where the
/// arguments have no byte form.
pub fn try_encode_call<C: Call>(address: Address, call: &C) -> (r: Option<Vec<u8>>)
    ensures
        match r {
            Some(bytes) => C::valid(call.value()) && bytes@ == call_wire::<C>(
                address,
                call.value(),
            ),
            None => !C::valid(call.value()),
        },
{
    if call.encodable() {
        Some(encode_call(address, call))
    } else {
        None
    }
}

/// Reads `bytes` as the call at `address`. `None` where the index bytes are
/// missing or differ from `address`, or where what follows them is not the
/// byte form of the arguments.
pub fn decode_call<C: Call + Decode>(address: Address, bytes: &[u8]) -> (r: Option<C>)
    ensures
        match r {
            Some(call) => call_parse::<C>(address, bytes@) == Some(call.value()),
            None => call_parse::<C>(address, bytes@) is None,
        },
{
    if bytes.len() < 2 || bytes[0] != address.module_index || bytes[1] != address.item_index {
        return None;
    }
    let body = slice_subrange(bytes, 2, bytes.len());
    from_bytes::<C>(body)
}

/// Decoding an encoded call at the address it was encoded for gives the
/// arguments back.
pub proof fn lemma_call_round_trip<C: Call + Decode>(address: Address, v: C::Value)
    requires
        C::valid(v),
    ensures
        call_parse::<C>(address, call_wire::<C>(address, v)) == Some(v),
{
    lemma_round_trip::<C>(v);
    assert(call_wire::<C>(address, v).skip(2) =~= C::wire(v));
}

/// Bytes whose index pair is not that of the schema decode to nothing.
pub proof fn lemma_call_address_mismatch<C: Call + Decode>(address: Address, s: Seq<u8>)
    requires
        s.len() < 2 || s[0] != address.module_index || s[1] != address.item_index,
    ensures
        call_parse::<C>(address, s) is None,
{
}

/// A call encoded for one address decodes at no other.
pub proof fn lemma_call_wrong_address<C: Call, D: Call + Decode>(
    sent: Address,
    expected: Address,
    v: C::Value,
)
    requires
        sent != expected,
    ensures
        call_parse::<D>(expected, call_wire::<C>(sent, v)) is None,
{
}

/// What decodes as a call is the byte form of that call and of no other.
pub proof fn lemma_call_decoded_is_canonical<C: Call + Decode>(address: Address, s: Seq<u8>)
    ensures
        call_parse::<C>(address, s) matches Some(v) ==> C::valid(v) && call_wire::<C>(address, v)
            == s,
{
    if s.len() >= 2 {
        lemma_decoded_is_canonical::<C>(s.skip(2));
    }
}

} // verus!
