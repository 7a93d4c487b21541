//! The balances module: the balance type, and the event of a transfer.

use crate::codec::{Decode, Encode};
use crate::event::Event;
use crate::frame::system::System;
use core::fmt::Debug;
use vstd::prelude::*;

verus! {

/// The types of the balances module.
pub trait Balances: System {
    /// An amount of the ledger's currency.
    type Balance: Decode + Copy + Debug + Ord + Default;

    /// Whether funds are free or reserved.
    type Status: Decode + Copy + Debug + Eq;
}

/// Whether funds are free or reserved. On the wire it is one byte, 0 for
/// free and 1 for reserved.
#[derive(Clone, Copy, Debug, PartialEq, Eq, Structural)]
pub enum Status {
    /// Funds are free, as corresponding to `free` item in Balances.
    Free,
    /// Funds are reserved, as corresponding to `reserved` item in Balances.
    Reserved,
}

impl Encode for Status {
    type Value = Status;

    open spec fn value(&self) -> Status {
        *self
    }

    open spec fn valid(v: Status) -> bool {
        true
    }

    open spec fn wire(v: Status) -> Seq<u8> {
        match v {
            Status::Free => seq![0u8],
            Status::Reserved => seq![1u8],
        }
    }

    fn encodable(&self) -> (ok: bool) {
        true
    }

    fn encode_to(&self, out: &mut Vec<u8>) {
        match self {
            Status::Free => out.push(0),
            Status::Reserved => out.push(1),
        }
    }
}

impl Decode for Status {
    open spec fn parse(s: Seq<u8>) -> Option<(Status, nat)> {
        if s.len() == 0 {
            None
        } else if s[0] == 0 {
            Some((Status::Free, 1))
        } else if s[0] == 1 {
            Some((Status::Reserved, 1))
        } else {
            None
        }
    }

    proof fn lemma_parse_of_wire(v: Status, rest: Seq<u8>) {
    }

    proof fn lemma_wire_of_parse(s: Seq<u8>) {
    }

    fn decode(input: &[u8]) -> (r: Option<(Status, usize)>) {
        if input.len() == 0 {
            None
        } else if input[0] == 0 {
            Some((Status::Free, 1))
        } else if input[0] == 1 {
            Some((Status::Reserved, 1))
        } else {
            None
        }
    }
}

/// A transfer succeeded.
#[derive(Clone, Debug, Eq, PartialEq)]
pub struct TransferEvent<T: Balances> {
    /// The account that paid.
    pub from: <T as System>::AccountId,
    /// The account that was paid.
    pub to: <T as System>::AccountId,
    /// The amount that changed hands.
    pub amount: <T as Balances>::Balance,
}

/// The field types of a transfer event, in wire order.
pub type TransferFields<T> = (
    <T as System>::AccountId,
    <T as System>::AccountId,
    <T as Balances>::Balance,
);

impl<T: Balances> Encode for TransferEvent<T> {
    type Value = <TransferFields<T> as Encode>::Value;

    open spec fn value(&self) -> Self::Value {
        (self.from.value(), self.to.value(), self.amount.value())
    }

    open spec fn valid(v: Self::Value) -> bool {
        <TransferFields<T>>::valid(v)
    }

    open spec fn wire(v: Self::Value) -> Seq<u8> {
        <TransferFields<T>>::wire(v)
    }

    fn encodable(&self) -> (ok: bool) {
        self.from.encodable() && self.to.encodable() && self.amount.encodable()
    }

    fn encode_to(&self, out: &mut Vec<u8>) {
        self.from.encode_to(out);
        self.to.encode_to(out);
        self.amount.encode_to(out);
    }
}

impl<T: Balances> Decode for TransferEvent<T> {
    open spec fn parse(s: Seq<u8>) -> Option<(Self::Value, nat)> {
        <TransferFields<T>>::parse(s)
    }

    proof fn lemma_parse_of_wire(v: Self::Value, rest: Seq<u8>) {
        <TransferFields<T>>::lemma_parse_of_wire(v, rest);
    }

    proof fn lemma_wire_of_parse(s: Seq<u8>) {
        <TransferFields<T>>::lemma_wire_of_parse(s);
    }

    fn decode(input: &[u8]) -> (r: Option<(Self, usize)>) {
        match <TransferFields<T>>::decode(input) {
            Some(((from, to, amount), used)) => Some((TransferEvent { from, to, amount }, used)),
            None => None,
        }
    }
}

impl<T: Balances> Event for TransferEvent<T> {
    const MODULE: &'static str = "Balances";

    const EVENT: &'static str = "Transfer";
}

} // verus!
