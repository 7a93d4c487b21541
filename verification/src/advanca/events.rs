//! The events of the advanca-core module.

use crate::advanca::advanca_core::{AdvancaCore, MODULE};
use crate::codec::{Decode, Encode};
use crate::event::Event;
use crate::frame::system::System;
use vstd::prelude::*;

verus! {

/// Event: UserAdded
#[derive(Clone, Debug, Eq, PartialEq)]
pub struct UserAddedEvent<T: AdvancaCore> {
    /// User account
    pub user: <T as System>::AccountId,
}

impl<T: AdvancaCore> Encode for UserAddedEvent<T> {
    type Value = <<T as System>::AccountId as Encode>::Value;

    open spec fn value(&self) -> Self::Value {
        self.user.value()
    }

    open spec fn valid(v: Self::Value) -> bool {
        <T as System>::AccountId::valid(v)
    }

    open spec fn wire(v: Self::Value) -> Seq<u8> {
        <T as System>::AccountId::wire(v)
    }

    fn encodable(&self) -> (ok: bool) {
        self.user.encodable()
    }

    fn encode_to(&self, out: &mut Vec<u8>) {
        self.user.encode_to(out);
    }
}

impl<T: AdvancaCore> Decode for UserAddedEvent<T> {
    open spec fn parse(s: Seq<u8>) -> Option<(Self::Value, nat)> {
        <T as System>::AccountId::parse(s)
    }

    proof fn lemma_parse_of_wire(v: Self::Value, rest: Seq<u8>) {
        <T as System>::AccountId::lemma_parse_of_wire(v, rest);
    }

    proof fn lemma_wire_of_parse(s: Seq<u8>) {
        <T as System>::AccountId::lemma_wire_of_parse(s);
    }

    fn decode(input: &[u8]) -> (r: Option<(Self, usize)>) {
        match <T as System>::AccountId::decode(input) {
            Some((user, used)) => Some((UserAddedEvent { user }, used)),
            None => None,
        }
    }
}

impl<T: AdvancaCore> Event for UserAddedEvent<T> {
    const MODULE: &'static str = MODULE;

    const EVENT: &'static str = "UserAdded";
}

/// Event: UserRemoved
#[derive(Clone, Debug, Eq, PartialEq)]
pub struct UserRemovedEvent<T: AdvancaCore> {
    /// User account
    pub user: <T as System>::AccountId,
}

impl<T: AdvancaCore> Encode for UserRemovedEvent<T> {
    type Value = <<T as System>::AccountId as Encode>::Value;

    open spec fn value(&self) -> Self::Value {
        self.user.value()
    }

    open spec fn valid(v: Self::Value) -> bool {
        <T as System>::AccountId::valid(v)
    }

    open spec fn wire(v: Self::Value) -> Seq<u8> {
        <T as System>::AccountId::wire(v)
    }

    fn encodable(&self) -> (ok: bool) {
        self.user.encodable()
    }

    fn encode_to(&self, out: &mut Vec<u8>) {
        self.user.encode_to(out);
    }
}

impl<T: AdvancaCore> Decode for UserRemovedEvent<T> {
    open spec fn parse(s: Seq<u8>) -> Option<(Self::Value, nat)> {
        <T as System>::AccountId::parse(s)
    }

    proof fn lemma_parse_of_wire(v: Self::Value, rest: Seq<u8>) {
        <T as System>::AccountId::lemma_parse_of_wire(v, rest);
    }

    proof fn lemma_wire_of_parse(s: Seq<u8>) {
        <T as System>::AccountId::lemma_wire_of_parse(s);
    }

    fn decode(input: &[u8]) -> (r: Option<(Self, usize)>) {
        match <T as System>::AccountId::decode(input) {
            Some((user, used)) => Some((UserRemovedEvent { user }, used)),
            None => None,
        }
    }
}

impl<T: AdvancaCore> Event for UserRemovedEvent<T> {
    const MODULE: &'static str = MODULE;

    const EVENT: &'static str = "UserRemoved";
}

/// Event: TaskSubmitted
#[derive(Clone, Debug, Eq, PartialEq)]
pub struct TaskSubmittedEvent<T: AdvancaCore> {
    /// Task ID
    pub task_id: <T as System>::Hash,
}

impl<T: AdvancaCore> Encode for TaskSubmittedEvent<T> {
    type Value = <<T as System>::Hash as Encode>::Value;

    open spec fn value(&self) -> Self::Value {
        self.task_id.value()
    }

    open spec fn valid(v: Self::Value) -> bool {
        <T as System>::Hash::valid(v)
    }

    open spec fn wire(v: Self::Value) -> Seq<u8> {
        <T as System>::Hash::wire(v)
    }

    fn encodable(&self) -> (ok: bool) {
        self.task_id.encodable()
    }

    fn encode_to(&self, out: &mut Vec<u8>) {
        self.task_id.encode_to(out);
    }
}

impl<T: AdvancaCore> Decode for TaskSubmittedEvent<T> {
    open spec fn parse(s: Seq<u8>) -> Option<(Self::Value, nat)> {
        <T as System>::Hash::parse(s)
    }

    proof fn lemma_parse_of_wire(v: Self::Value, rest: Seq<u8>) {
        <T as System>::Hash::lemma_parse_of_wire(v, rest);
    }

    proof fn lemma_wire_of_parse(s: Seq<u8>) {
        <T as System>::Hash::lemma_wire_of_parse(s);
    }

    fn decode(input: &[u8]) -> (r: Option<(Self, usize)>) {
        match <T as System>::Hash::decode(input) {
            Some((task_id, used)) => Some((TaskSubmittedEvent { task_id }, used)),
            None => None,
        }
    }
}

impl<T: AdvancaCore> Event for TaskSubmittedEvent<T> {
    const MODULE: &'static str = MODULE;

    const EVENT: &'static str = "TaskSubmitted";
}

/// Event: TaskUpdated
#[derive(Clone, Debug, Eq, PartialEq)]
pub struct TaskUpdatedEvent<T: AdvancaCore> {
    /// Task ID
    pub task_id: <T as System>::Hash,
}

impl<T: AdvancaCore> Encode for TaskUpdatedEvent<T> {
    type Value = <<T as System>::Hash as Encode>::Value;

    open spec fn value(&self) -> Self::Value {
        self.task_id.value()
    }

    open spec fn valid(v: Self::Value) -> bool {
        <T as System>::Hash::valid(v)
    }

    open spec fn wire(v: Self::Value) -> Seq<u8> {
        <T as System>::Hash::wire(v)
    }

    fn encodable(&self) -> (ok: bool) {
        self.task_id.encodable()
    }

    fn encode_to(&self, out: &mut Vec<u8>) {
        self.task_id.encode_to(out);
    }
}

impl<T: AdvancaCore> Decode for TaskUpdatedEvent<T> {
    open spec fn parse(s: Seq<u8>) -> Option<(Self::Value, nat)> {
        <T as System>::Hash::parse(s)
    }

    proof fn lemma_parse_of_wire(v: Self::Value, rest: Seq<u8>) {
        <T as System>::Hash::lemma_parse_of_wire(v, rest);
    }

    proof fn lemma_wire_of_parse(s: Seq<u8>) {
        <T as System>::Hash::lemma_wire_of_parse(s);
    }

    fn decode(input: &[u8]) -> (r: Option<(Self, usize)>) {
        match <T as System>::Hash::decode(input) {
            Some((task_id, used)) => Some((TaskUpdatedEvent { task_id }, used)),
            None => None,
        }
    }
}

impl<T: AdvancaCore> Event for TaskUpdatedEvent<T> {
    const MODULE: &'static str = MODULE;

    const EVENT: &'static str = "TaskUpdated";
}

/// Event: TaskAccepted
#[derive(Clone, Debug, Eq, PartialEq)]
pub struct TaskAcceptedEvent<T: AdvancaCore> {
    /// Task ID
    pub task_id: <T as System>::Hash,
}

impl<T: AdvancaCore> Encode for TaskAcceptedEvent<T> {
    type Value = <<T as System>::Hash as Encode>::Value;

    open spec fn value(&self) -> Self::Value {
        self.task_id.value()
    }

    open spec fn valid(v: Self::Value) -> bool {
        <T as System>::Hash::valid(v)
    }

    open spec fn wire(v: Self::Value) -> Seq<u8> {
        <T as System>::Hash::wire(v)
    }

    fn encodable(&self) -> (ok: bool) {
        self.task_id.encodable()
    }

    fn encode_to(&self, out: &mut Vec<u8>) {
        self.task_id.encode_to(out);
    }
}

impl<T: AdvancaCore> Decode for TaskAcceptedEvent<T> {
    open spec fn parse(s: Seq<u8>) -> Option<(Self::Value, nat)> {
        <T as System>::Hash::parse(s)
    }

    proof fn lemma_parse_of_wire(v: Self::Value, rest: Seq<u8>) {
        <T as System>::Hash::lemma_parse_of_wire(v, rest);
    }

    proof fn lemma_wire_of_parse(s: Seq<u8>) {
        <T as System>::Hash::lemma_wire_of_parse(s);
    }

    fn decode(input: &[u8]) -> (r: Option<(Self, usize)>) {
        match <T as System>::Hash::decode(input) {
            Some((task_id, used)) => Some((TaskAcceptedEvent { task_id }, used)),
            None => None,
        }
    }
}

impl<T: AdvancaCore> Event for TaskAcceptedEvent<T> {
    const MODULE: &'static str = MODULE;

    const EVENT: &'static str = "TaskAccepted";
}

/// Event: TaskCompleted
#[derive(Clone, Debug, Eq, PartialEq)]
pub struct TaskCompletedEvent<T: AdvancaCore> {
    /// Task ID
    pub task_id: <T as System>::Hash,
}

impl<T: AdvancaCore> Encode for TaskCompletedEvent<T> {
    type Value = <<T as System>::Hash as Encode>::Value;

    open spec fn value(&self) -> Self::Value {
        self.task_id.value()
    }

    open spec fn valid(v: Self::Value) -> bool {
        <T as System>::Hash::valid(v)
    }

    open spec fn wire(v: Self::Value) -> Seq<u8> {
        <T as System>::Hash::wire(v)
    }

    fn encodable(&self) -> (ok: bool) {
        self.task_id.encodable()
    }

    fn encode_to(&self, out: &mut Vec<u8>) {
        self.task_id.encode_to(out);
    }
}

impl<T: AdvancaCore> Decode for TaskCompletedEvent<T> {
    open spec fn parse(s: Seq<u8>) -> Option<(Self::Value, nat)> {
        <T as System>::Hash::parse(s)
    }

    proof fn lemma_parse_of_wire(v: Self::Value, rest: Seq<u8>) {
        <T as System>::Hash::lemma_parse_of_wire(v, rest);
    }

    proof fn lemma_wire_of_parse(s: Seq<u8>) {
        <T as System>::Hash::lemma_wire_of_parse(s);
    }

    fn decode(input: &[u8]) -> (r: Option<(Self, usize)>) {
        match <T as System>::Hash::decode(input) {
            Some((task_id, used)) => Some((TaskCompletedEvent { task_id }, used)),
            None => None,
        }
    }
}

impl<T: AdvancaCore> Event for TaskCompletedEvent<T> {
    const MODULE: &'static str = MODULE;

    const EVENT: &'static str = "TaskCompleted";
}

/// Event: TaskAborted
#[derive(Clone, Debug, Eq, PartialEq)]
pub struct TaskAbortedEvent<T: AdvancaCore> {
    /// Task ID
    pub task_id: <T as System>::Hash,
}

impl<T: AdvancaCore> Encode for TaskAbortedEvent<T> {
    type Value = <<T as System>::Hash as Encode>::Value;

    open spec fn value(&self) -> Self::Value {
        self.task_id.value()
    }

    open spec fn valid(v: Self::Value) -> bool {
        <T as System>::Hash::valid(v)
    }

    open spec fn wire(v: Self::Value) -> Seq<u8> {
        <T as System>::Hash::wire(v)
    }

    fn encodable(&self) -> (ok: bool) {
        self.task_id.encodable()
    }

    fn encode_to(&self, out: &mut Vec<u8>) {
        self.task_id.encode_to(out);
    }
}

impl<T: AdvancaCore> Decode for TaskAbortedEvent<T> {
    open spec fn parse(s: Seq<u8>) -> Option<(Self::Value, nat)> {
        <T as System>::Hash::parse(s)
    }

    proof fn lemma_parse_of_wire(v: Self::Value, rest: Seq<u8>) {
        <T as System>::Hash::lemma_parse_of_wire(v, rest);
    }

    proof fn lemma_wire_of_parse(s: Seq<u8>) {
        <T as System>::Hash::lemma_wire_of_parse(s);
    }

    fn decode(input: &[u8]) -> (r: Option<(Self, usize)>) {
        match <T as System>::Hash::decode(input) {
            Some((task_id, used)) => Some((TaskAbortedEvent { task_id }, used)),
            None => None,
        }
    }
}

impl<T: AdvancaCore> Event for TaskAbortedEvent<T> {
    const MODULE: &'static str = MODULE;

    const EVENT: &'static str = "TaskAborted";
}

/// Event: WorkerAdded
#[derive(Clone, Debug, Eq, PartialEq)]
pub struct WorkerAddedEvent<T: AdvancaCore> {
    /// Worker account
    pub worker: <T as System>::AccountId,
}

impl<T: AdvancaCore> Encode for WorkerAddedEvent<T> {
    type Value = <<T as System>::AccountId as Encode>::Value;

    open spec fn value(&self) -> Self::Value {
        self.worker.value()
    }

    open spec fn valid(v: Self::Value) -> bool {
        <T as System>::AccountId::valid(v)
    }

    open spec fn wire(v: Self::Value) -> Seq<u8> {
        <T as System>::AccountId::wire(v)
    }

    fn encodable(&self) -> (ok: bool) {
        self.worker.encodable()
    }

    fn encode_to(&self, out: &mut Vec<u8>) {
        self.worker.encode_to(out);
    }
}

impl<T: AdvancaCore> Decode for WorkerAddedEvent<T> {
    open spec fn parse(s: Seq<u8>) -> Option<(Self::Value, nat)> {
        <T as System>::AccountId::parse(s)
    }

    proof fn lemma_parse_of_wire(v: Self::Value, rest: Seq<u8>) {
        <T as System>::AccountId::lemma_parse_of_wire(v, rest);
    }

    proof fn lemma_wire_of_parse(s: Seq<u8>) {
        <T as System>::AccountId::lemma_wire_of_parse(s);
    }

    fn decode(input: &[u8]) -> (r: Option<(Self, usize)>) {
        match <T as System>::AccountId::decode(input) {
            Some((worker, used)) => Some((WorkerAddedEvent { worker }, used)),
            None => None,
        }
    }
}

impl<T: AdvancaCore> Event for WorkerAddedEvent<T> {
    const MODULE: &'static str = MODULE;

    const EVENT: &'static str = "WorkerAdded";
}

/// Event: WorkerRemoved
#[derive(Clone, Debug, Eq, PartialEq)]
pub struct WorkerRemovedEvent<T: AdvancaCore> {
    /// Worker account
    pub worker: <T as System>::AccountId,
}

impl<T: AdvancaCore> Encode for WorkerRemovedEvent<T> {
    type Value = <<T as System>::AccountId as Encode>::Value;

    open spec fn value(&self) -> Self::Value {
        self.worker.value()
    }

    open spec fn valid(v: Self::Value) -> bool {
        <T as System>::AccountId::valid(v)
    }

    open spec fn wire(v: Self::Value) -> Seq<u8> {
        <T as System>::AccountId::wire(v)
    }

    fn encodable(&self) -> (ok: bool) {
        self.worker.encodable()
    }

    fn encode_to(&self, out: &mut Vec<u8>) {
        self.worker.encode_to(out);
    }
}

impl<T: AdvancaCore> Decode for WorkerRemovedEvent<T> {
    open spec fn parse(s: Seq<u8>) -> Option<(Self::Value, nat)> {
        <T as System>::AccountId::parse(s)
    }

    proof fn lemma_parse_of_wire(v: Self::Value, rest: Seq<u8>) {
        <T as System>::AccountId::lemma_parse_of_wire(v, rest);
    }

    proof fn lemma_wire_of_parse(s: Seq<u8>) {
        <T as System>::AccountId::lemma_wire_of_parse(s);
    }

    fn decode(input: &[u8]) -> (r: Option<(Self, usize)>) {
        match <T as System>::AccountId::decode(input) {
            Some((worker, used)) => Some((WorkerRemovedEvent { worker }, used)),
            None => None,
        }
    }
}

impl<T: AdvancaCore> Event for WorkerRemovedEvent<T> {
    const MODULE: &'static str = MODULE;

    const EVENT: &'static str = "WorkerRemoved";
}

} // verus!
