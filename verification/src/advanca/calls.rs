//! The operations of the advanca-core module, with their arguments in wire
//! order.

use crate::advanca::advanca_core::{AdvancaCore, MODULE};
use crate::advanca::primitives::{Enclave, Encoded};
use crate::call::Call;
use crate::codec::{Decode, Encode};
use crate::frame::balances::Balances;
use crate::frame::system::System;
use core::marker::PhantomData;
use vstd::prelude::*;
use vstd::slice::slice_to_vec;

verus! {

/// Register user
#[derive(Clone, Debug, PartialEq)]
pub struct RegisterUserCall<T: AdvancaCore> {
    /// The deposit that registration needs
    pub deposit: <T as Balances>::Balance,
    /// The public key of user
    pub public_key: Vec<u8>,
}

/// The argument types of `register_user`, in wire order.
pub type RegisterUserArgs<T> = (<T as Balances>::Balance, Vec<u8>);

impl<T: AdvancaCore> Encode for RegisterUserCall<T> {
    type Value = <RegisterUserArgs<T> as Encode>::Value;

    open spec fn value(&self) -> Self::Value {
        (self.deposit.value(), self.public_key.value())
    }

    open spec fn valid(v: Self::Value) -> bool {
        <RegisterUserArgs<T>>::valid(v)
    }

    open spec fn wire(v: Self::Value) -> Seq<u8> {
        <RegisterUserArgs<T>>::wire(v)
    }

    fn encodable(&self) -> (ok: bool) {
        self.deposit.encodable() && self.public_key.encodable()
    }

    fn encode_to(&self, out: &mut Vec<u8>) {
        self.deposit.encode_to(out);
        self.public_key.encode_to(out);
    }
}

impl<T: AdvancaCore> Decode for RegisterUserCall<T> {
    open spec fn parse(s: Seq<u8>) -> Option<(Self::Value, nat)> {
        <RegisterUserArgs<T>>::parse(s)
    }

    proof fn lemma_parse_of_wire(v: Self::Value, rest: Seq<u8>) {
        <RegisterUserArgs<T>>::lemma_parse_of_wire(v, rest);
    }

    proof fn lemma_wire_of_parse(s: Seq<u8>) {
        <RegisterUserArgs<T>>::lemma_wire_of_parse(s);
    }

    fn decode(input: &[u8]) -> (r: Option<(Self, usize)>) {
        match <RegisterUserArgs<T>>::decode(input) {
            Some(((deposit, public_key), used)) => Some(
                (RegisterUserCall { deposit, public_key }, used),
            ),
            None => None,
        }
    }
}

impl<T: AdvancaCore> Call for RegisterUserCall<T> {
    const MODULE: &'static str = MODULE;

    const FUNCTION: &'static str = "register_user";
}

/// Deregister user
#[derive(Debug, PartialEq)]
pub struct DeregisterUserCall<T: AdvancaCore> {
    /// Runtime marker.
    pub _runtime: PhantomData<T>,
}

impl<T: AdvancaCore> Clone for DeregisterUserCall<T> {
    fn clone(&self) -> (r: Self)
        ensures
            r == *self,
    {
        DeregisterUserCall { _runtime: PhantomData }
    }
}

impl<T: AdvancaCore> Encode for DeregisterUserCall<T> {
    type Value = <() as Encode>::Value;

    open spec fn value(&self) -> Self::Value {
        ()
    }

    open spec fn valid(v: Self::Value) -> bool {
        <()>::valid(v)
    }

    open spec fn wire(v: Self::Value) -> Seq<u8> {
        <()>::wire(v)
    }

    fn encodable(&self) -> (ok: bool) {
        true
    }

    fn encode_to(&self, out: &mut Vec<u8>) {
    }
}

impl<T: AdvancaCore> Decode for DeregisterUserCall<T> {
    open spec fn parse(s: Seq<u8>) -> Option<(Self::Value, nat)> {
        <()>::parse(s)
    }

    proof fn lemma_parse_of_wire(v: Self::Value, rest: Seq<u8>) {
        <()>::lemma_parse_of_wire(v, rest);
    }

    proof fn lemma_wire_of_parse(s: Seq<u8>) {
        <()>::lemma_wire_of_parse(s);
    }

    fn decode(input: &[u8]) -> (r: Option<(Self, usize)>) {
        match <()>::decode(input) {
            Some(((), used)) => Some((DeregisterUserCall { _runtime: PhantomData }, used)),
            None => None,
        }
    }
}

impl<T: AdvancaCore> Call for DeregisterUserCall<T> {
    const MODULE: &'static str = MODULE;

    const FUNCTION: &'static str = "deregister_user";
}

/// Register worker
#[derive(Clone, Debug, PartialEq)]
pub struct RegisterWorkerCall<T: AdvancaCore> {
    /// The deposit that registration needs
    pub deposit: <T as Balances>::Balance,
    /// The public key of enclave
    pub enclave: Enclave<<T as System>::AccountId>,
}

/// The argument types of `register_worker`, in wire order.
pub type RegisterWorkerArgs<T> = (<T as Balances>::Balance, Enclave<<T as System>::AccountId>);

impl<T: AdvancaCore> Encode for RegisterWorkerCall<T> {
    type Value = <RegisterWorkerArgs<T> as Encode>::Value;

    open spec fn value(&self) -> Self::Value {
        (self.deposit.value(), self.enclave.value())
    }

    open spec fn valid(v: Self::Value) -> bool {
        <RegisterWorkerArgs<T>>::valid(v)
    }

    open spec fn wire(v: Self::Value) -> Seq<u8> {
        <RegisterWorkerArgs<T>>::wire(v)
    }

    fn encodable(&self) -> (ok: bool) {
        self.deposit.encodable() && self.enclave.encodable()
    }

    fn encode_to(&self, out: &mut Vec<u8>) {
        self.deposit.encode_to(out);
        self.enclave.encode_to(out);
    }
}

impl<T: AdvancaCore> Decode for RegisterWorkerCall<T> {
    open spec fn parse(s: Seq<u8>) -> Option<(Self::Value, nat)> {
        <RegisterWorkerArgs<T>>::parse(s)
    }

    proof fn lemma_parse_of_wire(v: Self::Value, rest: Seq<u8>) {
        <RegisterWorkerArgs<T>>::lemma_parse_of_wire(v, rest);
    }

    proof fn lemma_wire_of_parse(s: Seq<u8>) {
        <RegisterWorkerArgs<T>>::lemma_wire_of_parse(s);
    }

    fn decode(input: &[u8]) -> (r: Option<(Self, usize)>) {
        match <RegisterWorkerArgs<T>>::decode(input) {
            Some(((deposit, enclave), used)) => Some(
                (RegisterWorkerCall { deposit, enclave }, used),
            ),
            None => None,
        }
    }
}

impl<T: AdvancaCore> Call for RegisterWorkerCall<T> {
    const MODULE: &'static str = MODULE;

    const FUNCTION: &'static str = "register_worker";
}

/// Deregister worker
#[derive(Debug, PartialEq)]
pub struct DeregisterWorkerCall<T: AdvancaCore> {
    /// Runtime marker.
    pub _runtime: PhantomData<T>,
}

impl<T: AdvancaCore> Clone for DeregisterWorkerCall<T> {
    fn clone(&self) -> (r: Self)
        ensures
            r == *self,
    {
        DeregisterWorkerCall { _runtime: PhantomData }
    }
}

impl<T: AdvancaCore> Encode for DeregisterWorkerCall<T> {
    type Value = <() as Encode>::Value;

    open spec fn value(&self) -> Self::Value {
        ()
    }

    open spec fn valid(v: Self::Value) -> bool {
        <()>::valid(v)
    }

    open spec fn wire(v: Self::Value) -> Seq<u8> {
        <()>::wire(v)
    }

    fn encodable(&self) -> (ok: bool) {
        true
    }

    fn encode_to(&self, out: &mut Vec<u8>) {
    }
}

impl<T: AdvancaCore> Decode for DeregisterWorkerCall<T> {
    open spec fn parse(s: Seq<u8>) -> Option<(Self::Value, nat)> {
        <()>::parse(s)
    }

    proof fn lemma_parse_of_wire(v: Self::Value, rest: Seq<u8>) {
        <()>::lemma_parse_of_wire(v, rest);
    }

    proof fn lemma_wire_of_parse(s: Seq<u8>) {
        <()>::lemma_wire_of_parse(s);
    }

    fn decode(input: &[u8]) -> (r: Option<(Self, usize)>) {
        match <()>::decode(input) {
            Some(((), used)) => Some((DeregisterWorkerCall { _runtime: PhantomData }, used)),
            None => None,
        }
    }
}

impl<T: AdvancaCore> Call for DeregisterWorkerCall<T> {
    const MODULE: &'static str = MODULE;

    const FUNCTION: &'static str = "deregister_worker";
}

/// Submit task
#[derive(Debug, PartialEq)]
pub struct SubmitTaskCall<T: AdvancaCore> {
    /// Runtime marker.
    pub _runtime: PhantomData<T>,
    /// Task owner's public key
    pub signed_owner_task_pubkey: Vec<u8>,
    /// Lease of task, in its byte form
    pub lease: Encoded,
    /// Task specification, in its byte form
    pub task_spec: Encoded,
}

impl<T: AdvancaCore> Clone for SubmitTaskCall<T> {
    fn clone(&self) -> (r: Self)
        ensures
            r.value() == self.value(),
    {
        SubmitTaskCall {
            _runtime: PhantomData,
            signed_owner_task_pubkey: slice_to_vec(self.signed_owner_task_pubkey.as_slice()),
            lease: Encoded { bytes: slice_to_vec(self.lease.bytes.as_slice()) },
            task_spec: Encoded { bytes: slice_to_vec(self.task_spec.bytes.as_slice()) },
        }
    }
}

/// The argument types of `submit_task`, in wire order.
pub type SubmitTaskArgs = (Vec<u8>, Encoded, Encoded);

impl<T: AdvancaCore> Encode for SubmitTaskCall<T> {
    type Value = <SubmitTaskArgs as Encode>::Value;

    open spec fn value(&self) -> Self::Value {
        (self.signed_owner_task_pubkey.value(), self.lease.value(), self.task_spec.value())
    }

    open spec fn valid(v: Self::Value) -> bool {
        <SubmitTaskArgs>::valid(v)
    }

    open spec fn wire(v: Self::Value) -> Seq<u8> {
        <SubmitTaskArgs>::wire(v)
    }

    fn encodable(&self) -> (ok: bool) {
        self.signed_owner_task_pubkey.encodable() && self.lease.encodable() && self.task_spec.encodable()
    }

    fn encode_to(&self, out: &mut Vec<u8>) {
        self.signed_owner_task_pubkey.encode_to(out);
        self.lease.encode_to(out);
        self.task_spec.encode_to(out);
    }
}

impl<T: AdvancaCore> Call for SubmitTaskCall<T> {
    const MODULE: &'static str = MODULE;

    const FUNCTION: &'static str = "submit_task";
}

/// Submit task evidence
#[derive(Clone, Debug, PartialEq)]
pub struct SubmitTaskEvidenceCall<T: AdvancaCore> {
    /// Task id
    pub task_id: <T as AdvancaCore>::TaskId,
    /// Evidences
    pub evidences: Vec<Vec<u8>>,
}

/// The argument types of `submit_task_evidence`, in wire order.
pub type SubmitTaskEvidenceArgs<T> = (<T as AdvancaCore>::TaskId, Vec<Vec<u8>>);

impl<T: AdvancaCore> Encode for SubmitTaskEvidenceCall<T> {
    type Value = <SubmitTaskEvidenceArgs<T> as Encode>::Value;

    open spec fn value(&self) -> Self::Value {
        (self.task_id.value(), self.evidences.value())
    }

    open spec fn valid(v: Self::Value) -> bool {
        <SubmitTaskEvidenceArgs<T>>::valid(v)
    }

    open spec fn wire(v: Self::Value) -> Seq<u8> {
        <SubmitTaskEvidenceArgs<T>>::wire(v)
    }

    fn encodable(&self) -> (ok: bool) {
        self.task_id.encodable() && self.evidences.encodable()
    }

    fn encode_to(&self, out: &mut Vec<u8>) {
        self.task_id.encode_to(out);
        self.evidences.encode_to(out);
    }
}

impl<T: AdvancaCore> Decode for SubmitTaskEvidenceCall<T> {
    open spec fn parse(s: Seq<u8>) -> Option<(Self::Value, nat)> {
        <SubmitTaskEvidenceArgs<T>>::parse(s)
    }

    proof fn lemma_parse_of_wire(v: Self::Value, rest: Seq<u8>) {
        <SubmitTaskEvidenceArgs<T>>::lemma_parse_of_wire(v, rest);
    }

    proof fn lemma_wire_of_parse(s: Seq<u8>) {
        <SubmitTaskEvidenceArgs<T>>::lemma_wire_of_parse(s);
    }

    fn decode(input: &[u8]) -> (r: Option<(Self, usize)>) {
        match <SubmitTaskEvidenceArgs<T>>::decode(input) {
            Some(((task_id, evidences), used)) => Some(
                (SubmitTaskEvidenceCall { task_id, evidences }, used),
            ),
            None => None,
        }
    }
}

impl<T: AdvancaCore> Call for SubmitTaskEvidenceCall<T> {
    const MODULE: &'static str = MODULE;

    const FUNCTION: &'static str = "submit_task_evidence";
}

/// Update task
#[derive(Clone, Debug, PartialEq)]
pub struct UpdateTaskCall<T: AdvancaCore> {
    /// Task id
    pub task_id: <T as AdvancaCore>::TaskId,
    /// Task specification, in its byte form
    pub task_spec: Encoded,
}

/// The argument types of `update_task`, in wire order.
pub type UpdateTaskArgs<T> = (<T as AdvancaCore>::TaskId, Encoded);

impl<T: AdvancaCore> Encode for UpdateTaskCall<T> {
    type Value = <UpdateTaskArgs<T> as Encode>::Value;

    open spec fn value(&self) -> Self::Value {
        (self.task_id.value(), self.task_spec.value())
    }

    open spec fn valid(v: Self::Value) -> bool {
        <UpdateTaskArgs<T>>::valid(v)
    }

    open spec fn wire(v: Self::Value) -> Seq<u8> {
        <UpdateTaskArgs<T>>::wire(v)
    }

    fn encodable(&self) -> (ok: bool) {
        self.task_id.encodable() && self.task_spec.encodable()
    }

    fn encode_to(&self, out: &mut Vec<u8>) {
        self.task_id.encode_to(out);
        self.task_spec.encode_to(out);
    }
}

impl<T: AdvancaCore> Call for UpdateTaskCall<T> {
    const MODULE: &'static str = MODULE;

    const FUNCTION: &'static str = "update_task";
}

/// Accept task
#[derive(Clone, Debug, PartialEq)]
pub struct AcceptTaskCall<T: AdvancaCore> {
    /// Task id
    pub task_id: <T as AdvancaCore>::TaskId,
    /// Worker's ephemeral key for particular task
    pub signed_eph_pubkey: Vec<u8>,
    /// Encrypted URL, in its byte form
    pub url: Encoded,
}

/// The argument types of `accept_task`, in wire order.
pub type AcceptTaskArgs<T> = (<T as AdvancaCore>::TaskId, Vec<u8>, Encoded);

impl<T: AdvancaCore> Encode for AcceptTaskCall<T> {
    type Value = <AcceptTaskArgs<T> as Encode>::Value;

    open spec fn value(&self) -> Self::Value {
        (self.task_id.value(), self.signed_eph_pubkey.value(), self.url.value())
    }

    open spec fn valid(v: Self::Value) -> bool {
        <AcceptTaskArgs<T>>::valid(v)
    }

    open spec fn wire(v: Self::Value) -> Seq<u8> {
        <AcceptTaskArgs<T>>::wire(v)
    }

    fn encodable(&self) -> (ok: bool) {
        self.task_id.encodable() && self.signed_eph_pubkey.encodable() && self.url.encodable()
    }

    fn encode_to(&self, out: &mut Vec<u8>) {
        self.task_id.encode_to(out);
        self.signed_eph_pubkey.encode_to(out);
        self.url.encode_to(out);
    }
}

impl<T: AdvancaCore> Call for AcceptTaskCall<T> {
    const MODULE: &'static str = MODULE;

    const FUNCTION: &'static str = "accept_task";
}

/// Abort task
#[derive(Clone, Debug, PartialEq)]
pub struct AbortTaskCall<T: AdvancaCore> {
    /// Task id
    pub task_id: <T as AdvancaCore>::TaskId,
}

impl<T: AdvancaCore> Encode for AbortTaskCall<T> {
    type Value = <<T as AdvancaCore>::TaskId as Encode>::Value;

    open spec fn value(&self) -> Self::Value {
        self.task_id.value()
    }

    open spec fn valid(v: Self::Value) -> bool {
        <T as AdvancaCore>::TaskId::valid(v)
    }

    open spec fn wire(v: Self::Value) -> Seq<u8> {
        <T as AdvancaCore>::TaskId::wire(v)
    }

    fn encodable(&self) -> (ok: bool) {
        self.task_id.encodable()
    }

    fn encode_to(&self, out: &mut Vec<u8>) {
        self.task_id.encode_to(out);
    }
}

impl<T: AdvancaCore> Decode for AbortTaskCall<T> {
    open spec fn parse(s: Seq<u8>) -> Option<(Self::Value, nat)> {
        <T as AdvancaCore>::TaskId::parse(s)
    }

    proof fn lemma_parse_of_wire(v: Self::Value, rest: Seq<u8>) {
        <T as AdvancaCore>::TaskId::lemma_parse_of_wire(v, rest);
    }

    proof fn lemma_wire_of_parse(s: Seq<u8>) {
        <T as AdvancaCore>::TaskId::lemma_wire_of_parse(s);
    }

    fn decode(input: &[u8]) -> (r: Option<(Self, usize)>) {
        match <T as AdvancaCore>::TaskId::decode(input) {
            Some((task_id, used)) => Some((AbortTaskCall { task_id }, used)),
            None => None,
        }
    }
}

impl<T: AdvancaCore> Call for AbortTaskCall<T> {
    const MODULE: &'static str = MODULE;

    const FUNCTION: &'static str = "abort_task";
}

/// Complete task
#[derive(Clone, Debug, PartialEq)]
pub struct CompleteTaskCall<T: AdvancaCore> {
    /// Task id
    pub task_id: <T as AdvancaCore>::TaskId,
}

impl<T: AdvancaCore> Encode for CompleteTaskCall<T> {
    type Value = <<T as AdvancaCore>::TaskId as Encode>::Value;

    open spec fn value(&self) -> Self::Value {
        self.task_id.value()
    }

    open spec fn valid(v: Self::Value) -> bool {
        <T as AdvancaCore>::TaskId::valid(v)
    }

    open spec fn wire(v: Self::Value) -> Seq<u8> {
        <T as AdvancaCore>::TaskId::wire(v)
    }

    fn encodable(&self) -> (ok: bool) {
        self.task_id.encodable()
    }

    fn encode_to(&self, out: &mut Vec<u8>) {
        self.task_id.encode_to(out);
    }
}

impl<T: AdvancaCore> Decode for CompleteTaskCall<T> {
    open spec fn parse(s: Seq<u8>) -> Option<(Self::Value, nat)> {
        <T as AdvancaCore>::TaskId::parse(s)
    }

    proof fn lemma_parse_of_wire(v: Self::Value, rest: Seq<u8>) {
        <T as AdvancaCore>::TaskId::lemma_parse_of_wire(v, rest);
    }

    proof fn lemma_wire_of_parse(s: Seq<u8>) {
        <T as AdvancaCore>::TaskId::lemma_wire_of_parse(s);
    }

    fn decode(input: &[u8]) -> (r: Option<(Self, usize)>) {
        match <T as AdvancaCore>::TaskId::decode(input) {
            Some((task_id, used)) => Some((CompleteTaskCall { task_id }, used)),
            None => None,
        }
    }
}

impl<T: AdvancaCore> Call for CompleteTaskCall<T> {
    const MODULE: &'static str = MODULE;

    const FUNCTION: &'static str = "complete_task";
}

/// Progress task
#[derive(Clone, Debug, PartialEq)]
pub struct ProgressTaskCall<T: AdvancaCore> {
    /// Task id
    pub task_id: <T as AdvancaCore>::TaskId,
}

impl<T: AdvancaCore> Encode for ProgressTaskCall<T> {
    type Value = <<T as AdvancaCore>::TaskId as Encode>::Value;

    open spec fn value(&self) -> Self::Value {
        self.task_id.value()
    }

    open spec fn valid(v: Self::Value) -> bool {
        <T as AdvancaCore>::TaskId::valid(v)
    }

    open spec fn wire(v: Self::Value) -> Seq<u8> {
        <T as AdvancaCore>::TaskId::wire(v)
    }

    fn encodable(&self) -> (ok: bool) {
        self.task_id.encodable()
    }

    fn encode_to(&self, out: &mut Vec<u8>) {
        self.task_id.encode_to(out);
    }
}

impl<T: AdvancaCore> Decode for ProgressTaskCall<T> {
    open spec fn parse(s: Seq<u8>) -> Option<(Self::Value, nat)> {
        <T as AdvancaCore>::TaskId::parse(s)
    }

    proof fn lemma_parse_of_wire(v: Self::Value, rest: Seq<u8>) {
        <T as AdvancaCore>::TaskId::lemma_parse_of_wire(v, rest);
    }

    proof fn lemma_wire_of_parse(s: Seq<u8>) {
        <T as AdvancaCore>::TaskId::lemma_wire_of_parse(s);
    }

    fn decode(input: &[u8]) -> (r: Option<(Self, usize)>) {
        match <T as AdvancaCore>::TaskId::decode(input) {
            Some((task_id, used)) => Some((ProgressTaskCall { task_id }, used)),
            None => None,
        }
    }
}

impl<T: AdvancaCore> Call for ProgressTaskCall<T> {
    const MODULE: &'static str = MODULE;

    const FUNCTION: &'static str = "progress_task";
}

} // verus!
