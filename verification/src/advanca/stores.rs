//! The storage items of the advanca-core module.

use crate::advanca::advanca_core::{AdvancaCore, MODULE};
use crate::advanca::primitives::{Encoded, User};
use crate::codec::Encode;
use crate::frame::system::System;
use crate::storage::Store;
use core::marker::PhantomData;
use vstd::prelude::*;

verus! {

/// Registered Users
#[derive(Clone, Debug, Eq, PartialEq)]
pub struct UsersStore<T: AdvancaCore> {
    /// Account id
    pub account_id: <T as System>::AccountId,
}

impl<T: AdvancaCore> Encode for UsersStore<T> {
    type Value = <<T as System>::AccountId as Encode>::Value;

    open spec fn value(&self) -> Self::Value {
        self.account_id.value()
    }

    open spec fn valid(v: Self::Value) -> bool {
        <T as System>::AccountId::valid(v)
    }

    open spec fn wire(v: Self::Value) -> Seq<u8> {
        <T as System>::AccountId::wire(v)
    }

    fn encodable(&self) -> (ok: bool) {
        self.account_id.encodable()
    }

    fn encode_to(&self, out: &mut Vec<u8>) {
        self.account_id.encode_to(out);
    }
}

impl<T: AdvancaCore> Store for UsersStore<T> {
    type Returns = User<<T as System>::AccountId>;

    const MODULE: &'static str = MODULE;

    const FIELD: &'static str = "Users";

    open spec fn is_keyed() -> bool {
        true
    }

    fn keyed() -> (k: bool) {
        true
    }
}

/// Registered Workers; a worker record is returned in its byte form
#[derive(Clone, Debug, Eq, PartialEq)]
pub struct WorkersStore<T: AdvancaCore> {
    /// Account id
    pub account_id: <T as System>::AccountId,
}

impl<T: AdvancaCore> Encode for WorkersStore<T> {
    type Value = <<T as System>::AccountId as Encode>::Value;

    open spec fn value(&self) -> Self::Value {
        self.account_id.value()
    }

    open spec fn valid(v: Self::Value) -> bool {
        <T as System>::AccountId::valid(v)
    }

    open spec fn wire(v: Self::Value) -> Seq<u8> {
        <T as System>::AccountId::wire(v)
    }

    fn encodable(&self) -> (ok: bool) {
        self.account_id.encodable()
    }

    fn encode_to(&self, out: &mut Vec<u8>) {
        self.account_id.encode_to(out);
    }
}

impl<T: AdvancaCore> Store for WorkersStore<T> {
    type Returns = Encoded;

    const MODULE: &'static str = MODULE;

    const FIELD: &'static str = "Workers";

    open spec fn is_keyed() -> bool {
        true
    }

    fn keyed() -> (k: bool) {
        true
    }
}

/// Saved Tasks; a task record is returned in its byte form
#[derive(Clone, Debug, Eq, PartialEq)]
pub struct TasksStore<T: AdvancaCore> {
    /// Task id
    pub task_id: <T as AdvancaCore>::TaskId,
}

impl<T: AdvancaCore> Encode for TasksStore<T> {
    type Value = <<T as AdvancaCore>::TaskId as Encode>::Value;

    open spec fn value(&self) -> Self::Value {
        self.task_id.value()
    }

    open spec fn valid(v: Self::Value) -> bool {
        <T as AdvancaCore>::TaskId::valid(v)
    }

    open spec fn wire(v: Self::Value) -> Seq<u8> {
        <T as AdvancaCore>::TaskId::wire(v)
    }

    fn encodable(&self) -> (ok: bool) {
        self.task_id.encodable()
    }

    fn encode_to(&self, out: &mut Vec<u8>) {
        self.task_id.encode_to(out);
    }
}

impl<T: AdvancaCore> Store for TasksStore<T> {
    type Returns = Encoded;

    const MODULE: &'static str = MODULE;

    const FIELD: &'static str = "Tasks";

    open spec fn is_keyed() -> bool {
        true
    }

    fn keyed() -> (k: bool) {
        true
    }
}

/// Unscheduled Tasks
#[derive(Debug, Eq, PartialEq)]
pub struct UnscheduledTasksStore<T: AdvancaCore> {
    /// Runtime marker.
    pub _runtime: PhantomData<T>,
}

impl<T: AdvancaCore> Clone for UnscheduledTasksStore<T> {
    fn clone(&self) -> (r: Self)
        ensures
            r == *self,
    {
        UnscheduledTasksStore { _runtime: PhantomData }
    }
}

impl<T: AdvancaCore> Encode for UnscheduledTasksStore<T> {
    type Value = <() as Encode>::Value;

    open spec fn value(&self) -> Self::Value {
        ()
    }

    open spec fn valid(v: Self::Value) -> bool {
        <()>::valid(v)
    }

    open spec fn wire(v: Self::Value) -> Seq<u8> {
        <()>::wire(v)
    }

    fn encodable(&self) -> (ok: bool) {
        true
    }

    fn encode_to(&self, out: &mut Vec<u8>) {
    }
}

impl<T: AdvancaCore> Store for UnscheduledTasksStore<T> {
    type Returns = Vec<<T as AdvancaCore>::TaskId>;

    const MODULE: &'static str = MODULE;

    const FIELD: &'static str = "UnscheduledTasks";

    open spec fn is_keyed() -> bool {
        false
    }

    fn keyed() -> (k: bool) {
        false
    }
}

} // verus!
