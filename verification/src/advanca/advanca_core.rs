//! Implements support for the advanca-core module.

use crate::codec::{Decode, Encode};
use crate::frame::balances::Balances;
use crate::frame::system::System;
use crate::hashing::Hasher;
use crate::primitives::FixedBytes;
use core::fmt::Debug;
use vstd::prelude::*;

pub use crate::advanca::calls::{
    AbortTaskCall, AcceptTaskCall, CompleteTaskCall, DeregisterUserCall, DeregisterWorkerCall,
    ProgressTaskCall, RegisterUserCall, RegisterWorkerCall, SubmitTaskCall,
    SubmitTaskEvidenceCall, UpdateTaskCall,
};
pub use crate::advanca::events::{
    TaskAbortedEvent, TaskAcceptedEvent, TaskCompletedEvent, TaskSubmittedEvent,
    TaskUpdatedEvent, UserAddedEvent, UserRemovedEvent, WorkerAddedEvent, WorkerRemovedEvent,
};
pub use crate::advanca::stores::{TasksStore, UnscheduledTasksStore, UsersStore, WorkersStore};

verus! {

/// The name of the module, as the runtime registers it.
pub const MODULE: &'static str = "AdvancaCore";

/// The subset of the module's configuration that a client must implement.
pub trait AdvancaCore: System + Balances {
    /// The type of task's id
    type TaskId: Decode + FixedBytes + Copy + Debug + Ord + Default + core::hash::Hash;
}

/// The identifier that the ledger is expected to give to the task that the
/// account submits with the nonce `account_nonce`: the digest of the byte
/// form of the account identifier followed by that of the nonce. That the
/// ledger derives its identifiers so is an assumption about the ledger.
pub fn task_id<T: AdvancaCore>(
    account_id: &<T as System>::AccountId,
    account_nonce: <T as System>::Index,
) -> (id: <T as System>::Hash)
    requires
        <T as System>::AccountId::valid(account_id.value()),
        <T as System>::Index::valid(account_nonce.value()),
    ensures
        id.value() == <T as System>::Hashing::digest(
            <T as System>::AccountId::wire(account_id.value()) + <T as System>::Index::wire(
                account_nonce.value(),
            ),
        ),
{
    let mut x: Vec<u8> = Vec::new();
    account_id.encode_to(&mut x);
    account_nonce.encode_to(&mut x);
    <T as System>::Hashing::hash(x.as_slice())
}

} // verus!
