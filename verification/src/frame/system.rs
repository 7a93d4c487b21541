//! The primitive types that a runtime fixes for all its modules.

use crate::codec::Decode;
use crate::hashing::Hasher;
use core::fmt::Debug;
use vstd::prelude::*;

verus! {

/// The types of the system module. One runtime binds each of them once, and
/// every descriptor of a session is instantiated with that runtime.
pub trait System {
    /// The number of transactions that an account has sent.
    type Index: Decode + Copy + Debug + Eq;

    /// The number of a block.
    type BlockNumber: Decode + Copy + Debug + Eq;

    /// The output of the hash function.
    type Hash: Decode + Copy + Debug + Ord + Default + core::hash::Hash;

    /// The hash function.
    type Hashing: Hasher<Output = Self::Hash>;

    /// The identifier of an account.
    type AccountId: Decode + Clone + Debug + Ord;
}

} // verus!
