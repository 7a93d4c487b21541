//! runtime

use crate::advanca::advanca_core::AdvancaCore;
use crate::frame::balances::{Balances, Status};
use crate::frame::system::System;
use crate::hashing::BlakeTwo256;
use crate::primitives::{AccountId32, H256};
use vstd::prelude::*;

verus! {

/// Concrete type definitions compatible with the Advanca Runtime.
#[derive(Debug, Clone, Eq, PartialEq)]
pub struct AdvancaRuntime;

impl System for AdvancaRuntime {
    type Index = u32;

    type BlockNumber = u32;

    type Hash = H256;

    type Hashing = BlakeTwo256;

    type AccountId = AccountId32;
}

impl Balances for AdvancaRuntime {
    type Balance = u128;

    type Status = Status;
}

impl AdvancaCore for AdvancaRuntime {
    type TaskId = H256;
}

} // verus!
