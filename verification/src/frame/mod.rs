//! The modules that every runtime has, as far as the client depends on
//! them.

pub mod balances;
pub mod system;
