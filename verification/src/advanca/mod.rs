//! Advanca runtime definition and pallets definitions

pub mod advanca_core;
pub mod calls;
pub mod events;
pub mod primitives;
pub mod runtime;
pub mod stores;

pub use self::advanca_core::AdvancaCore;
pub use self::runtime::AdvancaRuntime;
