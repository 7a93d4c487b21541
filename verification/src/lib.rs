//! Client-side bindings for the Advanca ledger runtime.
//!
//! - `scale`, `codec`, `sequence`, `tuple`: the wire format, with the laws
//!   that tie decoding to encoding.
//! - `primitives`, `hashing`: identifiers and hash functions.
//! - `frame`, `advanca`: the capabilities that a runtime binds, and the
//!   calls, events and storage items of each module.
//! - `call`, `event`, `storage`, `metadata`: addressing by index pair,
//!   event search, storage keys, and the lookup of both by name.
//! - `extrinsic`: the decisions of one submit-and-watch cycle.

pub mod advanca;
pub mod call;
pub mod codec;
pub mod event;
pub mod extrinsic;
pub mod frame;
pub mod hashing;
pub mod metadata;
pub mod primitives;
pub mod scale;
pub mod sequence;
pub mod storage;
pub mod tuple;
