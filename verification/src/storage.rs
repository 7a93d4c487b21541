//! Storage queries: the key under which the ledger keeps an item, derived
//! from the names of the module and the item and, for an entry of a map,
//! from the entry's key; and the decoding of what a query returns.

use crate::codec::{extend_bytes, from_bytes, parse_all, to_bytes, Decode, Encode};
use crate::hashing::{
    blake2_128, blake2_256, hash_blake2_128, hash_blake2_256, hash_twox_128, hash_twox_256,
    hash_twox_64, twox_128, twox_256, twox_64,
};
use vstd::prelude::*;
use vstd::slice::slice_to_vec;
use vstd::string::StringSliceAdditionalSpecFns;

verus! {

/// How the key of a map entry enters the storage key.
#[derive(Clone, Copy, Debug, PartialEq, Eq, Structural)]
pub enum StorageHasher {
    Blake2_128,
    Blake2_256,
    Blake2_128Concat,
    Twox128,
    Twox256,
    Twox64Concat,
    Identity,
}

/// The kind of a storage item, as the runtime declares it.
#[derive(Clone, Copy, Debug, PartialEq, Eq, Structural)]
pub enum StorageEntry {
    /// A single value.
    Plain,
    /// A map, with the hasher of its keys.
    Keyed(StorageHasher),
}

/// A query could not be answered from what the ledger returned.
#[derive(Clone, Copy, Debug, PartialEq, Eq, Structural)]
pub enum StorageError {
    /// The item is not of the kind that the query is for.
    WrongKind,
    /// The key of the entry has no byte form.
    Key,
    /// The bytes found are not the byte form of a value.
    Decode,
}

/// A query for an item in the storage of a module.
pub trait Store: Encode {
    /// The name of the module that keeps the item.
    const MODULE: &'static str;

    /// The name of the item within its module.
    const FIELD: &'static str;

    /// The type of the value that the query returns.
    type Returns;

    /// Whether the item is a map, the query naming one entry of it.
    spec fn is_keyed() -> bool;

    fn keyed() -> (k: bool)
        ensures
            k == Self::is_keyed(),
    ;
}

/// The digest that `hasher` takes of the byte form `key` of a map key; the
/// empty sequence where it takes none.
pub open spec fn key_digest(hasher: StorageHasher, key: Seq<u8>) -> Seq<u8> {
    match hasher {
        StorageHasher::Blake2_128 => blake2_128(key),
        StorageHasher::Blake2_256 => blake2_256(key),
        StorageHasher::Blake2_128Concat => blake2_128(key),
        StorageHasher::Twox128 => twox_128(key),
        StorageHasher::Twox256 => twox_256(key),
        StorageHasher::Twox64Concat => twox_64(key),
        StorageHasher::Identity => Seq::empty(),
    }
}

/// Whether `hasher` leaves the key readable behind its digest.
pub open spec fn keeps_key(hasher: StorageHasher) -> bool {
    hasher is Blake2_128Concat || hasher is Twox64Concat || hasher is Identity
}

/// The part of a storage key that stands for a map key with the byte form
/// `key`, where `digest` is the digest that `hasher` takes of it.
pub open spec fn placed_key(hasher: StorageHasher, digest: Seq<u8>, key: Seq<u8>) -> Seq<u8> {
    if keeps_key(hasher) {
        digest + key
    } else {
        digest
    }
}

/// What `hasher` makes of the byte form `key` of a map key.
pub open spec fn hashed_key(hasher: StorageHasher, key: Seq<u8>) -> Seq<u8> {
    placed_key(hasher, key_digest(hasher, key), key)
}

/// The part of a storage key that names the item: the digests of the
/// module's name and of the item's name.
pub open spec fn storage_prefix(module: Seq<u8>, item: Seq<u8>) -> Seq<u8> {
    twox_128(module) + twox_128(item)
}

/// The storage key of the entry with the key `key` in a map.
pub open spec fn storage_map_key(
    module: Seq<u8>,
    item: Seq<u8>,
    hasher: StorageHasher,
    key: Seq<u8>,
) -> Seq<u8> {
    storage_prefix(module, item) + hashed_key(hasher, key)
}

/// The storage key that the query `v` of the schema `S` stands for, where
/// the runtime declares the item as `entry`.
pub open spec fn storage_key<S: Store>(entry: StorageEntry, v: S::Value) -> Result<
    Seq<u8>,
    StorageError,
> {
    match entry {
        StorageEntry::Plain => if S::is_keyed() {
            Err(StorageError::WrongKind)
        } else {
            Ok(storage_prefix(S::MODULE.spec_bytes(), S::FIELD.spec_bytes()))
        },
        StorageEntry::Keyed(hasher) => if !S::is_keyed() {
            Err(StorageError::WrongKind)
        } else if !S::valid(v) {
            Err(StorageError::Key)
        } else {
            Ok(
                storage_map_key(
                    S::MODULE.spec_bytes(),
                    S::FIELD.spec_bytes(),
                    hasher,
                    S::wire(v),
                ),
            )
        },
    }
}

/// The digest that `hasher` takes of `key`; empty where it takes none.
pub fn digest_key(hasher: StorageHasher, key: &[u8]) -> (digest: Vec<u8>)
    ensures
        digest@ == key_digest(hasher, key@),
{
    match hasher {
        StorageHasher::Blake2_128 => slice_to_vec(hash_blake2_128(key).as_slice()),
        StorageHasher::Blake2_256 => slice_to_vec(hash_blake2_256(key).as_slice()),
        StorageHasher::Blake2_128Concat => slice_to_vec(hash_blake2_128(key).as_slice()),
        StorageHasher::Twox128 => slice_to_vec(hash_twox_128(key).as_slice()),
        StorageHasher::Twox256 => slice_to_vec(hash_twox_256(key).as_slice()),
        StorageHasher::Twox64Concat => slice_to_vec(hash_twox_64(key).as_slice()),
        StorageHasher::Identity => Vec::new(),
    }
}

/// The part of a storage key that names an item, from the digests of the
/// module's name and of the item's name.
pub fn join_prefix(module_digest: &[u8], item_digest: &[u8]) -> (key: Vec<u8>)
    ensures
        key@ == module_digest@ + item_digest@,
{
    let mut out: Vec<u8> = Vec::new();
    extend_bytes(&mut out, module_digest);
    extend_bytes(&mut out, item_digest);
    out
}

/// Appends to `out` the part of a storage key that stands for the map key
/// `key`, from the digest that `hasher` took of it.
pub fn place_key(hasher: StorageHasher, digest: &[u8], key: &[u8], out: &mut Vec<u8>)
    ensures
        final(out)@ == old(out)@ + placed_key(hasher, digest@, key@),
{
    extend_bytes(out, digest);
    match hasher {
        StorageHasher::Blake2_128Concat | StorageHasher::Twox64Concat | StorageHasher::Identity => {
            extend_bytes(out, key);
        },
        _ => {},
    }
}

/// What `hasher` makes of `key`.
pub fn hash_key(hasher: StorageHasher, key: &[u8]) -> (out: Vec<u8>)
    ensures
        out@ == hashed_key(hasher, key@),
{
    let digest = digest_key(hasher, key);
    let mut out: Vec<u8> = Vec::new();
    place_key(hasher, digest.as_slice(), key, &mut out);
    out
}

/// The part of a storage key that names the item `item` of `module`.
pub fn prefix(module: &str, item: &str) -> (key: Vec<u8>)
    ensures
        key@ == storage_prefix(module.spec_bytes(), item.spec_bytes()),
{
    let module_digest = hash_twox_128(module.as_bytes());
    let item_digest = hash_twox_128(item.as_bytes());
    join_prefix(module_digest.as_slice(), item_digest.as_slice())
}

/// The storage key of the entry of the map `item` of `module` whose key has
/// the byte form `key`.
pub fn map_key(module: &str, item: &str, hasher: StorageHasher, key: &[u8]) -> (out: Vec<u8>)
    ensures
        out@ == storage_map_key(module.spec_bytes(), item.spec_bytes(), hasher, key@),
{
    let mut out = prefix(module, item);
    let digest = digest_key(hasher, key);
    place_key(hasher, digest.as_slice(), key, &mut out);
    out
}

/// The storage key to read for `query`, where the runtime declares the item
/// as `entry`. Fails where the item is not of the kind that the schema is
/// for, or where the query's key has no byte form.
pub fn key_of<S: Store>(query: &S, entry: StorageEntry) -> (r: Result<Vec<u8>, StorageError>)
    ensures
        match r {
            Ok(key) => storage_key::<S>(entry, query.value()) == Ok::<Seq<u8>, StorageError>(
                key@,
            ),
            Err(e) => storage_key::<S>(entry, query.value()) == Err::<Seq<u8>, StorageError>(e),
        },
{
    match entry {
        StorageEntry::Plain => {
            if S::keyed() {
                Err(StorageError::WrongKind)
            } else {
                Ok(prefix(S::MODULE, S::FIELD))
            }
        },
        StorageEntry::Keyed(hasher) => {
            if !S::keyed() {
                Err(StorageError::WrongKind)
            } else if !query.encodable() {
                Err(StorageError::Key)
            } else {
                let key = to_bytes(query);
                Ok(map_key(S::MODULE, S::FIELD, hasher, key.as_slice()))
            }
        },
    }
}

/// The value that a query returned: `default` where the ledger holds
/// nothing under the key, else the value that `raw` is the byte form of.
/// Fails where `raw` is the byte form of no value.
pub fn value_of<V: Decode>(raw: Option<&[u8]>, default: V) -> (r: Result<V, StorageError>)
    ensures
        match raw {
            None => r == Ok::<V, StorageError>(default),
            Some(bytes) => match parse_all::<V>(bytes@) {
                Some(v) => r is Ok && r->Ok_0.value() == v,
                None => r == Err::<V, StorageError>(StorageError::Decode),
            },
        },
{
    match raw {
        None => Ok(default),
        Some(bytes) => match from_bytes::<V>(bytes) {
            Some(v) => Ok(v),
            None => Err(StorageError::Decode),
        },
    }
}

/// The key of a query depends on nothing but the names, the kind of the
/// item and the value of the query.
pub proof fn lemma_storage_key_deterministic<S: Store>(
    first: StorageEntry,
    second: StorageEntry,
    v: S::Value,
    w: S::Value,
)
    requires
        first == second,
        v == w,
    ensures
        storage_key::<S>(first, v) == storage_key::<S>(second, w),
{
}

} // verus!
