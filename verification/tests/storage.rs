use advanca::advanca::advanca_core::{TasksStore, UnscheduledTasksStore, UsersStore, WorkersStore};
use advanca::advanca::primitives::User;
use advanca::advanca::AdvancaRuntime;
use advanca::codec::to_bytes;
use advanca::hashing::{BlakeTwo256, Hasher};
use advanca::primitives::{AccountId32, H256};
use advanca::storage::{
    digest_key, hash_key, join_prefix, key_of, map_key, place_key, prefix, value_of, StorageEntry,
    StorageError, StorageHasher, Store,
};
use std::marker::PhantomData;

fn hex(s: &str) -> Vec<u8> {
    (0..s.len() / 2).map(|i| u8::from_str_radix(&s[2 * i..2 * i + 2], 16).unwrap()).collect()
}

fn alice() -> AccountId32 {
    let bytes = hex("d43593c715fdd31c61141abd04a99fd6822c8558854ccde39a5684e7a56da27d");
    let mut id = [0u8; 32];
    id.copy_from_slice(&bytes);
    AccountId32(id)
}

fn hashed(hasher: StorageHasher, key: &[u8]) -> Vec<u8> {
    hash_key(hasher, key)
}

#[test]
fn store_names() {
    assert_eq!(<UsersStore<AdvancaRuntime> as Store>::MODULE, "AdvancaCore");
    assert_eq!(<UsersStore<AdvancaRuntime> as Store>::FIELD, "Users");
    assert_eq!(<WorkersStore<AdvancaRuntime> as Store>::FIELD, "Workers");
    assert_eq!(<TasksStore<AdvancaRuntime> as Store>::FIELD, "Tasks");
    assert_eq!(<UnscheduledTasksStore<AdvancaRuntime> as Store>::FIELD, "UnscheduledTasks");
    assert!(<UsersStore<AdvancaRuntime> as Store>::keyed());
    assert!(<WorkersStore<AdvancaRuntime> as Store>::keyed());
    assert!(<TasksStore<AdvancaRuntime> as Store>::keyed());
    assert!(!<UnscheduledTasksStore<AdvancaRuntime> as Store>::keyed());
}

#[test]
fn prefix_of_a_well_known_item() {
    assert_eq!(
        prefix("System", "Account"),
        hex("26aa394eea5630e07c48ae0c9558cef7b99d880ec681799c0cf30e8886371da9")
    );
}

#[test]
fn key_of_a_well_known_map_entry() {
    let key = map_key("System", "Account", StorageHasher::Blake2_128Concat, &alice().0);
    assert_eq!(
        key,
        hex(
            "26aa394eea5630e07c48ae0c9558cef7b99d880ec681799c0cf30e8886371da9\
             de1e86a9a8c739864cf3cc5ec2bea59f\
             d43593c715fdd31c61141abd04a99fd6822c8558854ccde39a5684e7a56da27d"
        )
    );
}

#[test]
fn each_hasher_gives_its_digest() {
    let key = "some key".as_bytes();
    assert_eq!(hashed(StorageHasher::Identity, key), key.to_vec());
    assert_eq!(
        hashed(StorageHasher::Blake2_128, key),
        sp_crypto_hashing::blake2_128(key).to_vec()
    );
    assert_eq!(
        hashed(StorageHasher::Blake2_256, key),
        sp_crypto_hashing::blake2_256(key).to_vec()
    );
    assert_eq!(hashed(StorageHasher::Twox128, key), sp_crypto_hashing::twox_128(key).to_vec());
    assert_eq!(hashed(StorageHasher::Twox256, key), sp_crypto_hashing::twox_256(key).to_vec());
    let mut concat = sp_crypto_hashing::blake2_128(key).to_vec();
    concat.extend_from_slice(key);
    assert_eq!(hashed(StorageHasher::Blake2_128Concat, key), concat);
    let mut concat = sp_crypto_hashing::twox_64(key).to_vec();
    concat.extend_from_slice(key);
    assert_eq!(hashed(StorageHasher::Twox64Concat, key), concat);
}

#[test]
fn digests_have_their_lengths_and_differ_from_the_input() {
    let key = [7u8; 16];
    assert_eq!(hashed(StorageHasher::Blake2_128, &key).len(), 16);
    assert_eq!(hashed(StorageHasher::Twox128, &key).len(), 16);
    assert_eq!(hashed(StorageHasher::Blake2_256, &key).len(), 32);
    assert_eq!(hashed(StorageHasher::Twox256, &key).len(), 32);
    assert_eq!(hashed(StorageHasher::Twox64Concat, &key).len(), 24);
    assert_ne!(hashed(StorageHasher::Blake2_128, &key), key.to_vec());
    assert_ne!(hashed(StorageHasher::Twox128, &key), key.to_vec());
    assert_ne!(hashed(StorageHasher::Twox64Concat, &key)[..8], key[..8]);
    let long = [7u8; 32];
    assert_ne!(hashed(StorageHasher::Blake2_256, &long), long.to_vec());
    assert_ne!(hashed(StorageHasher::Twox256, &long), long.to_vec());
}

#[test]
fn a_key_is_placed_behind_its_digest_where_the_hasher_keeps_it() {
    let all = [
        (StorageHasher::Blake2_128, false),
        (StorageHasher::Blake2_256, false),
        (StorageHasher::Blake2_128Concat, true),
        (StorageHasher::Twox128, false),
        (StorageHasher::Twox256, false),
        (StorageHasher::Twox64Concat, true),
        (StorageHasher::Identity, true),
    ];
    for (hasher, keeps) in all {
        let mut out = vec![1u8, 2];
        place_key(hasher, &[0xd1, 0xd2], &[3, 4, 5], &mut out);
        if keeps {
            assert_eq!(out, vec![1, 2, 0xd1, 0xd2, 3, 4, 5]);
        } else {
            assert_eq!(out, vec![1, 2, 0xd1, 0xd2]);
        }
    }
}

#[test]
fn a_prefix_is_two_digests() {
    assert_eq!(join_prefix(&[1, 2], &[3]), vec![1, 2, 3]);
    assert_eq!(join_prefix(&[], &[]), Vec::<u8>::new());
}

#[test]
fn the_digest_of_a_key() {
    let key = "some key".as_bytes();
    assert_eq!(digest_key(StorageHasher::Identity, key), Vec::<u8>::new());
    assert_eq!(
        digest_key(StorageHasher::Blake2_128Concat, key),
        sp_crypto_hashing::blake2_128(key).to_vec()
    );
    assert_eq!(
        digest_key(StorageHasher::Twox64Concat, key),
        sp_crypto_hashing::twox_64(key).to_vec()
    );
}

#[test]
fn blake_two_256_of_nothing() {
    assert_eq!(
        BlakeTwo256::hash(&[]),
        H256({
            let mut id = [0u8; 32];
            id.copy_from_slice(&hex(
                "0e5751c026e543b2e8ab2eb06099daa1d1e5df47778f7787faab45cdf12fe3a8",
            ));
            id
        })
    );
}

#[test]
fn key_of_a_user() {
    let query = UsersStore::<AdvancaRuntime> { account_id: alice() };
    let key = key_of(&query, StorageEntry::Keyed(StorageHasher::Blake2_128Concat)).unwrap();
    let mut expected = sp_crypto_hashing::twox_128("AdvancaCore".as_bytes()).to_vec();
    expected.extend_from_slice(&sp_crypto_hashing::twox_128("Users".as_bytes()));
    expected.extend_from_slice(&hex("de1e86a9a8c739864cf3cc5ec2bea59f"));
    expected.extend_from_slice(&alice().0);
    assert_eq!(key, expected);
    assert_eq!(key.len(), 80);
}

#[test]
fn keys_are_the_same_whenever_derived() {
    let query = TasksStore::<AdvancaRuntime> { task_id: H256([3; 32]) };
    let entry = StorageEntry::Keyed(StorageHasher::Twox64Concat);
    let first = key_of(&query, entry);
    let second = key_of(&query.clone(), entry);
    assert_eq!(first, second);
    assert!(first.is_ok());
    let other = TasksStore::<AdvancaRuntime> { task_id: H256([4; 32]) };
    assert_ne!(key_of(&other, entry), first);
    let workers = WorkersStore::<AdvancaRuntime> { account_id: AccountId32([3; 32]) };
    assert_ne!(key_of(&workers, entry), first);
}

#[test]
fn key_of_a_plain_item_is_its_prefix() {
    let query = UnscheduledTasksStore::<AdvancaRuntime> { _runtime: PhantomData };
    assert_eq!(
        key_of(&query, StorageEntry::Plain),
        Ok(prefix("AdvancaCore", "UnscheduledTasks"))
    );
    assert_eq!(prefix("AdvancaCore", "UnscheduledTasks").len(), 32);
}

#[test]
fn a_query_of_the_wrong_kind_fails() {
    let plain = UnscheduledTasksStore::<AdvancaRuntime> { _runtime: PhantomData };
    assert_eq!(
        key_of(&plain, StorageEntry::Keyed(StorageHasher::Identity)),
        Err(StorageError::WrongKind)
    );
    let keyed = UsersStore::<AdvancaRuntime> { account_id: alice() };
    assert_eq!(key_of(&keyed, StorageEntry::Plain), Err(StorageError::WrongKind));
}

#[test]
fn an_absent_value_is_the_default() {
    let default: User<AccountId32> = User { account_id: AccountId32([0; 32]), public_key: vec![] };
    assert_eq!(value_of(None, default.clone()), Ok(default));
    assert_eq!(value_of::<Vec<H256>>(None, vec![]), Ok(vec![]));
}

#[test]
fn a_present_value_is_decoded() {
    let user = User { account_id: alice(), public_key: "alice".as_bytes().to_vec() };
    let raw = to_bytes(&user);
    let default: User<AccountId32> = User { account_id: AccountId32([0; 32]), public_key: vec![] };
    assert_eq!(value_of(Some(&raw[..]), default), Ok(user));
}

#[test]
fn a_malformed_value_is_a_decode_error() {
    let default: User<AccountId32> = User { account_id: AccountId32([0; 32]), public_key: vec![] };
    assert_eq!(value_of(Some(&[1u8, 2, 3][..]), default.clone()), Err(StorageError::Decode));
    assert_eq!(value_of(Some(&[][..]), default), Err(StorageError::Decode));
    assert_eq!(value_of::<u32>(Some(&[1u8, 2, 3, 4, 5][..]), 0), Err(StorageError::Decode));
}
