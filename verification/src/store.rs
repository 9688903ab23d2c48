use vstd::prelude::*;
use secret_cosmwasm_std::{MemoryStorage, ReadonlyStorage, Storage};
use crate::error::NotFound;

verus! {

/// The in-memory key-value store of `secret_cosmwasm_std`.
#[verifier::external_type_specification]
#[verifier::external_body]
pub struct ExMemoryStorage(MemoryStorage);

/// What a store holds: the bytes saved under each key.
pub uninterp spec fn stored(storage: MemoryStorage) -> Map<Seq<u8>, Seq<u8>>;

/// Calls `ReadonlyStorage::get` of `MemoryStorage`. Trusted: it hands back a
/// copy of the bytes held under `key`, or `None` if the key is absent.
#[verifier::external_body]
fn storage_get(storage: &MemoryStorage, key: &[u8]) -> (value: Option<Vec<u8>>)
    ensures
        match value {
            Some(bytes) => stored(*storage).contains_key(key@) && stored(*storage)[key@] == bytes@,
            None => !stored(*storage).contains_key(key@),
        },
{
    storage.get(key)
}

/// Calls `Storage::set` of `MemoryStorage`. Trusted: afterwards `key` holds
/// `value`, and every other key holds what it held.
#[verifier::external_body]
fn storage_set(storage: &mut MemoryStorage, key: &[u8], value: &[u8])
    ensures
        stored(*final(storage)) == stored(*old(storage)).insert(key@, value@),
{
    storage.set(key, value)
}

/// Calls `Storage::remove` of `MemoryStorage`. Trusted: afterwards `key` is
/// absent, and every other key holds what it held.
#[verifier::external_body]
fn storage_remove(storage: &mut MemoryStorage, key: &[u8])
    ensures
        stored(*final(storage)) == stored(*old(storage)).remove(key@),
{
    storage.remove(key)
}

/// Puts the encoded record `value` under `key`, in place of what was there.
pub fn save(storage: &mut MemoryStorage, key: &[u8], value: &[u8])
    ensures
        stored(*final(storage)) == stored(*old(storage)).insert(key@, value@),
{
    storage_set(storage, key, value);
}

/// Takes away whatever is held under `key`.
pub fn remove(storage: &mut MemoryStorage, key: &[u8])
    ensures
        stored(*final(storage)) == stored(*old(storage)).remove(key@),
{
    storage_remove(storage, key);
}

/// Turns what a store handed back for a key into a record or its absence:
/// the bytes as they are, or an error that names the `kind` of value that the
/// caller expected. An empty value is a value.
pub fn found(value: Option<Vec<u8>>, kind: &str) -> (r: Result<Vec<u8>, NotFound>)
    ensures
        match value {
            Some(bytes) => r == Ok::<Vec<u8>, NotFound>(bytes),
            None => r matches Err(e) && e.kind@ == kind@,
        },
{
    match value {
        Some(bytes) => Ok(bytes),
        None => Err(NotFound { kind: kind.to_owned() }),
    }
}

/// The encoded record under `key`. Where there is none, the error names the
/// `kind` of value that the caller expected.
pub fn load(storage: &MemoryStorage, key: &[u8], kind: &str) -> (r: Result<Vec<u8>, NotFound>)
    ensures
        match r {
            Ok(bytes) => stored(*storage).contains_key(key@) && stored(*storage)[key@] == bytes@,
            Err(e) => !stored(*storage).contains_key(key@) && e.kind@ == kind@,
        },
{
    found(storage_get(storage, key), kind)
}

/// The encoded record under `key`, or `None` where there is none.
pub fn may_load(storage: &MemoryStorage, key: &[u8]) -> (r: Option<Vec<u8>>)
    ensures
        match r {
            Some(bytes) => stored(*storage).contains_key(key@) && stored(*storage)[key@] == bytes@,
            None => !stored(*storage).contains_key(key@),
        },
{
    storage_get(storage, key)
}

/// What was saved under a key is what a load from that key finds, a removed
/// key holds nothing, and neither touches another key.
pub proof fn store_round_trip(before: MemoryStorage, key: Seq<u8>, value: Seq<u8>, other: Seq<u8>)
    requires
        other != key,
    ensures
        stored(before).insert(key, value).contains_key(key),
        stored(before).insert(key, value)[key] == value,
        !stored(before).remove(key).contains_key(key),
        stored(before).insert(key, value).contains_key(other) == stored(before).contains_key(other),
        stored(before).contains_key(other) ==> stored(before).insert(key, value)[other] == stored(
            before,
        )[other] && stored(before).remove(key)[other] == stored(before)[other],
        stored(before).remove(key).contains_key(other) == stored(before).contains_key(other),
{
}

} // verus!
