use crate::structures::{RequestResponse, ResponseView};
use vstd::hash_map::StringHashMap;
use vstd::prelude::*;

verus! {

/// The contents of the storage: each key maps to the hash stored under it.
pub type Contents = Map<Seq<char>, Seq<char>>;

/// The storage shared by all clients: a hash map from keys to hashes.
pub struct Storage {
    map: StringHashMap<String>,
}

impl View for Storage {
    type V = Contents;

    closed spec fn view(&self) -> Contents {
        self.map@.map_values(|v: String| v@)
    }
}

impl Storage {
    /// Creates an empty storage.
    pub fn new() -> (s: Self)
        ensures
            s@ == Contents::empty(),
    {
        let s = Storage { map: StringHashMap::new() };
        assert(s@ =~= Contents::empty());
        s
    }

    /// Number of keys held.
    pub fn len(&self) -> (n: usize)
        ensures
            n == self@.len(),
    {
        broadcast use vstd::hash_map::group_hash_map_axioms;
        assert(self@.dom() =~= self.map@.dom());
        self.map.len()
    }
}

/// What a store request is answered: success, with empty key and hash.
pub open spec fn store_response() -> ResponseView {
    ResponseView::Success { key: Seq::empty(), hash: Seq::empty() }
}

/// What a load request for `key` is answered in a storage holding `contents`.
pub open spec fn load_response(contents: Contents, key: Seq<char>) -> ResponseView {
    if contents.contains_key(key) {
        ResponseView::Success { key, hash: contents[key] }
    } else {
        ResponseView::KeyNotFound
    }
}

/// Stores `hash` under `key`, replacing what the key held before.
pub fn store(storage: &mut Storage, key: &str, hash: &str) -> (r: RequestResponse)
    ensures
        final(storage)@ == old(storage)@.insert(key@, hash@),
        r@ == store_response(),
{
    storage.map.insert(key.to_owned(), hash.to_owned());
    assert(storage@ =~= old(storage)@.insert(key@, hash@));
    RequestResponse::Success { requested_key: String::new(), requested_hash: String::new() }
}

/// Loads the hash stored under `key`; the storage is left as it was.
pub fn load(storage: &mut Storage, key: &str) -> (r: RequestResponse)
    ensures
        final(storage)@ == old(storage)@,
        r@ == load_response(old(storage)@, key@),
{
    match storage.map.get(key) {
        None => RequestResponse::KeyNotFound,
        Some(hash) => RequestResponse::Success {
            requested_key: key.to_owned(),
            requested_hash: hash.clone(),
        },
    }
}

/// A load of a key answers the hash that the last store put under that key.
pub proof fn law_load_after_store(contents: Contents, key: Seq<char>, hash: Seq<char>)
    ensures
        load_response(contents.insert(key, hash), key) == (ResponseView::Success { key, hash }),
{
}

/// A store under one key changes nothing that a load of another key answers.
pub proof fn law_store_keeps_other_keys(
    contents: Contents,
    key: Seq<char>,
    hash: Seq<char>,
    other: Seq<char>,
)
    requires
        other != key,
    ensures
        load_response(contents.insert(key, hash), other) == load_response(contents, other),
{
}

/// Of two stores under the same key, the second one wins.
pub proof fn law_last_store_wins(contents: Contents, key: Seq<char>, first: Seq<char>, second: Seq<char>)
    ensures
        contents.insert(key, first).insert(key, second) == contents.insert(key, second),
{
    assert(contents.insert(key, first).insert(key, second) =~= contents.insert(key, second));
}

/// A new storage answers every load with `KeyNotFound`.
pub proof fn law_empty_storage_finds_nothing(key: Seq<char>)
    ensures
        load_response(Contents::empty(), key) == ResponseView::KeyNotFound,
{
}

} // verus!
