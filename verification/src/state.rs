//! The connection state cache: what is known of each established
//! connection, under the identifier the worker gave it.
//!
//! There are two stores, one for data connections and one for media
//! connections. They share nothing; each is a map from identifier to entry.
//! An identifier is a key and nothing more: it is compared, never read.
use vstd::hash_map::StringHashMap;
use vstd::prelude::*;

verus! {

/// A value that can be copied out of a store.
pub trait Entry: Sized {
    /// A copy that equals the value it was made of.
    fn duplicate(&self) -> (copy: Self)
        ensures
            copy == *self,
    ;
}

/// The two ends that a data connection joins.
#[derive(Debug, Clone, PartialEq, Eq)]
pub struct Endpoints {
    pub source: String,
    pub destination: String,
}

/// The description of a transfer of media, as it was agreed on.
#[derive(Debug, Clone, PartialEq, Eq)]
pub struct TransferDescription {
    pub description: String,
}

impl Entry for Endpoints {
    fn duplicate(&self) -> (copy: Self) {
        Endpoints { source: self.source.clone(), destination: self.destination.clone() }
    }
}

impl Entry for TransferDescription {
    fn duplicate(&self) -> (copy: Self) {
        TransferDescription { description: self.description.clone() }
    }
}

/// The store after `value` was stored under `key`.
pub open spec fn stored<V>(entries: Map<Seq<char>, V>, key: Seq<char>, value: V) -> Map<
    Seq<char>,
    V,
> {
    entries.insert(key, value)
}

/// What a store holds under `key`.
pub open spec fn found<V>(entries: Map<Seq<char>, V>, key: Seq<char>) -> Option<V> {
    if entries.contains_key(key) {
        Some(entries[key])
    } else {
        None
    }
}

/// The store after whatever it held under `key` was removed.
pub open spec fn removed<V>(entries: Map<Seq<char>, V>, key: Seq<char>) -> Map<Seq<char>, V> {
    entries.remove(key)
}

/// One store of the cache.
#[verifier::reject_recursive_types(V)]
pub struct ConnectionState<V> {
    entries: StringHashMap<V>,
}

impl<V> View for ConnectionState<V> {
    type V = Map<Seq<char>, V>;

    closed spec fn view(&self) -> Map<Seq<char>, V> {
        self.entries@
    }
}

impl<V> ConnectionState<V> {
    /// A store that holds nothing.
    pub fn new() -> (state: Self)
        ensures
            state@ == Map::<Seq<char>, V>::empty(),
    {
        ConnectionState { entries: StringHashMap::new() }
    }

    /// Stores `value` under `key`, in place of what was there.
    pub fn store(&mut self, key: String, value: V)
        ensures
            final(self)@ == stored(old(self)@, key@, value),
    {
        self.entries.insert(key, value);
    }

    /// Removes what is stored under `key`; a key that holds nothing is
    /// left that way.
    pub fn remove(&mut self, key: &str)
        ensures
            final(self)@ == removed(old(self)@, key@),
    {
        self.entries.remove(key);
    }
}

impl<V: Entry> ConnectionState<V> {
    /// A copy of what is stored under `key`. The copy is the caller's own:
    /// nothing of the store is borrowed.
    pub fn find(&self, key: &str) -> (entry: Option<V>)
        ensures
            entry == found(self@, key@),
    {
        match self.entries.get(key) {
            Some(value) => Some(value.duplicate()),
            None => None,
        }
    }
}

/// The store of data connections.
pub type DataConnectionState = ConnectionState<Endpoints>;

/// The store of media connections.
pub type MediaConnectionState = ConnectionState<TransferDescription>;

/// What was stored under a key is what is found under it.
pub proof fn lemma_find_after_store<V>(entries: Map<Seq<char>, V>, key: Seq<char>, value: V)
    ensures
        found(stored(entries, key, value), key) == Some(value),
{
}

/// Under a key that was removed nothing is found.
pub proof fn lemma_find_after_remove<V>(entries: Map<Seq<char>, V>, key: Seq<char>)
    ensures
        found(removed(entries, key), key) is None,
{
}

/// Storing or removing under one key leaves what is found under every
/// other key as it was, in whatever order such operations on distinct keys
/// are carried out.
pub proof fn lemma_other_keys_untouched<V>(
    entries: Map<Seq<char>, V>,
    key: Seq<char>,
    value: V,
    other: Seq<char>,
)
    requires
        key != other,
    ensures
        found(stored(entries, key, value), other) == found(entries, other),
        found(removed(entries, key), other) == found(entries, other),
{
}

/// Operations on two distinct keys commute: the store they leave behind
/// does not depend on which came first.
pub proof fn lemma_distinct_keys_commute<V>(
    entries: Map<Seq<char>, V>,
    key: Seq<char>,
    value: V,
    other: Seq<char>,
    other_value: V,
)
    requires
        key != other,
    ensures
        stored(stored(entries, key, value), other, other_value) == stored(
            stored(entries, other, other_value),
            key,
            value,
        ),
        removed(stored(entries, key, value), other) == stored(removed(entries, other), key, value),
        removed(removed(entries, key), other) == removed(removed(entries, other), key),
{
    assert(stored(stored(entries, key, value), other, other_value) =~= stored(
        stored(entries, other, other_value),
        key,
        value,
    ));
    assert(removed(stored(entries, key, value), other) =~= stored(
        removed(entries, other),
        key,
        value,
    ));
    assert(removed(removed(entries, key), other) =~= removed(removed(entries, other), key));
}

} // verus!
