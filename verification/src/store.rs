use vstd::prelude::*;

use crate::errors::MyError;
use std::collections::HashMap;

verus! {

broadcast use vstd::std_specs::hash::group_hash_axioms;

/// Durable, uniquely-keyed storage for one ledger kind. A record is
/// created at most once per key (`create`), read back (`load`), and
/// persisted in place (`store`); the core never enumerates records.
/// Keys are the owning identities.
pub struct LedgerStore<V> {
    records: HashMap<u64, V>,
}

impl<V> View for LedgerStore<V> {
    type V = Map<u64, V>;

    closed spec fn view(&self) -> Map<u64, V> {
        self.records@
    }
}

impl<V: Copy> LedgerStore<V> {
    /// An empty store.
    pub fn new() -> (s: Self)
        ensures
            s@ == Map::<u64, V>::empty(),
    {
        LedgerStore { records: HashMap::new() }
    }

    /// Whether a record exists for `key`.
    pub fn contains(&self, key: u64) -> (r: bool)
        ensures
            r == self@.contains_key(key),
    {
        self.records.contains_key(&key)
    }

    /// Creates the record for `key`, exactly once: a second creation for
    /// the same key fails with `AlreadyExists` and changes nothing.
    pub fn create(&mut self, key: u64, value: V) -> (r: Result<(), MyError>)
        ensures
            old(self)@.contains_key(key) ==> r == Err::<(), MyError>(MyError::AlreadyExists)
                && final(self)@ == old(self)@,
            !old(self)@.contains_key(key) ==> r == Ok::<(), MyError>(()) && final(self)@ == old(
                self,
            )@.insert(key, value),
    {
        if self.records.contains_key(&key) {
            Err(MyError::AlreadyExists)
        } else {
            self.records.insert(key, value);
            Ok(())
        }
    }

    /// Reads the record for `key`, failing with `NotFound` if absent.
    pub fn load(&self, key: u64) -> (r: Result<V, MyError>)
        ensures
            self@.contains_key(key) ==> r == Ok::<V, MyError>(self@[key]),
            !self@.contains_key(key) ==> r == Err::<V, MyError>(MyError::NotFound),
    {
        match self.records.get(&key) {
            Some(v) => Ok(*v),
            None => Err(MyError::NotFound),
        }
    }

    /// Persists `value` over an existing record, failing with `NotFound`
    /// if no record was ever created for `key`.
    pub fn store(&mut self, key: u64, value: V) -> (r: Result<(), MyError>)
        ensures
            old(self)@.contains_key(key) ==> r == Ok::<(), MyError>(()) && final(self)@ == old(
                self,
            )@.insert(key, value),
            !old(self)@.contains_key(key) ==> r == Err::<(), MyError>(MyError::NotFound)
                && final(self)@ == old(self)@,
    {
        if self.records.contains_key(&key) {
            self.records.insert(key, value);
            Ok(())
        } else {
            Err(MyError::NotFound)
        }
    }

    /// Writes the record for `key`, creating it if absent: the semantics
    /// a platform's resolve-or-create account service provides.
    pub fn put(&mut self, key: u64, value: V)
        ensures
            final(self)@ == old(self)@.insert(key, value),
    {
        self.records.insert(key, value);
    }
}

} // verus!
