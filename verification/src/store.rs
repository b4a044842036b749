//! The persistent key-value store, an embedded ordered map with atomic
//! single-key operations.
//!
//! The runtime is the only writer and keeps every key and value in UTF-8
//! text, so the store is modelled as a map from strings to strings:
//! `store_contents` names what it holds, and each wrapper states what the
//! underlying call does to that map.

use vstd::prelude::*;

use crate::errors::Error;

verus! {

#[verifier::external_type_specification]
#[verifier::external_body]
pub struct ExDb(sled::Db);

/// What the database holds, as a map from string keys to string values.
pub uninterp spec fn store_contents(db: sled::Db) -> Map<Seq<char>, Seq<char>>;

/// A handle on the runtime's store.
///
/// The contracts of the methods below assume this handle is the only way
/// the database is reached: go through them, never through the field,
/// which is public only so that the view below can be an open one.
pub struct Store {
    pub db: sled::Db,
}

impl View for Store {
    type V = Map<Seq<char>, Seq<char>>;

    open spec fn view(&self) -> Map<Seq<char>, Seq<char>> {
        store_contents(self.db)
    }
}

/// Relies on sled::open: opens the database at `path`, creating it if
/// missing. Nothing is known of the contents of a freshly opened store.
#[verifier::external_body]
fn open_db(path: &str) -> (r: Result<Store, Error>)
    ensures
        r matches Err(e) ==> e == Error::StoreUnavailable,
{
    match sled::open(path) {
        Ok(db) => Ok(Store { db }),
        Err(_) => Err(Error::StoreUnavailable),
    }
}

impl Store {
    /// Open the store at `path`.
    pub fn open(path: &str) -> (r: Result<Store, Error>)
        ensures
            r matches Err(e) ==> e == Error::StoreUnavailable,
    {
        open_db(path)
    }

    /// Relies on sled::Tree::get: reads the value at a key atomically;
    /// `None` exactly when the key is absent.
    #[verifier::external_body]
    pub fn get(&self, key: &str) -> (r: Result<Option<String>, Error>)
        ensures
            match r {
                Ok(prev) => match prev {
                    Some(v) => store_contents(self.db).contains_key(key@) && store_contents(
                        self.db,
                    )[key@] == v@,
                    None => !store_contents(self.db).contains_key(key@),
                },
                Err(e) => e == Error::StoreUnavailable,
            },
    {
        match self.db.get(key.as_bytes()) {
            Ok(Some(ivec)) => match String::from_utf8(ivec.to_vec()) {
                Ok(s) => Ok(Some(s)),
                Err(_) => Err(Error::StoreUnavailable),
            },
            Ok(None) => Ok(None),
            Err(_) => Err(Error::StoreUnavailable),
        }
    }

    /// Relies on sled::Tree::insert: sets a key to a value atomically.
    #[verifier::external_body]
    pub fn put(&mut self, key: &str, value: &str) -> (r: Result<(), Error>)
        ensures
            match r {
                Ok(u) => store_contents(final(self).db) == store_contents(old(self).db).insert(
                    key@,
                    value@,
                ),
                Err(e) => e == Error::StoreUnavailable,
            },
    {
        match self.db.insert(key.as_bytes(), value.as_bytes()) {
            Ok(_) => Ok(()),
            Err(_) => Err(Error::StoreUnavailable),
        }
    }

    /// Relies on sled::Tree::remove: deletes a key atomically, returning the
    /// value it held.
    #[verifier::external_body]
    pub fn delete(&mut self, key: &str) -> (r: Result<Option<String>, Error>)
        ensures
            match r {
                Ok(prev) => {
                    &&& store_contents(final(self).db) == store_contents(old(self).db).remove(key@)
                    &&& match prev {
                        Some(v) => store_contents(old(self).db).contains_key(key@)
                            && store_contents(old(self).db)[key@] == v@,
                        None => !store_contents(old(self).db).contains_key(key@),
                    }
                },
                Err(e) => e == Error::StoreUnavailable,
            },
    {
        match self.db.remove(key.as_bytes()) {
            Ok(Some(ivec)) => match String::from_utf8(ivec.to_vec()) {
                Ok(s) => Ok(Some(s)),
                Err(_) => Err(Error::StoreUnavailable),
            },
            Ok(None) => Ok(None),
            Err(_) => Err(Error::StoreUnavailable),
        }
    }

    /// Relies on sled::Tree::compare_and_swap with no expected value: sets
    /// the key only if it is absent, in one atomic step.
    #[verifier::external_body]
    pub fn put_if_absent(&mut self, key: &str, value: &str) -> (r: Result<bool, Error>)
        ensures
            match r {
                Ok(fresh) => {
                    if fresh {
                        &&& !store_contents(old(self).db).contains_key(key@)
                        &&& store_contents(final(self).db) == store_contents(old(self).db).insert(
                            key@,
                            value@,
                        )
                    } else {
                        &&& store_contents(old(self).db).contains_key(key@)
                        &&& store_contents(final(self).db) == store_contents(old(self).db)
                    }
                },
                Err(e) => e == Error::StoreUnavailable,
            },
    {
        let cas = self.db.compare_and_swap(
            key.as_bytes(),
            None as Option<&[u8]>,
            Some(value.as_bytes()),
        );
        match cas {
            Ok(Ok(())) => Ok(true),
            Ok(Err(_)) => Ok(false),
            Err(_) => Err(Error::StoreUnavailable),
        }
    }
}

} // verus!
