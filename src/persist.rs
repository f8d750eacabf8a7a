use vstd::prelude::*;

use crate::error::Error;

verus! {

/// What a persisted entry holds.
#[derive(Debug, Clone, Copy, PartialEq, Eq, Hash, Structural)]
pub enum PersistKind {
    AccountPrivateKey,
    PrivateKey,
    Certificate,
}

/// Address of a persisted entry: namespace (the contact email), kind and name.
#[derive(Debug, Clone, PartialEq, Eq)]
pub struct PersistKey {
    pub realm: String,
    pub kind: PersistKind,
    pub key: String,
}

impl PersistKey {
    pub fn new(realm: &str, kind: PersistKind, key: &str) -> (r: PersistKey)
        ensures
            r.realm@ == realm@,
            r.kind == kind,
            r.key@ == key@,
    {
        PersistKey { realm: realm.to_owned(), kind, key: key.to_owned() }
    }
}

/// Read side of the storage backend that keeps keys and certificates.
///
/// `get` answers `Ok(None)` for an absent entry and `Err` only when the
/// backend itself fails.
pub trait Persist {
    fn get(&self, key: &PersistKey) -> Result<Option<Vec<u8>>, Error>;
}

} // verus!
