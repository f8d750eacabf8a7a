use vstd::prelude::*;

use crate::api::ApiDirectory;

verus! {

/// A provider's published endpoints together with the local persistence
/// backend of the accounts built from it.
pub struct Directory<P> {
    persist: P,
    api_directory: ApiDirectory,
}

impl<P> Directory<P> {
    pub closed spec fn persist_spec(&self) -> P {
        self.persist
    }

    pub closed spec fn endpoints(&self) -> ApiDirectory {
        self.api_directory
    }

    pub fn new(persist: P, api_directory: ApiDirectory) -> (r: Directory<P>)
        ensures
            r.persist_spec() == persist,
            r.endpoints() == api_directory,
    {
        Directory { persist, api_directory }
    }

    pub fn persist(&self) -> (r: &P)
        ensures
            *r == self.persist_spec(),
    {
        &self.persist
    }

    pub fn api_directory(&self) -> (r: &ApiDirectory)
        ensures
            *r == self.endpoints(),
    {
        &self.api_directory
    }
}

} // verus!
