use vstd::prelude::*;

use crate::api::ApiProblem;

verus! {

/// Every failure the core reports, through one channel.
#[derive(Debug, Clone, PartialEq, Eq)]
pub enum Error {
    /// The provider answered with a problem document.
    ApiProblem(ApiProblem),
    /// The transport failed before a usable answer arrived.
    Call(String),
    /// A response lacked a header that the protocol requires.
    MissingHeader(&'static str),
    /// The account key cannot sign a request.
    Sign(String),
    /// The persistence backend failed to read an entry.
    Persist(String),
}

} // verus!
