use vstd::prelude::*;

verus! {

/// Problem type with which the provider rejects a stale or consumed nonce.
pub const BAD_NONCE: &'static str = "urn:ietf:params:acme:error:badNonce";

/// Endpoints that the provider publishes in its directory.
#[derive(Debug, Clone, PartialEq, Eq)]
pub struct ApiDirectory {
    pub new_nonce: String,
    pub new_account: String,
    pub new_order: String,
}

/// The registered account resource as the provider returned it.
#[derive(Debug, Clone, PartialEq, Eq, Default)]
pub struct ApiAccount {
    pub status: Option<String>,
    pub contact: Option<Vec<String>>,
    pub terms_of_service_agreed: Option<bool>,
    pub only_return_existing: Option<bool>,
    pub orders: Option<String>,
}

/// One identifier of an order: its type (always `dns` here) and its value.
#[derive(Debug, Clone, PartialEq, Eq)]
pub struct ApiIdentifier {
    pub _type: String,
    pub value: String,
}

/// An order resource, both as request payload and as returned state.
#[derive(Debug, Clone, PartialEq, Eq, Default)]
pub struct ApiOrder {
    pub status: Option<String>,
    pub expires: Option<String>,
    pub identifiers: Vec<ApiIdentifier>,
    pub not_before: Option<String>,
    pub not_after: Option<String>,
    pub authorizations: Option<Vec<String>>,
    pub finalize: String,
    pub certificate: Option<String>,
}

/// A problem document of the provider.
#[derive(Debug, Clone, PartialEq, Eq)]
pub struct ApiProblem {
    pub _type: String,
    pub detail: Option<String>,
}

/// The problem type marks a rejected nonce.
pub open spec fn is_bad_nonce_type(t: Seq<char>) -> bool {
    t == BAD_NONCE@
}

impl ApiProblem {
    /// Whether the provider rejected the request only for its nonce.
    pub fn is_bad_nonce(&self) -> (r: bool)
        ensures
            r == is_bad_nonce_type(self._type@),
    {
        let bad = BAD_NONCE.to_owned();
        self._type == bad
    }
}

} // verus!
