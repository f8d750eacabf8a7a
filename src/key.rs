use vstd::prelude::*;

verus! {

/// The account's signing key: its PEM text, and the key identifier (the
/// account resource URL) once the provider has registered the account.
#[derive(Debug, Clone, PartialEq, Eq)]
pub struct AcmeKey {
    pub private_key_pem: String,
    pub key_id: Option<String>,
}

impl AcmeKey {
    pub fn new(private_key_pem: String, key_id: Option<String>) -> (r: AcmeKey)
        ensures
            r.private_key_pem == private_key_pem,
            r.key_id == key_id,
    {
        AcmeKey { private_key_pem, key_id }
    }

    /// The key as PEM text.
    pub fn to_pem(&self) -> (r: String)
        ensures
            r@ == self.private_key_pem@,
    {
        self.private_key_pem.clone()
    }
}

} // verus!
