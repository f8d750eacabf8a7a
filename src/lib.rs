//! Authenticated-request core of an ACME client: accounts, certificate
//! lookup in local persistence, order identifiers, and the nonce-retrying
//! signed-request engine.

mod acc;
mod api;
mod cert;
mod directory;
mod error;
mod key;
mod persist;
mod signed;

pub use acc::{
    dns_identifiers, identifiers_for, order_identifiers, Account, AccountInner, NewOrder, Order,
};
pub use api::{
    is_bad_nonce_type, ApiAccount, ApiDirectory, ApiIdentifier, ApiOrder, ApiProblem, BAD_NONCE,
};
pub use cert::{certificate_from_reads, lookup_outcome, stored_text, Certificate};
pub use directory::Directory;
pub use error::Error;
pub use key::AcmeKey;
pub use persist::{Persist, PersistKey, PersistKind};
pub use signed::{
    after_nonce, after_reply, call_wf, initial, lemma_retry_after_stale_nonce,
    lemma_stale_nonce_exhausts, lemma_stale_nonce_retry_bounded, reply_action, Action, CallView,
    Phase, ProtectedHeader, Reply, SignedCall, MAX_ATTEMPTS,
};
