use std::sync::Arc;

use vstd::prelude::*;

use crate::api::{ApiAccount, ApiIdentifier, ApiOrder};
use crate::cert::{certificate_from_reads, lookup_outcome, Certificate};
use crate::directory::Directory;
use crate::error::Error;
use crate::key::AcmeKey;
use crate::persist::{Persist, PersistKey, PersistKind};
use crate::signed::{initial, SignedCall};

verus! {

/// Shared state of an account: never changed after construction.
pub struct AccountInner<P> {
    pub directory: Directory<P>,
    pub contact_email: String,
    pub acme_key: AcmeKey,
    pub api_account: ApiAccount,
}

/// Relies on `Arc::clone`: the new handle points to the same value.
#[verifier::external_body]
fn share<P>(inner: &Arc<AccountInner<P>>) -> (r: Arc<AccountInner<P>>)
    ensures
        *r == **inner,
{
    Arc::clone(inner)
}

/// Account with an ACME provider: a contact email, which is also the
/// persistence namespace, and the key that signs its requests.
///
/// The account is an immutable handle; clones share one inner value.
#[derive(Clone)]
pub struct Account<P> {
    inner: Arc<AccountInner<P>>,
}

/// An order as the provider created it, bound to the account that made it.
pub struct Order<P> {
    inner: Arc<AccountInner<P>>,
    api_order: ApiOrder,
    url: String,
}

impl<P> Order<P> {
    pub closed spec fn account_spec(&self) -> AccountInner<P> {
        *self.inner
    }

    pub closed spec fn state(&self) -> ApiOrder {
        self.api_order
    }

    pub closed spec fn location(&self) -> Seq<char> {
        self.url@
    }

    /// The order state that the provider returned.
    pub fn api_order(&self) -> (r: &ApiOrder)
        ensures
            *r == self.state(),
    {
        &self.api_order
    }

    /// The order's resource location.
    pub fn url(&self) -> (r: &str)
        ensures
            r@ == self.location(),
    {
        self.url.as_str()
    }
}

/// A freshly created order.
pub struct NewOrder<P> {
    pub order: Order<P>,
}

/// The identifiers of an order for `primary` followed by `alt`, in order.
pub open spec fn identifiers_for(primary: Seq<char>, alt: Seq<&str>) -> Seq<Seq<char>> {
    seq![primary] + alt.map_values(|s: &str| s@)
}

/// `ids` is the sequence of `dns` identifiers with the values `names`.
pub open spec fn dns_identifiers(ids: Seq<ApiIdentifier>, names: Seq<Seq<char>>) -> bool {
    &&& ids.len() == names.len()
    &&& forall|i: int|
        #![trigger ids[i]]
        0 <= i < ids.len() ==> ids[i]._type@ == "dns"@ && ids[i].value@ == names[i]
}

/// The order-creation identifiers: `primary_name` first, then `alt_names`
/// in the order given, each of type `dns`; duplicates are kept.
pub fn order_identifiers(primary_name: &str, alt_names: &[&str]) -> (r: Vec<ApiIdentifier>)
    requires
        alt_names@.len() < usize::MAX,
    ensures
        dns_identifiers(r@, identifiers_for(primary_name@, alt_names@)),
{
    let ghost names = identifiers_for(primary_name@, alt_names@);
    let mut ids: Vec<ApiIdentifier> = Vec::new();
    ids.push(ApiIdentifier { _type: "dns".to_owned(), value: primary_name.to_owned() });
    let mut i: usize = 0;
    while i < alt_names.len()
        invariant
            0 <= i <= alt_names@.len(),
            names == identifiers_for(primary_name@, alt_names@),
            dns_identifiers(ids@, names.subrange(0, i + 1)),
        decreases alt_names@.len() - i,
    {
        let alt = alt_names[i];
        let ghost prev = ids@;
        ids.push(ApiIdentifier { _type: "dns".to_owned(), value: alt.to_owned() });
        proof {
            assert(names[i + 1] == alt@);
            assert(names.len() == alt_names@.len() + 1);
            let done = names.subrange(0, i + 2);
            assert(done.len() == ids@.len());
            assert forall|j: int| #![trigger ids@[j]]
                0 <= j < ids@.len() implies ids@[j]._type@ == "dns"@ && ids@[j].value@
                == done[j] by {
                if j < i + 1 {
                    assert(ids@[j] == prev[j]);
                    assert(prev[j].value@ == names.subrange(0, i + 1)[j]);
                    assert(done[j] == names.subrange(0, i + 1)[j]);
                } else {
                    assert(done[j] == names[i + 1]);
                }
            }
            assert(dns_identifiers(ids@, done));
        }
        i = i + 1;
    }
    assert(names.subrange(0, i + 1) =~= names);
    ids
}

impl<P: Persist> Account<P> {
    pub closed spec fn inner_spec(&self) -> AccountInner<P> {
        *self.inner
    }

    pub fn new(
        directory: Directory<P>,
        contact_email: &str,
        acme_key: AcmeKey,
        api_account: ApiAccount,
    ) -> (r: Account<P>)
        ensures
            r.inner_spec().directory == directory,
            r.inner_spec().contact_email@ == contact_email@,
            r.inner_spec().acme_key == acme_key,
            r.inner_spec().api_account == api_account,
    {
        Account {
            inner: Arc::new(
                AccountInner {
                    directory,
                    acme_key,
                    contact_email: contact_email.to_owned(),
                    api_account,
                },
            ),
        }
    }

    /// Private key for this account, as PEM text.
    pub fn acme_private_key_pem(&self) -> (r: String)
        ensures
            r@ == self.inner_spec().acme_key.private_key_pem@,
    {
        self.inner.acme_key.to_pem()
    }

    /// Contact email for this account.
    pub fn contact_email(&self) -> (r: &str)
        ensures
            r@ == self.inner_spec().contact_email@,
    {
        self.inner.contact_email.as_str()
    }

    /// An already issued and downloaded certificate, read from local
    /// persistence: the private key and the certificate chain stored under
    /// this account's email and `primary_name`. Both must be present and be
    /// text, or the answer is `Ok(None)`; a failed read is an error.
    pub fn certificate(&self, primary_name: &str) -> (r: Result<Option<Certificate>, Error>)
        ensures
            exists|k: Result<Option<Vec<u8>>, Error>, c: Result<Option<Vec<u8>>, Error>|
                #[trigger] lookup_outcome(k, c, r),
    {
        let realm = self.inner.contact_email.as_str();
        let persist = self.inner.directory.persist();
        let pk_key = PersistKey::new(realm, PersistKind::PrivateKey, primary_name);
        let private_key = persist.get(&pk_key);
        let crt_key = PersistKey::new(realm, PersistKind::Certificate, primary_name);
        let certificate = persist.get(&crt_key);
        certificate_from_reads(private_key, certificate)
    }

    /// The order-creation payload for `primary_name` and `alt_names`.
    pub fn order_payload(&self, primary_name: &str, alt_names: &[&str]) -> (r: ApiOrder)
        requires
            alt_names@.len() < usize::MAX,
        ensures
            dns_identifiers(r.identifiers@, identifiers_for(primary_name@, alt_names@)),
            r.status is None,
            r.expires is None,
            r.not_before is None,
            r.not_after is None,
            r.authorizations is None,
            r.certificate is None,
    {
        ApiOrder {
            status: None,
            expires: None,
            identifiers: order_identifiers(primary_name, alt_names),
            not_before: None,
            not_after: None,
            authorizations: None,
            finalize: String::new(),
            certificate: None,
        }
    }

    /// Starts the signed call that creates an order: it targets the
    /// provider's order-creation endpoint under this account's key
    /// identifier. An account key that the provider has not registered
    /// cannot sign, and gives `Error::Sign`.
    pub fn new_order_call(&self) -> (r: Result<SignedCall, Error>)
        ensures
            match self.inner_spec().acme_key.key_id {
                Some(kid) => r matches Ok(call) && call@ == initial(
                    kid@,
                    self.inner_spec().directory.endpoints().new_order@,
                ),
                None => r matches Err(Error::Sign(_)),
            },
    {
        match &self.inner.acme_key.key_id {
            Some(kid) => {
                let url = self.inner.directory.api_directory().new_order.clone();
                Ok(SignedCall::new(kid.clone(), url))
            },
            None => Err(Error::Sign("account key has no key id".to_owned())),
        }
    }

    /// The order that the provider created at `url` with state `api_order`,
    /// bound to this account.
    pub fn order_created(&self, url: String, api_order: ApiOrder) -> (r: NewOrder<P>)
        ensures
            r.order.account_spec() == self.inner_spec(),
            r.order.location() == url@,
            r.order.state() == api_order,
    {
        NewOrder { order: Order { inner: share(&self.inner), api_order, url } }
    }

    /// The provider directory this account was created from.
    pub fn directory(&self) -> (r: &Directory<P>)
        ensures
            *r == self.inner_spec().directory,
    {
        &self.inner.directory
    }

    /// Access the underlying JSON object for debugging.
    pub fn api_account(&self) -> (r: &ApiAccount)
        ensures
            *r == self.inner_spec().api_account,
    {
        &self.inner.api_account
    }
}

} // verus!
