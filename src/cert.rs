use vstd::prelude::*;
use vstd::utf8::*;

use crate::error::Error;

verus! {

/// A previously issued certificate: the private key and the certificate
/// chain, both as PEM text.
#[derive(Debug, Clone, PartialEq, Eq)]
pub struct Certificate {
    private_key: String,
    certificate: String,
}

impl Certificate {
    pub closed spec fn key_text(&self) -> Seq<char> {
        self.private_key@
    }

    pub closed spec fn chain_text(&self) -> Seq<char> {
        self.certificate@
    }

    pub fn new(private_key: String, certificate: String) -> (r: Certificate)
        ensures
            r.key_text() == private_key@,
            r.chain_text() == certificate@,
    {
        Certificate { private_key, certificate }
    }

    /// The private key as PEM text.
    pub fn private_key(&self) -> (r: &str)
        ensures
            r@ == self.key_text(),
    {
        self.private_key.as_str()
    }

    /// The certificate chain as PEM text.
    pub fn certificate(&self) -> (r: &str)
        ensures
            r@ == self.chain_text(),
    {
        self.certificate.as_str()
    }
}

/// The text held by a persisted entry: present and valid UTF-8.
pub open spec fn stored_text(entry: Option<Vec<u8>>) -> Option<Seq<char>> {
    match entry {
        Some(b) => if valid_utf8(b@) {
            Some(decode_utf8(b@))
        } else {
            None
        },
        None => None,
    }
}

/// How the lookup answers, given the outcome of the private-key read and of
/// the certificate read: the first failed read is passed on as it is;
/// otherwise a certificate exactly when both entries are present and text.
pub open spec fn lookup_outcome(
    private_key: Result<Option<Vec<u8>>, Error>,
    certificate: Result<Option<Vec<u8>>, Error>,
    r: Result<Option<Certificate>, Error>,
) -> bool {
    match (private_key, certificate) {
        (Err(e), _) => r == Err::<Option<Certificate>, Error>(e),
        (Ok(_), Err(e)) => r == Err::<Option<Certificate>, Error>(e),
        (Ok(pk), Ok(crt)) => {
            let k = stored_text(pk);
            let c = stored_text(crt);
            &&& r is Ok
            &&& (r->Ok_0 is Some <==> k is Some && c is Some)
            &&& r->Ok_0 matches Some(cert) ==> cert.key_text() == k->Some_0 && cert.chain_text()
                == c->Some_0
        },
    }
}

/// Relies on `String::from_utf8`: it succeeds exactly on valid UTF-8 and then
/// holds the decoded characters.
#[verifier::external_body]
fn text_of(bytes: Vec<u8>) -> (r: Option<String>)
    ensures
        r is Some <==> valid_utf8(bytes@),
        r matches Some(s) ==> s@ == decode_utf8(bytes@),
{
    String::from_utf8(bytes).ok()
}

/// Builds the certificate from the results of the two persistence reads
/// (private key first, then certificate chain). A failed read is passed on
/// as it is; an absent or non-text entry gives `Ok(None)`.
pub fn certificate_from_reads(
    private_key: Result<Option<Vec<u8>>, Error>,
    certificate: Result<Option<Vec<u8>>, Error>,
) -> (r: Result<Option<Certificate>, Error>)
    ensures
        lookup_outcome(private_key, certificate, r),
{
    let pk = match private_key {
        Err(e) => return Err(e),
        Ok(v) => v,
    };
    let crt = match certificate {
        Err(e) => return Err(e),
        Ok(v) => v,
    };
    let k = match pk {
        Some(b) => text_of(b),
        None => None,
    };
    let c = match crt {
        Some(b) => text_of(b),
        None => None,
    };
    match (k, c) {
        (Some(k), Some(c)) => Ok(Some(Certificate::new(k, c))),
        _ => Ok(None),
    }
}

} // verus!
