use vstd::prelude::*;

use crate::api::{is_bad_nonce_type, ApiProblem};
use crate::error::Error;

verus! {

/// Number of attempts a signed call makes before a nonce rejection is final.
pub const MAX_ATTEMPTS: u32 = 3;

/// Where a signed call stands.
#[derive(Debug, Clone, Copy, PartialEq, Eq, Structural)]
pub enum Phase {
    /// A fresh nonce is needed to sign the next attempt.
    NeedNonce,
    /// An attempt has been signed and sent; its reply is awaited.
    Sent,
    /// The call is over.
    Done,
}

/// Protected header of the signed envelope of one attempt.
#[derive(Debug, Clone, PartialEq, Eq)]
pub struct ProtectedHeader {
    pub alg: String,
    pub kid: String,
    pub nonce: String,
    pub url: String,
}

/// What the provider answered to one attempt.
#[derive(Debug, Clone, PartialEq, Eq)]
pub enum Reply {
    /// A success status, with the `location` header if there was one.
    Accepted { location: Option<String> },
    /// An error status with its problem document.
    Rejected(ApiProblem),
    /// The request did not complete.
    Failed(String),
}

/// What the caller does next.
#[derive(Debug, Clone, PartialEq, Eq)]
pub enum Action {
    /// Obtain a fresh nonce and sign a new attempt.
    FetchNonce,
    /// The resource was created at this location.
    Created(String),
    /// The call failed for good.
    Fail(Error),
}

/// One authenticated, state-changing call to the provider: it signs each
/// attempt with a fresh nonce and retries a nonce rejection a bounded number
/// of times.
pub struct SignedCall {
    kid: String,
    url: String,
    attempts: u32,
    phase: Phase,
    nonces: Ghost<Seq<Seq<char>>>,
}

/// Abstract state of a signed call.
pub struct CallView {
    pub kid: Seq<char>,
    pub url: Seq<char>,
    pub attempts: nat,
    pub phase: Phase,
    /// The nonces used so far, one per attempt, in order.
    pub nonces: Seq<Seq<char>>,
}

impl View for SignedCall {
    type V = CallView;

    closed spec fn view(&self) -> CallView {
        CallView {
            kid: self.kid@,
            url: self.url@,
            attempts: self.attempts as nat,
            phase: self.phase,
            nonces: self.nonces@,
        }
    }
}

/// State of a fresh call.
pub open spec fn initial(kid: Seq<char>, url: Seq<char>) -> CallView {
    CallView { kid, url, attempts: 0, phase: Phase::NeedNonce, nonces: seq![] }
}

/// A reachable state: one nonce per attempt, never more than the bound, and
/// another attempt asked for only while the bound allows it.
pub open spec fn call_wf(v: CallView) -> bool {
    &&& v.attempts <= MAX_ATTEMPTS
    &&& v.nonces.len() == v.attempts
    &&& v.phase == Phase::NeedNonce ==> v.attempts < MAX_ATTEMPTS
    &&& v.phase == Phase::Sent ==> v.attempts > 0
}

/// State after signing an attempt with `nonce`.
pub open spec fn after_nonce(v: CallView, nonce: Seq<char>) -> CallView {
    CallView { attempts: v.attempts + 1, phase: Phase::Sent, nonces: v.nonces.push(nonce), ..v }
}

/// The decision on a reply to attempt number `attempts`.
pub open spec fn reply_action(attempts: nat, reply: Reply) -> Action {
    match reply {
        Reply::Accepted { location: Some(l) } => Action::Created(l),
        Reply::Accepted { location: None } => Action::Fail(
            Error::MissingHeader("location"),
        ),
        Reply::Rejected(p) => if is_bad_nonce_type(p._type@) && attempts < MAX_ATTEMPTS {
            Action::FetchNonce
        } else {
            Action::Fail(Error::ApiProblem(p))
        },
        Reply::Failed(m) => Action::Fail(Error::Call(m)),
    }
}

/// State after a reply to the current attempt.
pub open spec fn after_reply(v: CallView, reply: Reply) -> CallView {
    CallView {
        phase: if reply_action(v.attempts, reply) is FetchNonce {
            Phase::NeedNonce
        } else {
            Phase::Done
        },
        ..v
    }
}

impl SignedCall {
    /// A call to `url` on behalf of the account with key identifier `kid`.
    pub fn new(kid: String, url: String) -> (r: SignedCall)
        ensures
            r@ == initial(kid@, url@),
            call_wf(r@),
    {
        SignedCall { kid, url, attempts: 0, phase: Phase::NeedNonce, nonces: Ghost(Seq::empty()) }
    }

    pub fn phase(&self) -> (r: Phase)
        ensures
            r == self@.phase,
    {
        self.phase
    }

    pub fn attempts(&self) -> (r: u32)
        ensures
            r == self@.attempts,
    {
        self.attempts
    }

    /// Starts the next attempt with a fresh `nonce`: the protected header to
    /// sign carries the algorithm, the account's key identifier, the nonce
    /// and the target URL.
    pub fn sign_with(&mut self, nonce: String) -> (r: ProtectedHeader)
        requires
            call_wf(old(self)@),
            old(self)@.phase == Phase::NeedNonce,
        ensures
            final(self)@ == after_nonce(old(self)@, nonce@),
            call_wf(final(self)@),
            r.alg@ == "ES256"@,
            r.kid@ == old(self)@.kid,
            r.nonce@ == nonce@,
            r.url@ == old(self)@.url,
    {
        self.attempts = self.attempts + 1;
        self.phase = Phase::Sent;
        self.nonces = Ghost(self.nonces@.push(nonce@));
        ProtectedHeader {
            alg: "ES256".to_owned(),
            kid: self.kid.clone(),
            nonce,
            url: self.url.clone(),
        }
    }

    /// Decides on the reply to the current attempt: a nonce rejection while
    /// attempts remain asks for a new nonce; a success needs a `location`;
    /// every other answer ends the call with its error.
    pub fn on_reply(&mut self, reply: Reply) -> (r: Action)
        requires
            call_wf(old(self)@),
            old(self)@.phase == Phase::Sent,
        ensures
            r == reply_action(old(self)@.attempts, reply),
            final(self)@ == after_reply(old(self)@, reply),
            call_wf(final(self)@),
    {
        let ghost reply0 = reply;
        let action = match reply {
            Reply::Accepted { location: Some(l) } => Action::Created(l),
            Reply::Accepted { location: None } => Action::Fail(
                Error::MissingHeader("location"),
            ),
            Reply::Rejected(p) => {
                if p.is_bad_nonce() && self.attempts < MAX_ATTEMPTS {
                    Action::FetchNonce
                } else {
                    Action::Fail(Error::ApiProblem(p))
                }
            },
            Reply::Failed(m) => Action::Fail(Error::Call(m)),
        };
        self.phase = match action {
            Action::FetchNonce => Phase::NeedNonce,
            _ => Phase::Done,
        };
        action
    }
}

/// A nonce rejection of the first attempt, then a success that names a
/// location, creates the resource: the call asks for a second nonce, signs
/// the two attempts with the two nonces in turn, and ends after two attempts.
pub proof fn lemma_retry_after_stale_nonce(
    kid: Seq<char>,
    url: Seq<char>,
    first: Seq<char>,
    second: Seq<char>,
    problem: ApiProblem,
    location: String,
)
    requires
        is_bad_nonce_type(problem._type@),
    ensures
        ({
            let stale = Reply::Rejected(problem);
            let ok = Reply::Accepted { location: Some(location) };
            let v1 = after_nonce(initial(kid, url), first);
            let v2 = after_nonce(after_reply(v1, stale), second);
            &&& reply_action(v1.attempts, stale) == Action::FetchNonce
            &&& reply_action(v2.attempts, ok) == Action::Created(location)
            &&& after_reply(v2, ok).phase == Phase::Done
            &&& v2.attempts == 2
            &&& v2.nonces == seq![first, second]
        }),
{
    let v1 = after_nonce(initial(kid, url), first);
    assert(v1.nonces =~= seq![first]);
    let v2 = after_nonce(after_reply(v1, Reply::Rejected(problem)), second);
    assert(v2.nonces =~= seq![first, second]);
}

/// Nonce rejections are retried only while attempts remain: below the bound
/// a rejection asks for a fresh nonce, at the bound the rejection itself is
/// the error, and no reachable state exceeds the bound.
pub proof fn lemma_stale_nonce_retry_bounded(v: CallView, problem: ApiProblem)
    requires
        call_wf(v),
        v.phase == Phase::Sent,
        is_bad_nonce_type(problem._type@),
    ensures
        v.attempts <= MAX_ATTEMPTS,
        v.attempts < MAX_ATTEMPTS ==> reply_action(v.attempts, Reply::Rejected(problem))
            == Action::FetchNonce,
        v.attempts == MAX_ATTEMPTS ==> reply_action(v.attempts, Reply::Rejected(problem))
            == Action::Fail(Error::ApiProblem(problem)),
        call_wf(after_reply(v, Reply::Rejected(problem))),
{
}

/// A call whose every attempt meets a nonce rejection gives up after
/// `MAX_ATTEMPTS` attempts, each with its own nonce, and reports the last
/// rejection.
pub proof fn lemma_stale_nonce_exhausts(
    kid: Seq<char>,
    url: Seq<char>,
    nonces: Seq<Seq<char>>,
    problems: Seq<ApiProblem>,
)
    requires
        nonces.len() == MAX_ATTEMPTS,
        problems.len() == MAX_ATTEMPTS,
        forall|i: int| 0 <= i < problems.len() ==> is_bad_nonce_type(#[trigger] problems[i]._type@),
    ensures
        ({
            let v1 = after_nonce(initial(kid, url), nonces[0]);
            let v2 = after_nonce(after_reply(v1, Reply::Rejected(problems[0])), nonces[1]);
            let v3 = after_nonce(after_reply(v2, Reply::Rejected(problems[1])), nonces[2]);
            &&& reply_action(v1.attempts, Reply::Rejected(problems[0])) == Action::FetchNonce
            &&& reply_action(v2.attempts, Reply::Rejected(problems[1])) == Action::FetchNonce
            &&& reply_action(v3.attempts, Reply::Rejected(problems[2])) == Action::Fail(
                Error::ApiProblem(problems[2]),
            )
            &&& after_reply(v3, Reply::Rejected(problems[2])).phase == Phase::Done
            &&& v3.nonces == nonces
        }),
{
    assert(is_bad_nonce_type(problems[0]._type@));
    assert(is_bad_nonce_type(problems[1]._type@));
    assert(is_bad_nonce_type(problems[2]._type@));
    let v1 = after_nonce(initial(kid, url), nonces[0]);
    let v2 = after_nonce(after_reply(v1, Reply::Rejected(problems[0])), nonces[1]);
    let v3 = after_nonce(after_reply(v2, Reply::Rejected(problems[1])), nonces[2]);
    assert(v3.nonces =~= nonces);
}

} // verus!
