use vstd::prelude::*;
use crate::db3_address::DB3Address;
use crate::db3_signer::{scheme_signature, Db3MultiSchemeSigner};
use crate::errors::DB3Error;
use crate::key_derive::SignatureScheme;
use crate::session_manager::{QuerySessionInfo, SessionManager};
use crate::wire::{
    address_text, address_to_text, batch_get_key_bytes, encode_batch_get_key, encode_session_info,
    session_info_bytes,
};

verus! {

/// A protocol message authenticated by a signature: the payload is the
/// canonical encoded form of the message, the signature is the owned
/// signer's signature over exactly those bytes.
pub struct SignedEnvelope {
    pub payload: Vec<u8>,
    pub signature: Vec<u8>,
}

/// An unauthenticated bill-range query.
#[derive(Clone, Copy, Debug, PartialEq, Eq, Structural)]
pub struct QueryBillRequest {
    pub height: u64,
    pub start_id: u64,
    pub end_id: u64,
}

/// An unauthenticated account lookup; `addr` is the canonical address text.
pub struct GetAccountRequest {
    pub addr: Vec<u8>,
}

/// An unauthenticated session-info lookup; `addr` is the canonical address
/// text.
pub struct GetSessionInfoRequest {
    pub addr: Vec<u8>,
}

/// The session number carried inside a batch-get descriptor.
pub const BATCH_GET_SESSION: i32 = 1;

/// The client-held core of the query client: it owns its signer and its
/// session exclusively, gates every metered call on the session before the
/// call leaves the process, and counts a served query only after the remote
/// call has succeeded. The remote transport itself stays outside: callers
/// dispatch the prepared requests and feed the responses back in.
pub struct StoreSDK {
    signer: Db3MultiSchemeSigner,
    session: SessionManager,
}

impl StoreSDK {
    /// The owned signer.
    pub closed spec fn spec_signer(self) -> Db3MultiSchemeSigner {
        self.signer
    }

    /// The owned session.
    pub closed spec fn spec_session(self) -> SessionManager {
        self.session
    }

    /// Whether the owned session currently admits metered queries.
    pub open spec fn spec_running(self) -> bool {
        self.spec_session().spec_session_running()
    }

    /// A client with a not-yet-authorized session: id zero, zero count.
    pub fn new(signer: Db3MultiSchemeSigner) -> (s: Self)
        ensures
            s.spec_signer() == signer,
            s.spec_session().id() == 0,
            s.spec_session().count() == 0,
    {
        StoreSDK { signer, session: SessionManager::new() }
    }

    /// Pure read of the local session gate.
    pub fn check_session_running(&self) -> (r: bool)
        ensures
            r == self.spec_running(),
    {
        self.session.check_session_running()
    }

    /// The consumed-query counter of the owned session.
    pub fn query_count(&self) -> (r: u64)
        ensures
            r == self.spec_session().count(),
    {
        self.session.get_session_info().query_count
    }

    /// The id of the owned session; zero while unauthorized.
    pub fn session_id(&self) -> (r: i32)
        ensures
            r == self.spec_session().id(),
    {
        self.session.get_session_info().id
    }

    /// Serializes the current session snapshot and signs the serialized
    /// bytes: the signed restart request to dispatch. The held session is
    /// not touched; on a successful response the caller completes the
    /// restart with `finish_restart_session`, and on failure the existing
    /// session stands untouched.
    pub fn begin_restart_session(&self) -> (r: Result<SignedEnvelope, DB3Error>)
        ensures
            match r {
                Ok(env) => env.payload@ == session_info_bytes(
                    self.spec_session().id(),
                    self.spec_session().count(),
                ) && env.signature@ == scheme_signature(
                    self.spec_signer().spec_scheme(),
                    self.spec_signer().spec_material(),
                    env.payload@,
                ),
                Err(e) => e == DB3Error::SigningError && self.spec_signer().spec_scheme()
                    == SignatureScheme::Secp256k1,
            },
            self.spec_signer().spec_scheme() == SignatureScheme::ED25519 ==> r is Ok,
    {
        let info: QuerySessionInfo = self.session.get_session_info();
        let payload: Vec<u8> = encode_session_info(&info);
        match self.signer.sign(payload.as_slice()) {
            Ok(signature) => Ok(SignedEnvelope { payload, signature }),
            Err(e) => Err(e),
        }
    }

    /// Completes a successful restart: replaces the whole held session with
    /// a brand-new one built from the server-assigned id — the old value is
    /// discarded, never merged — and returns the snapshot of the replaced
    /// session for the caller's audit trail.
    pub fn finish_restart_session(&mut self, session: i32) -> (old_info: QuerySessionInfo)
        ensures
            final(self).spec_session().id() == session,
            final(self).spec_session().count() == 0,
            final(self).spec_signer() == old(self).spec_signer(),
            old_info.id == old(self).spec_session().id(),
            old_info.query_count == old(self).spec_session().count(),
    {
        let old_info: QuerySessionInfo = self.session.get_session_info();
        self.session = SessionManager::create_session(session);
        old_info
    }

    /// Gates, serializes and signs a batch key lookup. A blocked session
    /// fails immediately with `SessionNotRunning`, before anything could
    /// reach the network; otherwise the canonical batch-get descriptor over
    /// the namespace, the keys in order, and the batch session number is
    /// signed and returned for dispatch.
    pub fn begin_batch_get(&self, ns: &[u8], keys: &Vec<Vec<u8>>) -> (r: Result<
        SignedEnvelope,
        DB3Error,
    >)
        ensures
            match r {
                Ok(env) => self.spec_running() && env.payload@ == batch_get_key_bytes(
                    ns@,
                    keys.deep_view(),
                    BATCH_GET_SESSION,
                ) && env.signature@ == scheme_signature(
                    self.spec_signer().spec_scheme(),
                    self.spec_signer().spec_material(),
                    env.payload@,
                ),
                Err(e) => (e == DB3Error::SessionNotRunning && !self.spec_running()) || (e
                    == DB3Error::SigningError && self.spec_running()
                    && self.spec_signer().spec_scheme() == SignatureScheme::Secp256k1),
            },
            self.spec_signer().spec_scheme() == SignatureScheme::ED25519 ==> (r is Ok
                <==> self.spec_running()),
    {
        if !self.session.check_session_running() {
            return Err(DB3Error::SessionNotRunning);
        }
        let payload: Vec<u8> = encode_batch_get_key(ns, keys, BATCH_GET_SESSION);
        match self.signer.sign(payload.as_slice()) {
            Ok(signature) => Ok(SignedEnvelope { payload, signature }),
            Err(e) => Err(e),
        }
    }

    /// Gates a bill-range query. A blocked session fails immediately with
    /// `SessionNotRunning`; otherwise the request to dispatch is returned.
    /// Bill queries are metered but not signed.
    pub fn begin_get_bills_by_block(&self, height: u64, start: u64, end: u64) -> (r: Result<
        QueryBillRequest,
        DB3Error,
    >)
        ensures
            match r {
                Ok(q) => self.spec_running() && q == (QueryBillRequest {
                    height,
                    start_id: start,
                    end_id: end,
                }),
                Err(e) => e == DB3Error::SessionNotRunning && !self.spec_running(),
            },
    {
        if !self.session.check_session_running() {
            return Err(DB3Error::SessionNotRunning);
        }
        Ok(QueryBillRequest { height, start_id: start, end_id: end })
    }

    /// Records one served metered query. Called exactly once per successful
    /// metered remote call, after the response arrives — never before
    /// dispatch, and never on failure, so a transient remote failure is not
    /// over-counted. A batch lookup counts as one query regardless of its
    /// size.
    pub fn finish_metered_query(&mut self)
        requires
            old(self).spec_running(),
        ensures
            final(self).spec_session().id() == old(self).spec_session().id(),
            final(self).spec_session().count() == old(self).spec_session().count() + 1,
            final(self).spec_signer() == old(self).spec_signer(),
    {
        self.session.increase_query(1);
    }

    /// Builds an account lookup: unauthenticated and ungated, since it
    /// consumes no session quota.
    pub fn begin_get_account(&self, addr: &DB3Address) -> (r: GetAccountRequest)
        ensures
            r.addr@ == address_text(addr@),
    {
        GetAccountRequest { addr: address_to_text(addr) }
    }

    /// Builds a session-info lookup: unauthenticated and ungated, since it
    /// consumes no session quota.
    pub fn begin_get_session_info(&self, addr: &DB3Address) -> (r: GetSessionInfoRequest)
        ensures
            r.addr@ == address_text(addr@),
    {
        GetSessionInfoRequest { addr: address_to_text(addr) }
    }
}

/// Relies on `std::time::SystemTime::now` and
/// `SystemTime::duration_since(UNIX_EPOCH)`: whole seconds since the Unix
/// epoch when the clock reads at or after it, `None` otherwise. The result
/// depends on the wall clock, so nothing more is promised of it.
#[verifier::external_body]
fn unix_time_seconds() -> Option<u64> {
    match std::time::SystemTime::now().duration_since(std::time::UNIX_EPOCH) {
        Ok(n) => Some(n.as_secs()),
        Err(_) => None,
    }
}

/// Seconds since the Unix epoch by the system clock, or zero when the clock
/// reads before the epoch; used by callers as a coarse nonce.
pub fn current_seconds() -> u64 {
    match unix_time_seconds() {
        Some(n) => n,
        None => 0,
    }
}

} // verus!
