use vstd::prelude::*;

verus! {

/// Quota of metered queries a single authorized session may serve before it
/// is exhausted and must be replaced.
pub const DEFAULT_SESSION_QUERY_LIMIT: u64 = 1000;

/// A serializable snapshot of the client-local session state. It is the
/// payload that gets signed and sent when requesting a session restart.
#[derive(Clone, Copy, Debug, PartialEq, Eq, Structural)]
pub struct QuerySessionInfo {
    /// Server-assigned session identifier; `0` means not yet authorized.
    pub id: i32,
    /// Number of metered queries served by this session so far.
    pub query_count: u64,
}

/// The client-local view of a query session: an identifier, a consumed-query
/// counter, and the running/blocked state derived from them. A session is
/// replaced wholesale on restart, never patched in place.
pub struct SessionManager {
    session_id: i32,
    query_count: u64,
}

impl SessionManager {
    /// The server-assigned identifier; `0` while unauthorized.
    pub closed spec fn id(self) -> i32 {
        self.session_id
    }

    /// The consumed-query counter.
    pub closed spec fn count(self) -> u64 {
        self.query_count
    }

    /// A session admits metered queries exactly when it carries a non-zero
    /// server-assigned id and its counter is still under the quota.
    pub open spec fn spec_session_running(self) -> bool {
        self.id() != 0 && self.count() < DEFAULT_SESSION_QUERY_LIMIT
    }

    /// A blocked session: no authorization yet, nothing consumed.
    pub fn new() -> (s: Self)
        ensures
            s.id() == 0,
            s.count() == 0,
    {
        SessionManager { session_id: 0, query_count: 0 }
    }

    /// A brand-new session built from a server-assigned id, with a zero
    /// counter. The caller replaces its whole session value with the result;
    /// the old value is discarded, never merged.
    pub fn create_session(session_id: i32) -> (s: Self)
        ensures
            s.id() == session_id,
            s.count() == 0,
    {
        SessionManager { session_id, query_count: 0 }
    }

    /// Pure read of the running state: whether a metered query may be
    /// attempted now.
    pub fn check_session_running(&self) -> (r: bool)
        ensures
            r == self.spec_session_running(),
    {
        self.session_id != 0 && self.query_count < DEFAULT_SESSION_QUERY_LIMIT
    }

    /// Records `n` served queries. Called exactly once per successfully
    /// dispatched metered call, after the call succeeds — never
    /// speculatively, and never on failure.
    pub fn increase_query(&mut self, n: u64)
        requires
            old(self).count() + n <= u64::MAX,
        ensures
            final(self).id() == old(self).id(),
            final(self).count() == old(self).count() + n,
    {
        self.query_count = self.query_count + n;
    }

    /// Snapshot of the current session state.
    pub fn get_session_info(&self) -> (info: QuerySessionInfo)
        ensures
            info.id == self.id(),
            info.query_count == self.count(),
    {
        QuerySessionInfo { id: self.session_id, query_count: self.query_count }
    }
}

/// The session gate over a session's whole life: a freshly constructed
/// session reports not-running; a session built from a non-zero
/// server-assigned id reports running while its counter is under quota; and
/// any session whose counter has reached the quota reports not-running
/// again, whatever its id.
pub proof fn lemma_session_gate(fresh: SessionManager, active: SessionManager, spent: SessionManager)
    requires
        fresh.id() == 0,
        active.id() != 0,
        active.count() < DEFAULT_SESSION_QUERY_LIMIT,
        spent.count() >= DEFAULT_SESSION_QUERY_LIMIT,
    ensures
        !fresh.spec_session_running(),
        active.spec_session_running(),
        !spent.spec_session_running(),
{
}

} // verus!
