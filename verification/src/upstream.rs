//! Upstream client: the digest authentication handshake.
//!
//! Fetching the upstream URL is a two-step protocol: the first GET may be
//! answered with a 401 carrying a digest challenge, in which case the
//! request is retransmitted once with an authorization header. That single
//! retry is a handshake requirement, not a resilience mechanism: no state
//! reachable from a fresh flow ever asks for a second one. The transport
//! itself lives outside the library; this module is the state machine the
//! retry-exactly-once contract is proved on.

use vstd::prelude::*;

verus! {

/// HTTP status of a response demanding authentication.
pub const STATUS_UNAUTHORIZED: u16 = 401;

/// Why an upstream fetch failed.
#[derive(PartialEq, Eq, Structural, Clone, Copy, Debug)]
pub enum FetchError {
    /// The connection could not be established, or the transport errored
    /// before a response was received: DNS, TCP, TLS, or a failure in the
    /// middle of the digest handshake.
    Network,
}

/// Where the digest handshake stands.
#[derive(PartialEq, Eq, Structural, Clone, Copy, Debug)]
pub enum AuthState {
    /// The first, unauthenticated request has been sent; no response yet.
    Unauthenticated,
    /// The upstream answered 401 with a digest challenge; the one
    /// authenticated retry has been sent.
    Challenged,
    /// The handshake is over: whatever response is in hand is final.
    Authenticated,
}

/// One step of the handshake: given where it stands and the response just
/// received (its status, and whether it carries a digest challenge),
/// where it stands next and whether one authenticated retry goes out.
pub open spec fn auth_step(state: AuthState, status: u16, digest_challenge: bool) -> (
    AuthState,
    bool,
) {
    match state {
        AuthState::Unauthenticated => {
            if status == STATUS_UNAUTHORIZED && digest_challenge {
                (AuthState::Challenged, true)
            } else {
                (AuthState::Authenticated, false)
            }
        },
        AuthState::Challenged => (AuthState::Authenticated, false),
        AuthState::Authenticated => (AuthState::Authenticated, false),
    }
}

/// The digest handshake of one upstream fetch, counting the requests that
/// have gone out on the wire.
pub struct AuthFlow {
    state: AuthState,
    attempts: u64,
}

impl AuthFlow {
    /// Where the handshake stands.
    pub closed spec fn state(self) -> AuthState {
        self.state
    }

    /// How many upstream-bound requests have been sent so far.
    pub closed spec fn attempts(self) -> u64 {
        self.attempts
    }

    /// The handshake never sends more than two requests: the initial one
    /// and at most one authenticated retry.
    pub open spec fn wf(self) -> bool {
        &&& 1 <= self.attempts() <= 2
        &&& self.state() == AuthState::Unauthenticated ==> self.attempts() == 1
    }

    /// A fresh flow: the initial, unauthenticated GET has been sent.
    pub fn new() -> (f: AuthFlow)
        ensures
            f.wf(),
            f.state() == AuthState::Unauthenticated,
            f.attempts() == 1,
    {
        AuthFlow { state: AuthState::Unauthenticated, attempts: 1 }
    }

    /// Feeds one upstream response into the handshake. Returns whether the
    /// caller must retransmit the request once, now with the computed
    /// digest authorization; a retry is asked for exactly when the first
    /// response is a 401 carrying a digest challenge.
    pub fn on_response(&mut self, status: u16, digest_challenge: bool) -> (retry: bool)
        requires
            old(self).wf(),
        ensures
            final(self).wf(),
            (final(self).state(), retry) == auth_step(old(self).state(), status, digest_challenge),
            retry ==> final(self).attempts() == old(self).attempts() + 1,
            !retry ==> final(self).attempts() == old(self).attempts(),
    {
        match self.state {
            AuthState::Unauthenticated => {
                if status == STATUS_UNAUTHORIZED && digest_challenge {
                    self.state = AuthState::Challenged;
                    self.attempts = self.attempts + 1;
                    true
                } else {
                    self.state = AuthState::Authenticated;
                    false
                }
            },
            AuthState::Challenged => {
                self.state = AuthState::Authenticated;
                false
            },
            AuthState::Authenticated => false,
        }
    }

    /// How many upstream-bound requests have been sent, observably.
    pub fn sent_attempts(&self) -> (n: u64)
        ensures
            n == self.attempts(),
    {
        self.attempts
    }

    /// Whether the handshake has settled on a final response.
    pub fn settled(&self) -> (b: bool)
        ensures
            b == (self.state() == AuthState::Authenticated),
    {
        match self.state {
            AuthState::Authenticated => true,
            _ => false,
        }
    }
}

/// Against an upstream that demands digest authentication, a fetch costs
/// exactly two upstream-bound requests: the challenged first try asks for
/// one retry, and the response to that retry — success or not — asks for
/// none, so the challenge/response handshake retries exactly once.
pub proof fn lemma_digest_retry_exactly_once(
    status1: u16,
    challenge1: bool,
    status2: u16,
    challenge2: bool,
)
    requires
        status1 == STATUS_UNAUTHORIZED,
        challenge1,
    ensures
        ({
            let (s1, retry1) = auth_step(AuthState::Unauthenticated, status1, challenge1);
            let (s2, retry2) = auth_step(s1, status2, challenge2);
            retry1 && !retry2 && s2 == AuthState::Authenticated
        }),
{
}

/// No state of the handshake ever asks for a retry twice: once a retry has
/// been asked for, every later step refuses another.
pub proof fn lemma_no_second_retry(state: AuthState, status1: u16, challenge1: bool, status2: u16, challenge2: bool)
    requires
        auth_step(state, status1, challenge1).1,
    ensures
        !auth_step(auth_step(state, status1, challenge1).0, status2, challenge2).1,
{
}

} // verus!
