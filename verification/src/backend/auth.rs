//! Sign-in by emailed code or OAuth, and sessions limited per minute.
//! Codes, states and tokens come from a random source outside; times are
//! milliseconds of a clock outside.
use vstd::prelude::*;
use crate::backend::keyed::Keyed;
use crate::backend::rate_limit::{current_window, limit_of, Window, WINDOW_MS};
use crate::text::{chars_of, owned, slice_string, str_eq, to_ascii_uppercase, upper_seq};

verus! {

/// How long an OAuth state stays valid, in milliseconds.
pub const OAUTH_STATE_TTL_MS: u128 = 600_000;

/// A session handed to a client.
#[derive(Clone, Debug)]
pub struct AuthToken {
    pub token: String,
    pub email: String,
    pub expires_in_seconds: u64,
}

/// A request for a sign-in code.
#[derive(Clone, Debug)]
pub struct AuthStartRequest {
    pub email: String,
}

/// The answer to a sign-in request; in dev mode it carries the code.
#[derive(Clone, Debug)]
pub struct AuthStartResponse {
    pub status: String,
    pub dev_code: Option<String>,
}

/// A code sent back for an address.
#[derive(Clone, Debug)]
pub struct AuthVerifyRequest {
    pub email: String,
    pub code: String,
}

/// The session issued for an accepted code.
#[derive(Clone, Debug)]
pub struct AuthVerifyResponse {
    pub token: String,
    pub email: String,
    pub expires_in_seconds: u64,
}

/// Why a sign-in or an authorization was refused.
#[derive(Clone, Copy, Debug, PartialEq, Eq, Structural)]
pub enum AuthError {
    MissingToken,
    InvalidToken,
    RateLimited,
    InvalidCode,
    InvalidState,
}

impl AuthError {
    pub open spec fn message_spec(&self) -> Seq<char> {
        match self {
            AuthError::MissingToken => "auth token missing"@,
            AuthError::InvalidToken => "invalid or expired token"@,
            AuthError::RateLimited => "too many requests"@,
            AuthError::InvalidCode => "invalid or expired code"@,
            AuthError::InvalidState => "invalid oauth state"@,
        }
    }

    pub fn message(&self) -> (r: &'static str)
        ensures
            r@ == self.message_spec(),
    {
        match self {
            AuthError::MissingToken => "auth token missing",
            AuthError::InvalidToken => "invalid or expired token",
            AuthError::RateLimited => "too many requests",
            AuthError::InvalidCode => "invalid or expired code",
            AuthError::InvalidState => "invalid oauth state",
        }
    }
}

/// A code sent to an address, and when it expires.
#[derive(Clone, Debug)]
pub struct PendingCode {
    pub code: String,
    pub expires_at: u128,
}

/// A signed-in address, when its session expires, and its rate window.
#[derive(Clone, Debug)]
pub struct Session {
    pub email: String,
    pub expires_at: u128,
    pub window: Window,
}

pub struct AuthStore {
    pending: Keyed<PendingCode>,
    pending_oauth: Keyed<u128>,
    sessions: Keyed<Session>,
    code_ttl_ms: u128,
    session_ttl_secs: u64,
    rate_limit_per_min: u32,
    dev_mode: bool,
}

/// The code sent for a sign-in: the first six characters of a random token,
/// upper-cased.
pub open spec fn login_code(token: Seq<char>) -> Seq<char> {
    upper_seq(if token.len() <= 6 {
        token
    } else {
        token.take(6)
    })
}

impl AuthStore {
    pub closed spec fn wf(&self) -> bool {
        self.pending.wf() && self.pending_oauth.wf() && self.sessions.wf() && self.rate_limit_per_min >= 1
    }

    pub closed spec fn pending_codes(&self) -> Map<Seq<char>, PendingCode> {
        self.pending.map()
    }

    pub closed spec fn oauth_states(&self) -> Map<Seq<char>, u128> {
        self.pending_oauth.map()
    }

    pub closed spec fn session_map(&self) -> Map<Seq<char>, Session> {
        self.sessions.map()
    }

    pub closed spec fn code_ttl(&self) -> u128 {
        self.code_ttl_ms
    }

    pub closed spec fn session_ttl(&self) -> u64 {
        self.session_ttl_secs
    }

    pub closed spec fn limit(&self) -> u32 {
        self.rate_limit_per_min
    }

    pub closed spec fn dev(&self) -> bool {
        self.dev_mode
    }

    /// A store with nothing pending: codes live `code_ttl_min` minutes,
    /// sessions `session_ttl_hours` hours, and a session is let in
    /// `limit_of(rate_limit)` times a minute.
    pub fn new(code_ttl_min: u64, session_ttl_hours: u64, rate_limit: u64, dev_mode: bool) -> (r: Self)
        requires
            code_ttl_min * 60 <= u64::MAX,
            session_ttl_hours * 3600 <= u64::MAX,
        ensures
            r.wf(),
            r.pending_codes() == Map::<Seq<char>, PendingCode>::empty(),
            r.oauth_states() == Map::<Seq<char>, u128>::empty(),
            r.session_map() == Map::<Seq<char>, Session>::empty(),
            r.code_ttl() == code_ttl_min * 60 * 1000,
            r.session_ttl() == session_ttl_hours * 3600,
            r.limit() == limit_of(rate_limit),
            r.dev() == dev_mode,
    {
        #[verifier::truncate]
        let l = rate_limit as u32;
        AuthStore {
            pending: Keyed::new(),
            pending_oauth: Keyed::new(),
            sessions: Keyed::new(),
            code_ttl_ms: (code_ttl_min as u128) * 60 * 1000,
            session_ttl_secs: session_ttl_hours * 3600,
            rate_limit_per_min: if l >= 1 { l } else { 1 },
            dev_mode,
        }
    }

    pub fn dev_mode(&self) -> (r: bool)
        ensures
            r == self.dev(),
    {
        self.dev_mode
    }

    /// Starts a sign-in for `email` at `now_ms`: the code (from a random
    /// token) replaces any code pending for the address.
    pub fn start_login(&mut self, email: &str, random_token: &str, now_ms: u128) -> (r: String)
        requires
            old(self).wf(),
            now_ms + old(self).code_ttl() <= u128::MAX,
        ensures
            final(self).wf(),
            r@ == login_code(random_token@),
            updated_at(final(self).pending_codes(), old(self).pending_codes(), email@),
            final(self).pending_codes()[email@].code@ == r@,
            final(self).pending_codes()[email@].expires_at == now_ms + old(self).code_ttl(),
            final(self).oauth_states() == old(self).oauth_states(),
            final(self).session_map() == old(self).session_map(),
            same_settings(*final(self), *old(self)),
    {
        let v = chars_of(random_token);
        let first = if v.len() <= 6 {
            owned(random_token)
        } else {
            let f = slice_string(&v, 0, 6);
            assert(f@ =~= random_token@.take(6));
            f
        };
        let code = to_ascii_uppercase(first.as_str());
        let entry = PendingCode { code: owned(code.as_str()), expires_at: now_ms + self.code_ttl_ms };
        self.pending.insert(email, entry);
        code
    }

    /// Signs `email` in with `token` (from a random source) at `now_ms`.
    pub fn issue_session(&mut self, email: &str, token: &str, now_ms: u128) -> (r: Result<AuthToken, AuthError>)
        requires
            old(self).wf(),
            now_ms + old(self).session_ttl() * 1000 <= u128::MAX,
        ensures
            final(self).wf(),
            r matches Ok(t) && t.token@ == token@ && t.email@ == email@ && t.expires_in_seconds
                == old(self).session_ttl(),
            updated_at(final(self).session_map(), old(self).session_map(), token@),
            final(self).session_map()[token@].email@ == email@,
            final(self).session_map()[token@].expires_at == now_ms + old(self).session_ttl() * 1000,
            final(self).session_map()[token@].window == (Window { start_ms: now_ms, count: 0 }),
            final(self).pending_codes() == old(self).pending_codes(),
            final(self).oauth_states() == old(self).oauth_states(),
            same_settings(*final(self), *old(self)),
    {
        let expires_at = now_ms + (self.session_ttl_secs as u128) * 1000;
        self.sessions.insert(
            token,
            Session { email: owned(email), expires_at, window: Window { start_ms: now_ms, count: 0 } },
        );
        Ok(AuthToken { token: owned(token), email: owned(email), expires_in_seconds: self.session_ttl_secs })
    }

    /// Checks a code for `email` at `now_ms`; a code that matches and has not
    /// expired is used up and signs the address in with `token`.
    pub fn verify_code(&mut self, email: &str, code: &str, token: &str, now_ms: u128) -> (r: Result<
        AuthToken,
        AuthError,
    >)
        requires
            old(self).wf(),
            now_ms + old(self).session_ttl() * 1000 <= u128::MAX,
        ensures
            final(self).wf(),
            same_settings(*final(self), *old(self)),
            final(self).oauth_states() == old(self).oauth_states(),
            if code_accepted(old(self).pending_codes(), email@, code@, now_ms) {
                &&& r matches Ok(t) && t.token@ == token@ && t.email@ == email@
                &&& final(self).pending_codes() == old(self).pending_codes().remove(email@)
                &&& updated_at(final(self).session_map(), old(self).session_map(), token@)
                &&& final(self).session_map()[token@].email@ == email@
            } else {
                &&& r == Err::<AuthToken, AuthError>(AuthError::InvalidCode)
                &&& final(self).pending_codes() == old(self).pending_codes()
                &&& final(self).session_map() == old(self).session_map()
            },
    {
        let ok = match self.pending.get(email) {
            None => false,
            Some(entry) => !(entry.expires_at < now_ms) && str_eq(entry.code.as_str(), code),
        };
        if !ok {
            return Err(AuthError::InvalidCode);
        }
        self.pending.remove(email);
        self.issue_session(email, token, now_ms)
    }

    /// Opens an OAuth sign-in with `state` (from a random source) at `now_ms`.
    pub fn start_oauth_state(&mut self, state: &str, now_ms: u128) -> (r: String)
        requires
            old(self).wf(),
            now_ms + OAUTH_STATE_TTL_MS <= u128::MAX,
        ensures
            final(self).wf(),
            r@ == state@,
            final(self).oauth_states() == old(self).oauth_states().insert(state@, (now_ms + OAUTH_STATE_TTL_MS) as u128),
            final(self).pending_codes() == old(self).pending_codes(),
            final(self).session_map() == old(self).session_map(),
            same_settings(*final(self), *old(self)),
    {
        self.pending_oauth.insert(state, now_ms + OAUTH_STATE_TTL_MS);
        owned(state)
    }

    /// Uses up an OAuth state at `now_ms`: accepted when it is pending and
    /// has not expired; a pending state is dropped either way.
    pub fn consume_oauth_state(&mut self, state: &str, now_ms: u128) -> (r: Result<(), AuthError>)
        requires
            old(self).wf(),
        ensures
            final(self).wf(),
            final(self).oauth_states() == old(self).oauth_states().remove(state@),
            r is Ok <==> (old(self).oauth_states().contains_key(state@) && !(old(self).oauth_states()[state@]
                < now_ms)),
            r is Err ==> r == Err::<(), AuthError>(AuthError::InvalidState),
            final(self).pending_codes() == old(self).pending_codes(),
            final(self).session_map() == old(self).session_map(),
            same_settings(*final(self), *old(self)),
    {
        let expires_at = match self.pending_oauth.get(state) {
            None => {
                return Err(AuthError::InvalidState);
            },
            Some(e) => *e,
        };
        self.pending_oauth.remove(state);
        if expires_at < now_ms {
            return Err(AuthError::InvalidState);
        }
        Ok(())
    }

    /// Authorizes a request carrying `token` at `now_ms`: refused when the
    /// session is unknown or expired (an expired one is dropped), or when its
    /// window already let in the limit; else counted, with the session's
    /// address as the answer.
    pub fn authorize(&mut self, token: &str, now_ms: u128) -> (r: Result<String, AuthError>)
        requires
            old(self).wf(),
        ensures
            final(self).wf(),
            same_settings(*final(self), *old(self)),
            final(self).pending_codes() == old(self).pending_codes(),
            final(self).oauth_states() == old(self).oauth_states(),
            ({
                let m = old(self).session_map();
                if !m.contains_key(token@) {
                    r == Err::<String, AuthError>(AuthError::InvalidToken) && final(self).session_map() == m
                } else if m[token@].expires_at < now_ms {
                    r == Err::<String, AuthError>(AuthError::InvalidToken) && final(self).session_map()
                        == m.remove(token@)
                } else {
                    let w = current_window(Some(m[token@].window), now_ms);
                    &&& updated_at(final(self).session_map(), m, token@)
                    &&& final(self).session_map()[token@].email@ == m[token@].email@
                    &&& final(self).session_map()[token@].expires_at == m[token@].expires_at
                    &&& if w.count >= old(self).limit() {
                        r == Err::<String, AuthError>(AuthError::RateLimited) && final(self).session_map()[token@].window == w
                    } else {
                        r matches Ok(e) && e@ == m[token@].email@ && final(self).session_map()[token@].window == (Window {
                            start_ms: w.start_ms,
                            count: (w.count + 1) as u32,
                        })
                    }
                }
            }),
    {
        let (email, expires_at, w0) = match self.sessions.get(token) {
            None => {
                return Err(AuthError::InvalidToken);
            },
            Some(s) => (owned(s.email.as_str()), s.expires_at, s.window),
        };
        if expires_at < now_ms {
            self.sessions.remove(token);
            return Err(AuthError::InvalidToken);
        }
        let w = if now_ms >= w0.start_ms && now_ms - w0.start_ms >= WINDOW_MS {
            Window { start_ms: now_ms, count: 0 }
        } else {
            w0
        };
        if w.count >= self.rate_limit_per_min {
            self.sessions.insert(token, Session { email, expires_at, window: w });
            return Err(AuthError::RateLimited);
        }
        let answer = owned(email.as_str());
        self.sessions.insert(
            token,
            Session { email, expires_at, window: Window { start_ms: w.start_ms, count: w.count + 1 } },
        );
        Ok(answer)
    }
}

/// `new` holds `key` and agrees with `old` on every other key `old` holds.
pub open spec fn updated_at<V>(new: Map<Seq<char>, V>, old: Map<Seq<char>, V>, key: Seq<char>) -> bool {
    &&& new.dom() == old.dom().insert(key)
    &&& forall|k: Seq<char>| k != key && old.contains_key(k) ==> #[trigger] new[k] == old[k]
}

/// Two stores are set up alike.
pub open spec fn same_settings(a: AuthStore, b: AuthStore) -> bool {
    a.code_ttl() == b.code_ttl() && a.session_ttl() == b.session_ttl() && a.limit() == b.limit() && a.dev()
        == b.dev()
}

/// A code is accepted for an address when it is the one pending for it and
/// has not expired.
pub open spec fn code_accepted(pending: Map<Seq<char>, PendingCode>, email: Seq<char>, code: Seq<char>, now: u128) -> bool {
    pending.contains_key(email) && !(pending[email].expires_at < now) && pending[email].code@ == code
}

/// A code signs an address in once: after it was accepted, nothing is
/// pending for the address, so the same code is refused.
pub proof fn lemma_code_used_once(pending: Map<Seq<char>, PendingCode>, email: Seq<char>, code: Seq<char>, now: u128, later: u128)
    ensures
        !code_accepted(pending.remove(email), email, code, later),
{
}

/// An expired code is refused whatever it says.
pub proof fn lemma_expired_code_refused(pending: Map<Seq<char>, PendingCode>, email: Seq<char>, code: Seq<char>, now: u128)
    requires
        pending.contains_key(email),
        pending[email].expires_at < now,
    ensures
        !code_accepted(pending, email, code, now),
{
}

} // verus!
