//! Per-client request limits over one-minute windows.
use vstd::prelude::*;
use crate::backend::keyed::Keyed;

verus! {

/// The length of a rate window, in milliseconds.
pub const WINDOW_MS: u128 = 60_000;

/// Why a request was refused.
#[derive(Clone, Copy, Debug, PartialEq, Eq, Structural)]
pub enum RateLimitError {
    Exceeded,
}

impl RateLimitError {
    /// The refusal as the API reports it.
    pub fn message(&self) -> (r: &'static str)
        ensures
            r@ == "rate limit exceeded"@,
    {
        "rate limit exceeded"
    }
}

/// A client's current window: when it began and how many requests it let in.
#[derive(Clone, Copy, Debug, PartialEq, Eq, Structural)]
pub struct Window {
    pub start_ms: u128,
    pub count: u32,
}

/// The window a request at `now` counts in: the client's current one, a new
/// one when the client has none or its window is a minute old.
pub open spec fn current_window(w: Option<Window>, now: u128) -> Window {
    let w0 = match w {
        Some(w) => w,
        None => Window { start_ms: now, count: 0 },
    };
    if now >= w0.start_ms && now - w0.start_ms >= WINDOW_MS {
        Window { start_ms: now, count: 0 }
    } else {
        w0
    }
}

/// The limit per minute a setting gives: its low 32 bits, and at least one.
pub open spec fn limit_of(setting: u64) -> u32 {
    let l = setting as u32;
    if l >= 1 {
        l
    } else {
        1
    }
}

pub struct RateLimiter {
    windows: Keyed<Window>,
    limit_per_min: u32,
}

impl RateLimiter {
    pub closed spec fn wf(&self) -> bool {
        self.windows.wf() && self.limit_per_min >= 1
    }

    /// Each client's window.
    pub closed spec fn windows_spec(&self) -> Map<Seq<char>, Window> {
        self.windows.map()
    }

    pub closed spec fn limit(&self) -> u32 {
        self.limit_per_min
    }

    /// A limiter with no windows, letting in `limit_of(setting)` requests per
    /// client and minute.
    pub fn new(setting: u64) -> (r: Self)
        ensures
            r.wf(),
            r.windows_spec() == Map::<Seq<char>, Window>::empty(),
            r.limit() == limit_of(setting),
    {
        #[verifier::truncate]
        let l = setting as u32;
        RateLimiter { windows: Keyed::new(), limit_per_min: if l >= 1 { l } else { 1 } }
    }

    /// Counts a request of `key` at `now` (milliseconds): refused when its
    /// window already let in the limit, else let in and counted.
    pub fn check(&mut self, key: &str, now_ms: u128) -> (r: Result<(), RateLimitError>)
        requires
            old(self).wf(),
        ensures
            final(self).wf(),
            final(self).limit() == old(self).limit(),
            ({
                let w = current_window(old(self).windows_spec().get(key@), now_ms);
                if w.count >= old(self).limit() {
                    r == Err::<(), RateLimitError>(RateLimitError::Exceeded) && final(self).windows_spec()
                        == old(self).windows_spec().insert(key@, w)
                } else {
                    r is Ok && final(self).windows_spec() == old(self).windows_spec().insert(
                        key@,
                        Window { start_ms: w.start_ms, count: (w.count + 1) as u32 },
                    )
                }
            }),
    {
        let w0 = match self.windows.get(key) {
            Some(w) => *w,
            None => Window { start_ms: now_ms, count: 0 },
        };
        let w = if now_ms >= w0.start_ms && now_ms - w0.start_ms >= WINDOW_MS {
            Window { start_ms: now_ms, count: 0 }
        } else {
            w0
        };
        if w.count >= self.limit_per_min {
            self.windows.insert(key, w);
            return Err(RateLimitError::Exceeded);
        }
        self.windows.insert(key, Window { start_ms: w.start_ms, count: w.count + 1 });
        Ok(())
    }
}

/// A client whose window has let in the limit is refused for as long as that
/// window lasts.
pub proof fn lemma_full_window_refuses(w: Window, limit: u32, now: u128)
    requires
        w.count >= limit,
        now >= w.start_ms,
        now - w.start_ms < WINDOW_MS,
    ensures
        current_window(Some(w), now).count >= limit,
{
}

/// A window never counts past the limit: a request is let in only while the
/// count is below it.
pub proof fn lemma_count_stays_within_limit(w: Option<Window>, limit: u32, now: u128)
    requires
        match w {
            Some(w) => w.count <= limit,
            None => true,
        },
    ensures
        current_window(w, now).count <= limit,
        current_window(w, now).count < limit ==> current_window(w, now).count + 1 <= limit,
{
}

} // verus!
