//! Transaction pacing.
//!
//! Corsair Legacy protocol requires a 35ms delay between consecutive reports
//! within a transaction. [`PacedTransport`] wraps a transport and tracks the
//! time of the last send, so that the next send waits out the minimum gap.
//! Times are milliseconds on a monotonic clock that the caller reads.

use vstd::prelude::*;

verus! {

/// Default inter-report delay for Legacy headset protocol (milliseconds).
pub const LEGACY_DELAY_MS: u64 = 35;

/// Default inter-report delay for Bragi protocol (milliseconds).
pub const BRAGI_DELAY_MS: u64 = 20;

/// A transport wrapper that enforces a minimum delay between consecutive sends.
pub struct PacedTransport<T> {
    inner: T,
    delay_ms: u64,
    last_send_ms: Option<u64>,
}

/// How long a send at `now` still has to wait: the delay minus the time
/// elapsed since the last send (elapsed time counts as zero if the clock
/// reads earlier than the last send), or nothing when the delay has passed
/// or nothing was sent yet.
pub open spec fn wait_needed(delay: u64, last: Option<u64>, now: u64) -> u64 {
    match last {
        None => 0,
        Some(t) => {
            let elapsed = if now >= t { now - t } else { 0 };
            if elapsed < delay { (delay - elapsed) as u64 } else { 0 }
        },
    }
}

impl<T> PacedTransport<T> {
    /// The minimum gap between sends, in milliseconds.
    pub closed spec fn delay(&self) -> u64 {
        self.delay_ms
    }

    /// When the last send happened, if any.
    pub closed spec fn last_send(&self) -> Option<u64> {
        self.last_send_ms
    }

    /// The wrapped transport.
    pub closed spec fn wrapped(&self) -> &T {
        &self.inner
    }

    /// Wrap a transport with the given inter-report delay in milliseconds.
    pub fn new(inner: T, delay_ms: u64) -> (p: Self)
        ensures
            p.delay() == delay_ms,
            p.last_send() is None,
            *p.wrapped() == inner,
    {
        Self { inner, delay_ms, last_send_ms: None }
    }

    /// Wrap a transport with the Legacy protocol 35ms delay.
    pub fn legacy(inner: T) -> (p: Self)
        ensures
            p.delay() == LEGACY_DELAY_MS,
            p.last_send() is None,
            *p.wrapped() == inner,
    {
        Self::new(inner, LEGACY_DELAY_MS)
    }

    /// Wrap a transport with the Bragi protocol 20ms delay.
    pub fn bragi(inner: T) -> (p: Self)
        ensures
            p.delay() == BRAGI_DELAY_MS,
            p.last_send() is None,
            *p.wrapped() == inner,
    {
        Self::new(inner, BRAGI_DELAY_MS)
    }

    /// Access the inner transport.
    pub fn inner(&self) -> (t: &T)
        ensures
            *t == *self.wrapped(),
    {
        &self.inner
    }

    /// The minimum gap between sends, in milliseconds.
    pub fn delay_ms(&self) -> (d: u64)
        ensures
            d == self.delay(),
    {
        self.delay_ms
    }

    /// How many milliseconds a send at `now_ms` must wait so that it comes at
    /// least the delay after the previous send.
    pub fn wait_before_send(&self, now_ms: u64) -> (w: u64)
        ensures
            w == wait_needed(self.delay(), self.last_send(), now_ms),
            w <= self.delay(),
            self.last_send() matches Some(t) ==> (now_ms >= t ==> now_ms + w >= t + self.delay()),
    {
        match self.last_send_ms {
            None => 0,
            Some(last) => {
                let elapsed = if now_ms >= last { now_ms - last } else { 0 };
                if elapsed < self.delay_ms { self.delay_ms - elapsed } else { 0 }
            },
        }
    }

    /// Note that a send happened at `now_ms`.
    pub fn record_send(&mut self, now_ms: u64)
        ensures
            final(self).last_send() == Some(now_ms),
            final(self).delay() == old(self).delay(),
            *final(self).wrapped() == *old(self).wrapped(),
    {
        self.last_send_ms = Some(now_ms);
    }
}

/// Pacing: a send recorded at `t` and a next send at `now` that waits what
/// [`PacedTransport::wait_before_send`] asks for come at least the delay
/// apart; once the delay has passed there is no wait, and before the first
/// send there is none either.
pub proof fn lemma_pacing(delay: u64, t: u64, now: u64)
    ensures
        now >= t ==> now + wait_needed(delay, Some(t), now) >= t + delay,
        now >= t + delay ==> wait_needed(delay, Some(t), now) == 0,
        wait_needed(delay, None, now) == 0,
{
}

} // verus!
