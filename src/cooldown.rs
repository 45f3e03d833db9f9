use vstd::prelude::*;

verus! {

/// How long heavy operations are held back, in milliseconds.
pub const COOLDOWN_WINDOW_MS: u64 = 5000;

/// Time left in the window at `now_ms`, for a gate armed at `armed_ms`.
/// A clock reading earlier than the arming instant counts as no time elapsed.
pub open spec fn remaining_spec(armed: Option<u64>, now_ms: u64) -> Option<u64> {
    match armed {
        None => None,
        Some(t) => {
            let elapsed: int = if now_ms >= t { now_ms - t } else { 0 };
            if elapsed < COOLDOWN_WINDOW_MS {
                Some((COOLDOWN_WINDOW_MS - elapsed) as u64)
            } else {
                None
            }
        },
    }
}

/// Tracks the instant of the last heavy operation; times are milliseconds of
/// a monotonic clock.
#[derive(Clone, Copy, Debug)]
pub struct CooldownGate {
    pub last_trigger_ms: Option<u64>,
}

impl CooldownGate {
    /// A gate that has never been armed.
    pub fn new() -> (r: CooldownGate)
        ensures
            r.last_trigger_ms is None,
    {
        CooldownGate { last_trigger_ms: None }
    }

    /// Starts the window at `now_ms`.
    pub fn arm(&mut self, now_ms: u64)
        ensures
            final(self).last_trigger_ms == Some(now_ms),
    {
        self.last_trigger_ms = Some(now_ms);
    }

    /// The time left in the window, or `None` once it has passed.
    pub fn remaining(&self, now_ms: u64) -> (r: Option<u64>)
        ensures
            r == remaining_spec(self.last_trigger_ms, now_ms),
    {
        match self.last_trigger_ms {
            None => None,
            Some(t) => {
                let elapsed: u64 = if now_ms >= t { now_ms - t } else { 0 };
                if elapsed < COOLDOWN_WINDOW_MS {
                    Some(COOLDOWN_WINDOW_MS - elapsed)
                } else {
                    None
                }
            },
        }
    }

    /// Whether a heavy operation may start at `now_ms`.
    pub fn is_clear(&self, now_ms: u64) -> (r: bool)
        ensures
            r == (remaining_spec(self.last_trigger_ms, now_ms) is None),
    {
        self.remaining(now_ms).is_none()
    }
}

/// Once armed, the time left shrinks strictly as the clock moves on, as long
/// as the window is open, and the window is closed from 5000 ms after arming.
pub proof fn lemma_cooldown_expires(armed_ms: u64, t1: u64, t2: u64)
    requires
        armed_ms <= t1 < t2,
    ensures
        remaining_spec(Some(armed_ms), t2) is Some ==> remaining_spec(Some(armed_ms), t1) is Some
            && remaining_spec(Some(armed_ms), t2)->0 < remaining_spec(Some(armed_ms), t1)->0,
        t2 >= armed_ms + COOLDOWN_WINDOW_MS ==> remaining_spec(Some(armed_ms), t2) is None,
        t1 < armed_ms + COOLDOWN_WINDOW_MS ==> remaining_spec(Some(armed_ms), t1) is Some,
{
}

} // verus!
