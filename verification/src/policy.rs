//! Reconnect backoff policy for the persistent poller.
//!
//! The poller races its connect-and-listen operation against a refresh
//! signal.  On failure the delay doubles up to a ceiling; on success or on a
//! refresh signal the delay returns to the base.

use vstd::prelude::*;

verus! {

/// Seconds the poller waits after a refresh signal before reconnecting, so
/// that a concurrent bulk sync can finish writing newly assigned monitor ids.
pub const REFRESH_GRACE_SECS: u64 = 2;

/// Exponential backoff schedule with a floor (`base_delay_secs`) and a
/// ceiling (`max_delay_secs`).
pub struct ReconnectPolicy {
    pub base_delay_secs: u64,
    pub max_delay_secs: u64,
    pub current_delay_secs: u64,
}

/// What the poller loop observed: the active operation ended (in failure or,
/// nominally, success), or the external refresh signal fired.
pub enum PollerEvent {
    Succeeded,
    Failed,
    Refresh,
}

/// What the loop must do next.
pub enum PollerAction {
    /// Reconnect immediately.
    Reconnect,
    /// Sleep for the given delay, then reconnect.
    RetryAfter { delay_secs: u64 },
    /// Sleep a short grace period, then reconnect.
    ReconnectAfterGrace { grace_secs: u64 },
}

impl ReconnectPolicy {
    /// Structural bounds every policy keeps: the delay stays between the
    /// floor and the ceiling, and doubling the ceiling cannot overflow.
    pub open spec fn wf(self) -> bool {
        &&& 1 <= self.base_delay_secs
        &&& self.base_delay_secs <= self.current_delay_secs
        &&& self.current_delay_secs <= self.max_delay_secs
        &&& self.max_delay_secs <= u64::MAX / 2
    }

    pub open spec fn base(self) -> u64 {
        self.base_delay_secs
    }

    pub open spec fn max(self) -> u64 {
        self.max_delay_secs
    }

    pub open spec fn current(self) -> u64 {
        self.current_delay_secs
    }

    /// The delay the next failure will use.
    pub open spec fn spec_next_delay(self) -> u64 {
        self.current_delay_secs
    }

    /// The policy after one failure: the delay doubles, capped at the ceiling.
    pub open spec fn spec_after_failure(self) -> ReconnectPolicy {
        ReconnectPolicy {
            current_delay_secs: if 2 * self.current_delay_secs > self.max_delay_secs {
                self.max_delay_secs
            } else {
                (2 * self.current_delay_secs) as u64
            },
            ..self
        }
    }

    /// The policy after a success or a refresh: the delay returns to the base.
    pub open spec fn spec_reset(self) -> ReconnectPolicy {
        ReconnectPolicy { current_delay_secs: self.base_delay_secs, ..self }
    }

    pub fn new() -> (p: ReconnectPolicy)
        ensures
            p.wf(),
            p.base() == 5,
            p.max() == 300,
            p.current() == 5,
    {
        ReconnectPolicy { base_delay_secs: 5, max_delay_secs: 300, current_delay_secs: 5 }
    }

    /// Returns the delay to sleep before the next attempt and doubles the
    /// stored delay, capped at the ceiling.
    pub fn next_delay(&mut self) -> (delay: u64)
        requires
            old(self).wf(),
        ensures
            final(self).wf(),
            delay == old(self).spec_next_delay(),
            *final(self) == old(self).spec_after_failure(),
    {
        let delay = self.current_delay_secs;
        self.current_delay_secs = if delay > self.max_delay_secs / 2 {
            self.max_delay_secs
        } else {
            delay * 2
        };
        delay
    }

    /// Returns the delay to the base, as after a success or a refresh signal.
    pub fn reset(&mut self)
        requires
            old(self).wf(),
        ensures
            final(self).wf(),
            *final(self) == old(self).spec_reset(),
    {
        self.current_delay_secs = self.base_delay_secs;
    }
}

/// One decision step of the poller loop: how the policy evolves and what the
/// loop does next for each observed event.
pub fn poller_step(policy: &mut ReconnectPolicy, event: PollerEvent) -> (action: PollerAction)
    requires
        old(policy).wf(),
    ensures
        final(policy).wf(),
        match event {
            PollerEvent::Succeeded => {
                &&& *final(policy) == old(policy).spec_reset()
                &&& action is Reconnect
            },
            PollerEvent::Failed => {
                &&& *final(policy) == old(policy).spec_after_failure()
                &&& action matches PollerAction::RetryAfter { delay_secs }
                    && delay_secs == old(policy).spec_next_delay()
            },
            PollerEvent::Refresh => {
                &&& *final(policy) == old(policy).spec_reset()
                &&& action matches PollerAction::ReconnectAfterGrace { grace_secs }
                    && grace_secs == REFRESH_GRACE_SECS
            },
        },
{
    match event {
        PollerEvent::Succeeded => {
            policy.reset();
            PollerAction::Reconnect
        },
        PollerEvent::Failed => {
            let delay_secs = policy.next_delay();
            PollerAction::RetryAfter { delay_secs }
        },
        PollerEvent::Refresh => {
            policy.reset();
            PollerAction::ReconnectAfterGrace { grace_secs: REFRESH_GRACE_SECS }
        },
    }
}

/// After a refresh signal the next backoff delay is the base delay again,
/// however close to the ceiling it had grown.
pub proof fn lemma_refresh_resets_backoff(p: ReconnectPolicy)
    requires
        p.wf(),
    ensures
        p.spec_reset().spec_next_delay() == p.base(),
{
}

/// Two to the power `n`.
pub open spec fn spec_pow2(n: nat) -> int
    decreases n,
{
    if n == 0 {
        1
    } else {
        2 * spec_pow2((n - 1) as nat)
    }
}

/// The policy after `n` consecutive failures.
pub open spec fn spec_failures(p: ReconnectPolicy, n: nat) -> ReconnectPolicy
    decreases n,
{
    if n == 0 {
        p
    } else {
        spec_failures(p, (n - 1) as nat).spec_after_failure()
    }
}

proof fn lemma_pow2_pos(n: nat)
    ensures
        spec_pow2(n) >= 1,
    decreases n,
{
    if n > 0 {
        lemma_pow2_pos((n - 1) as nat);
    }
}

/// The delay schedule in closed form: after `n` consecutive failures of a
/// freshly reset policy, the next delay is the base doubled `n` times,
/// capped at the ceiling — so the delay slept on the k-th failure is
/// `min(base * 2^(k-1), max)`.
pub proof fn lemma_backoff_formula(p: ReconnectPolicy, n: nat)
    requires
        p.wf(),
        p.current_delay_secs == p.base_delay_secs,
    ensures
        spec_failures(p, n).wf(),
        spec_failures(p, n).base_delay_secs == p.base_delay_secs,
        spec_failures(p, n).max_delay_secs == p.max_delay_secs,
        spec_failures(p, n).spec_next_delay() as int == (if p.base_delay_secs * spec_pow2(n)
            > p.max_delay_secs {
            p.max_delay_secs as int
        } else {
            p.base_delay_secs * spec_pow2(n)
        }),
    decreases n,
{
    let b = p.base_delay_secs as int;
    let mx = p.max_delay_secs as int;
    if n > 0 {
        lemma_backoff_formula(p, (n - 1) as nat);
        lemma_pow2_pos((n - 1) as nat);
        let x = spec_pow2((n - 1) as nat);
        let q = spec_failures(p, (n - 1) as nat);
        assert(spec_failures(p, n) == q.spec_after_failure());
        if b * x > mx {
            assert(b * spec_pow2(n) >= b * x) by (nonlinear_arith)
                requires
                    b >= 1,
                    x >= 1,
                    spec_pow2(n) == 2 * x,
            ;
        } else {
            assert(b * spec_pow2(n) == 2 * (b * x)) by (nonlinear_arith)
                requires
                    spec_pow2(n) == 2 * x,
            ;
        }
    }
}

} // verus!
