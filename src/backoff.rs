//! Retry-delay schedules.
use vstd::prelude::*;

verus! {

/// The shape of a retry-delay schedule.
#[derive(Clone, Copy, Debug, PartialEq, Eq, Structural)]
pub enum BackoffKind {
    /// The trivial schedule: it never grants a retry.
    NoBackoff,
    /// Delays that double from a base delay up to a ceiling, without randomness.
    NoJitter,
}

/// A stateful schedule of retry delays (in milliseconds) with a bounded number of attempts.
#[derive(Clone, Copy, Debug, PartialEq, Eq, Structural)]
pub struct Backoff {
    pub kind: BackoffKind,
    pub current_attempts: u32,
    pub max_attempts: u32,
    pub base_delay_ms: u64,
    pub current_delay_ms: u64,
    pub max_delay_ms: u64,
}

/// The smaller of two delays.
pub open spec fn min_delay(a: int, b: int) -> int {
    if a < b {
        a
    } else {
        b
    }
}

impl Backoff {
    /// A schedule has not drawn more attempts than it allows.
    pub open spec fn wf(self) -> bool {
        self.current_attempts <= self.max_attempts
    }

    /// How many more delays the schedule will grant.
    pub open spec fn attempts_left(self) -> nat {
        match self.kind {
            BackoffKind::NoBackoff => 0,
            BackoffKind::NoJitter => if self.current_attempts <= self.max_attempts {
                (self.max_attempts - self.current_attempts) as nat
            } else {
                0
            },
        }
    }

    /// The schedule after drawing one delay, and the delay drawn (`None` once exhausted).
    pub open spec fn next_spec(self) -> (Backoff, Option<u64>) {
        if self.current_attempts >= self.max_attempts {
            (self, None)
        } else {
            let counted = Backoff { current_attempts: (self.current_attempts + 1) as u32, ..self };
            match self.kind {
                BackoffKind::NoBackoff => (counted, None),
                BackoffKind::NoJitter => (
                    Backoff {
                        current_delay_ms: min_delay(
                            2 * self.current_delay_ms,
                            self.max_delay_ms as int,
                        ) as u64,
                        ..counted
                    },
                    Some(min_delay(self.current_delay_ms as int, self.max_delay_ms as int) as u64),
                ),
            }
        }
    }

    /// The trivial schedule, which never grants a retry.
    pub fn no_backoff() -> (r: Backoff)
        ensures
            r == (Backoff {
                kind: BackoffKind::NoBackoff,
                current_attempts: 0,
                max_attempts: 0,
                base_delay_ms: 0,
                current_delay_ms: 0,
                max_delay_ms: 0,
            }),
            r.attempts_left() == 0,
            r.wf(),
    {
        Backoff {
            kind: BackoffKind::NoBackoff,
            current_attempts: 0,
            max_attempts: 0,
            base_delay_ms: 0,
            current_delay_ms: 0,
            max_delay_ms: 0,
        }
    }

    /// A schedule of `max_attempts` delays that start at `base_delay_ms`, double after
    /// each draw, and never exceed `max_delay_ms`.
    pub fn no_jitter_backoff(base_delay_ms: u64, max_delay_ms: u64, max_attempts: u32) -> (r: Backoff)
        ensures
            r == (Backoff {
                kind: BackoffKind::NoJitter,
                current_attempts: 0,
                max_attempts,
                base_delay_ms,
                current_delay_ms: base_delay_ms,
                max_delay_ms,
            }),
            r.attempts_left() == max_attempts,
            r.wf(),
    {
        Backoff {
            kind: BackoffKind::NoJitter,
            current_attempts: 0,
            max_attempts,
            base_delay_ms,
            current_delay_ms: base_delay_ms,
            max_delay_ms,
        }
    }

    /// Whether this is the trivial schedule that never grants a retry.
    pub fn is_none(&self) -> (r: bool)
        ensures
            r == (self.kind == BackoffKind::NoBackoff),
    {
        match self.kind {
            BackoffKind::NoBackoff => true,
            BackoffKind::NoJitter => false,
        }
    }

    /// Draws the next delay in milliseconds, or `None` when the schedule is exhausted.
    pub fn next_delay_duration(&mut self) -> (r: Option<u64>)
        ensures
            (*final(self), r) == old(self).next_spec(),
    {
        if self.current_attempts >= self.max_attempts {
            return None;
        }
        self.current_attempts = self.current_attempts + 1;
        match self.kind {
            BackoffKind::NoBackoff => None,
            BackoffKind::NoJitter => {
                let delay = if self.current_delay_ms < self.max_delay_ms {
                    self.current_delay_ms
                } else {
                    self.max_delay_ms
                };
                self.current_delay_ms = if self.current_delay_ms <= self.max_delay_ms / 2 {
                    self.current_delay_ms * 2
                } else {
                    self.max_delay_ms
                };
                Some(delay)
            },
        }
    }
}

/// Drawing a delay from a well-formed schedule keeps it well-formed, grants a delay exactly
/// when attempts are left, and then uses up exactly one of them.
pub proof fn lemma_next_uses_one_attempt(b: Backoff)
    requires
        b.wf(),
    ensures
        b.next_spec().0.wf(),
        b.next_spec().1 is Some <==> b.attempts_left() > 0,
        b.next_spec().1 is Some ==> b.next_spec().0.attempts_left() + 1 == b.attempts_left(),
{
}

} // verus!
