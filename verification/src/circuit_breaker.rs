//! The circuit breaker around the control plane: its three keys in the
//! key-value store as a model, with the two atomic scripts, and how the
//! store's answers are read.

use vstd::prelude::*;
use vstd::string::*;
use crate::text::str_eq;

verus! {

/// Failures after which the circuit opens.
pub const THRESHOLD: i64 = 5;

/// Seconds for which an open circuit refuses every call.
pub const COOLDOWN_SECS: i64 = 30;

/// Seconds for which the half-open state lasts unless a probe decides.
pub const HALF_OPEN_TTL_SECS: i64 = 60;

/// Seconds after the last failure at which the failure count is forgotten.
pub const FAILURES_EXPIRE_SECS: i64 = 300;

/// Seconds for which one probe holds the lease of a half-open circuit.
pub const PROBE_LEASE_SECS: i64 = 30;

/// The key of the circuit's state.
pub const STATE_KEY: &'static str = "cb:state";

/// The key of the failure count.
pub const FAILURES_KEY: &'static str = "cb:failures";

/// The key of the probe lease.
pub const PROBE_KEY: &'static str = "cb:probe";

/// The state of the circuit.
#[derive(Clone, Copy, Debug, PartialEq, Eq, Structural)]
pub enum CircuitState {
    /// Every call is let through.
    Closed,
    /// No call is let through.
    Open,
    /// One probe at a time is let through.
    HalfOpen,
}

impl CircuitState {
    /// The state as the store holds it.
    pub open spec fn text(&self) -> Seq<char> {
        match self {
            CircuitState::Closed => "closed"@,
            CircuitState::Open => "open"@,
            CircuitState::HalfOpen => "half-open"@,
        }
    }

    /// The state that a stored value stands for: anything but `open` and
    /// `half-open`, and no value at all, is closed.
    pub open spec fn of_text(value: Option<Seq<char>>) -> CircuitState {
        match value {
            Some(t) => if t == "open"@ {
                CircuitState::Open
            } else if t == "half-open"@ {
                CircuitState::HalfOpen
            } else {
                CircuitState::Closed
            },
            None => CircuitState::Closed,
        }
    }

    /// The state as the store holds it.
    pub fn as_str(&self) -> (s: &'static str)
        ensures
            s@ == self.text(),
    {
        match self {
            CircuitState::Closed => "closed",
            CircuitState::Open => "open",
            CircuitState::HalfOpen => "half-open",
        }
    }

    /// Reads the stored state; `None` stands for a missing key and for a
    /// store that failed to answer.
    pub fn from_stored(value: Option<&str>) -> (state: CircuitState)
        ensures
            state == CircuitState::of_text(
                match value {
                    Some(t) => Some(t@),
                    None => None,
                },
            ),
    {
        match value {
            Some(t) => {
                if str_eq(t, "open") {
                    CircuitState::Open
                } else if str_eq(t, "half-open") {
                    CircuitState::HalfOpen
                } else {
                    CircuitState::Closed
                }
            },
            None => CircuitState::Closed,
        }
    }

    /// Whether the circuit is anything but closed.
    pub fn degraded(&self) -> (r: bool)
        ensures
            r == (*self != CircuitState::Closed),
    {
        match self {
            CircuitState::Closed => false,
            _ => true,
        }
    }
}

/// How the answer of the admission script reads: only a plain refusal refuses. An
/// unknown code, and a store that failed to answer, let the call through, so
/// that the breaker never stands in the way because the store is down.
pub fn allowed_by(reply: Option<i64>) -> (allowed: bool)
    ensures
        allowed == (reply != Some(0i64)),
{
    match reply {
        Some(code) => code != 0,
        None => true,
    }
}

/// The reply of the health endpoint: its status, and the label of its
/// `status` field.
pub fn health(state: CircuitState) -> (r: (u16, &'static str))
    ensures
        r.0 == if state == CircuitState::Closed {
            200u16
        } else {
            503u16
        },
        r.1@ == if state == CircuitState::Closed {
            "ok"@
        } else {
            "degraded"@
        },
{
    if state.degraded() {
        (503, "degraded")
    } else {
        (200, "ok")
    }
}

/// The three keys of the breaker. Times are epoch milliseconds.
#[derive(Clone, Copy, Debug, PartialEq, Eq, Structural)]
pub struct CircuitBreaker {
    /// The stored state; `Closed` also stands for a missing key.
    pub mode: CircuitState,
    /// When the state key expires; without meaning while the circuit is
    /// closed.
    pub mode_until: i64,
    /// The failure count.
    pub failures: i64,
    /// When the failure count expires.
    pub failures_until: i64,
    /// Until when a probe holds the lease.
    pub probe_until: i64,
}

impl CircuitBreaker {
    /// The failures that count at `now`: none once the count has expired.
    pub open spec fn failures_at(&self, now: int) -> int {
        if now < self.failures_until {
            self.failures as int
        } else {
            0
        }
    }

    /// The state that the scripts find at `now`: a half-open key that has
    /// expired is gone; an open one whose time is over is still found, and is
    /// what makes the next call a probe.
    pub open spec fn found_at(&self, now: int) -> CircuitState {
        match self.mode {
            CircuitState::HalfOpen => if now < self.mode_until {
                CircuitState::HalfOpen
            } else {
                CircuitState::Closed
            },
            m => m,
        }
    }

    /// The state that the store reports at `now`: a key that has expired is
    /// gone, and a circuit without its key reads as closed.
    pub open spec fn state_at(&self, now: int) -> CircuitState {
        match self.mode {
            CircuitState::Closed => CircuitState::Closed,
            m => if now < self.mode_until {
                m
            } else {
                CircuitState::Closed
            },
        }
    }

    /// The admission script at `now`: the keys afterwards, and whether the call is
    /// let through. A closed circuit lets every call through. An open one
    /// refuses until its time is over; the first call after that makes it
    /// half-open and takes the probe lease. A half-open one lets a call
    /// through only where the lease is free, and hands it the lease.
    pub open spec fn allow_effect(&self, now: int) -> (CircuitBreaker, bool) {
        match self.found_at(now) {
            CircuitState::Closed => (
                CircuitBreaker { mode: CircuitState::Closed, ..*self },
                true,
            ),
            CircuitState::Open => if now < self.mode_until {
                (*self, false)
            } else {
                (
                    CircuitBreaker {
                        mode: CircuitState::HalfOpen,
                        mode_until: (now + 60_000) as i64,
                        probe_until: if now < self.probe_until {
                            self.probe_until
                        } else {
                            (now + 30_000) as i64
                        },
                        ..*self
                    },
                    true,
                )
            },
            CircuitState::HalfOpen => if now < self.probe_until {
                (*self, false)
            } else {
                (CircuitBreaker { probe_until: (now + 30_000) as i64, ..*self }, true)
            },
        }
    }

    /// The failure script at `now`: the keys afterwards, and the new count.
    /// The count goes up by one and lives for another 300 seconds; the probe
    /// lease is given up; the circuit opens for 30 seconds where the count has
    /// reached 5 or the circuit was half-open.
    pub open spec fn failure_effect(&self, now: int) -> (CircuitBreaker, int) {
        let count = self.failures_at(now) + 1;
        let opens = count >= 5 || self.found_at(now) == CircuitState::HalfOpen;
        (
            CircuitBreaker {
                mode: if opens {
                    CircuitState::Open
                } else {
                    self.found_at(now)
                },
                mode_until: if opens {
                    (now + 30_000) as i64
                } else {
                    self.mode_until
                },
                failures: count as i64,
                failures_until: (now + 300_000) as i64,
                probe_until: now as i64,
            },
            count,
        )
    }

    /// The keys after a success: all three are cleared.
    pub open spec fn cleared() -> CircuitBreaker {
        CircuitBreaker {
            mode: CircuitState::Closed,
            mode_until: 0,
            failures: 0,
            failures_until: 0,
            probe_until: 0,
        }
    }

    /// A breaker with none of its keys set: closed, with no failure counted.
    pub fn new() -> (b: CircuitBreaker)
        ensures
            b == CircuitBreaker::cleared(),
    {
        CircuitBreaker {
            mode: CircuitState::Closed,
            mode_until: 0,
            failures: 0,
            failures_until: 0,
            probe_until: 0,
        }
    }

    fn found(&self, now: i64) -> (s: CircuitState)
        ensures
            s == self.found_at(now as int),
    {
        match self.mode {
            CircuitState::HalfOpen => {
                if now < self.mode_until {
                    CircuitState::HalfOpen
                } else {
                    CircuitState::Closed
                }
            },
            m => m,
        }
    }

    /// The state that the store reports at `now`.
    pub fn state(&self, now: i64) -> (s: CircuitState)
        ensures
            s == self.state_at(now as int),
    {
        match self.mode {
            CircuitState::Closed => CircuitState::Closed,
            m => {
                if now < self.mode_until {
                    m
                } else {
                    CircuitState::Closed
                }
            },
        }
    }

    /// Whether the circuit is anything but closed at `now`.
    pub fn is_degraded(&self, now: i64) -> (r: bool)
        ensures
            r == (self.state_at(now as int) != CircuitState::Closed),
    {
        self.state(now).degraded()
    }

    /// Runs the admission script at `now`.
    pub fn allow_request(&mut self, now: i64) -> (allowed: bool)
        requires
            now <= i64::MAX - 300_000,
        ensures
            (*final(self), allowed) == old(self).allow_effect(now as int),
    {
        match self.found(now) {
            CircuitState::Closed => {
                self.mode = CircuitState::Closed;
                true
            },
            CircuitState::Open => {
                if now < self.mode_until {
                    false
                } else {
                    self.mode = CircuitState::HalfOpen;
                    self.mode_until = now + 60_000;
                    if now >= self.probe_until {
                        self.probe_until = now + 30_000;
                    }
                    true
                }
            },
            CircuitState::HalfOpen => {
                if now < self.probe_until {
                    false
                } else {
                    self.probe_until = now + 30_000;
                    true
                }
            },
        }
    }

    /// Runs the failure script at `now` and hands back the new count.
    pub fn record_failure(&mut self, now: i64) -> (count: i64)
        requires
            now <= i64::MAX - 300_000,
            old(self).failures < i64::MAX,
        ensures
            (*final(self), count as int) == old(self).failure_effect(now as int),
    {
        let count: i64 = if now < self.failures_until {
            self.failures + 1
        } else {
            1
        };
        let state = self.found(now);
        if count >= THRESHOLD || state == CircuitState::HalfOpen {
            self.mode = CircuitState::Open;
            self.mode_until = now + 30_000;
        } else {
            self.mode = state;
        }
        self.failures = count;
        self.failures_until = now + 300_000;
        self.probe_until = now;
        count
    }

    /// Records a success: the circuit closes and the count is forgotten.
    pub fn record_success(&mut self)
        ensures
            *final(self) == CircuitBreaker::cleared(),
    {
        self.mode = CircuitState::Closed;
        self.mode_until = 0;
        self.failures = 0;
        self.failures_until = 0;
        self.probe_until = 0;
    }
}

/// One run of a script of the breaker, with its time.
pub enum BreakerOp {
    /// The admission script.
    Admit(int),
    /// The failure script.
    Failure(int),
}

impl BreakerOp {
    /// The time of the run.
    pub open spec fn time(&self) -> int {
        match self {
            BreakerOp::Admit(t) => *t,
            BreakerOp::Failure(t) => *t,
        }
    }
}

/// The keys after one run.
pub open spec fn after_op(b: CircuitBreaker, op: BreakerOp) -> CircuitBreaker {
    match op {
        BreakerOp::Admit(t) => b.allow_effect(t).0,
        BreakerOp::Failure(t) => b.failure_effect(t).0,
    }
}

/// The keys after the runs `ops`, one after the other.
pub open spec fn after_ops(b: CircuitBreaker, ops: Seq<BreakerOp>) -> CircuitBreaker
    decreases ops.len(),
{
    if ops.len() == 0 {
        b
    } else {
        after_op(after_ops(b, ops.drop_last()), ops.last())
    }
}

/// How many of `ops` are failures.
pub open spec fn failures_in(ops: Seq<BreakerOp>) -> int
    decreases ops.len(),
{
    if ops.len() == 0 {
        0
    } else {
        failures_in(ops.drop_last()) + if ops.last() is Failure {
            1int
        } else {
            0int
        }
    }
}

/// The runs are in the order of their times, and all lie within 300 seconds
/// from `start`.
pub open spec fn within_window(ops: Seq<BreakerOp>, start: int) -> bool {
    &&& 0 <= start <= i64::MAX - 600_000
    &&& forall|i: int| 0 <= i < ops.len() ==> start <= (#[trigger] ops[i]).time() < start + 300_000
    &&& forall|i: int, j: int|
        0 <= i <= j < ops.len() ==> (#[trigger] ops[i]).time() <= (#[trigger] ops[j]).time()
}

/// Within 300 seconds every failure counts, whatever calls are admitted in
/// between: no success intervening, the count after the runs is at least the
/// number of failures among them, and at most that and the count before.
pub proof fn lemma_failures_count(b: CircuitBreaker, ops: Seq<BreakerOp>, start: int)
    requires
        within_window(ops, start),
        0 <= b.failures <= i64::MAX - ops.len(),
    ensures
        failures_in(ops) == 0 ==> after_ops(b, ops).failures == b.failures && after_ops(
            b,
            ops,
        ).failures_until == b.failures_until,
        failures_in(ops) > 0 ==> failures_in(ops) <= after_ops(b, ops).failures <= b.failures
            + failures_in(ops) && start + 300_000 <= after_ops(b, ops).failures_until,
        0 <= failures_in(ops) <= ops.len(),
    decreases ops.len(),
{
    if ops.len() > 0 {
        let before = ops.drop_last();
        let last = ops.len() - 1;
        assert(within_window(before, start)) by {
            assert forall|i: int| 0 <= i < before.len() implies start <= (#[trigger] before[i]).time()
                < start + 300_000 by {
                assert(before[i] == ops[i]);
            }
            assert forall|i: int, j: int| 0 <= i <= j < before.len() implies (
            #[trigger] before[i]).time() <= (#[trigger] before[j]).time() by {
                assert(before[i] == ops[i]);
                assert(before[j] == ops[j]);
            }
        }
        lemma_failures_count(b, before, start);
        let prev = after_ops(b, before);
        let t = ops[last].time();
        assert(start <= t < start + 300_000);
        assert(ops.last() == ops[last]);
        match ops.last() {
            BreakerOp::Admit(_) => {},
            BreakerOp::Failure(_) => {
                assert(0 <= prev.failures_at(t) <= prev.failures);
            },
        }
    }
}

/// Five failures open the circuit. Where the runs within 300 seconds hold
/// five failures, the last of the runs being one of them, the circuit is open
/// afterwards, and every call is refused in the thirty seconds that follow,
/// however many are made: a refused call changes nothing.
pub proof fn lemma_breaker_convergence(
    b: CircuitBreaker,
    ops: Seq<BreakerOp>,
    start: int,
    now: int,
)
    requires
        within_window(ops, start),
        0 <= b.failures <= i64::MAX - ops.len(),
        ops.len() > 0,
        ops.last() is Failure,
        failures_in(ops) >= 5,
        ops.last().time() <= now < ops.last().time() + 30_000,
    ensures
        after_ops(b, ops).state_at(now) == CircuitState::Open,
        after_ops(b, ops).mode_until == ops.last().time() + 30_000,
        after_ops(b, ops).allow_effect(now) == (after_ops(b, ops), false),
{
    let before = ops.drop_last();
    let last = ops.len() - 1;
    assert(within_window(before, start)) by {
        assert forall|i: int| 0 <= i < before.len() implies start <= (#[trigger] before[i]).time()
            < start + 300_000 by {
            assert(before[i] == ops[i]);
        }
        assert forall|i: int, j: int| 0 <= i <= j < before.len() implies (
        #[trigger] before[i]).time() <= (#[trigger] before[j]).time() by {
            assert(before[i] == ops[i]);
            assert(before[j] == ops[j]);
        }
    }
    lemma_failures_count(b, before, start);
    let prev = after_ops(b, before);
    let t = ops[last].time();
    assert(ops.last() == ops[last]);
    assert(start <= t < start + 300_000);
    assert(failures_in(before) >= 4);
    assert(prev.failures_at(t) >= 4);
}

/// A success closes the circuit whatever went before: the next call is let
/// through and no failure is counted.
pub proof fn lemma_success_closes(now: int)
    ensures
        CircuitBreaker::cleared().allow_effect(now).1,
        CircuitBreaker::cleared().failures_at(now) == 0,
        CircuitBreaker::cleared().state_at(now) == CircuitState::Closed,
{
}

/// A failure of the probe opens a half-open circuit again.
pub proof fn lemma_probe_failure_reopens(b: CircuitBreaker, now: int)
    requires
        b.state_at(now) == CircuitState::HalfOpen,
    ensures
        b.failure_effect(now).0.mode == CircuitState::Open,
        b.failure_effect(now).0.mode_until == (now + 30_000) as i64,
{
}

/// While a probe holds the lease of a half-open circuit, no other call is
/// let through.
pub proof fn lemma_one_probe(b: CircuitBreaker, first: int, second: int)
    requires
        b.state_at(first) == CircuitState::HalfOpen,
        b.allow_effect(first).1,
        first <= second < first + 30_000,
        first + 30_000 <= i64::MAX,
        second < b.mode_until,
    ensures
        !b.allow_effect(first).0.allow_effect(second).1,
{
}

} // verus!
