//! The flush workers: how the active slugs are shared out, what becomes of a
//! batch, and the decisions of a worker's loop.

use vstd::prelude::*;
use vstd::seq_lib::*;
use crate::control_plane::ConvexError;
use crate::types::{BufferedRequest, CaptureResponse};

verus! {

/// Milliseconds for which a worker waits while the circuit breaker is not
/// closed.
pub const CIRCUIT_OPEN_BACKOFF_MS: u64 = 5000;

/// How many writes to the column store may run at one time.
pub const CS_MAX_CONCURRENT_WRITES: usize = 16;

/// The generator's next state.
pub open spec fn next_random(state: u64) -> u64 {
    state.wrapping_mul(6364136223846793005).wrapping_add(1442695040888963407)
}

/// `s` with the items at `i` and `j` exchanged.
pub open spec fn swapped<T>(s: Seq<T>, i: int, j: int) -> Seq<T> {
    s.update(i, s[j]).update(j, s[i])
}

/// The position that the item at `i` is exchanged with, for a generator state.
pub open spec fn partner(state: u64, i: nat) -> int {
    ((state >> 33) as int) % (i as int + 1)
}

/// `s` after the exchanges for the positions `i`, `i - 1`, down to 1, each
/// with a position at or before it that the generator picks.
pub open spec fn shuffled<T>(s: Seq<T>, state: u64, i: nat) -> Seq<T>
    decreases i,
{
    if i == 0 || i >= s.len() {
        s
    } else {
        let next = next_random(state);
        shuffled(swapped(s, i as int, partner(next, i)), next, (i - 1) as nat)
    }
}

/// An exchange of two items keeps the items.
pub proof fn lemma_swapped_permutes<T>(s: Seq<T>, i: int, j: int)
    requires
        0 <= i < s.len(),
        0 <= j < s.len(),
    ensures
        swapped(s, i, j).to_multiset() == s.to_multiset(),
        swapped(s, i, j).len() == s.len(),
{
    let s1 = s.update(i, s[j]);
    to_multiset_update(s, i, s[j]);
    to_multiset_update(s1, j, s[i]);
    s.to_multiset_ensures();
    assert(s.contains(s[i]));
    assert(s.contains(s[j]));
    assert(s1[j] == s[j]);
    let m = s.to_multiset();
    let m2 = m.insert(s[j]).remove(s[i]).insert(s[i]).remove(s[j]);
    assert(swapped(s, i, j).to_multiset() == m2);
    assert forall|x: T| m2.count(x) == m.count(x) by {
    }
    assert(m2 =~= m);
}

/// A shuffle keeps the items: it only changes their order.
pub proof fn lemma_shuffled_permutes<T>(s: Seq<T>, state: u64, i: nat)
    ensures
        shuffled(s, state, i).to_multiset() == s.to_multiset(),
        shuffled(s, state, i).len() == s.len(),
    decreases i,
{
    if i == 0 || i >= s.len() {
    } else {
        let next = next_random(state);
        let j = partner(next, i);
        lemma_swapped_permutes(s, i as int, j);
        lemma_shuffled_permutes(swapped(s, i as int, j), next, (i - 1) as nat);
    }
}

/// Shuffles the active slugs, so that no slug is always served first. `seed`
/// is the generator's first state; a caller takes it from the clock and the
/// worker's number.
pub fn shuffle(slugs: &mut Vec<String>, seed: u64)
    ensures
        final(slugs)@ == shuffled(old(slugs)@, seed, (old(slugs)@.len() - 1) as nat),
        final(slugs)@.to_multiset() == old(slugs)@.to_multiset(),
        final(slugs)@.len() == old(slugs)@.len(),
{
    let len: usize = slugs.len();
    proof {
        lemma_shuffled_permutes(old(slugs)@, seed, (len - 1) as nat);
    }
    if len < 2 {
        return ;
    }
    let mut state: u64 = seed;
    let mut i: usize = len - 1;
    while i > 0
        invariant
            len == slugs@.len(),
            i < len,
            shuffled(old(slugs)@, seed, (len - 1) as nat) == shuffled(slugs@, state, i as nat),
        decreases i,
    {
        state = state.wrapping_mul(6364136223846793005).wrapping_add(1442695040888963407);
        let high: u64 = state >> 33;
        assert(high < 0x8000_0000u64) by (bit_vector)
            requires
                high == state >> 33,
        ;
        let j: usize = (high % (i as u64 + 1)) as usize;
        let a = slugs[i].clone();
        let b = slugs[j].clone();
        let ghost before = slugs@;
        slugs.set(i, b);
        slugs.set(j, a);
        assert(slugs@ =~= swapped(before, i as int, j as int));
        i -= 1;
    }
}

/// How many slugs a worker serves in one pass.
pub open spec fn share_len(len: nat, worker_id: nat, worker_count: nat) -> nat {
    if worker_id < len && worker_count > 0 {
        ((len - worker_id - 1) / worker_count as int + 1) as nat
    } else {
        0
    }
}

/// The place among the slugs of the `k`-th slug that a worker serves.
pub open spec fn served_place(worker_id: nat, worker_count: nat, k: int) -> int {
    worker_id + k * worker_count
}

/// The slugs that a worker serves in one pass: every `worker_count`-th one,
/// starting with the one at the worker's own number.
pub open spec fn share_of<T>(slugs: Seq<T>, worker_id: nat, worker_count: nat) -> Seq<T> {
    Seq::new(
        share_len(slugs.len(), worker_id, worker_count),
        |k: int| slugs[served_place(worker_id, worker_count, k)],
    )
}

proof fn lemma_share_in_bounds(len: nat, worker_id: nat, worker_count: nat, k: nat)
    requires
        k < share_len(len, worker_id, worker_count),
    ensures
        worker_id + k * worker_count < len,
{
    let x: int = len - worker_id - 1;
    let n: int = worker_count as int;
    assert(k * n <= x) by (nonlinear_arith)
        requires
            0 <= k <= x / n,
            n > 0,
            x >= 0,
    {
        assert((x / n) * n <= x) by (nonlinear_arith)
            requires
                n > 0,
                x >= 0,
        {
            assert(x == n * (x / n) + x % n);
        }
        assert(k * n <= (x / n) * n);
    }
}

/// The workers' shares cover the slugs, each slug once: the slug at place
/// `i` is served by worker `i % worker_count`, and by no other.
pub proof fn lemma_shares_partition<T>(slugs: Seq<T>, worker_count: nat, i: nat)
    requires
        worker_count > 0,
        i < slugs.len(),
    ensures
        i / worker_count < share_of(slugs, i % worker_count, worker_count).len(),
        share_of(slugs, i % worker_count, worker_count)[(i / worker_count) as int]
            == slugs[i as int],
        forall|w: nat, k: int|
            w < worker_count && 0 <= k < share_len(slugs.len(), w, worker_count)
                && #[trigger] served_place(w, worker_count, k) == i ==> w == i % worker_count && k
                == i / worker_count,
{
    let n: int = worker_count as int;
    let ii: int = i as int;
    let w0: int = ii % n;
    let k0: int = ii / n;
    assert(ii == n * k0 + w0 && 0 <= w0 < n) by (nonlinear_arith)
        requires
            n > 0,
            ii >= 0,
            w0 == ii % n,
            k0 == ii / n,
    ;
    let x: int = slugs.len() - w0 - 1;
    assert(k0 <= x / n) by (nonlinear_arith)
        requires
            n > 0,
            x >= 0,
            k0 >= 0,
            n * k0 <= x,
    {
        assert(x == n * (x / n) + x % n);
        assert(x % n < n);
        if k0 > x / n {
            assert(n * k0 >= n * (x / n + 1));
        }
    }
    assert(w0 + k0 * n == ii) by (nonlinear_arith)
        requires
            ii == n * k0 + w0,
    ;
    assert forall|w: nat, k: int|
        w < worker_count && 0 <= k < share_len(slugs.len(), w, worker_count)
            && #[trigger] served_place(w, worker_count, k) == i implies w == i % worker_count && k
            == i / worker_count by {
        assert(w == w0 && k == k0) by (nonlinear_arith)
            requires
                0 <= w < n,
                0 <= w0 < n,
                w + k * n == ii,
                ii == n * k0 + w0,
                k >= 0,
                k0 >= 0,
        {
            if k > k0 {
                assert(k * n >= (k0 + 1) * n);
            }
            if k < k0 {
                assert(k0 * n >= (k + 1) * n);
            }
        }
    }
}

/// Picks the slugs that worker `worker_id` of `worker_count` serves.
pub fn worker_share(slugs: &Vec<String>, worker_id: usize, worker_count: usize) -> (share: Vec<
    String,
>)
    requires
        worker_count > 0,
    ensures
        share@ == share_of(slugs@, worker_id as nat, worker_count as nat),
{
    let len: usize = slugs.len();
    let count: usize = if worker_id < len {
        (len - worker_id - 1) / worker_count + 1
    } else {
        0
    };
    let mut share: Vec<String> = Vec::new();
    let mut k: usize = 0;
    let mut idx: usize = worker_id;
    while k < count
        invariant
            len == slugs@.len(),
            worker_count > 0,
            count == share_len(len as nat, worker_id as nat, worker_count as nat),
            k <= count,
            share@.len() == k,
            k < count ==> idx == worker_id + k * worker_count,
            forall|m: int| 0 <= m < k ==> share@[m] == slugs@[worker_id + m * worker_count],
        decreases count - k,
    {
        proof {
            lemma_share_in_bounds(len as nat, worker_id as nat, worker_count as nat, k as nat);
        }
        share.push(slugs[idx].clone());
        k += 1;
        if k < count {
            proof {
                lemma_share_in_bounds(len as nat, worker_id as nat, worker_count as nat, k as nat);
                assert(worker_id + k * worker_count == idx + worker_count) by (nonlinear_arith)
                    requires
                        idx == worker_id + (k - 1) * worker_count,
                ;
            }
            idx = idx + worker_count;
        }
    }
    assert(share@ =~= share_of(slugs@, worker_id as nat, worker_count as nat));
    share
}

/// Where the flush of one slug stands.
#[derive(Debug)]
pub enum SlugState {
    /// A batch is being taken from the slug's buffer.
    Taking,
    /// The batch is being posted to the control plane.
    Posting(Vec<BufferedRequest>),
    /// Nothing is pending.
    Done,
}

/// What the worker's surroundings report back.
#[derive(Debug)]
pub enum SlugEvent {
    /// The batch that was taken.
    Taken(Vec<BufferedRequest>),
    /// The control plane's answer to the post.
    Posted(Result<CaptureResponse, ConvexError>),
}

/// What becomes of a batch, and what the worker does next.
#[derive(Debug)]
pub enum SlugAction {
    /// The buffer is empty: take the slug out of the active set.
    RemoveActive,
    /// Post the batch that the state holds.
    Post,
    /// The batch was delivered: hand it to the column-store writer, without
    /// waiting for it.
    Forward(Vec<BufferedRequest>),
    /// The batch was delivered and there is no column store.
    Delivered,
    /// The control plane refused the batch in its answer: it is dropped.
    Refused,
    /// Nothing was sent: put the batch back at the tail of the buffer and add
    /// the slug to the active set.
    Requeue(Vec<BufferedRequest>),
    /// The batch may have arrived: it is dropped, so that it is not delivered
    /// twice.
    Dropped,
    /// The event does not answer what was asked: nothing is done.
    Halt,
}

/// What is to be done when the post of `batch` has ended with `result`.
pub open spec fn posted_effect(
    batch: Vec<BufferedRequest>,
    result: Result<CaptureResponse, ConvexError>,
    column_store: bool,
) -> SlugAction {
    match result {
        Ok(response) => if response.error@.len() > 0 {
            SlugAction::Refused
        } else if column_store {
            SlugAction::Forward(batch)
        } else {
            SlugAction::Delivered
        },
        Err(ConvexError::CircuitOpen) => SlugAction::Requeue(batch),
        Err(_) => SlugAction::Dropped,
    }
}

/// One step of the flush of a slug: the next state and what is to be done.
/// `column_store` says whether a column store is configured.
pub open spec fn slug_effect(state: SlugState, event: SlugEvent, column_store: bool) -> (
    SlugState,
    SlugAction,
) {
    match (state, event) {
        (SlugState::Taking, SlugEvent::Taken(batch)) => if batch@.len() == 0 {
            (SlugState::Done, SlugAction::RemoveActive)
        } else {
            (SlugState::Posting(batch), SlugAction::Post)
        },
        (SlugState::Posting(batch), SlugEvent::Posted(result)) => (
            SlugState::Done,
            posted_effect(batch, result, column_store),
        ),
        _ => (state, SlugAction::Halt),
    }
}

/// Whether a step did work: a pass that did none is followed by a sleep.
pub open spec fn did_work(action: SlugAction) -> bool {
    !(action is RemoveActive || action is Halt)
}

/// Takes one step of the flush of a slug.
pub fn slug_step(state: SlugState, event: SlugEvent, column_store: bool) -> (r: (
    SlugState,
    SlugAction,
))
    ensures
        r == slug_effect(state, event, column_store),
{
    match (state, event) {
        (SlugState::Taking, SlugEvent::Taken(batch)) => {
            if batch.len() == 0 {
                (SlugState::Done, SlugAction::RemoveActive)
            } else {
                (SlugState::Posting(batch), SlugAction::Post)
            }
        },
        (SlugState::Posting(batch), SlugEvent::Posted(result)) => {
            let action = match result {
                Ok(response) => {
                    if !response.error.as_str().is_empty() {
                        SlugAction::Refused
                    } else if column_store {
                        SlugAction::Forward(batch)
                    } else {
                        SlugAction::Delivered
                    }
                },
                Err(ConvexError::CircuitOpen) => SlugAction::Requeue(batch),
                Err(_) => SlugAction::Dropped,
            };
            (SlugState::Done, action)
        },
        (state, _) => (state, SlugAction::Halt),
    }
}

/// Whether an action counts as work.
pub fn counts_as_work(action: &SlugAction) -> (r: bool)
    ensures
        r == did_work(*action),
{
    match action {
        SlugAction::RemoveActive => false,
        SlugAction::Halt => false,
        _ => true,
    }
}

/// No batch is delivered twice. A batch whose post ends with any error but
/// `CircuitOpen` is handed to nothing that could send it again: it is neither
/// put back nor forwarded, and the slug's flush is over. A batch whose post
/// ends with `CircuitOpen` is put back, whole and once. A batch that was
/// answered is never put back.
pub proof fn lemma_at_most_once(
    batch: Vec<BufferedRequest>,
    result: Result<CaptureResponse, ConvexError>,
    column_store: bool,
)
    ensures
        ({
            let step = slug_effect(
                SlugState::Posting(batch),
                SlugEvent::Posted(result),
                column_store,
            );
            &&& step.0 == SlugState::Done
            &&& (result is Err && !(result->Err_0 is CircuitOpen)) ==> step.1 == SlugAction::Dropped
            &&& (result is Err && result->Err_0 is CircuitOpen) ==> step.1 == SlugAction::Requeue(
                batch,
            )
            &&& result is Ok ==> !(step.1 is Requeue)
            &&& forall|event: SlugEvent|
                slug_effect(step.0, event, column_store).1 == SlugAction::Halt
        }),
{
}

/// Where a worker's loop stands.
#[derive(Clone, Copy, Debug, PartialEq, Eq, Structural)]
pub enum WorkerState {
    /// At the start of a round.
    Idle,
    /// The shutdown signal was seen; the circuit breaker is being asked.
    Stopping,
    /// The circuit breaker is being asked before a pass.
    Checking,
    /// The last pass before the worker ends is running.
    LastPass,
    /// A pass is running.
    Passing,
    /// The worker has ended.
    Stopped,
}

/// What the worker's surroundings report back.
#[derive(Clone, Copy, Debug, PartialEq, Eq, Structural)]
pub enum WorkerEvent {
    /// A round begins; whether the shutdown signal is set.
    Round(bool),
    /// Whether the circuit breaker is anything but closed.
    Degraded(bool),
    /// A pass has ended; whether it did any work.
    Passed(bool),
}

/// What a worker does next.
#[derive(Clone, Copy, Debug, PartialEq, Eq, Structural)]
pub enum WorkerAction {
    /// Ask the circuit breaker for its state.
    AskBreaker,
    /// Run one drain pass.
    Drain,
    /// Wait this many milliseconds, or until the shutdown signal, and begin a
    /// round.
    Sleep(u64),
    /// Begin a round at once.
    Again,
    /// End.
    Exit,
    /// The event does not answer what was asked: nothing is done.
    Halt,
}

/// One step of a worker's loop: the next state and what is to be done.
///
/// On shutdown the worker makes one last pass, unless the circuit breaker is
/// not closed, and ends. While the circuit breaker is not closed it waits
/// `CIRCUIT_OPEN_BACKOFF_MS` in place of a pass. After a pass that did no work
/// it waits `flush_interval_ms`.
pub open spec fn worker_effect(state: WorkerState, event: WorkerEvent, flush_interval_ms: u64) -> (
    WorkerState,
    WorkerAction,
) {
    match (state, event) {
        (WorkerState::Idle, WorkerEvent::Round(shutdown)) => if shutdown {
            (WorkerState::Stopping, WorkerAction::AskBreaker)
        } else {
            (WorkerState::Checking, WorkerAction::AskBreaker)
        },
        (WorkerState::Stopping, WorkerEvent::Degraded(degraded)) => if degraded {
            (WorkerState::Stopped, WorkerAction::Exit)
        } else {
            (WorkerState::LastPass, WorkerAction::Drain)
        },
        (WorkerState::LastPass, WorkerEvent::Passed(_)) => (
            WorkerState::Stopped,
            WorkerAction::Exit,
        ),
        (WorkerState::Checking, WorkerEvent::Degraded(degraded)) => if degraded {
            (WorkerState::Idle, WorkerAction::Sleep(5000))
        } else {
            (WorkerState::Passing, WorkerAction::Drain)
        },
        (WorkerState::Passing, WorkerEvent::Passed(worked)) => if worked {
            (WorkerState::Idle, WorkerAction::Again)
        } else {
            (WorkerState::Idle, WorkerAction::Sleep(flush_interval_ms))
        },
        _ => (state, WorkerAction::Halt),
    }
}

/// Takes one step of a worker's loop.
pub fn worker_step(state: WorkerState, event: WorkerEvent, flush_interval_ms: u64) -> (r: (
    WorkerState,
    WorkerAction,
))
    ensures
        r == worker_effect(state, event, flush_interval_ms),
{
    match (state, event) {
        (WorkerState::Idle, WorkerEvent::Round(shutdown)) => {
            if shutdown {
                (WorkerState::Stopping, WorkerAction::AskBreaker)
            } else {
                (WorkerState::Checking, WorkerAction::AskBreaker)
            }
        },
        (WorkerState::Stopping, WorkerEvent::Degraded(degraded)) => {
            if degraded {
                (WorkerState::Stopped, WorkerAction::Exit)
            } else {
                (WorkerState::LastPass, WorkerAction::Drain)
            }
        },
        (WorkerState::LastPass, WorkerEvent::Passed(_)) => (
            WorkerState::Stopped,
            WorkerAction::Exit,
        ),
        (WorkerState::Checking, WorkerEvent::Degraded(degraded)) => {
            if degraded {
                (WorkerState::Idle, WorkerAction::Sleep(CIRCUIT_OPEN_BACKOFF_MS))
            } else {
                (WorkerState::Passing, WorkerAction::Drain)
            }
        },
        (WorkerState::Passing, WorkerEvent::Passed(worked)) => {
            if worked {
                (WorkerState::Idle, WorkerAction::Again)
            } else {
                (WorkerState::Idle, WorkerAction::Sleep(flush_interval_ms))
            }
        },
        (state, _) => (state, WorkerAction::Halt),
    }
}

/// A worker drains only while the circuit breaker is closed, and after the
/// shutdown signal at most once.
pub proof fn lemma_worker_drains_when_closed(
    state: WorkerState,
    event: WorkerEvent,
    flush_interval_ms: u64,
)
    ensures
        worker_effect(state, event, flush_interval_ms).1 == WorkerAction::Drain ==> event
            == WorkerEvent::Degraded(false),
        state == WorkerState::LastPass ==> worker_effect(state, event, flush_interval_ms).1
            != WorkerAction::Drain,
        state == WorkerState::Stopped ==> worker_effect(state, event, flush_interval_ms).1
            == WorkerAction::Halt,
{
}

} // verus!
