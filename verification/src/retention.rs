//! The retention worker: the sweep that pages the users of the free plan and
//! deletes their old rows, chunk by chunk.

use vstd::prelude::*;
use vstd::string::*;
use crate::search::opt_text;
use crate::sql::texts;
use crate::types::UsersByPlanResponse;

verus! {

/// Seconds between two sweeps.
pub const RETENTION_SWEEP_INTERVAL_SECS: u64 = 60 * 60;

/// Days for which the rows of a free plan are kept.
pub const FREE_RETENTION_DAYS: u32 = 7;

/// The users asked for with one page.
pub const USER_PAGE_SIZE: u32 = 250;

/// The most users that one delete statement names.
pub const DELETE_CHUNK_SIZE: usize = 200;

/// The plan whose rows are swept.
pub const SWEPT_PLAN: &'static str = "free";

/// Where a sweep stands.
#[derive(Debug)]
pub enum SweepPhase {
    /// A page of users is being fetched.
    Fetching,
    /// A chunk of the page's users is being deleted; `pending` are the users
    /// of the page that follow the chunk, `done` and `next_cursor` what the
    /// page said of the pages after it.
    Deleting { pending: Vec<String>, done: bool, next_cursor: Option<String> },
    /// The sweep is over.
    Finished,
}

/// A sweep: where it stands, and how many users and delete statements it has
/// seen so far.
#[derive(Debug)]
pub struct Sweep {
    pub phase: SweepPhase,
    pub total_users: u64,
    pub total_batches: u64,
}

/// What the worker's surroundings report back.
#[derive(Debug)]
pub enum SweepEvent {
    /// The control plane's answer to the page request, or the text of its
    /// error.
    Page(Result<UsersByPlanResponse, String>),
    /// The column store's answer to the delete, or the text of its error.
    Deleted(Result<(), String>),
}

/// What the worker does next.
#[derive(Debug)]
pub enum SweepAction {
    /// Ask the control plane for `USER_PAGE_SIZE` users of the free plan
    /// after `cursor`.
    FetchPage { cursor: Option<String> },
    /// Delete the rows of `user_ids` that are older than
    /// `FREE_RETENTION_DAYS` days.
    Delete { user_ids: Vec<String> },
    /// The sweep is complete.
    Finish,
    /// The sweep is given up, with the reason.
    Fail(String),
    /// The event does not answer what was asked: nothing is done.
    Halt,
}

/// A `SweepPhase` as plain values.
pub enum PhaseView {
    Fetching,
    Deleting { pending: Seq<Seq<char>>, done: bool, next_cursor: Option<Seq<char>> },
    Finished,
}

/// A `Sweep` as plain values.
pub struct SweepView {
    pub phase: PhaseView,
    pub total_users: u64,
    pub total_batches: u64,
}

/// A `SweepAction` as plain values.
pub enum SweepActionView {
    FetchPage { cursor: Option<Seq<char>> },
    Delete { user_ids: Seq<Seq<char>> },
    Finish,
    Fail(Seq<char>),
    Halt,
}

/// A `SweepEvent` as plain values.
pub enum SweepEventView {
    /// A page: its error, its users, its cursor and whether it is the last.
    Page(Seq<char>, Seq<Seq<char>>, Option<Seq<char>>, bool),
    PageFailed(Seq<char>),
    Deleted,
    DeleteFailed(Seq<char>),
}

impl View for SweepPhase {
    type V = PhaseView;

    open spec fn view(&self) -> PhaseView {
        match self {
            SweepPhase::Fetching => PhaseView::Fetching,
            SweepPhase::Deleting { pending, done, next_cursor } => PhaseView::Deleting {
                pending: texts(pending@),
                done: *done,
                next_cursor: opt_text(*next_cursor),
            },
            SweepPhase::Finished => PhaseView::Finished,
        }
    }
}

impl View for Sweep {
    type V = SweepView;

    open spec fn view(&self) -> SweepView {
        SweepView {
            phase: self.phase@,
            total_users: self.total_users,
            total_batches: self.total_batches,
        }
    }
}

impl View for SweepAction {
    type V = SweepActionView;

    open spec fn view(&self) -> SweepActionView {
        match self {
            SweepAction::FetchPage { cursor } => SweepActionView::FetchPage {
                cursor: opt_text(*cursor),
            },
            SweepAction::Delete { user_ids } => SweepActionView::Delete {
                user_ids: texts(user_ids@),
            },
            SweepAction::Finish => SweepActionView::Finish,
            SweepAction::Fail(m) => SweepActionView::Fail(m@),
            SweepAction::Halt => SweepActionView::Halt,
        }
    }
}

impl View for SweepEvent {
    type V = SweepEventView;

    open spec fn view(&self) -> SweepEventView {
        match self {
            SweepEvent::Page(Ok(page)) => SweepEventView::Page(
                page.error@,
                texts(page.user_ids@),
                opt_text(page.next_cursor),
                page.done,
            ),
            SweepEvent::Page(Err(m)) => SweepEventView::PageFailed(m@),
            SweepEvent::Deleted(Ok(())) => SweepEventView::Deleted,
            SweepEvent::Deleted(Err(m)) => SweepEventView::DeleteFailed(m@),
        }
    }
}

/// How many users the next delete statement names.
pub open spec fn chunk_len(pending: int) -> int {
    if pending < 200 {
        pending
    } else {
        200
    }
}

/// A count that stops at the largest `u64`.
pub open spec fn counted(total: u64, more: int) -> u64 {
    if total + more > u64::MAX {
        u64::MAX
    } else {
        (total + more) as u64
    }
}

/// What follows when a page has arrived or a chunk has been deleted: the next
/// chunk of the page's users, if any is left; else the end of the sweep after
/// the last page; else the next page, which a page without a cursor does not
/// lead to.
pub open spec fn continue_effect(
    pending: Seq<Seq<char>>,
    done: bool,
    next_cursor: Option<Seq<char>>,
    total_users: u64,
    total_batches: u64,
) -> (SweepView, SweepActionView) {
    if pending.len() > 0 {
        (
            SweepView {
                phase: PhaseView::Deleting {
                    pending: pending.skip(chunk_len(pending.len() as int)),
                    done,
                    next_cursor,
                },
                total_users,
                total_batches,
            },
            SweepActionView::Delete { user_ids: pending.take(chunk_len(pending.len() as int)) },
        )
    } else if done {
        (
            SweepView { phase: PhaseView::Finished, total_users, total_batches },
            SweepActionView::Finish,
        )
    } else {
        match next_cursor {
            Some(c) => (
                SweepView { phase: PhaseView::Fetching, total_users, total_batches },
                SweepActionView::FetchPage { cursor: Some(c) },
            ),
            None => (
                SweepView { phase: PhaseView::Finished, total_users, total_batches },
                SweepActionView::Fail(
                    "convex users-by-plan returned done=false without nextCursor"@,
                ),
            ),
        }
    }
}

/// One step of a sweep: the sweep afterwards and what is to be done. Any
/// failure, and a page that holds an error, ends the sweep.
pub open spec fn sweep_effect(sweep: SweepView, event: SweepEventView) -> (
    SweepView,
    SweepActionView,
) {
    let failed = SweepView { phase: PhaseView::Finished, ..sweep };
    match (sweep.phase, event) {
        (PhaseView::Fetching, SweepEventView::PageFailed(m)) => (
            failed,
            SweepActionView::Fail("fetch free users: "@ + m),
        ),
        (
            PhaseView::Fetching,
            SweepEventView::Page(error, user_ids, next_cursor, done),
        ) => if error.len() > 0 {
            (failed, SweepActionView::Fail("convex users-by-plan returned error: "@ + error))
        } else {
            continue_effect(
                user_ids,
                done,
                next_cursor,
                counted(sweep.total_users, user_ids.len() as int),
                sweep.total_batches,
            )
        },
        (PhaseView::Deleting { .. }, SweepEventView::DeleteFailed(m)) => (
            failed,
            SweepActionView::Fail("clickhouse delete mutation failed: "@ + m),
        ),
        (
            PhaseView::Deleting { pending, done, next_cursor },
            SweepEventView::Deleted,
        ) => continue_effect(
            pending,
            done,
            next_cursor,
            sweep.total_users,
            counted(sweep.total_batches, 1),
        ),
        _ => (sweep, SweepActionView::Halt),
    }
}

fn count(total: u64, more: usize) -> (r: u64)
    ensures
        r == counted(total, more as int),
{
    let room: u64 = u64::MAX - total;
    if more as u64 > room {
        u64::MAX
    } else {
        total + more as u64
    }
}

fn failure(prefix: &str, reason: &str) -> (m: String)
    ensures
        m@ == prefix@ + reason@,
{
    let mut m = String::from_str(prefix);
    m.append(reason);
    m
}

fn go_on(
    pending: Vec<String>,
    done: bool,
    next_cursor: Option<String>,
    total_users: u64,
    total_batches: u64,
) -> (r: (Sweep, SweepAction))
    ensures
        (r.0@, r.1@) == continue_effect(
            texts(pending@),
            done,
            opt_text(next_cursor),
            total_users,
            total_batches,
        ),
{
    let n: usize = pending.len();
    if n > 0 {
        let at: usize = if n < DELETE_CHUNK_SIZE {
            n
        } else {
            DELETE_CHUNK_SIZE
        };
        let mut chunk = pending;
        let rest = chunk.split_off(at);
        proof {
            assert(texts(chunk@) =~= texts(pending@).take(chunk_len(n as int)));
            assert(texts(rest@) =~= texts(pending@).skip(chunk_len(n as int)));
        }
        (
            Sweep {
                phase: SweepPhase::Deleting { pending: rest, done, next_cursor },
                total_users,
                total_batches,
            },
            SweepAction::Delete { user_ids: chunk },
        )
    } else if done {
        (Sweep { phase: SweepPhase::Finished, total_users, total_batches }, SweepAction::Finish)
    } else {
        match next_cursor {
            Some(c) => (
                Sweep { phase: SweepPhase::Fetching, total_users, total_batches },
                SweepAction::FetchPage { cursor: Some(c) },
            ),
            None => (
                Sweep { phase: SweepPhase::Finished, total_users, total_batches },
                SweepAction::Fail(
                    String::from_str("convex users-by-plan returned done=false without nextCursor"),
                ),
            ),
        }
    }
}

impl Sweep {
    /// Begins a sweep: the first page is asked for without a cursor.
    pub fn begin() -> (r: (Sweep, SweepAction))
        ensures
            r.0@ == (SweepView { phase: PhaseView::Fetching, total_users: 0, total_batches: 0 }),
            r.1@ == (SweepActionView::FetchPage { cursor: None }),
    {
        (
            Sweep { phase: SweepPhase::Fetching, total_users: 0, total_batches: 0 },
            SweepAction::FetchPage { cursor: None },
        )
    }

    /// Takes one step of a sweep.
    pub fn step(self, event: SweepEvent) -> (r: (Sweep, SweepAction))
        ensures
            (r.0@, r.1@) == sweep_effect(self@, event@),
    {
        let total_users = self.total_users;
        let total_batches = self.total_batches;
        match (self.phase, event) {
            (SweepPhase::Fetching, SweepEvent::Page(Err(m))) => (
                Sweep { phase: SweepPhase::Finished, total_users, total_batches },
                SweepAction::Fail(failure("fetch free users: ", m.as_str())),
            ),
            (SweepPhase::Fetching, SweepEvent::Page(Ok(page))) => {
                if !page.error.as_str().is_empty() {
                    (
                        Sweep { phase: SweepPhase::Finished, total_users, total_batches },
                        SweepAction::Fail(
                            failure("convex users-by-plan returned error: ", page.error.as_str()),
                        ),
                    )
                } else {
                    let users = count(total_users, page.user_ids.len());
                    go_on(page.user_ids, page.done, page.next_cursor, users, total_batches)
                }
            },
            (SweepPhase::Deleting { .. }, SweepEvent::Deleted(Err(m))) => (
                Sweep { phase: SweepPhase::Finished, total_users, total_batches },
                SweepAction::Fail(failure("clickhouse delete mutation failed: ", m.as_str())),
            ),
            (
                SweepPhase::Deleting { pending, done, next_cursor },
                SweepEvent::Deleted(Ok(())),
            ) => go_on(pending, done, next_cursor, total_users, count(total_batches, 1)),
            (phase, _) => (Sweep { phase, total_users, total_batches }, SweepAction::Halt),
        }
    }
}

/// The chunks of a page name each of its users once, in order: a chunk and
/// what is left after it make up what was pending, no chunk names more than
/// `DELETE_CHUNK_SIZE` users, and none but the last names fewer.
pub proof fn lemma_chunks_cover(pending: Seq<Seq<char>>)
    ensures
        pending.take(chunk_len(pending.len() as int)) + pending.skip(
            chunk_len(pending.len() as int),
        ) == pending,
        chunk_len(pending.len() as int) <= 200,
        pending.skip(chunk_len(pending.len() as int)).len() > 0 ==> chunk_len(
            pending.len() as int,
        ) == 200,
        pending.len() > 0 ==> chunk_len(pending.len() as int) > 0,
{
    assert(pending.take(chunk_len(pending.len() as int)) + pending.skip(
        chunk_len(pending.len() as int),
    ) =~= pending);
}

} // verus!
