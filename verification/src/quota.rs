//! Quota state in the key-value store: the keys, the two atomic scripts as a
//! model on one key's value, and the plan of a cache write.

use vstd::prelude::*;
use vstd::string::*;

verus! {

/// The answer of an atomic quota check.
#[derive(Clone, Copy, Debug, PartialEq, Eq, Structural)]
pub enum QuotaResult {
    /// The request may be captured.
    Allowed,
    /// The quota is used up.
    Exceeded,
    /// Nothing usable is cached: fetch from the control plane and check again.
    NotFound,
}

/// The reply code of the check script for an allowed request.
pub const CODE_ALLOWED: i64 = 1;

/// The reply code of the check script for an exhausted quota.
pub const CODE_EXCEEDED: i64 = 0;

/// The reply code of the check script where nothing usable is cached.
pub const CODE_NOT_FOUND: i64 = -1;

impl QuotaResult {
    /// The meaning of a script reply. `None` stands for a store that failed to
    /// answer; that and any unknown code read as `NotFound`.
    pub open spec fn of_code(code: Option<i64>) -> QuotaResult {
        match code {
            Some(c) => if c == 1 {
                QuotaResult::Allowed
            } else if c == 0 {
                QuotaResult::Exceeded
            } else {
                QuotaResult::NotFound
            },
            None => QuotaResult::NotFound,
        }
    }

    /// Reads a script reply.
    pub fn from_code(code: Option<i64>) -> (r: QuotaResult)
        ensures
            r == QuotaResult::of_code(code),
    {
        match code {
            Some(c) => if c == CODE_ALLOWED {
                QuotaResult::Allowed
            } else if c == CODE_EXCEEDED {
                QuotaResult::Exceeded
            } else {
                QuotaResult::NotFound
            },
            None => QuotaResult::NotFound,
        }
    }
}

/// The key of a quota: the owner's where an owner is known, else the slug's.
pub open spec fn quota_key_text(slug: Seq<char>, user_id: Option<Seq<char>>) -> Seq<char> {
    match user_id {
        Some(uid) => if uid.len() > 0 {
            "quota:user:"@ + uid
        } else {
            "quota:"@ + slug
        },
        None => "quota:"@ + slug,
    }
}

/// The key under which a slug's own quota entry, or its pointer to the owner,
/// is stored.
pub fn slug_quota_key(slug: &str) -> (key: String)
    ensures
        key@ == "quota:"@ + slug@,
{
    let mut key = String::from_str("quota:");
    key.append(slug);
    key
}

/// The key under which a user's quota is stored.
pub fn user_quota_key(user_id: &str) -> (key: String)
    ensures
        key@ == "quota:user:"@ + user_id@,
{
    let mut key = String::from_str("quota:user:");
    key.append(user_id);
    key
}

/// The key that a quota check reads.
pub fn quota_key(slug: &str, user_id: Option<&str>) -> (key: String)
    ensures
        key@ == quota_key_text(
            slug@,
            match user_id {
                Some(u) => Some(u@),
                None => None,
            },
        ),
{
    match user_id {
        Some(uid) => {
            if !uid.is_empty() {
                user_quota_key(uid)
            } else {
                slug_quota_key(slug)
            }
        },
        None => slug_quota_key(slug),
    }
}

/// The value stored under a quota key.
#[derive(Clone, Debug)]
pub struct QuotaEntry {
    /// Requests left in the period; `None` where the field is missing or holds
    /// no number, as in a slug's entry that only points to its owner.
    pub remaining: Option<i64>,
    pub limit: i64,
    pub period_end: i64,
    pub is_unlimited: bool,
    pub user_id: String,
    /// Seconds for which the entry was set to live.
    pub ttl_secs: u64,
}

/// The check script on the value under its key: the value afterwards and the
/// reply code.
pub open spec fn check_effect(cell: Option<QuotaEntry>) -> (Option<QuotaEntry>, int) {
    match cell {
        None => (None, -1),
        Some(e) => if e.is_unlimited {
            (cell, 1)
        } else {
            match e.remaining {
                None => (cell, -1),
                Some(r) => if r <= 0 {
                    (cell, 0)
                } else {
                    (Some(QuotaEntry { remaining: Some((r - 1) as i64), ..e }), 1)
                },
            }
        },
    }
}

/// The write script on the value under its key: the first write wins.
pub open spec fn write_effect(cell: Option<QuotaEntry>, entry: QuotaEntry) -> (
    Option<QuotaEntry>,
    int,
) {
    match cell {
        Some(_) => (cell, 0),
        None => (Some(entry), 1),
    }
}

/// Runs the check script on the value under a quota key: takes one request
/// off a limited quota that has any left.
pub fn check_and_decrement(cell: &mut Option<QuotaEntry>) -> (code: i64)
    ensures
        (*final(cell), code as int) == check_effect(*old(cell)),
{
    match cell {
        None => CODE_NOT_FOUND,
        Some(e) => {
            if e.is_unlimited {
                CODE_ALLOWED
            } else {
                match e.remaining {
                    None => CODE_NOT_FOUND,
                    Some(r) => {
                        if r <= 0 {
                            CODE_EXCEEDED
                        } else {
                            e.remaining = Some(r - 1);
                            CODE_ALLOWED
                        }
                    },
                }
            }
        },
    }
}

/// Runs the write script on the value under a quota key: stores `entry` only
/// where nothing is stored yet.
pub fn set_if_absent(cell: &mut Option<QuotaEntry>, entry: QuotaEntry) -> (code: i64)
    ensures
        (*final(cell), code as int) == write_effect(*old(cell), entry),
{
    if cell.is_some() {
        0
    } else {
        *cell = Some(entry);
        1
    }
}

/// One script run against a quota key.
pub enum QuotaOp {
    /// A handler's check.
    Check,
    /// A warmer's write.
    Warm(QuotaEntry),
}

/// The value under the key after one script run.
pub open spec fn after_op(cell: Option<QuotaEntry>, op: QuotaOp) -> Option<QuotaEntry> {
    match op {
        QuotaOp::Check => check_effect(cell).0,
        QuotaOp::Warm(entry) => write_effect(cell, entry).0,
    }
}

/// The value under the key after the runs `ops`, one after the other.
pub open spec fn after_ops(cell: Option<QuotaEntry>, ops: Seq<QuotaOp>) -> Option<QuotaEntry>
    decreases ops.len(),
{
    if ops.len() == 0 {
        cell
    } else {
        after_ops(after_op(cell, ops[0]), ops.drop_first())
    }
}

/// How many of `ops` are checks.
pub open spec fn checks_in(ops: Seq<QuotaOp>) -> nat
    decreases ops.len(),
{
    if ops.len() == 0 {
        0
    } else {
        (if ops[0] is Check {
            1nat
        } else {
            0nat
        }) + checks_in(ops.drop_first())
    }
}

/// How many checks among `ops` are allowed when the runs start from `cell`.
pub open spec fn allowed_in(cell: Option<QuotaEntry>, ops: Seq<QuotaOp>) -> nat
    decreases ops.len(),
{
    if ops.len() == 0 {
        0
    } else {
        (if ops[0] is Check && check_effect(cell).1 == 1 {
            1nat
        } else {
            0nat
        }) + allowed_in(after_op(cell, ops[0]), ops.drop_first())
    }
}

/// How many checks among `ops` find the quota used up.
pub open spec fn exceeded_in(cell: Option<QuotaEntry>, ops: Seq<QuotaOp>) -> nat
    decreases ops.len(),
{
    if ops.len() == 0 {
        0
    } else {
        (if ops[0] is Check && check_effect(cell).1 == 0 {
            1nat
        } else {
            0nat
        }) + exceeded_in(after_op(cell, ops[0]), ops.drop_first())
    }
}

/// No quota is overspent. Against a cached limited quota with `r` requests
/// left, any interleaving of `k` checks with any number of warmer writes
/// allows exactly `min(k, r)` checks and finds the quota used up for the
/// others; the writes change nothing, and the entry ends with `r - min(k, r)`
/// left.
pub proof fn lemma_quota_atomicity(entry: QuotaEntry, r: i64, ops: Seq<QuotaOp>)
    requires
        !entry.is_unlimited,
        entry.remaining == Some(r),
        r >= 0,
    ensures
        allowed_in(Some(entry), ops) == vstd::math::min(checks_in(ops) as int, r as int),
        exceeded_in(Some(entry), ops) == checks_in(ops) - allowed_in(Some(entry), ops),
        after_ops(Some(entry), ops) == Some(
            QuotaEntry { remaining: Some((r - allowed_in(Some(entry), ops)) as i64), ..entry },
        ),
    decreases ops.len(),
{
    if ops.len() > 0 {
        let rest = ops.drop_first();
        match ops[0] {
            QuotaOp::Check => {
                if r > 0 {
                    let next = QuotaEntry { remaining: Some((r - 1) as i64), ..entry };
                    lemma_quota_atomicity(next, (r - 1) as i64, rest);
                } else {
                    lemma_quota_atomicity(entry, r, rest);
                }
            },
            QuotaOp::Warm(_) => {
                lemma_quota_atomicity(entry, r, rest);
            },
        }
    }
}

/// What a cache write of a quota does to the store.
#[derive(Clone, Debug)]
pub struct QuotaWrite {
    /// The key that the write script runs on.
    pub key: String,
    /// The value that it stores where the key is absent.
    pub entry: QuotaEntry,
    /// For a user's quota: the slug's key, which is made to point to the user
    /// and to live as long.
    pub pointer_key: Option<String>,
}

/// A `QuotaWrite` as plain values.
pub struct QuotaWriteView {
    pub key: Seq<char>,
    pub remaining: Option<i64>,
    pub limit: i64,
    pub period_end: i64,
    pub is_unlimited: bool,
    pub user_id: Seq<char>,
    pub ttl_secs: u64,
    pub pointer_key: Option<Seq<char>>,
}

impl View for QuotaWrite {
    type V = QuotaWriteView;

    open spec fn view(&self) -> QuotaWriteView {
        QuotaWriteView {
            key: self.key@,
            remaining: self.entry.remaining,
            limit: self.entry.limit,
            period_end: self.entry.period_end,
            is_unlimited: self.entry.is_unlimited,
            user_id: self.entry.user_id@,
            ttl_secs: self.entry.ttl_secs,
            pointer_key: match self.pointer_key {
                Some(k) => Some(k@),
                None => None,
            },
        }
    }
}

/// The cache write of a quota: under the owner's key, with the slug's key
/// pointing to the owner, where there is an owner; else under the slug's key.
pub open spec fn quota_write_view(
    slug: Seq<char>,
    remaining: i64,
    limit: i64,
    period_end: i64,
    is_unlimited: bool,
    user_id: Seq<char>,
    ttl_secs: u64,
) -> QuotaWriteView {
    QuotaWriteView {
        key: quota_key_text(slug, Some(user_id)),
        remaining: Some(remaining),
        limit,
        period_end,
        is_unlimited,
        user_id,
        ttl_secs,
        pointer_key: if user_id.len() > 0 {
            Some("quota:"@ + slug)
        } else {
            None
        },
    }
}

/// Plans the cache write of a quota. A quota with an owner goes under the
/// owner's key, shared by all the owner's slugs, and the slug's key is made to
/// point to the owner; one without goes under the slug's key.
pub fn plan_quota_write(
    slug: &str,
    remaining: i64,
    limit: i64,
    period_end: i64,
    is_unlimited: bool,
    user_id: &str,
    ttl_secs: u64,
) -> (w: QuotaWrite)
    ensures
        w@ == quota_write_view(
            slug@,
            remaining,
            limit,
            period_end,
            is_unlimited,
            user_id@,
            ttl_secs,
        ),
{
    let entry = QuotaEntry {
        remaining: Some(remaining),
        limit,
        period_end,
        is_unlimited,
        user_id: user_id.to_owned(),
        ttl_secs,
    };
    if !user_id.is_empty() {
        QuotaWrite {
            key: user_quota_key(user_id),
            entry,
            pointer_key: Some(slug_quota_key(slug)),
        }
    } else {
        QuotaWrite { key: slug_quota_key(slug), entry, pointer_key: None }
    }
}

/// The keys to delete when a slug's quota is evicted: the slug's, and the
/// owner's where the slug's entry points to one.
pub fn quota_eviction_keys(slug: &str, pointer: Option<&str>) -> (keys: Vec<String>)
    ensures
        keys@.len() >= 1,
        keys@[0]@ == "quota:"@ + slug@,
        match pointer {
            Some(u) => if u@.len() > 0 {
                keys@.len() == 2 && keys@[1]@ == "quota:user:"@ + u@
            } else {
                keys@.len() == 1
            },
            None => keys@.len() == 1,
        },
{
    let mut keys: Vec<String> = Vec::new();
    keys.push(slug_quota_key(slug));
    match pointer {
        Some(uid) => {
            if !uid.is_empty() {
                keys.push(user_quota_key(uid));
            }
        },
        None => {},
    }
    keys
}

/// The time to live that the store reports, read as the caches do: a negative
/// answer, or none, means that the key is not there.
pub fn ttl_reading(raw: Option<i64>) -> (ttl: Option<i64>)
    ensures
        ttl == match raw {
            Some(t) => if t < 0 {
                None
            } else {
                Some(t)
            },
            None => None,
        },
{
    match raw {
        Some(t) => if t < 0 {
            None
        } else {
            Some(t)
        },
        None => None,
    }
}

} // verus!
