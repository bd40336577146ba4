//! The façade of the key-value store: each operation as the command that is
//! sent, with the keys laid out in one place.

use vstd::prelude::*;
use vstd::string::*;
use crate::buffer::{buffer_key, SCAN_COUNT};
use crate::dedup::{dedup_key, dedup_key_text, DEDUP_TTL_SECS};
use crate::endpoint_cache::endpoint_key;
use crate::quota::{
    plan_quota_write, quota_eviction_keys, quota_key, quota_key_text, quota_write_view,
    slug_quota_key, QuotaWrite,
};

verus! {

/// A command for the key-value store. A value that a command stores is the
/// caller's to supply.
#[derive(Debug)]
pub enum KvCommand {
    /// Read the value under `key`.
    Get { key: String },
    /// Store a value under `key`, to live `ttl_secs` seconds.
    SetEx { key: String, ttl_secs: u64 },
    /// Store the empty value under `key` where it is absent, to live
    /// `ttl_secs` seconds.
    SetNxEx { key: String, ttl_secs: u64 },
    /// Delete `keys`.
    Del { keys: Vec<String> },
    /// Read the seconds that `key` has left to live.
    Ttl { key: String },
    /// Read the user that the quota entry under `key` points to.
    ReadPointer { key: String },
    /// Run the quota check script on `key`.
    QuotaCheck { key: String },
    /// Run the quota write script, and point the slug's entry to the owner
    /// where the write names one.
    QuotaWrite(QuotaWrite),
    /// Push a value at the head of the list under `key` and add `slug` to the
    /// active set, in one pipeline.
    Push { key: String, slug: String },
    /// Run the batch take script on the list under `key` for up to `max`
    /// items.
    BatchTake { key: String, max: usize },
    /// Remove `slug` from the active set where the list under `key` is empty,
    /// in one step.
    RemoveActive { key: String, slug: String },
    /// Push the values of a batch at the tail of the list under `key`, the
    /// oldest last, and add `slug` to the active set, in one pipeline.
    Requeue { key: String, slug: String },
    /// Read the length of the list under `key`.
    Len { key: String },
    /// Scan the active set from `cursor` for about `count` members.
    ScanActive { cursor: u64, count: usize },
}

/// The settings of the façade.
#[derive(Clone, Copy, Debug, PartialEq, Eq, Structural)]
pub struct RedisState {
    /// Seconds for which a cached endpoint lives.
    pub endpoint_ttl_secs: u64,
    /// Seconds for which a cached quota lives.
    pub quota_ttl_secs: u64,
}

impl RedisState {
    /// A façade with the given times to live.
    pub fn new(endpoint_ttl_secs: u64, quota_ttl_secs: u64) -> (s: RedisState)
        ensures
            s.endpoint_ttl_secs == endpoint_ttl_secs,
            s.quota_ttl_secs == quota_ttl_secs,
    {
        RedisState { endpoint_ttl_secs, quota_ttl_secs }
    }

    /// Whether a request is new: the set-if-absent of its fingerprint, which
    /// stays for `DEDUP_TTL_SECS`.
    pub fn check_dedup(
        &self,
        slug: &str,
        method: &str,
        path: &str,
        body: &[u8],
        client_ip: &str,
    ) -> (cmd: KvCommand)
        ensures
            cmd matches KvCommand::SetNxEx { key, ttl_secs } && ttl_secs == 2 && key@
                == dedup_key_text(slug@, method@, path@, body@, client_ip@),
    {
        KvCommand::SetNxEx {
            key: dedup_key(slug, method, path, body, client_ip),
            ttl_secs: DEDUP_TTL_SECS,
        }
    }

    /// The cached endpoint of a slug.
    pub fn get_endpoint(&self, slug: &str) -> (cmd: KvCommand)
        ensures
            cmd matches KvCommand::Get { key } && key@ == "ep:"@ + slug@,
    {
        KvCommand::Get { key: endpoint_key(slug) }
    }

    /// Caches the endpoint of a slug for the configured time.
    pub fn set_endpoint(&self, slug: &str) -> (cmd: KvCommand)
        ensures
            cmd matches KvCommand::SetEx { key, ttl_secs } && key@ == "ep:"@ + slug@ && ttl_secs
                == self.endpoint_ttl_secs,
    {
        KvCommand::SetEx { key: endpoint_key(slug), ttl_secs: self.endpoint_ttl_secs }
    }

    /// Evicts the cached endpoint of a slug.
    pub fn evict_endpoint(&self, slug: &str) -> (cmd: KvCommand)
        ensures
            cmd matches KvCommand::Del { keys } && keys@.len() == 1 && keys@[0]@ == "ep:"@ + slug@,
    {
        let mut keys: Vec<String> = Vec::new();
        keys.push(endpoint_key(slug));
        KvCommand::Del { keys }
    }

    /// The seconds that the cached endpoint of a slug has left.
    pub fn endpoint_ttl(&self, slug: &str) -> (cmd: KvCommand)
        ensures
            cmd matches KvCommand::Ttl { key } && key@ == "ep:"@ + slug@,
    {
        KvCommand::Ttl { key: endpoint_key(slug) }
    }

    /// The atomic quota check for a request to a slug whose endpoint has the
    /// owner `user_id`: on the owner's quota where there is an owner, else on
    /// the slug's.
    pub fn check_quota(&self, slug: &str, user_id: Option<&str>) -> (cmd: KvCommand)
        ensures
            cmd matches KvCommand::QuotaCheck { key } && key@ == quota_key_text(
                slug@,
                match user_id {
                    Some(u) => Some(u@),
                    None => None,
                },
            ),
    {
        KvCommand::QuotaCheck { key: quota_key(slug, user_id) }
    }

    /// Caches a quota for the configured time, unless one is cached already.
    pub fn set_quota(
        &self,
        slug: &str,
        remaining: i64,
        limit: i64,
        period_end: i64,
        is_unlimited: bool,
        user_id: &str,
    ) -> (cmd: KvCommand)
        ensures
            cmd matches KvCommand::QuotaWrite(w) && w@ == quota_write_view(
                slug@,
                remaining,
                limit,
                period_end,
                is_unlimited,
                user_id@,
                self.quota_ttl_secs,
            ),
    {
        KvCommand::QuotaWrite(
            plan_quota_write(
                slug,
                remaining,
                limit,
                period_end,
                is_unlimited,
                user_id,
                self.quota_ttl_secs,
            ),
        )
    }

    /// The user that a slug's quota entry points to, which is read before the
    /// quota's time to live and before its eviction.
    pub fn quota_pointer(&self, slug: &str) -> (cmd: KvCommand)
        ensures
            cmd matches KvCommand::ReadPointer { key } && key@ == "quota:"@ + slug@,
    {
        KvCommand::ReadPointer { key: slug_quota_key(slug) }
    }

    /// The seconds that the quota of a slug has left; `pointer` is the user
    /// that the slug's entry points to, if any.
    pub fn quota_ttl(&self, slug: &str, pointer: Option<&str>) -> (cmd: KvCommand)
        ensures
            cmd matches KvCommand::Ttl { key } && key@ == quota_key_text(
                slug@,
                match pointer {
                    Some(u) => Some(u@),
                    None => None,
                },
            ),
    {
        KvCommand::Ttl { key: quota_key(slug, pointer) }
    }

    /// Evicts the quota of a slug, and that of the user that the slug's entry
    /// points to, if any.
    pub fn evict_quota(&self, slug: &str, pointer: Option<&str>) -> (cmd: KvCommand)
        ensures
            cmd matches KvCommand::Del { keys } && keys@.len() >= 1 && keys@[0]@ == "quota:"@
                + slug@ && match pointer {
                Some(u) => if u@.len() > 0 {
                    keys@.len() == 2 && keys@[1]@ == "quota:user:"@ + u@
                } else {
                    keys@.len() == 1
                },
                None => keys@.len() == 1,
            },
    {
        KvCommand::Del { keys: quota_eviction_keys(slug, pointer) }
    }

    /// Buffers a request of a slug.
    pub fn push_request(&self, slug: &str) -> (cmd: KvCommand)
        ensures
            cmd matches KvCommand::Push { key, slug: s } && key@ == "buf:"@ + slug@ && s@ == slug@,
    {
        KvCommand::Push { key: buffer_key(slug), slug: slug.to_owned() }
    }

    /// One step of the scan of the active set, from `cursor`; the scan begins
    /// with cursor 0.
    pub fn active_slugs(&self, cursor: u64) -> (cmd: KvCommand)
        ensures
            cmd matches KvCommand::ScanActive { cursor: c, count } && c == cursor && count == 500,
    {
        KvCommand::ScanActive { cursor, count: SCAN_COUNT }
    }

    /// Takes up to `max` requests of a slug.
    pub fn take_batch(&self, slug: &str, max: usize) -> (cmd: KvCommand)
        ensures
            cmd matches KvCommand::BatchTake { key, max: m } && key@ == "buf:"@ + slug@ && m == max,
    {
        KvCommand::BatchTake { key: buffer_key(slug), max }
    }

    /// Takes a slug out of the active set, unless a request is pending for
    /// it.
    pub fn remove_active(&self, slug: &str) -> (cmd: KvCommand)
        ensures
            cmd matches KvCommand::RemoveActive { key, slug: s } && key@ == "buf:"@ + slug@ && s@
                == slug@,
    {
        KvCommand::RemoveActive { key: buffer_key(slug), slug: slug.to_owned() }
    }

    /// Puts a batch of a slug back.
    pub fn requeue(&self, slug: &str) -> (cmd: KvCommand)
        ensures
            cmd matches KvCommand::Requeue { key, slug: s } && key@ == "buf:"@ + slug@ && s@
                == slug@,
    {
        KvCommand::Requeue { key: buffer_key(slug), slug: slug.to_owned() }
    }

    /// The number of buffered requests of a slug.
    pub fn buffer_len(&self, slug: &str) -> (cmd: KvCommand)
        ensures
            cmd matches KvCommand::Len { key } && key@ == "buf:"@ + slug@,
    {
        KvCommand::Len { key: buffer_key(slug) }
    }
}

} // verus!
