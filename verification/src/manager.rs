//! The orchestrator of the fetch-and-cache pipeline.
//!
//! One request runs `Lookup → {hit: return} | {miss: quota check → fetch →
//! validate → store → charge → return}`. The network transfer in the
//! middle cannot happen under verification, so the pipeline is exposed as
//! two verified phases around it:
//!
//! - [`ImageCacheManager::begin_get_image_by_url`] answers from the cache,
//!   or refuses a quota-met user, or tells the caller to fetch;
//! - [`ImageCacheManager::finish_get_image_by_url`] takes what the
//!   transport observed, validates it, polices the size, stores the bytes
//!   and charges the requester.
//!
//! A driver performs the HTTP transfer between the two phases and holds no
//! lock across it, so two concurrent misses for one URL may both fetch and
//! both store (last write wins), and concurrent requests of one user may
//! jointly overshoot the quota: the snapshot taken by the lookup phase is
//! deliberately not re-checked before the charge.

use vstd::prelude::*;

use crate::cache::{lemma_lookup_after_store, spec_lookup, spec_store, BytesCache};
use crate::fetch::{validate_fetched, FetchError, FetchOutcome};
use crate::fetch::spec_validate;
use crate::models::UserId;
use crate::quota::{quota_met, spec_record_usage, ImageCacheQuota, QuotaLedger};

verus! {

/// Why a request produced no image.
#[derive(Clone, Copy, Debug, PartialEq, Eq, Structural)]
pub enum Error {
    /// Transport-level failure or timeout reaching the source URL.
    UrlIsUnreachable,
    /// Missing or disallowed content type, or an unreadable body.
    UrlIsNotAnImage,
    /// The payload exceeds the configured maximum, or the store rejected it.
    ImageTooBig,
    /// The requester's usage window is already exhausted.
    UserQuotaMet,
}

/// Deployment configuration of the manager.
#[derive(Clone, Copy, Debug, PartialEq, Eq, Structural)]
pub struct ImageCacheManagerConfig {
    /// Request timeout handed to the transport, in milliseconds.
    pub max_image_request_timeout_ms: u64,
    /// Largest payload a fetch may return, in bytes.
    pub max_image_size: usize,
    /// Ceiling of a lazily created quota record, in bytes per window.
    pub user_quota_max_usage: usize,
    /// Window length of a lazily created quota record, in seconds.
    pub user_quota_period_secs: u64,
}

/// Answer of the lookup phase.
#[derive(Debug)]
pub enum ImageLookup {
    /// The URL was cached: these are its bytes, served without any quota
    /// check or network involvement.
    Cached(Vec<u8>),
    /// The URL is not cached and the requester's quota is already met:
    /// no fetch may be attempted.
    QuotaMet,
    /// The URL is not cached and the requester may fetch it.
    FetchRequired,
}

/// Orchestrates the byte cache, the quota ledger and the (external)
/// transport for `get_image_by_url` requests.
pub struct ImageCacheManager {
    image_cache: BytesCache,
    user_quotas: QuotaLedger,
    config: ImageCacheManagerConfig,
}

impl ImageCacheManager {
    /// The cached (URL, payload) pairs.
    pub closed spec fn cache_contents(&self) -> Seq<(Seq<char>, Seq<u8>)> {
        self.image_cache.contents()
    }

    /// Largest payload the byte cache accepts.
    pub closed spec fn cache_entry_size_limit(&self) -> usize {
        self.image_cache.spec_entry_size_limit()
    }

    /// The quota ledger's records.
    pub closed spec fn quota_records(&self) -> Map<UserId, ImageCacheQuota> {
        self.user_quotas@
    }

    /// Ceiling the ledger gives a lazily created record.
    pub closed spec fn quota_default_max_usage(&self) -> usize {
        self.user_quotas.spec_default_max_usage()
    }

    /// Window length the ledger gives a lazily created record.
    pub closed spec fn quota_default_period_secs(&self) -> u64 {
        self.user_quotas.spec_default_period_secs()
    }

    /// The deployment configuration.
    pub closed spec fn spec_config(&self) -> ImageCacheManagerConfig {
        self.config
    }

    /// A manager over `bytes_cache` with an empty quota ledger whose
    /// record defaults come from `config`.
    pub fn new(bytes_cache: BytesCache, config: ImageCacheManagerConfig) -> (m: Self)
        ensures
            m.cache_contents() == bytes_cache.contents(),
            m.cache_entry_size_limit() == bytes_cache.spec_entry_size_limit(),
            m.quota_records() == Map::<UserId, ImageCacheQuota>::empty(),
            m.quota_default_max_usage() == config.user_quota_max_usage,
            m.quota_default_period_secs() == config.user_quota_period_secs,
            m.spec_config() == config,
    {
        let user_quotas = QuotaLedger::new(
            config.user_quota_max_usage,
            config.user_quota_period_secs,
        );
        ImageCacheManager { image_cache: bytes_cache, user_quotas, config }
    }

    /// Read-only snapshot of one user's quota record.
    pub fn user_quota(&self, user_id: UserId) -> (r: Option<ImageCacheQuota>)
        ensures
            r == if self.quota_records().contains_key(user_id) {
                Some(self.quota_records()[user_id])
            } else {
                None::<ImageCacheQuota>
            },
    {
        self.user_quotas.get(user_id)
    }

    /// Lookup phase of a `get_image_by_url` request.
    ///
    /// A cached URL is answered immediately with its bytes, with no quota
    /// check and no network involvement, whatever the requester's quota
    /// state: quota governs fetch cost, not serving cost. On a miss, a
    /// requester whose snapshot already meets its ceiling is refused
    /// before any fetch; a requester with no record is unconstrained.
    /// The snapshot is read-only: no record is reset here even when its
    /// window has lapsed.
    pub fn begin_get_image_by_url(&self, user_id: UserId, url: &String) -> (r: ImageLookup)
        ensures
            match spec_lookup(self.cache_contents(), url@) {
                Some(b) => r matches ImageLookup::Cached(v) && v@ == b,
                None => r == if self.quota_records().contains_key(user_id) && quota_met(
                    self.quota_records()[user_id],
                ) {
                    ImageLookup::QuotaMet
                } else {
                    ImageLookup::FetchRequired
                },
            },
    {
        // Check if image is already in our cache and send it if so.
        if let Some(entry) = self.image_cache.get(url) {
            return ImageLookup::Cached(entry.bytes);
        }

        if let Some(quota) = self.user_quotas.get(user_id) {
            if quota.met() {
                return ImageLookup::QuotaMet;
            }
        }

        ImageLookup::FetchRequired
    }

    /// Completion phase of a `get_image_by_url` request, evaluated at time
    /// `now`.
    ///
    /// Validates what the transport observed, polices the configured
    /// maximum payload size, stores the bytes under `url`, and only then
    /// charges the requester. No failure mutates the cache; the quota is
    /// charged only after a successful store, and a refused charge is
    /// swallowed — the bytes are served regardless, so concurrent
    /// requests may overshoot the ceiling.
    pub fn finish_get_image_by_url(
        &mut self,
        user_id: UserId,
        url: &String,
        fetched: FetchOutcome,
        now: u64,
    ) -> (r: Result<Vec<u8>, Error>)
        ensures
            final(self).cache_entry_size_limit() == old(self).cache_entry_size_limit(),
            final(self).quota_default_max_usage() == old(self).quota_default_max_usage(),
            final(self).quota_default_period_secs() == old(self).quota_default_period_secs(),
            final(self).spec_config() == old(self).spec_config(),
            match spec_validate(fetched) {
                Err(FetchError::Unreachable) => {
                    &&& r == Err::<Vec<u8>, Error>(Error::UrlIsUnreachable)
                    &&& final(self).cache_contents() == old(self).cache_contents()
                    &&& final(self).quota_records() == old(self).quota_records()
                },
                Err(FetchError::NotAnImage) => {
                    &&& r == Err::<Vec<u8>, Error>(Error::UrlIsNotAnImage)
                    &&& final(self).cache_contents() == old(self).cache_contents()
                    &&& final(self).quota_records() == old(self).quota_records()
                },
                Ok(p) => {
                    let body = p.1;
                    if body.len() > old(self).spec_config().max_image_size || body.len() > old(
                        self,
                    ).cache_entry_size_limit() {
                        &&& r == Err::<Vec<u8>, Error>(Error::ImageTooBig)
                        &&& final(self).cache_contents() == old(self).cache_contents()
                        &&& final(self).quota_records() == old(self).quota_records()
                    } else {
                        &&& r matches Ok(bytes) && bytes@ == body
                        &&& final(self).cache_contents() == spec_store(
                            old(self).cache_contents(),
                            url@,
                            body,
                        )
                        &&& final(self).quota_records() == spec_record_usage(
                            old(self).quota_records(),
                            old(self).quota_default_max_usage(),
                            old(self).quota_default_period_secs(),
                            user_id,
                            body.len() as usize,
                            now,
                        ).0
                    }
                },
            },
    {
        let bytes = match validate_fetched(fetched) {
            Ok(p) => p.1,
            Err(FetchError::Unreachable) => {
                return Err(Error::UrlIsUnreachable);
            },
            Err(FetchError::NotAnImage) => {
                return Err(Error::UrlIsNotAnImage);
            },
        };

        // Verify that the response size does not exceed the defined max image size.
        if bytes.len() > self.config.max_image_size {
            return Err(Error::ImageTooBig);
        }

        // Update image cache.
        if self.image_cache.set(url.clone(), crate::cache::copy_bytes(&bytes)).is_err() {
            return Err(Error::ImageTooBig);
        }

        // Charge the fetch against the requester; a refusal is swallowed,
        // the bytes are served regardless.
        let _ = self.user_quotas.record_usage_at(user_id, bytes.len(), now);

        Ok(bytes)
    }
}

/// Round trip: once a completed request has stored `body` under `url`, a
/// second request for `url` is answered from the cache with exactly those
/// bytes. The lookup phase borrows the manager immutably, so serving the
/// hit changes no quota record.
pub proof fn lemma_refetch_is_cache_hit(
    before: Seq<(Seq<char>, Seq<u8>)>,
    url: Seq<char>,
    body: Seq<u8>,
)
    ensures
        spec_lookup(spec_store(before, url, body), url) == Some(body),
{
    lemma_lookup_after_store(before, url, body);
}

} // verus!
