//! Per-user usage counters with a rolling reset window.
//!
//! An [`ImageCacheQuota`] counts the bytes a user has caused to be fetched
//! since the start of its current window. A [`QuotaLedger`] holds one record
//! per user and creates records lazily, with deployment-wide defaults, the
//! first time a user is charged.
//!
//! Every time-dependent operation exists in two forms: a `..._at` function
//! that takes the current time as an argument and carries the exact
//! contract, and a convenience form that reads the clock and forwards to it.

use vstd::prelude::*;

use crate::clock::now_in_secs;
use crate::models::UserId;
use std::collections::HashMap;

verus! {

broadcast use vstd::std_specs::hash::group_hash_axioms;

/// One user's quota record.
///
/// `usage` accumulates the bytes charged during the window that began at
/// `date_start_secs` (seconds since the Unix epoch) and lasts
/// `period_secs`; `max_usage` is the ceiling for one window.
#[derive(Clone, Copy, Debug, PartialEq, Eq, Structural)]
pub struct ImageCacheQuota {
    pub user_id: UserId,
    pub usage: usize,
    pub max_usage: usize,
    pub date_start_secs: u64,
    pub period_secs: u64,
}

/// The window that began at `q.date_start_secs` has lapsed by `now`.
pub open spec fn window_expired(q: ImageCacheQuota, now: u64) -> bool {
    now > q.date_start_secs + q.period_secs
}

/// `q` wound back to an empty window starting at `now`.
pub open spec fn spec_reset(q: ImageCacheQuota, now: u64) -> ImageCacheQuota {
    ImageCacheQuota { usage: 0, date_start_secs: now, ..q }
}

/// The quota is met: no further fetch may be charged against it.
pub open spec fn quota_met(q: ImageCacheQuota) -> bool {
    q.usage >= q.max_usage
}

/// One charge of `amount` bytes against `q`, evaluated at time `now`.
///
/// A lapsed window is wound back first, and that reset survives even when
/// the charge itself is then refused. The charge is refused iff the
/// (possibly reset) usage already meets the ceiling; otherwise usage grows
/// by `amount`, saturating at the largest representable value. Returns the
/// record afterwards and whether the charge was applied.
pub open spec fn spec_add_usage(q: ImageCacheQuota, amount: usize, now: u64) -> (ImageCacheQuota, bool) {
    let q1 = if window_expired(q, now) {
        spec_reset(q, now)
    } else {
        q
    };
    if quota_met(q1) {
        (q1, false)
    } else {
        let grown = if q1.usage + amount > usize::MAX {
            usize::MAX
        } else {
            (q1.usage + amount) as usize
        };
        (ImageCacheQuota { usage: grown, ..q1 }, true)
    }
}

impl ImageCacheQuota {
    /// A fresh record for `user_id` whose first window starts at `now`.
    pub fn new_at(user_id: UserId, max_usage: usize, period_secs: u64, now: u64) -> (q: Self)
        ensures
            q == (ImageCacheQuota {
                user_id,
                usage: 0,
                max_usage,
                date_start_secs: now,
                period_secs,
            }),
    {
        ImageCacheQuota { user_id, usage: 0, max_usage, date_start_secs: now, period_secs }
    }

    /// A fresh record whose first window starts now.
    pub fn new(user_id: UserId, max_usage: usize, period_secs: u64) -> (q: Self)
        ensures
            q.user_id == user_id,
            q.usage == 0,
            q.max_usage == max_usage,
            q.period_secs == period_secs,
    {
        let now = now_in_secs();
        Self::new_at(user_id, max_usage, period_secs, now)
    }

    /// Charge `amount` bytes against this record, evaluated at time `now`.
    ///
    /// A lapsed window is reset before the met/not-met decision, so the
    /// reset is kept even when the charge is refused.
    pub fn add_usage_at(&mut self, amount: usize, now: u64) -> (r: Result<(), ()>)
        ensures
            ({
                let (q, applied) = spec_add_usage(*old(self), amount, now);
                &&& *final(self) == q
                &&& (r is Ok) == applied
            }),
    {
        // Check if quota needs to be reset.
        if now > self.date_start_secs.saturating_add(self.period_secs) {
            self.reset_at(now);
        }

        if self.met() {
            return Err(());
        }

        self.usage = self.usage.saturating_add(amount);

        Ok(())
    }

    /// Charge `amount` bytes against this record at the current time.
    pub fn add_usage(&mut self, amount: usize) -> (r: Result<(), ()>)
        ensures
            exists|now: u64|
                ({
                    let (q, applied) = #[trigger] spec_add_usage(*old(self), amount, now);
                    &&& *final(self) == q
                    &&& (r is Ok) == applied
                }),
    {
        let now = now_in_secs();
        let r = self.add_usage_at(amount, now);
        proof {
            let (q, applied) = spec_add_usage(*old(self), amount, now);
            assert(*self == q && (r is Ok) == applied);
        }
        r
    }

    /// Wind the record back to an empty window starting at `now`.
    pub fn reset_at(&mut self, now: u64)
        ensures
            *final(self) == spec_reset(*old(self), now),
    {
        self.usage = 0;
        self.date_start_secs = now;
    }

    /// Wind the record back to an empty window starting now.
    pub fn reset(&mut self)
        ensures
            final(self).usage == 0,
            final(self).user_id == old(self).user_id,
            final(self).max_usage == old(self).max_usage,
            final(self).period_secs == old(self).period_secs,
    {
        let now = now_in_secs();
        self.reset_at(now);
    }

    /// The quota is met: usage has reached the ceiling.
    pub fn met(&self) -> (r: bool)
        ensures
            r == quota_met(*self),
    {
        self.usage >= self.max_usage
    }
}

/// Refusal of a charge: the user's window is already exhausted.
#[derive(Clone, Copy, Debug, PartialEq, Eq, Structural)]
pub struct QuotaExceeded;

/// A record for `user_id` created lazily by the ledger: zero usage, the
/// deployment-wide ceiling and period, window starting at `now`.
pub open spec fn fresh_record(user_id: UserId, max_usage: usize, period_secs: u64, now: u64) -> ImageCacheQuota {
    ImageCacheQuota { user_id, usage: 0, max_usage, date_start_secs: now, period_secs }
}

/// One ledger charge: the user's record (created lazily if absent) takes
/// the charge as [`spec_add_usage`] describes, and the updated record is
/// written back even when the charge is refused, so a window reset is
/// never lost. Returns the records afterwards and whether the charge was
/// applied.
pub open spec fn spec_record_usage(
    records: Map<UserId, ImageCacheQuota>,
    default_max_usage: usize,
    default_period_secs: u64,
    user_id: UserId,
    amount: usize,
    now: u64,
) -> (Map<UserId, ImageCacheQuota>, bool) {
    let q0 = if records.contains_key(user_id) {
        records[user_id]
    } else {
        fresh_record(user_id, default_max_usage, default_period_secs, now)
    };
    let (q1, applied) = spec_add_usage(q0, amount, now);
    (records.insert(user_id, q1), applied)
}

/// A lapsed window is wound back before the met/not-met decision: any
/// charge evaluated at a time past the window leaves the record's window
/// starting at `now`, with the old usage gone — even when the charge
/// itself is then refused (which happens exactly when the ceiling is
/// zero).
pub proof fn lemma_expired_window_resets(q: ImageCacheQuota, amount: usize, now: u64)
    requires
        window_expired(q, now),
    ensures
        ({
            let (q1, applied) = spec_add_usage(q, amount, now);
            &&& q1.date_start_secs == now
            &&& applied <==> q.max_usage > 0
            &&& applied ==> q1.usage == amount
            &&& !applied ==> q1.usage == 0
        }),
{
}

/// The first charge for a user with no record creates that record with
/// the given defaults and — whenever the ceiling is not zero — a usage of
/// exactly the charged amount, its window starting at `now`.
pub proof fn lemma_first_charge_creates_record(
    records: Map<UserId, ImageCacheQuota>,
    default_max_usage: usize,
    default_period_secs: u64,
    user_id: UserId,
    amount: usize,
    now: u64,
)
    requires
        !records.contains_key(user_id),
        default_max_usage > 0,
    ensures
        ({
            let (m, applied) = spec_record_usage(
                records,
                default_max_usage,
                default_period_secs,
                user_id,
                amount,
                now,
            );
            &&& applied
            &&& m.contains_key(user_id)
            &&& m[user_id] == (ImageCacheQuota {
                user_id,
                usage: amount,
                max_usage: default_max_usage,
                date_start_secs: now,
                period_secs: default_period_secs,
            })
        }),
{
}

/// The per-user quota ledger.
///
/// Owns every quota record of the process. Reads are snapshots and never
/// mutate; a lapsed window is reset only on the charging path. A user with
/// no record is unconstrained until the first charge creates one with the
/// deployment-wide defaults.
pub struct QuotaLedger {
    records: HashMap<UserId, ImageCacheQuota>,
    default_max_usage: usize,
    default_period_secs: u64,
}

impl View for QuotaLedger {
    type V = Map<UserId, ImageCacheQuota>;

    closed spec fn view(&self) -> Map<UserId, ImageCacheQuota> {
        self.records@
    }
}

impl QuotaLedger {
    /// Ceiling given to lazily created records.
    pub closed spec fn spec_default_max_usage(&self) -> usize {
        self.default_max_usage
    }

    /// Window length given to lazily created records.
    pub closed spec fn spec_default_period_secs(&self) -> u64 {
        self.default_period_secs
    }

    /// An empty ledger with the deployment-wide record defaults.
    pub fn new(default_max_usage: usize, default_period_secs: u64) -> (l: Self)
        ensures
            l@ == Map::<UserId, ImageCacheQuota>::empty(),
            l.spec_default_max_usage() == default_max_usage,
            l.spec_default_period_secs() == default_period_secs,
    {
        QuotaLedger {
            records: HashMap::new(),
            default_max_usage,
            default_period_secs,
        }
    }

    /// Read-only snapshot of one user's record.
    ///
    /// Never mutates stored state, even when the record's window has
    /// lapsed: the lazy reset happens only on the charging path.
    pub fn get(&self, user_id: UserId) -> (r: Option<ImageCacheQuota>)
        ensures
            r == if self@.contains_key(user_id) {
                Some(self@[user_id])
            } else {
                None::<ImageCacheQuota>
            },
    {
        match self.records.get(&user_id) {
            Some(q) => Some(*q),
            None => None,
        }
    }

    /// Charge `amount` bytes to `user_id`, evaluated at time `now`.
    ///
    /// Creates the record with the ledger's defaults if the user has none;
    /// resets a lapsed window before the met/not-met decision; refuses the
    /// charge iff the (possibly reset) usage already meets the ceiling.
    /// The record is written back even when the charge is refused.
    pub fn record_usage_at(&mut self, user_id: UserId, amount: usize, now: u64) -> (r: Result<
        (),
        QuotaExceeded,
    >)
        ensures
            ({
                let (m, applied) = spec_record_usage(
                    old(self)@,
                    old(self).spec_default_max_usage(),
                    old(self).spec_default_period_secs(),
                    user_id,
                    amount,
                    now,
                );
                &&& final(self)@ == m
                &&& (r is Ok) == applied
            }),
            final(self).spec_default_max_usage() == old(self).spec_default_max_usage(),
            final(self).spec_default_period_secs() == old(self).spec_default_period_secs(),
    {
        let mut q = match self.records.get(&user_id) {
            Some(q) => *q,
            None => ImageCacheQuota::new_at(
                user_id,
                self.default_max_usage,
                self.default_period_secs,
                now,
            ),
        };
        let r = q.add_usage_at(amount, now);
        self.records.insert(user_id, q);
        match r {
            Ok(()) => Ok(()),
            Err(()) => Err(QuotaExceeded),
        }
    }

    /// Charge `amount` bytes to `user_id` at the current time.
    pub fn record_usage(&mut self, user_id: UserId, amount: usize) -> (r: Result<
        (),
        QuotaExceeded,
    >)
        ensures
            exists|now: u64|
                ({
                    let (m, applied) = #[trigger] spec_record_usage(
                        old(self)@,
                        old(self).spec_default_max_usage(),
                        old(self).spec_default_period_secs(),
                        user_id,
                        amount,
                        now,
                    );
                    &&& final(self)@ == m
                    &&& (r is Ok) == applied
                }),
            final(self).spec_default_max_usage() == old(self).spec_default_max_usage(),
            final(self).spec_default_period_secs() == old(self).spec_default_period_secs(),
    {
        let now = now_in_secs();
        let r = self.record_usage_at(user_id, amount, now);
        proof {
            let (m, applied) = spec_record_usage(
                old(self)@,
                old(self).spec_default_max_usage(),
                old(self).spec_default_period_secs(),
                user_id,
                amount,
                now,
            );
            assert(self@ == m && (r is Ok) == applied);
        }
        r
    }
}

} // verus!
