//! The fetch/cache staleness state machine for orbital element sets.
//!
//! Per group key the manager moves through `Missing -> Fetching -> {Fresh,
//! Usable-Stale, Unavailable}`: cached data younger than two hours is served
//! without network access; older data triggers a refetch whose failure falls
//! back to the existing data unmodified — a fetch failure never blocks or
//! discards known-good prior data; only the no-prior-cache case surfaces
//! `Unavailable`. The storage and the network live outside this crate: the
//! caller reads the prior entry and performs the fetch, and this module makes
//! every decision about what to answer and what to persist.

use vstd::prelude::*;

verus! {

use crate::object::ElementRecord;

/// Cache staleness threshold in seconds: two hours.
pub const STALE_AFTER_SECONDS: u64 = 7_200;

/// Failure taxonomy of the element acquisition layer.
#[derive(Clone, Copy, PartialEq, Eq, Structural, Debug)]
pub enum CacheError {
    /// Transport failure or non-success status on the upstream fetch.
    Fetch,
    /// Malformed fetch payload.
    Parse,
    /// Storage access failure.
    Io,
}

/// One persisted cache entry for a group key: the last-fetched element array
/// and the Unix-seconds timestamp of that fetch.
#[derive(Clone, Debug)]
pub struct CacheEntry {
    pub fetched_at: u64,
    pub records: Vec<ElementRecord>,
}

/// An entry this old or older (in seconds) is due for a refetch.
pub open spec fn spec_is_stale(fetched_at: int, now: int) -> bool {
    now - fetched_at >= STALE_AFTER_SECONDS
}

/// Whether a get() for a key must go to the network: there is no prior entry,
/// or the prior entry has reached the staleness threshold.
pub open spec fn spec_needs_fetch(prior: Option<CacheEntry>, now: int) -> bool {
    match prior {
        None => true,
        Some(entry) => spec_is_stale(entry.fetched_at as int, now),
    }
}

/// Whether the caller must perform an upstream fetch before resolving a
/// get() for this key at time `now`.
pub fn needs_fetch(prior: &Option<CacheEntry>, now: u64) -> (r: bool)
    ensures
        r == spec_needs_fetch(*prior, now as int),
{
    match prior {
        None => true,
        Some(entry) => now >= entry.fetched_at && now - entry.fetched_at >= STALE_AFTER_SECONDS,
    }
}

/// The result of the upstream fetch the caller performed, or the mark that
/// none was needed.
pub enum FetchAttempt {
    /// No fetch was performed: the prior entry is young enough.
    NotAttempted,
    /// The fetch returned a well-formed element array.
    Fetched(Vec<ElementRecord>),
    /// The fetch failed.
    Failed(CacheError),
}

/// What a get() answers for one group key.
pub enum CacheOutcome {
    /// Data fetched just now, or cached data younger than the staleness
    /// threshold.
    Fresh(Vec<ElementRecord>),
    /// The refetch failed, and this is the existing cached data, kept
    /// deliberately: soft degradation, not an error.
    Stale(Vec<ElementRecord>),
    /// No prior data exists and the fetch failed; the caller may mark the
    /// group temporarily unselectable. Never an invented empty default.
    Unavailable(CacheError),
}

/// A settled get(): the answer, and whether its records are new and must be
/// persisted for the key (timestamped `now`, written atomically and then
/// published) before the next cycle.
pub struct Resolution {
    pub outcome: CacheOutcome,
    pub persist: bool,
}

/// Settles one get() for a group key at time `now`, from the prior persisted
/// entry and the outcome of the fetch the caller was told to perform by
/// [`needs_fetch`]. Success replaces the cache; failure falls back to any
/// prior data unmodified; only the no-prior-cache branch is hard.
pub fn resolve(prior: Option<CacheEntry>, now: u64, fetch: FetchAttempt) -> (r: Resolution)
    requires
        fetch is NotAttempted <==> !spec_needs_fetch(prior, now as int),
    ensures
        r.persist <==> fetch is Fetched,
        fetch matches FetchAttempt::Fetched(records) ==> r.outcome == CacheOutcome::Fresh(records),
        fetch is NotAttempted ==> (prior matches Some(entry) && r.outcome == CacheOutcome::Fresh(
            entry.records,
        )),
        fetch matches FetchAttempt::Failed(err) ==> match prior {
            Some(entry) => r.outcome == CacheOutcome::Stale(entry.records),
            None => r.outcome == CacheOutcome::Unavailable(err),
        },
{
    match fetch {
        FetchAttempt::NotAttempted => {
            match prior {
                Some(entry) => Resolution {
                    outcome: CacheOutcome::Fresh(entry.records),
                    persist: false,
                },
                None => {
                    // unreachable: needs_fetch is always true without a prior
                    // entry, so a fetch was attempted
                    proof {
                        assert(false);
                    }
                    Resolution { outcome: CacheOutcome::Unavailable(CacheError::Io), persist: false }
                },
            }
        },
        FetchAttempt::Fetched(records) => Resolution {
            outcome: CacheOutcome::Fresh(records),
            persist: true,
        },
        FetchAttempt::Failed(err) => {
            match prior {
                Some(entry) => Resolution {
                    outcome: CacheOutcome::Stale(entry.records),
                    persist: false,
                },
                None => Resolution { outcome: CacheOutcome::Unavailable(err), persist: false },
            }
        },
    }
}

/// Law: known-good prior data is never lost to a failed refetch — whenever a
/// prior entry exists, the settled outcome carries an element array (the new
/// one or the prior one), never `Unavailable`.
pub proof fn lemma_prior_data_never_discarded(
    prior: Option<CacheEntry>,
    now: u64,
    fetch: FetchAttempt,
    r: Resolution,
)
    requires
        prior is Some,
        fetch is NotAttempted <==> !spec_needs_fetch(prior, now as int),
        call_ensures(resolve, (prior, now, fetch), r),
    ensures
        !(r.outcome is Unavailable),
{
}

} // verus!
