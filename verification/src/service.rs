//! The locator facade: the one published `(handle, generation)` pair, the
//! eviction cache, and the refresh coordinator, combined into the entry
//! points the serving layer calls. A lookup reads the published pair as one
//! value and never touches the refresh state; a refresh never touches the
//! published pair until its single successful publish, which installs the
//! new handle and the advanced generation together.

use vstd::prelude::*;
use crate::cache::{GeoCache, after_get, find_key, key_of, put_model};
use crate::geolocator::{spec_outcome_result, GeoLocator, LookupError, ResolveOutcome};
use crate::ip::{parse_ip, spec_parse_ip, IpKey};
use crate::record::{CacheEntry, GeoData};
use crate::refresh::{ExtractOutcome, RefreshEvent, RefreshMachine, RefreshPhase, step};

verus! {

/// The published pair: one database handle and the generation that
/// identifies it, read and replaced only as a whole, so no reader ever sees
/// a new generation with an old handle or the reverse.
pub struct Published {
    pub locator: GeoLocator,
    pub generation: u64,
}

/// The entry under `k`, provided its tag matches the published generation
/// `g`; a stale or missing entry is no hit.
pub open spec fn cache_hit_entry(
    s: Seq<((u8, u128), CacheEntry)>,
    k: (u8, u128),
    g: u64,
) -> Option<CacheEntry> {
    let i = find_key(s, k);
    if i >= 0 && s[i].1.generation == g {
        Some(s[i].1)
    } else {
        None
    }
}

/// The whole service: cache, published pair, refresh coordinator, and the
/// validated handle waiting to be published, if a refresh has one in hand.
pub struct Service {
    cache: GeoCache,
    pair: Published,
    refresh: RefreshMachine,
    pending: Option<GeoLocator>,
}

impl Service {
    /// The cache's entries, in recency order.
    pub closed spec fn entries(self) -> Seq<((u8, u128), CacheEntry)> {
        self.cache.entries()
    }

    pub closed spec fn cache_capacity(self) -> nat {
        self.cache.capacity()
    }

    /// The published pair.
    pub closed spec fn published(self) -> Published {
        self.pair
    }

    /// The published generation: the one lookups tag cache entries with.
    pub open spec fn generation(self) -> u64 {
        self.published().generation
    }

    /// The refresh coordinator's state.
    pub closed spec fn machine(self) -> RefreshMachine {
        self.refresh
    }

    pub closed spec fn wf(self) -> bool {
        &&& self.cache.wf()
        &&& self.pair.generation == self.refresh.generation
        &&& (self.refresh.phase is Swapping ==> self.pending is Some)
    }

    /// Start serving: the initially loaded database is generation 1, the
    /// cache is empty, no refresh is in flight.
    pub fn new(locator: GeoLocator, cache_size: usize) -> (r: Service)
        requires
            1 <= cache_size,
        ensures
            r.wf(),
            r.generation() == 1,
            r.machine() == (RefreshMachine {
                phase: RefreshPhase::Idle,
                generation: 1u64,
                last_error: None,
            }),
            r.entries() == Seq::<((u8, u128), CacheEntry)>::empty(),
            r.cache_capacity() == cache_size as nat,
    {
        Service {
            cache: GeoCache::new(cache_size),
            pair: Published { locator, generation: 1 },
            refresh: RefreshMachine::new(1),
            pending: None,
        }
    }

    /// One cached lookup: the request path's single entry point. The
    /// published pair is read once, as a whole; a fresh-tagged cache entry
    /// answers without a probe; otherwise the probe's outcome is applied to
    /// the cache — a found record is stored under the generation that was
    /// read, errors are never cached — and returned. The refresh state and
    /// the published pair are never touched: a lookup cannot disturb a
    /// refresh, nor a refresh an in-flight lookup.
    pub fn resolve(&mut self, ip: &str) -> (r: Result<GeoData, LookupError>)
        requires
            old(self).wf(),
        ensures
            final(self).wf(),
            final(self).published() == old(self).published(),
            final(self).machine() == old(self).machine(),
            final(self).cache_capacity() == old(self).cache_capacity(),
            (spec_parse_ip(ip@) is None) <==> r == Err::<GeoData, LookupError>(
                LookupError::InvalidInput,
            ),
            spec_parse_ip(ip@) is None ==> final(self).entries() == old(self).entries(),
            spec_parse_ip(ip@) matches Some(key) ==> ({
                let k = key_of(key);
                let s = old(self).entries();
                let g = old(self).generation();
                let s1 = after_get(s, k);
                match cache_hit_entry(s, k, g) {
                    Some(e) => r == Ok::<GeoData, LookupError>(e.data) && final(self).entries()
                        == s1,
                    None => match r {
                        Ok(d) => final(self).entries() == put_model(
                            s1,
                            old(self).cache_capacity(),
                            k,
                            CacheEntry { generation: g, data: d },
                        ),
                        Err(e) => (e == LookupError::NotFound || e == LookupError::Internal)
                            && final(self).entries() == s1,
                    },
                }
            }),
    {
        let key = match parse_ip(ip) {
            None => {
                return Err(LookupError::InvalidInput);
            },
            Some(k) => k,
        };
        let g = self.pair.generation;
        if let Some(d) = cache_lookup(&mut self.cache, key, g) {
            return Ok(d);
        }
        let outcome = self.pair.locator.probe(ip);
        apply_resolve(&mut self.cache, key, g, outcome)
    }

    /// Try to start a refresh. Started exactly when none was in flight; a
    /// concurrent trigger is rejected and nothing changes.
    pub fn refresh_begin(&mut self) -> (started: bool)
        requires
            old(self).wf(),
        ensures
            final(self).wf(),
            final(self).machine() == step(old(self).machine(), RefreshEvent::Begin),
            started == (old(self).machine().phase is Idle),
            final(self).published() == old(self).published(),
            final(self).entries() == old(self).entries(),
    {
        self.refresh.begin()
    }

    /// The driver fetched the archive, or failed to. Nothing observable
    /// changes but the coordinator's state.
    pub fn refresh_fetched(&mut self, ok: bool)
        requires
            old(self).wf(),
            old(self).machine().phase is Fetching,
        ensures
            final(self).wf(),
            final(self).machine() == step(old(self).machine(), RefreshEvent::FetchDone(ok)),
            final(self).published() == old(self).published(),
            final(self).entries() == old(self).entries(),
    {
        self.refresh.fetched(ok);
    }

    /// The driver scanned the archive and, if a database file was there,
    /// wrote it to the temporary path — never the live one.
    pub fn refresh_extracted(&mut self, outcome: ExtractOutcome)
        requires
            old(self).wf(),
            old(self).machine().phase is Extracting,
        ensures
            final(self).wf(),
            final(self).machine() == step(old(self).machine(), RefreshEvent::ExtractDone(outcome)),
            final(self).published() == old(self).published(),
            final(self).entries() == old(self).entries(),
    {
        self.refresh.extracted(outcome);
    }

    /// The driver tried to load the temporary file as a database. A handle
    /// proves the file well formed and is held back, unpublished, until the
    /// rename lands; failure aborts the attempt with the prior snapshot
    /// untouched.
    pub fn refresh_validated(&mut self, loaded: Option<GeoLocator>)
        requires
            old(self).wf(),
            old(self).machine().phase is Validating,
        ensures
            final(self).wf(),
            final(self).machine() == step(
                old(self).machine(),
                RefreshEvent::ValidateDone(loaded is Some),
            ),
            final(self).published() == old(self).published(),
            final(self).entries() == old(self).entries(),
    {
        let ok = loaded.is_some();
        self.refresh.validated(ok);
        self.pending = loaded;
    }

    /// The driver renamed the validated temporary file onto the live path,
    /// or failed to. Success is the single publish: the pending handle and
    /// the advanced generation become the published pair together, in one
    /// step. Failure leaves the published pair exactly as it was.
    pub fn refresh_renamed(&mut self, ok: bool)
        requires
            old(self).wf(),
            old(self).machine().phase is Swapping,
            old(self).generation() < u64::MAX,
        ensures
            final(self).wf(),
            final(self).machine() == step(old(self).machine(), RefreshEvent::RenameDone(ok)),
            final(self).entries() == old(self).entries(),
            ok ==> final(self).generation() == old(self).generation() + 1 && (old(
                self,
            ).pending_handle() matches Some(h) && final(self).published().locator == h),
            !ok ==> final(self).published() == old(self).published(),
    {
        self.refresh.renamed(ok);
        if ok {
            let next = self.pending.take();
            match next {
                Some(loc) => {
                    self.pair = Published { locator: loc, generation: self.refresh.generation };
                },
                None => {
                    // unreachable: in the swapping phase the invariant
                    // holds a validated handle in hand
                    proof {
                        assert(false);
                    }
                },
            }
        } else {
            self.pending = None;
        }
    }

    /// The validated handle waiting to be published, if any.
    pub closed spec fn pending_handle(self) -> Option<GeoLocator> {
        self.pending
    }

    /// The phase the refresh coordinator stands in, for the driver.
    pub fn machine_phase(&self) -> (p: RefreshPhase)
        ensures
            p == self.machine().phase,
    {
        self.refresh.phase
    }

    /// The published generation, for the driver.
    pub fn generation_now(&self) -> (g: u64)
        ensures
            g == self.generation(),
    {
        self.pair.generation
    }
}

/// The cache's answer for one key under the published generation `g`: a
/// hit exactly when an entry is present and its tag equals `g`. An entry
/// with any other tag is logically absent — it answers nothing, though
/// touching it still promotes it in recency.
pub fn cache_lookup(cache: &mut GeoCache, key: IpKey, generation: u64) -> (r: Option<GeoData>)
    requires
        old(cache).wf(),
    ensures
        final(cache).wf(),
        final(cache).capacity() == old(cache).capacity(),
        final(cache).entries() == after_get(old(cache).entries(), key_of(key)),
        r == match cache_hit_entry(old(cache).entries(), key_of(key), generation) {
            Some(e) => Some(e.data),
            None => None::<GeoData>,
        },
{
    match cache.get(key) {
        Some(e) => if e.generation == generation {
            Some(e.data)
        } else {
            None
        },
        None => None,
    }
}

/// Apply one probe outcome to the cache: exactly a
/// found record is cached, under the generation the caller read together
/// with the handle it probed; `NotFound` and failures leave the cache
/// untouched and are returned as errors.
pub fn apply_resolve(
    cache: &mut GeoCache,
    key: IpKey,
    generation: u64,
    outcome: ResolveOutcome,
) -> (r: Result<GeoData, LookupError>)
    requires
        old(cache).wf(),
    ensures
        final(cache).wf(),
        final(cache).capacity() == old(cache).capacity(),
        r == spec_outcome_result(outcome),
        match outcome {
            ResolveOutcome::Found(d) => final(cache).entries() == put_model(
                old(cache).entries(),
                old(cache).capacity(),
                key_of(key),
                CacheEntry { generation, data: d },
            ),
            _ => final(cache).entries() == old(cache).entries(),
        },
{
    match outcome {
        ResolveOutcome::Found(d) => {
            let copy = d.duplicate();
            cache.insert(key, copy, generation);
            Ok(d)
        },
        ResolveOutcome::NotFound => Err(LookupError::NotFound),
        ResolveOutcome::Failed => Err(LookupError::Internal),
    }
}

} // verus!
