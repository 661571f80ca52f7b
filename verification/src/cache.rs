//! The eviction cache: a bounded key-to-record store with least-recently-used
//! eviction. The store itself is the `lru` crate's cache; this module gives
//! it a mathematical model — its entries as a sequence in recency order,
//! most recent first — and keeps the bound and the keys' uniqueness as an
//! invariant across every operation.

use vstd::prelude::*;
use crate::ip::IpKey;
use crate::record::{CacheEntry, GeoData};

verus! {

/// The binary cache key: an address family tag and the address bits, so that
/// an IPv4 address and the IPv6 address with the same bits stay distinct.
pub open spec fn key_of(k: IpKey) -> (u8, u128) {
    match k {
        IpKey::V4(w) => (0u8, w as u128),
        IpKey::V6(v) => (1u8, v),
    }
}

fn key_bits(k: IpKey) -> (r: (u8, u128))
    ensures
        r == key_of(k),
{
    match k {
        IpKey::V4(w) => (0u8, w as u128),
        IpKey::V6(v) => (1u8, v),
    }
}

/// The backing store, kept by the `lru` crate. Verus sees a value of this
/// type only through `lru_entries` and `lru_cap` and the trusted operations
/// below.
#[verifier::external_body]
pub struct LruInner {
    inner: lru::LruCache<(u8, u128), CacheEntry>,
}

/// What the store holds: its entries as (key, entry) pairs in recency order,
/// the most recently used first.
pub uninterp spec fn lru_entries(c: LruInner) -> Seq<((u8, u128), CacheEntry)>;

/// The bound the store was created with.
pub uninterp spec fn lru_cap(c: LruInner) -> nat;

/// The first position holding `k`, or -1 when no entry does.
pub open spec fn find_key(s: Seq<((u8, u128), CacheEntry)>, k: (u8, u128)) -> int
    decreases s.len(),
{
    if s.len() == 0 {
        -1
    } else if s[0].0 == k {
        0
    } else {
        let r = find_key(s.drop_first(), k);
        if r < 0 {
            -1
        } else {
            r + 1
        }
    }
}

/// No two entries share a key.
pub open spec fn distinct_keys(s: Seq<((u8, u128), CacheEntry)>) -> bool {
    forall|i: int, j: int| 0 <= i < j < s.len() ==> s[i].0 != s[j].0
}

pub proof fn lemma_find_key(s: Seq<((u8, u128), CacheEntry)>, k: (u8, u128))
    ensures
        -1 <= find_key(s, k) < s.len(),
        find_key(s, k) >= 0 ==> s[find_key(s, k)].0 == k,
        find_key(s, k) < 0 ==> forall|i: int| 0 <= i < s.len() ==> s[i].0 != k,
    decreases s.len(),
{
    if s.len() > 0 && s[0].0 != k {
        lemma_find_key(s.drop_first(), k);
        assert forall|i: int| find_key(s, k) < 0 && 0 <= i < s.len() implies s[i].0 != k by {
            if i > 0 {
                assert(s.drop_first()[i - 1] == s[i]);
            }
        }
    }
}

/// What the store looks like after a lookup of `k`: unchanged on a miss; on
/// a hit the found entry moves to the front, the rest keep their order.
pub open spec fn after_get(
    s: Seq<((u8, u128), CacheEntry)>,
    k: (u8, u128),
) -> Seq<((u8, u128), CacheEntry)> {
    let i = find_key(s, k);
    if i < 0 {
        s
    } else {
        seq![s[i]] + s.remove(i)
    }
}

/// What the store looks like after an insert: the new entry in front; an
/// entry under the same key is dropped from its old place; with the store
/// full and the key fresh, the last entry — the least recently used — is
/// evicted.
pub open spec fn put_model(
    s: Seq<((u8, u128), CacheEntry)>,
    cap: nat,
    k: (u8, u128),
    e: CacheEntry,
) -> Seq<((u8, u128), CacheEntry)> {
    let i = find_key(s, k);
    if i >= 0 {
        seq![(k, e)] + s.remove(i)
    } else if s.len() >= cap {
        seq![(k, e)] + s.drop_last()
    } else {
        seq![(k, e)] + s
    }
}

/// Relies on lru::LruCache::new: an empty cache holding at most `cap`
/// entries.
#[verifier::external_body]
fn lru_new(cap: usize) -> (r: LruInner)
    requires
        1 <= cap,
    ensures
        lru_entries(r) == Seq::<((u8, u128), CacheEntry)>::empty(),
        lru_cap(r) == cap as nat,
{
    LruInner { inner: lru::LruCache::new(std::num::NonZeroUsize::new(cap).unwrap()) }
}

/// Relies on lru::LruCache::get: returns the entry under the key, if any,
/// and moves it to the head of the recency list, leaving the rest in order.
#[verifier::external_body]
fn lru_get(c: &mut LruInner, k: (u8, u128)) -> (r: Option<CacheEntry>)
    ensures
        lru_cap(*final(c)) == lru_cap(*old(c)),
        ({
            let s = lru_entries(*old(c));
            let i = find_key(s, k);
            if i < 0 {
                r is None && lru_entries(*final(c)) == s
            } else {
                r == Some(s[i].1) && lru_entries(*final(c)) == seq![s[i]] + s.remove(i)
            }
        }),
{
    c.inner.get(&k).cloned()
}

/// Relies on lru::LruCache::put: stores the entry under the key at the head
/// of the recency list; an entry already under the key leaves its old place,
/// and when the cache is full the tail entry — the least recently used — is
/// evicted to make room.
#[verifier::external_body]
fn lru_put(c: &mut LruInner, k: (u8, u128), e: CacheEntry)
    ensures
        lru_cap(*final(c)) == lru_cap(*old(c)),
        lru_entries(*final(c)) == put_model(lru_entries(*old(c)), lru_cap(*old(c)), k, e),
{
    c.inner.put(k, e);
}

/// The eviction cache: at most `capacity` tagged answers, evicted least
/// recently used first.
pub struct GeoCache {
    store: LruInner,
    capacity: usize,
}

impl GeoCache {
    /// The entries, in recency order, most recently used first.
    pub closed spec fn entries(self) -> Seq<((u8, u128), CacheEntry)> {
        lru_entries(self.store)
    }

    pub closed spec fn capacity(self) -> nat {
        self.capacity as nat
    }

    /// The cache's invariant: the bound is positive and respected, and no
    /// key occurs twice.
    pub closed spec fn wf(self) -> bool {
        &&& 1 <= self.capacity()
        &&& lru_cap(self.store) == self.capacity()
        &&& self.entries().len() <= self.capacity()
        &&& distinct_keys(self.entries())
    }

    pub fn new(size: usize) -> (r: GeoCache)
        requires
            1 <= size,
        ensures
            r.wf(),
            r.entries() == Seq::<((u8, u128), CacheEntry)>::empty(),
            r.capacity() == size as nat,
    {
        GeoCache { store: lru_new(size), capacity: size }
    }

    /// Look a key up. A hit returns the tagged entry and promotes it to most
    /// recently used; a miss changes nothing.
    pub fn get(&mut self, key: IpKey) -> (r: Option<CacheEntry>)
        requires
            old(self).wf(),
        ensures
            final(self).wf(),
            final(self).capacity() == old(self).capacity(),
            final(self).entries() == after_get(old(self).entries(), key_of(key)),
            ({
                let s = old(self).entries();
                let i = find_key(s, key_of(key));
                if i < 0 {
                    r is None && final(self).entries() == s
                } else {
                    r == Some(s[i].1) && final(self).entries() == seq![s[i]] + s.remove(i)
                }
            }),
    {
        let k = key_bits(key);
        let r = lru_get(&mut self.store, k);
        proof {
            let s = old(self).entries();
            lemma_find_key(s, k);
            let i = find_key(s, k);
            if i >= 0 {
                lemma_promote_wf(s, i);
            }
        }
        r
    }

    /// Store an answer under a key with the generation that produced it. The
    /// entry becomes the most recently used; on overflow exactly the least
    /// recently used entry is evicted.
    pub fn insert(&mut self, key: IpKey, data: GeoData, generation: u64)
        requires
            old(self).wf(),
        ensures
            final(self).wf(),
            final(self).capacity() == old(self).capacity(),
            final(self).entries() == put_model(
                old(self).entries(),
                old(self).capacity(),
                key_of(key),
                CacheEntry { generation, data },
            ),
            final(self).entries().len() <= old(self).capacity(),
    {
        let k = key_bits(key);
        let e = CacheEntry { generation, data };
        proof {
            lemma_put_model_wf(old(self).entries(), old(self).capacity(), k, e);
        }
        lru_put(&mut self.store, k, e);
    }
}

/// Law: however a well-formed cache is used, an insert leaves at most
/// `cap` entries; and when a full cache receives a key it does not hold,
/// exactly the least recently used entry — the last in recency order —
/// leaves: the new entry stands in front and every other entry survives in
/// order behind it.
pub proof fn lemma_insert_bounded_and_evicts_lru(
    s: Seq<((u8, u128), CacheEntry)>,
    cap: nat,
    k: (u8, u128),
    e: CacheEntry,
)
    requires
        distinct_keys(s),
        s.len() <= cap,
        1 <= cap,
    ensures
        put_model(s, cap, k, e).len() <= cap,
        find_key(s, k) < 0 && s.len() == cap ==> put_model(s, cap, k, e) == seq![(k, e)]
            + s.drop_last(),
{
    lemma_put_model_wf(s, cap, k, e);
}

/// Law: a lookup never grows or shrinks the cache — a hit only reorders it
/// and a miss leaves it untouched — so no sequence of lookups and inserts
/// ever pushes it past its capacity.
pub proof fn lemma_get_preserves_entries(s: Seq<((u8, u128), CacheEntry)>, k: (u8, u128))
    ensures
        after_get(s, k).len() == s.len(),
{
    lemma_find_key(s, k);
}

/// Promoting one entry to the front keeps the length and the keys'
/// uniqueness.
proof fn lemma_promote_wf(s: Seq<((u8, u128), CacheEntry)>, i: int)
    requires
        0 <= i < s.len(),
        distinct_keys(s),
    ensures
        (seq![s[i]] + s.remove(i)).len() == s.len(),
        distinct_keys(seq![s[i]] + s.remove(i)),
{
    let t = seq![s[i]] + s.remove(i);
    assert forall|p: int, q: int| 0 <= p < q < t.len() implies t[p].0 != t[q].0 by {
        let orig = |x: int| if x == 0 { i } else if x <= i { x - 1 } else { x };
        assert(t[p] == s[orig(p)]);
        assert(t[q] == s[orig(q)]);
        assert(orig(p) != orig(q));
    }
}

/// An insert keeps the bound and the keys' uniqueness.
proof fn lemma_put_model_wf(s: Seq<((u8, u128), CacheEntry)>, cap: nat, k: (u8, u128), e: CacheEntry)
    requires
        distinct_keys(s),
        s.len() <= cap,
        1 <= cap,
    ensures
        put_model(s, cap, k, e).len() <= cap,
        distinct_keys(put_model(s, cap, k, e)),
        put_model(s, cap, k, e)[0] == (k, e),
{
    lemma_find_key(s, k);
    let i = find_key(s, k);
    let t = put_model(s, cap, k, e);
    if i >= 0 {
        assert forall|p: int, q: int| 0 <= p < q < t.len() implies t[p].0 != t[q].0 by {
            let orig = |x: int| if x <= i { x - 1 } else { x };
            if p > 0 {
                assert(t[p] == s[orig(p)]);
            }
            assert(t[q] == s[orig(q)]);
            if p == 0 {
                assert(t[q].0 != k);
            }
        }
    } else if s.len() >= cap {
        assert forall|p: int, q: int| 0 <= p < q < t.len() implies t[p].0 != t[q].0 by {
            if p == 0 {
                assert(t[q] == s[q - 1] && s[q - 1].0 != k);
            } else {
                assert(t[p] == s[p - 1] && t[q] == s[q - 1]);
            }
        }
    } else {
        assert forall|p: int, q: int| 0 <= p < q < t.len() implies t[p].0 != t[q].0 by {
            if p == 0 {
                assert(t[q] == s[q - 1] && s[q - 1].0 != k);
            } else {
                assert(t[p] == s[p - 1] && t[q] == s[q - 1]);
            }
        }
    }
}

} // verus!
