use vstd::prelude::*;
use crate::types::{copy_results, results_view, SearchResult};

verus! {

#[verifier::external_type_specification]
#[verifier::external_body]
#[verifier::reject_recursive_types(K)]
#[verifier::reject_recursive_types(V)]
#[verifier::reject_recursive_types(S)]
pub struct ExLruCache<K, V, S>(lru::LruCache<K, V, S>);

#[verifier::external_type_specification]
#[verifier::external_body]
pub struct ExInstant(std::time::Instant);

/// Default number of cached queries.
pub const DEFAULT_CAPACITY: usize = 100;

/// Milliseconds in a second.
pub const MILLIS_PER_SECOND: u64 = 1000;

/// One cached answer: the results of a query and when they were stored, in
/// milliseconds of the cache's clock.
pub struct CacheEntry {
    pub results: Vec<SearchResult>,
    pub timestamp: u64,
}

/// The store behind the cache.
pub type LruStore = lru::LruCache<String, CacheEntry, std::collections::hash_map::RandomState>;

/// The store's entries, most recently used first, as (key, entry) pairs.
pub uninterp spec fn lru_items(c: LruStore) -> Seq<(Seq<char>, CacheEntry)>;

/// The number of entries the store was made to hold.
pub uninterp spec fn lru_capacity(c: LruStore) -> nat;

/// No key occurs twice and there are at most `cap` entries.
pub open spec fn items_wf<V>(s: Seq<(Seq<char>, V)>, cap: nat) -> bool {
    &&& s.len() <= cap
    &&& forall|i: int, j: int| 0 <= i < j < s.len() ==> s[i].0 != s[j].0
}

/// Where `k` stands among the entries, or -1.
pub open spec fn key_pos<V>(s: Seq<(Seq<char>, V)>, k: Seq<char>) -> int {
    if exists|i: int| 0 <= i < s.len() && s[i].0 == k {
        choose|i: int| 0 <= i < s.len() && s[i].0 == k
    } else {
        -1
    }
}

/// The entries after the one at `i` is used: it moves to the front.
pub open spec fn touched<V>(s: Seq<(Seq<char>, V)>, i: int) -> Seq<(Seq<char>, V)> {
    seq![s[i]] + s.remove(i)
}

/// The entries that stay behind a new entry of key `k`: one of the same key
/// leaves, else the least recently used one leaves when the store is full.
pub open spec fn put_rest<V>(
    s: Seq<(Seq<char>, V)>,
    k: Seq<char>,
    cap: nat,
) -> Seq<(Seq<char>, V)> {
    if key_pos(s, k) >= 0 {
        s.remove(key_pos(s, k))
    } else if s.len() == cap {
        s.drop_last()
    } else {
        s
    }
}

/// The entries after `(k, v)` is stored: it stands first, before `put_rest`.
pub open spec fn put_items<V>(
    s: Seq<(Seq<char>, V)>,
    k: Seq<char>,
    v: V,
    cap: nat,
) -> Seq<(Seq<char>, V)> {
    seq![(k, v)] + put_rest(s, k, cap)
}

/// Whether a lookup of `k` at `now` finds an entry younger than `ttl`.
pub open spec fn lookup_hit(s: Seq<(Seq<char>, CacheEntry)>, k: Seq<char>, ttl: u64, now: u64) -> bool {
    key_pos(s, k) >= 0 && elapsed(now, s[key_pos(s, k)].1.timestamp) < ttl
}

/// The entries after a lookup of `k` at `now`: a valid entry moves to the
/// front, an expired one leaves.
pub open spec fn after_lookup(
    s: Seq<(Seq<char>, CacheEntry)>,
    k: Seq<char>,
    ttl: u64,
    now: u64,
) -> Seq<(Seq<char>, CacheEntry)> {
    if key_pos(s, k) < 0 {
        s
    } else if lookup_hit(s, k, ttl, now) {
        touched(s, key_pos(s, k))
    } else {
        s.remove(key_pos(s, k))
    }
}

/// The entries after the one of key `k`, if any, is removed.
pub open spec fn removed<V>(s: Seq<(Seq<char>, V)>, k: Seq<char>) -> Seq<(Seq<char>, V)> {
    if key_pos(s, k) >= 0 {
        s.remove(key_pos(s, k))
    } else {
        s
    }
}

/// Relies on `lru::LruCache::with_hasher`: an empty store that holds `cap`
/// entries.
#[verifier::external_body]
fn lru_new(cap: usize) -> (r: LruStore)
    requires
        cap > 0,
    ensures
        lru_items(r) == Seq::<(Seq<char>, CacheEntry)>::empty(),
        lru_capacity(r) == cap,
{
    let cap = std::num::NonZeroUsize::new(cap).unwrap();
    lru::LruCache::with_hasher(cap, std::collections::hash_map::RandomState::new())
}

/// Relies on `lru::LruCache::get`: it tells whether `key` is present and
/// moves its entry to the front.
#[verifier::external_body]
fn lru_touch(c: &mut LruStore, key: &str) -> (r: bool)
    requires
        items_wf(lru_items(*old(c)), lru_capacity(*old(c))),
    ensures
        lru_capacity(*final(c)) == lru_capacity(*old(c)),
        r == (key_pos(lru_items(*old(c)), key@) >= 0),
        r ==> lru_items(*final(c)) == touched(lru_items(*old(c)), key_pos(lru_items(*old(c)), key@)),
        !r ==> lru_items(*final(c)) == lru_items(*old(c)),
{
    c.get(key).is_some()
}

/// Relies on `lru::LruCache::peek`: the entry of `key`, order unchanged.
#[verifier::external_body]
fn lru_peek<'a>(c: &'a LruStore, key: &str) -> (r: Option<&'a CacheEntry>)
    requires
        items_wf(lru_items(*c), lru_capacity(*c)),
    ensures
        match r {
            Some(e) => key_pos(lru_items(*c), key@) >= 0 && *e == lru_items(*c)[key_pos(lru_items(*c), key@)].1,
            None => key_pos(lru_items(*c), key@) < 0,
        },
{
    c.peek(key)
}

/// Relies on `lru::LruCache::put`: stores the entry at the front, replacing
/// one of the same key or else evicting the least recently used one when full.
#[verifier::external_body]
fn lru_put(c: &mut LruStore, key: String, v: CacheEntry)
    requires
        items_wf(lru_items(*old(c)), lru_capacity(*old(c))),
    ensures
        lru_capacity(*final(c)) == lru_capacity(*old(c)),
        lru_items(*final(c)) == put_items(lru_items(*old(c)), key@, v, lru_capacity(*old(c))),
{
    c.put(key, v);
}

/// Relies on `lru::LruCache::pop`: removes the entry of `key`, if any.
#[verifier::external_body]
fn lru_pop(c: &mut LruStore, key: &str)
    requires
        items_wf(lru_items(*old(c)), lru_capacity(*old(c))),
    ensures
        lru_capacity(*final(c)) == lru_capacity(*old(c)),
        lru_items(*final(c)) == removed(lru_items(*old(c)), key@),
{
    c.pop(key);
}

/// Relies on `lru::LruCache::clear`: removes every entry.
#[verifier::external_body]
fn lru_clear(c: &mut LruStore)
    ensures
        lru_capacity(*final(c)) == lru_capacity(*old(c)),
        lru_items(*final(c)) == Seq::<(Seq<char>, CacheEntry)>::empty(),
{
    c.clear();
}

/// Relies on `lru::LruCache::len`: the number of entries.
#[verifier::external_body]
fn lru_len(c: &LruStore) -> (r: usize)
    ensures
        r == lru_items(*c).len(),
{
    c.len()
}

/// Relies on `std::time::Instant::now`: a point of the monotonic clock.
#[verifier::external_body]
fn clock_start() -> (r: std::time::Instant) {
    std::time::Instant::now()
}

/// Relies on `std::time::Instant::elapsed`: whole milliseconds since
/// `origin`; nothing is known of the value.
#[verifier::external_body]
fn millis_since(origin: &std::time::Instant) -> (r: u64) {
    origin.elapsed().as_millis() as u64
}

/// Milliseconds from `stamp` to `now`, zero if the clock reads earlier.
pub open spec fn elapsed(now: u64, stamp: u64) -> nat {
    if now >= stamp {
        (now - stamp) as nat
    } else {
        0
    }
}

/// A TTL given in seconds, in milliseconds, held at `u64::MAX`.
pub open spec fn ttl_millis(ttl_seconds: u64) -> u64 {
    if ttl_seconds * 1000 > u64::MAX {
        u64::MAX
    } else {
        (ttl_seconds * 1000) as u64
    }
}

/// Bounded query-to-results store with least-recently-used eviction and a
/// time-to-live checked on lookup.
pub struct ResultCache {
    entries: LruStore,
    ttl_ms: u64,
    origin: std::time::Instant,
}

impl ResultCache {
    /// The entries, most recently used first.
    pub closed spec fn items(&self) -> Seq<(Seq<char>, CacheEntry)> {
        lru_items(self.entries)
    }

    /// The number of entries the cache holds at most.
    pub closed spec fn capacity(&self) -> nat {
        lru_capacity(self.entries)
    }

    /// How long an entry stays valid, in milliseconds.
    pub closed spec fn ttl(&self) -> u64 {
        self.ttl_ms
    }

    pub open spec fn wf(&self) -> bool {
        &&& items_wf(self.items(), self.capacity())
        &&& self.capacity() > 0
    }

    /// Whether an entry stored at `stamp` is still valid at `now`.
    pub open spec fn is_fresh(&self, now: u64, stamp: u64) -> bool {
        elapsed(now, stamp) < self.ttl()
    }

    /// Creates an empty cache of `capacity` entries (100 when zero is given)
    /// whose entries stay valid for `ttl_seconds`.
    pub fn new(capacity: usize, ttl_seconds: u64) -> (r: ResultCache)
        ensures
            r.wf(),
            r.items() == Seq::<(Seq<char>, CacheEntry)>::empty(),
            r.capacity() == (if capacity == 0 { DEFAULT_CAPACITY as nat } else { capacity as nat }),
            r.ttl() == ttl_millis(ttl_seconds),
    {
        let cap = if capacity == 0 { DEFAULT_CAPACITY } else { capacity };
        let ttl_ms = if ttl_seconds > u64::MAX / MILLIS_PER_SECOND {
            u64::MAX
        } else {
            ttl_seconds * MILLIS_PER_SECOND
        };
        ResultCache { entries: lru_new(cap), ttl_ms, origin: clock_start() }
    }

    /// Milliseconds on this cache's clock.
    pub fn now(&self) -> u64 {
        millis_since(&self.origin)
    }

    /// Looks `query` up at time `now`. A valid entry counts as a use and its
    /// results come back; an expired one is removed and counts as a miss.
    pub fn get_at(&mut self, query: &str, now: u64) -> (r: Option<Vec<SearchResult>>)
        requires
            old(self).wf(),
        ensures
            final(self).wf(),
            final(self).capacity() == old(self).capacity(),
            final(self).ttl() == old(self).ttl(),
            final(self).items() == after_lookup(old(self).items(), query@, old(self).ttl(), now),
            r is Some <==> lookup_hit(old(self).items(), query@, old(self).ttl(), now),
            r is Some ==> results_view(r->0@) == results_view(
                old(self).items()[key_pos(old(self).items(), query@)].1.results@,
            ),
    {
        let ghost s = self.items();
        let ghost i = key_pos(s, query@);
        proof { self.lemma_key_pos(query@); }
        if !lru_touch(&mut self.entries, query) {
            return None;
        }
        proof { lemma_touched_wf(s, i, self.capacity()); }
        let (fresh, found) = match lru_peek(&self.entries, query) {
            Some(e) => {
                let el = if now >= e.timestamp { now - e.timestamp } else { 0 };
                if el < self.ttl_ms {
                    (true, Some(copy_results(&e.results)))
                } else {
                    (false, None)
                }
            },
            None => (false, None),
        };
        proof { lemma_key_pos_front(touched(s, i), query@); }
        if fresh {
            found
        } else {
            lru_pop(&mut self.entries, query);
            proof {
                assert(touched(s, i).remove(0) =~= s.remove(i));
            }
            None
        }
    }

    /// Stores `results` under `query` at time `now`.
    pub fn put_at(&mut self, query: String, results: Vec<SearchResult>, now: u64)
        requires
            old(self).wf(),
        ensures
            final(self).wf(),
            final(self).capacity() == old(self).capacity(),
            final(self).ttl() == old(self).ttl(),
            final(self).items() == put_items(
                old(self).items(),
                query@,
                CacheEntry { results, timestamp: now },
                old(self).capacity(),
            ),
    {
        let ghost k = query@;
        let ghost e = CacheEntry { results, timestamp: now };
        proof { lemma_put_wf(self.items(), k, e, self.capacity()); }
        lru_put(&mut self.entries, query, CacheEntry { results, timestamp: now });
    }

    /// Looks `query` up now.
    pub fn get(&mut self, query: &str) -> (r: Option<Vec<SearchResult>>)
        requires
            old(self).wf(),
        ensures
            final(self).wf(),
            final(self).capacity() == old(self).capacity(),
            final(self).ttl() == old(self).ttl(),
            key_pos(old(self).items(), query@) < 0 ==> r is None,
            exists|now: u64|
                {
                    &&& final(self).items() == after_lookup(old(self).items(), query@, old(self).ttl(), now)
                    &&& (r is Some <==> lookup_hit(old(self).items(), query@, old(self).ttl(), now))
                    &&& (r is Some ==> results_view(r->0@) == results_view(
                        old(self).items()[key_pos(old(self).items(), query@)].1.results@,
                    ))
                },
    {
        let now = self.now();
        self.get_at(query, now)
    }

    /// Stores `results` under `query` now.
    pub fn put(&mut self, query: String, results: Vec<SearchResult>)
        requires
            old(self).wf(),
        ensures
            final(self).wf(),
            final(self).capacity() == old(self).capacity(),
            final(self).ttl() == old(self).ttl(),
            exists|now: u64|
                final(self).items() == put_items(
                    old(self).items(),
                    query@,
                    CacheEntry { results, timestamp: now },
                    old(self).capacity(),
                ),
    {
        let now = self.now();
        self.put_at(query, results, now);
    }

    /// Removes every entry.
    pub fn invalidate_all(&mut self)
        requires
            old(self).wf(),
        ensures
            final(self).wf(),
            final(self).capacity() == old(self).capacity(),
            final(self).ttl() == old(self).ttl(),
            final(self).items() == Seq::<(Seq<char>, CacheEntry)>::empty(),
    {
        lru_clear(&mut self.entries);
    }

    /// Removes the entry of `query`, if any.
    pub fn invalidate(&mut self, query: &str)
        requires
            old(self).wf(),
        ensures
            final(self).wf(),
            final(self).capacity() == old(self).capacity(),
            final(self).ttl() == old(self).ttl(),
            final(self).items() == removed(old(self).items(), query@),
    {
        proof { self.lemma_key_pos(query@); lemma_remove_wf(self.items(), key_pos(self.items(), query@), self.capacity()); }
        lru_pop(&mut self.entries, query);
    }

    /// The number of entries.
    pub fn len(&self) -> (r: usize)
        ensures
            r == self.items().len(),
    {
        lru_len(&self.entries)
    }

    /// Whether there are no entries.
    pub fn is_empty(&self) -> (r: bool)
        ensures
            r == (self.items().len() == 0),
    {
        lru_len(&self.entries) == 0
    }

    proof fn lemma_key_pos(&self, k: Seq<char>)
        requires
            self.wf(),
        ensures
            -1 <= key_pos(self.items(), k) < self.items().len(),
            key_pos(self.items(), k) >= 0 ==> self.items()[key_pos(self.items(), k)].0 == k,
            key_pos(self.items(), k) < 0 ==> forall|j: int| 0 <= j < self.items().len() ==> self.items()[j].0 != k,
    {
    }
}

/// A key at the front of the entries is found at position 0.
pub(crate) proof fn lemma_key_pos_front<V>(s: Seq<(Seq<char>, V)>, k: Seq<char>)
    requires
        s.len() > 0,
        s[0].0 == k,
        forall|i: int, j: int| 0 <= i < j < s.len() ==> s[i].0 != s[j].0,
    ensures
        key_pos(s, k) == 0,
{
    assert(s[0].0 == k);
}

pub(crate) proof fn lemma_remove_wf<V>(s: Seq<(Seq<char>, V)>, i: int, cap: nat)
    requires
        items_wf(s, cap),
        i < s.len(),
    ensures
        i >= 0 ==> items_wf(s.remove(i), cap),
{
    if i >= 0 {
        let t = s.remove(i);
        assert forall|a: int, b: int| 0 <= a < b < t.len() implies t[a].0 != t[b].0 by {
            let a2 = if a < i { a } else { a + 1 };
            let b2 = if b < i { b } else { b + 1 };
            assert(t[a] == s[a2] && t[b] == s[b2]);
        }
    }
}

pub(crate) proof fn lemma_touched_wf<V>(s: Seq<(Seq<char>, V)>, i: int, cap: nat)
    requires
        items_wf(s, cap),
        0 <= i < s.len(),
    ensures
        items_wf(touched(s, i), cap),
        touched(s, i).len() == s.len(),
        touched(s, i)[0] == s[i],
{
    lemma_remove_wf(s, i, cap);
    let t = touched(s, i);
    let r = s.remove(i);
    assert forall|a: int, b: int| 0 <= a < b < t.len() implies t[a].0 != t[b].0 by {
        if a == 0 {
            let b2 = if b - 1 < i { b - 1 } else { b };
            assert(t[b] == s[b2]);
            assert(b2 != i);
        } else {
            assert(t[a] == r[a - 1] && t[b] == r[b - 1]);
        }
    }
}

pub(crate) proof fn lemma_put_wf<V>(s: Seq<(Seq<char>, V)>, k: Seq<char>, v: V, cap: nat)
    requires
        items_wf(s, cap),
        cap > 0,
    ensures
        items_wf(put_items(s, k, v, cap), cap),
{
    let p = key_pos(s, k);
    let rest = put_rest(s, k, cap);
    if p >= 0 {
        lemma_remove_wf(s, p, cap);
    }
    assert(put_items(s, k, v, cap) == seq![(k, v)] + rest);
    assert forall|j: int| 0 <= j < rest.len() implies rest[j].0 != k by {
        if p >= 0 {
            let j2 = if j < p { j } else { j + 1 };
            assert(rest[j] == s[j2]);
        } else {
            assert(rest[j] == s[j]);
        }
    }
    let t = seq![(k, v)] + rest;
    assert forall|a: int, b: int| 0 <= a < b < t.len() implies t[a].0 != t[b].0 by {
        if a == 0 {
            assert(t[b] == rest[b - 1]);
        } else {
            assert(t[a] == rest[a - 1] && t[b] == rest[b - 1]);
            if p >= 0 {
                let a2 = if a - 1 < p { a - 1 } else { a };
                let b2 = if b - 1 < p { b - 1 } else { b };
                assert(rest[a - 1] == s[a2] && rest[b - 1] == s[b2]);
            } else {
                assert(rest[a - 1] == s[a - 1] && rest[b - 1] == s[b - 1]);
            }
        }
    }
}

/// Right after an entry is stored, a lookup of its key before the TTL has
/// run out finds exactly that entry.
pub proof fn law_hit_after_put(
    s: Seq<(Seq<char>, CacheEntry)>,
    k: Seq<char>,
    e: CacheEntry,
    cap: nat,
    ttl: u64,
    now: u64,
)
    requires
        items_wf(s, cap),
        cap > 0,
        elapsed(now, e.timestamp) < ttl,
    ensures
        lookup_hit(put_items(s, k, e, cap), k, ttl, now),
        put_items(s, k, e, cap)[key_pos(put_items(s, k, e, cap), k)].1 == e,
{
    lemma_put_wf(s, k, e, cap);
    lemma_key_pos_front(put_items(s, k, e, cap), k);
}

/// Two lookups of a key, both before its entry's TTL has run out, find the
/// same entry: a cache hit is repeatable.
pub proof fn law_repeat_hit(
    s: Seq<(Seq<char>, CacheEntry)>,
    k: Seq<char>,
    cap: nat,
    ttl: u64,
    t1: u64,
    t2: u64,
)
    requires
        items_wf(s, cap),
        lookup_hit(s, k, ttl, t1),
        elapsed(t2, s[key_pos(s, k)].1.timestamp) < ttl,
    ensures
        lookup_hit(after_lookup(s, k, ttl, t1), k, ttl, t2),
        after_lookup(s, k, ttl, t1)[key_pos(after_lookup(s, k, ttl, t1), k)].1 == s[key_pos(
            s,
            k,
        )].1,
{
    let i = key_pos(s, k);
    lemma_touched_wf(s, i, cap);
    lemma_key_pos_front(touched(s, i), k);
}

/// Once the TTL has run out, a lookup of a stored entry misses and removes
/// it.
pub proof fn law_expired_after_ttl(
    s: Seq<(Seq<char>, CacheEntry)>,
    k: Seq<char>,
    e: CacheEntry,
    cap: nat,
    ttl: u64,
    now: u64,
)
    requires
        items_wf(s, cap),
        cap > 0,
        elapsed(now, e.timestamp) >= ttl,
    ensures
        !lookup_hit(put_items(s, k, e, cap), k, ttl, now),
        key_pos(after_lookup(put_items(s, k, e, cap), k, ttl, now), k) < 0,
{
    let t = put_items(s, k, e, cap);
    lemma_put_wf(s, k, e, cap);
    lemma_key_pos_front(t, k);
    let r = t.remove(0);
    assert(r =~= t.drop_first());
    assert forall|j: int| 0 <= j < r.len() implies r[j].0 != k by {
        assert(r[j] == t[j + 1]);
    }
}

/// In a cache of two entries, storing three different keys one after the
/// other evicts the first and keeps the other two.
pub proof fn law_lru_eviction(
    k1: Seq<char>,
    k2: Seq<char>,
    k3: Seq<char>,
    e1: CacheEntry,
    e2: CacheEntry,
    e3: CacheEntry,
)
    requires
        k1 != k2,
        k2 != k3,
        k1 != k3,
    ensures
        ({
            let s1 = put_items(Seq::empty(), k1, e1, 2);
            let s2 = put_items(s1, k2, e2, 2);
            let s3 = put_items(s2, k3, e3, 2);
            &&& key_pos(s3, k1) < 0
            &&& key_pos(s3, k2) >= 0 && s3[key_pos(s3, k2)].1 == e2
            &&& key_pos(s3, k3) >= 0 && s3[key_pos(s3, k3)].1 == e3
        }),
{
    let s0 = Seq::<(Seq<char>, CacheEntry)>::empty();
    let s1 = put_items(s0, k1, e1, 2);
    assert(key_pos(s0, k1) < 0);
    assert(s1 =~= seq![(k1, e1)]);
    let s2 = put_items(s1, k2, e2, 2);
    assert(key_pos(s1, k2) < 0) by {
        assert(s1[0].0 != k2);
    }
    assert(s2 =~= seq![(k2, e2), (k1, e1)]);
    let s3 = put_items(s2, k3, e3, 2);
    assert(key_pos(s2, k3) < 0) by {
        assert(s2[0].0 != k3 && s2[1].0 != k3);
    }
    assert(s3 =~= seq![(k3, e3), (k2, e2)]);
    assert(s3[0].0 == k3 && s3[1].0 == k2);
    assert(key_pos(s3, k1) < 0) by {
        assert(s3[0].0 != k1 && s3[1].0 != k1);
    }
    assert(key_pos(s3, k3) == 0) by {
        lemma_key_pos_front(s3, k3);
    }
    assert(key_pos(s3, k2) == 1) by {
        let i = key_pos(s3, k2);
        assert(s3[1].0 == k2);
        assert(0 <= i < 2 && s3[i].0 == k2);
    }
}

} // verus!
