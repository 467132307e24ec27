//! Values kept by symbol or identifier, and the time-limited caches built on
//! them: technical indicators by symbol, and market-data answers by request.
use vstd::prelude::*;
use vstd::string::*;
use crate::text::same_text;

verus! {

/// Values kept by a text key, at most one per key, in insertion order.
pub struct KeyedStore<T> {
    entries: Vec<(String, T)>,
    contents: Ghost<Map<Seq<char>, T>>,
}

impl<T> KeyedStore<T> {
    /// Keys are distinct, and each key's value is the one in `view`.
    pub closed spec fn wf(&self) -> bool {
        &&& forall|i: int, j: int| 0 <= i < j < self.entries@.len() ==> self.entries@[i].0@ != self.entries@[j].0@
        &&& forall|i: int| 0 <= i < self.entries@.len() ==> #[trigger] self.contents@.contains_key(self.entries@[i].0@)
            && self.contents@[self.entries@[i].0@] == self.entries@[i].1
        &&& forall|k: Seq<char>| #[trigger] self.contents@.contains_key(k) ==> exists|i: int| 0 <= i < self.entries@.len()
            && self.entries@[i].0@ == k
    }

    /// The value kept under each key.
    pub closed spec fn view(&self) -> Map<Seq<char>, T> {
        self.contents@
    }

    /// The keys, in insertion order.
    pub closed spec fn key_order(&self) -> Seq<Seq<char>> {
        self.entries@.map_values(|e: (String, T)| e.0@)
    }

    /// An empty store.
    pub fn new() -> (r: Self)
        ensures
            r.wf(),
            r@ == Map::<Seq<char>, T>::empty(),
    {
        KeyedStore { entries: Vec::new(), contents: Ghost(Map::empty()) }
    }

    /// The number of keys.
    pub fn len(&self) -> (r: usize)
        requires
            self.wf(),
        ensures
            r == self@.dom().len(),
            r == self.key_order().len(),
    {
        proof {
            self.lemma_dom_is_keys();
        }
        self.entries.len()
    }

    proof fn lemma_dom_is_keys(&self)
        requires
            self.wf(),
        ensures
            self@.dom() == self.key_order().to_set(),
            self.key_order().no_duplicates(),
            self@.dom().len() == self.entries@.len(),
            self@.dom().finite(),
    {
        let ks = self.key_order();
        assert(self@.dom() =~= ks.to_set()) by {
            assert forall|k: Seq<char>| self@.dom().contains(k) implies ks.to_set().contains(k) by {
                let i = choose|i: int| 0 <= i < self.entries@.len() && self.entries@[i].0@ == k;
                assert(ks[i] == k);
            }
            assert forall|k: Seq<char>| ks.to_set().contains(k) implies self@.dom().contains(k) by {
                let i = choose|i: int| 0 <= i < ks.len() && ks[i] == k;
                assert(self.contents@.contains_key(self.entries@[i].0@));
            }
        }
        assert(ks.no_duplicates());
        ks.unique_seq_to_set();
    }

    /// The keys in insertion order are the keys of the view, each once, and
    /// there are finitely many.
    pub proof fn lemma_keys_are_domain(&self)
        requires
            self.wf(),
        ensures
            self.key_order().to_set() == self@.dom(),
            self.key_order().no_duplicates(),
            self@.dom().finite(),
    {
        self.lemma_dom_is_keys();
    }

    fn find(&self, key: &str) -> (r: Option<usize>)
        requires
            self.wf(),
        ensures
            r matches Some(i) ==> i < self.entries@.len() && self.entries@[i as int].0@ == key@,
            r is None <==> !self@.contains_key(key@),
    {
        let mut i: usize = 0;
        while i < self.entries.len()
            invariant
                self.wf(),
                0 <= i <= self.entries@.len(),
                forall|j: int| 0 <= j < i ==> self.entries@[j].0@ != key@,
            decreases self.entries@.len() - i,
        {
            if same_text(self.entries[i].0.as_str(), key) {
                assert(self.contents@.contains_key(self.entries@[i as int].0@));
                return Some(i);
            }
            i = i + 1;
        }
        proof {
            if self@.contains_key(key@) {
                let j = choose|j: int| 0 <= j < self.entries@.len() && self.entries@[j].0@ == key@;
            }
        }
        None
    }

    /// Whether a value is kept under `key`.
    pub fn contains_key(&self, key: &str) -> (r: bool)
        requires
            self.wf(),
        ensures
            r == self@.contains_key(key@),
    {
        self.find(key).is_some()
    }

    /// The value kept under `key`.
    pub fn get(&self, key: &str) -> (r: Option<&T>)
        requires
            self.wf(),
        ensures
            r is Some <==> self@.contains_key(key@),
            r matches Some(v) ==> *v == self@[key@],
    {
        match self.find(key) {
            Some(i) => Some(&self.entries[i].1),
            None => None,
        }
    }

    /// Keeps `value` under `key`, replacing and returning the value kept
    /// there before.
    pub fn insert(&mut self, key: String, value: T) -> (r: Option<T>)
        requires
            old(self).wf(),
        ensures
            final(self).wf(),
            final(self)@ == old(self)@.insert(key@, value),
            r is Some <==> old(self)@.contains_key(key@),
            r matches Some(v) ==> v == old(self)@[key@],
    {
        let ghost k = key@;
        let ghost new_contents = self.contents@.insert(k, value);
        match self.find(key.as_str()) {
            Some(i) => {
                let ghost before = self.entries@;
                let (_, previous) = self.entries.remove(i);
                self.entries.insert(i, (key, value));
                assert(self.entries@ =~= before.update(i as int, self.entries@[i as int]));
                self.contents = Ghost(new_contents);
                proof {
                    assert forall|k2: Seq<char>| #[trigger] self.contents@.contains_key(k2) implies exists|j: int|
                        0 <= j < self.entries@.len() && self.entries@[j].0@ == k2 by {
                        if k2 != k {
                            let j = choose|j: int| 0 <= j < before.len() && before[j].0@ == k2;
                            assert(self.entries@[j] == before[j]);
                        } else {
                            assert(self.entries@[i as int].0@ == k2);
                        }
                    }
                }
                Some(previous)
            },
            None => {
                let ghost before = self.entries@;
                self.entries.push((key, value));
                self.contents = Ghost(new_contents);
                proof {
                    assert forall|j: int| 0 <= j < self.entries@.len() implies #[trigger] self.contents@.contains_key(self.entries@[j].0@)
                        && self.contents@[self.entries@[j].0@] == self.entries@[j].1 by {
                        if j < before.len() {
                            assert(self.entries@[j] == before[j]);
                        }
                    }
                    assert forall|k2: Seq<char>| #[trigger] self.contents@.contains_key(k2) implies exists|j: int|
                        0 <= j < self.entries@.len() && self.entries@[j].0@ == k2 by {
                        if k2 != k {
                            let j = choose|j: int| 0 <= j < before.len() && before[j].0@ == k2;
                            assert(self.entries@[j] == before[j]);
                        } else {
                            assert(self.entries@[before.len() as int].0@ == k2);
                        }
                    }
                }
                None
            },
        }
    }

    /// Removes and returns the value kept under `key`.
    pub fn remove(&mut self, key: &str) -> (r: Option<T>)
        requires
            old(self).wf(),
        ensures
            final(self).wf(),
            final(self)@ == old(self)@.remove(key@),
            r is Some <==> old(self)@.contains_key(key@),
            r matches Some(v) ==> v == old(self)@[key@],
    {
        match self.find(key) {
            Some(i) => {
                let ghost before = self.entries@;
                let ghost new_contents = self.contents@.remove(key@);
                let (_, v) = self.entries.remove(i);
                self.contents = Ghost(new_contents);
                proof {
                    assert forall|j: int| 0 <= j < self.entries@.len() implies #[trigger] self.contents@.contains_key(self.entries@[j].0@)
                        && self.contents@[self.entries@[j].0@] == self.entries@[j].1 by {
                        if j < i {
                            assert(self.entries@[j] == before[j]);
                            assert(before[j].0@ != before[i as int].0@);
                        } else {
                            assert(self.entries@[j] == before[j + 1]);
                            assert(before[i as int].0@ != before[j + 1].0@);
                        }
                    }
                    assert forall|k2: Seq<char>| #[trigger] self.contents@.contains_key(k2) implies exists|j: int|
                        0 <= j < self.entries@.len() && self.entries@[j].0@ == k2 by {
                        let j = choose|j: int| 0 <= j < before.len() && before[j].0@ == k2;
                        if j < i {
                            assert(self.entries@[j] == before[j]);
                        } else {
                            assert(j != i);
                            assert(self.entries@[j - 1] == before[j]);
                        }
                    }
                }
                Some(v)
            },
            None => {
                assert(self.contents@.remove(key@) =~= self.contents@);
                None
            },
        }
    }

    /// The key at position `i` in insertion order.
    pub fn key_at(&self, i: usize) -> (r: &String)
        requires
            self.wf(),
            i < self.key_order().len(),
        ensures
            r@ == self.key_order()[i as int],
            self@.contains_key(r@),
    {
        &self.entries[i].0
    }

    /// The value at position `i` in insertion order.
    pub fn value_at(&self, i: usize) -> (r: &T)
        requires
            self.wf(),
            i < self.key_order().len(),
        ensures
            *r == self@[self.key_order()[i as int]],
    {
        assert(self.key_order()[i as int] == self.entries@[i as int].0@);
        assert(self.contents@.contains_key(self.entries@[i as int].0@));
        &self.entries[i].1
    }

    /// The keys, in insertion order.
    pub fn keys(&self) -> (r: Vec<String>)
        ensures
            r@.map_values(|s: String| s@) == self.key_order(),
    {
        let mut r: Vec<String> = Vec::new();
        let mut i: usize = 0;
        while i < self.entries.len()
            invariant
                0 <= i <= self.entries@.len(),
                r@.map_values(|s: String| s@) == self.key_order().subrange(0, i as int),
            decreases self.entries@.len() - i,
        {
            let k = self.entries[i].0.clone();
            assert(k@ == self.key_order()[i as int]);
            let ghost before = r@;
            r.push(k);
            assert(r@ == before.push(k));
            assert(r@.map_values(|s: String| s@) =~= before.map_values(|s: String| s@).push(k@));
            assert(r@.map_values(|s: String| s@) =~= self.key_order().subrange(0, i + 1));
            i = i + 1;
        }
        assert(self.key_order().subrange(0, self.entries@.len() as int) =~= self.key_order());
        r
    }
}

/// A cached value with its bookkeeping. Times are nanoseconds on a monotonic
/// clock.
#[derive(Debug, Clone, Copy, PartialEq, Eq)]
pub struct CacheEntry<T> {
    pub value: T,
    pub cached_at: u64,
    pub access_count: u64,
    pub last_accessed: u64,
}

/// The time from `since` to `now`, or zero when `now` is earlier (as a
/// monotonic clock's `elapsed` gives it).
pub open spec fn elapsed(now: u64, since: u64) -> int {
    if now >= since { now - since } else { 0 }
}

/// An entry has expired once more than `ttl` has passed since it was cached.
pub open spec fn is_expired<T>(e: CacheEntry<T>, ttl: u64, now: u64) -> bool {
    elapsed(now, e.cached_at) > ttl
}

/// The sum of the access counts of the entries under `keys`.
pub open spec fn access_total<T>(m: Map<Seq<char>, CacheEntry<T>>, keys: Seq<Seq<char>>) -> nat
    decreases keys.len(),
{
    if keys.len() == 0 {
        0
    } else {
        access_total(m, keys.drop_last()) + m[keys.last()].access_count as nat
    }
}

/// How many of the entries under `keys` have expired.
pub open spec fn expired_total<T>(m: Map<Seq<char>, CacheEntry<T>>, keys: Seq<Seq<char>>, ttl: u64, now: u64) -> nat
    decreases keys.len(),
{
    if keys.len() == 0 {
        0
    } else {
        expired_total(m, keys.drop_last(), ttl, now) + if is_expired(m[keys.last()], ttl, now) { 1nat } else { 0nat }
    }
}

/// What the cache holds: how many symbols, how many reads were served, and
/// how many entries have expired.
#[derive(Debug, Clone, Copy, PartialEq, Eq, Structural)]
pub struct CacheCounts {
    pub total_symbols: usize,
    pub total_access_count: u64,
    pub expired_count: usize,
}

/// The time between clean-ups of expired entries: 60 seconds.
pub const CLEANUP_INTERVAL_NANOS: u64 = 60_000_000_000;

/// Values by symbol that are served for a limited time after they were
/// cached.
pub struct TimedCache<T> {
    entries: KeyedStore<CacheEntry<T>>,
    ttl: u64,
    last_cleanup: u64,
}

impl<T> TimedCache<T> {
    pub closed spec fn wf(&self) -> bool {
        self.entries.wf()
    }

    pub closed spec fn view(&self) -> Map<Seq<char>, CacheEntry<T>> {
        self.entries@
    }

    /// The entries' keys, oldest first.
    pub closed spec fn key_order(&self) -> Seq<Seq<char>> {
        self.entries.key_order()
    }

    pub closed spec fn ttl(&self) -> u64 {
        self.ttl
    }

    pub closed spec fn last_cleanup(&self) -> u64 {
        self.last_cleanup
    }

    /// An empty cache whose entries live for `ttl` nanoseconds, last cleaned
    /// at `now`.
    pub fn new(ttl: u64, now: u64) -> (r: Self)
        ensures
            r.wf(),
            r@ == Map::<Seq<char>, CacheEntry<T>>::empty(),
            r.ttl() == ttl,
            r.last_cleanup() == now,
    {
        TimedCache { entries: KeyedStore::new(), ttl, last_cleanup: now }
    }

    /// The value cached under `key` when it has not expired at `now`; a
    /// served read counts as an access made at `now`. Expired or missing
    /// entries are not served and leave the cache as it was.
    pub fn get_fresh(&mut self, key: &str, now: u64) -> (r: Option<&T>)
        requires
            old(self).wf(),
            old(self)@.contains_key(key@) ==> old(self)@[key@].access_count < u64::MAX,
        ensures
            final(self).wf(),
            final(self).ttl() == old(self).ttl(),
            final(self).last_cleanup() == old(self).last_cleanup(),
            !old(self)@.contains_key(key@) || is_expired(old(self)@[key@], old(self).ttl(), now) ==> {
                &&& r is None
                &&& final(self)@ == old(self)@
            },
            old(self)@.contains_key(key@) && !is_expired(old(self)@[key@], old(self).ttl(), now) ==> {
                let e = old(self)@[key@];
                &&& r matches Some(v) && *v == e.value
                &&& final(self)@ == old(self)@.insert(
                    key@,
                    CacheEntry { value: e.value, cached_at: e.cached_at, access_count: (e.access_count + 1) as u64, last_accessed: now },
                )
            },
    {
        let fresh = match self.entries.get(key) {
            Some(e) => !(now >= e.cached_at && now - e.cached_at > self.ttl),
            None => false,
        };
        if !fresh {
            return None;
        }
        let e = match self.entries.remove(key) {
            Some(e) => e,
            None => vstd::pervasive::unreached(),
        };
        let updated = CacheEntry {
            value: e.value,
            cached_at: e.cached_at,
            access_count: e.access_count + 1,
            last_accessed: now,
        };
        let _ = self.entries.insert(String::from_str(key), updated);
        assert(self.entries@ =~= old(self).entries@.insert(key@, updated));
        match self.entries.get(key) {
            Some(e) => Some(&e.value),
            None => vstd::pervasive::unreached(),
        }
    }

    /// Caches `value` under `key` as of `now`, with no accesses yet.
    pub fn update(&mut self, key: String, value: T, now: u64)
        requires
            old(self).wf(),
        ensures
            final(self).wf(),
            final(self).ttl() == old(self).ttl(),
            final(self).last_cleanup() == old(self).last_cleanup(),
            final(self)@ == old(self)@.insert(key@, CacheEntry { value, cached_at: now, access_count: 0, last_accessed: now }),
    {
        let _ = self.entries.insert(key, CacheEntry { value, cached_at: now, access_count: 0, last_accessed: now });
    }

    /// The counts of the cache at `now`.
    pub fn stats(&self, now: u64) -> (r: CacheCounts)
        requires
            self.wf(),
            access_total(self@, self.key_order()) <= u64::MAX,
        ensures
            r.total_symbols == self@.dom().len(),
            r.total_access_count == access_total(self@, self.key_order()),
            r.expired_count == expired_total(self@, self.key_order(), self.ttl(), now),
    {
        let n = self.entries.len();
        let mut total: u64 = 0;
        let mut expired: usize = 0;
        let mut i: usize = 0;
        while i < n
            invariant
                self.wf(),
                n == self.key_order().len(),
                0 <= i <= n,
                access_total(self@, self.key_order()) <= u64::MAX,
                total == access_total(self@, self.key_order().subrange(0, i as int)),
                expired == expired_total(self@, self.key_order().subrange(0, i as int), self.ttl, now),
                expired <= i,
            decreases n - i,
        {
            let e = self.entries.value_at(i);
            let ghost ks = self.key_order().subrange(0, i + 1);
            assert(ks.drop_last() =~= self.key_order().subrange(0, i as int));
            proof {
                lemma_access_prefix(self@, self.key_order(), i + 1);
            }
            total = total + e.access_count;
            if now >= e.cached_at && now - e.cached_at > self.ttl {
                expired = expired + 1;
            }
            i = i + 1;
        }
        assert(self.key_order().subrange(0, n as int) =~= self.key_order());
        CacheCounts { total_symbols: n, total_access_count: total, expired_count: expired }
    }

    /// Removes the entries that have expired at `now`, at most once a minute:
    /// when less than a minute has passed since the last clean-up nothing
    /// changes. Returns how many entries were removed.
    pub fn cleanup_expired(&mut self, now: u64) -> (r: usize)
        requires
            old(self).wf(),
        ensures
            final(self).wf(),
            final(self).ttl() == old(self).ttl(),
            elapsed(now, old(self).last_cleanup()) <= CLEANUP_INTERVAL_NANOS ==> {
                &&& r == 0
                &&& final(self)@ == old(self)@
                &&& final(self).last_cleanup() == old(self).last_cleanup()
            },
            elapsed(now, old(self).last_cleanup()) > CLEANUP_INTERVAL_NANOS ==> {
                &&& final(self).last_cleanup() == now
                &&& forall|k: Seq<char>| #[trigger] final(self)@.contains_key(k) <==> (old(self)@.contains_key(k)
                    && !is_expired(old(self)@[k], old(self).ttl(), now))
                &&& forall|k: Seq<char>| #[trigger] final(self)@.contains_key(k) ==> final(self)@[k] == old(self)@[k]
                &&& r == old(self)@.dom().len() - final(self)@.dom().len()
            },
    {
        if !(now >= self.last_cleanup && now - self.last_cleanup > CLEANUP_INTERVAL_NANOS) {
            return 0;
        }
        let n = self.entries.len();
        let mut doomed: Vec<String> = Vec::new();
        let mut i: usize = 0;
        while i < n
            invariant
                self.wf(),
                self@ == old(self)@,
                self.ttl == old(self).ttl(),
                n == self.key_order().len(),
                0 <= i <= n,
                forall|j: int| 0 <= j < doomed@.len() ==> #[trigger] self@.contains_key(doomed@[j]@)
                    && is_expired(self@[doomed@[j]@], self.ttl, now),
                forall|j: int| 0 <= j < i && is_expired(self@[#[trigger] self.key_order()[j]], self.ttl, now)
                    ==> exists|m: int| 0 <= m < doomed@.len() && doomed@[m]@ == self.key_order()[j],
            decreases n - i,
        {
            let e = self.entries.value_at(i);
            let ghost before = doomed@;
            if now >= e.cached_at && now - e.cached_at > self.ttl {
                let k = self.entries.key_at(i).clone();
                doomed.push(k);
                assert(doomed@[doomed@.len() - 1]@ == self.key_order()[i as int]);
            }
            proof {
                assert forall|j: int| 0 <= j < i + 1 && is_expired(self@[#[trigger] self.key_order()[j]], self.ttl, now)
                    implies exists|m: int| 0 <= m < doomed@.len() && doomed@[m]@ == self.key_order()[j] by {
                    if j < i {
                        let m = choose|m: int| 0 <= m < before.len() && before[m]@ == self.key_order()[j];
                        assert(doomed@[m] == before[m]);
                    } else {
                        assert(doomed@[doomed@.len() - 1]@ == self.key_order()[j]);
                    }
                }
            }
            i = i + 1;
        }
        proof {
            self.entries.lemma_dom_is_keys();
            assert forall|k: Seq<char>| #[trigger] old(self)@.contains_key(k) && is_expired(old(self)@[k], old(self).ttl(), now)
                implies exists|m: int| 0 <= m < doomed@.len() && doomed@[m]@ == k by {
                assert(self.key_order().to_set().contains(k));
                let j = choose|j: int| 0 <= j < self.key_order().len() && self.key_order()[j] == k;
                assert(is_expired(self@[self.key_order()[j]], self.ttl, now));
            }
        }
        let mut removed: usize = 0;
        let mut d: usize = 0;
        while d < doomed.len()
            invariant
                self.wf(),
                self.ttl == old(self).ttl(),
                0 <= d <= doomed@.len(),
                forall|k: Seq<char>| #[trigger] self@.contains_key(k) ==> old(self)@.contains_key(k) && self@[k] == old(self)@[k],
                forall|k: Seq<char>| #[trigger] old(self)@.contains_key(k) && !is_expired(old(self)@[k], old(self).ttl(), now)
                    ==> self@.contains_key(k),
                forall|j: int| 0 <= j < d ==> !self@.contains_key(#[trigger] doomed@[j]@),
                forall|j: int| 0 <= j < doomed@.len() ==> #[trigger] old(self)@.contains_key(doomed@[j]@)
                    && is_expired(old(self)@[doomed@[j]@], old(self).ttl(), now),
                forall|k: Seq<char>| #[trigger] old(self)@.contains_key(k) && is_expired(old(self)@[k], old(self).ttl(), now)
                    ==> exists|m: int| 0 <= m < doomed@.len() && doomed@[m]@ == k,
                self@.dom().finite(),
                old(self)@.dom().finite(),
                old(self)@.dom().len() == n,
                self@.dom().len() <= old(self)@.dom().len(),
                removed == old(self)@.dom().len() - self@.dom().len(),
            decreases doomed@.len() - d,
        {
            let ghost before = self@;
            let gone = self.entries.remove(doomed[d].as_str());
            if gone.is_some() {
                proof {
                    assert(before.dom().contains(doomed@[d as int]@));
                    assert(self@.dom() =~= before.dom().remove(doomed@[d as int]@));
                    assert(self@.dom().len() == before.dom().len() - 1);
                }
                removed = removed + 1;
            }

            d = d + 1;
        }
        self.last_cleanup = now;
        proof {
            assert forall|k: Seq<char>| #[trigger] self@.contains_key(k) <==> (old(self)@.contains_key(k)
                && !is_expired(old(self)@[k], old(self).ttl(), now)) by {
                if self@.contains_key(k) && is_expired(old(self)@[k], old(self).ttl(), now) {
                    let m = choose|m: int| 0 <= m < doomed@.len() && doomed@[m]@ == k;
                    assert(!self@.contains_key(doomed@[m]@));
                }
            }
        }
        removed
    }
}

proof fn lemma_access_prefix<T>(m: Map<Seq<char>, CacheEntry<T>>, keys: Seq<Seq<char>>, i: int)
    requires
        0 <= i <= keys.len(),
    ensures
        access_total(m, keys.subrange(0, i)) <= access_total(m, keys),
    decreases keys.len() - i,
{
    if i < keys.len() {
        lemma_access_prefix(m, keys, i + 1);
        assert(keys.subrange(0, i + 1).drop_last() =~= keys.subrange(0, i));
    } else {
        assert(keys.subrange(0, i) =~= keys);
    }
}

/// An answer kept with the time it was stored, in nanoseconds on a monotonic
/// clock.
#[derive(Debug, Clone, Copy, PartialEq, Eq)]
pub struct StoredValue<T> {
    pub value: T,
    pub stored_at: u64,
}

/// A stored answer is served while less than `ttl` has passed since it was
/// stored.
pub open spec fn is_servable(stored_at: u64, ttl: u64, now: u64) -> bool {
    elapsed(now, stored_at) < ttl
}

/// The entries of `m` that are still served at `now`.
pub open spec fn servable_part<T>(m: Map<Seq<char>, StoredValue<T>>, ttl: u64, now: u64) -> Map<Seq<char>, StoredValue<T>> {
    Map::new(|k: Seq<char>| m.contains_key(k) && is_servable(m[k].stored_at, ttl, now), |k: Seq<char>| m[k])
}

/// The time to live of the market-data answer caches: five minutes.
pub const DATA_CACHE_TTL_NANOS: u64 = 300_000_000_000;

/// Answers kept by request key, served for a limited time after they were
/// stored.
pub struct ResponseCache<T> {
    entries: KeyedStore<StoredValue<T>>,
    ttl: u64,
}

impl<T> ResponseCache<T> {
    pub closed spec fn wf(&self) -> bool {
        self.entries.wf()
    }

    pub closed spec fn view(&self) -> Map<Seq<char>, StoredValue<T>> {
        self.entries@
    }

    pub closed spec fn ttl(&self) -> u64 {
        self.ttl
    }

    /// An empty cache whose answers live for `ttl` nanoseconds.
    pub fn new(ttl: u64) -> (r: Self)
        ensures
            r.wf(),
            r@ == Map::<Seq<char>, StoredValue<T>>::empty(),
            r.ttl() == ttl,
    {
        ResponseCache { entries: KeyedStore::new(), ttl }
    }

    /// How many answers are kept, served or not.
    pub fn len(&self) -> (r: usize)
        requires
            self.wf(),
        ensures
            r == self@.dom().len(),
    {
        self.entries.len()
    }

    /// The time to live in whole seconds.
    pub fn ttl_seconds(&self) -> (r: u64)
        ensures
            r == self.ttl() / 1_000_000_000,
    {
        self.ttl / 1_000_000_000
    }

    /// The answer kept under `key`, when it is still served at `now`.
    pub fn get_fresh(&self, key: &str, now: u64) -> (r: Option<&T>)
        requires
            self.wf(),
        ensures
            r is Some <==> self@.contains_key(key@) && is_servable(self@[key@].stored_at, self.ttl(), now),
            r matches Some(v) ==> *v == self@[key@].value,
    {
        match self.entries.get(key) {
            Some(e) => {
                if now >= e.stored_at && now - e.stored_at >= self.ttl {
                    None
                } else if now < e.stored_at && self.ttl == 0 {
                    None
                } else {
                    Some(&e.value)
                }
            },
            None => None,
        }
    }

    /// Keeps `value` under `key` as stored at `now`, replacing what was kept
    /// there.
    pub fn put(&mut self, key: String, value: T, now: u64)
        requires
            old(self).wf(),
        ensures
            final(self).wf(),
            final(self).ttl() == old(self).ttl(),
            final(self)@ == old(self)@.insert(key@, StoredValue { value, stored_at: now }),
    {
        let _ = self.entries.insert(key, StoredValue { value, stored_at: now });
    }

    /// Removes the answers that are no longer served at `now`, and returns
    /// how many were removed.
    pub fn clean(&mut self, now: u64) -> (r: usize)
        requires
            old(self).wf(),
        ensures
            final(self).wf(),
            final(self).ttl() == old(self).ttl(),
            final(self)@ == servable_part(old(self)@, old(self).ttl(), now),
            r == old(self)@.dom().len() - final(self)@.dom().len(),
    {
        let n = self.entries.len();
        let mut doomed: Vec<String> = Vec::new();
        let mut i: usize = 0;
        while i < n
            invariant
                self.wf(),
                self@ == old(self)@,
                self.ttl == old(self).ttl(),
                n == self.entries.key_order().len(),
                0 <= i <= n,
                forall|j: int| 0 <= j < doomed@.len() ==> #[trigger] self@.contains_key(doomed@[j]@)
                    && !is_servable(self@[doomed@[j]@].stored_at, self.ttl, now),
                forall|j: int| 0 <= j < i && !is_servable(self@[#[trigger] self.entries.key_order()[j]].stored_at, self.ttl, now)
                    ==> exists|m: int| 0 <= m < doomed@.len() && doomed@[m]@ == self.entries.key_order()[j],
            decreases n - i,
        {
            let e = self.entries.value_at(i);
            let ghost before = doomed@;
            let stale = if now >= e.stored_at { now - e.stored_at >= self.ttl } else { self.ttl == 0 };
            if stale {
                let k = self.entries.key_at(i).clone();
                doomed.push(k);
                assert(doomed@[doomed@.len() - 1]@ == self.entries.key_order()[i as int]);
            }
            proof {
                assert forall|j: int| 0 <= j < i + 1 && !is_servable(self@[#[trigger] self.entries.key_order()[j]].stored_at, self.ttl, now)
                    implies exists|m: int| 0 <= m < doomed@.len() && doomed@[m]@ == self.entries.key_order()[j] by {
                    if j < i {
                        let m = choose|m: int| 0 <= m < before.len() && before[m]@ == self.entries.key_order()[j];
                        assert(doomed@[m] == before[m]);
                    } else {
                        assert(doomed@[doomed@.len() - 1]@ == self.entries.key_order()[j]);
                    }
                }
            }
            i = i + 1;
        }
        proof {
            self.entries.lemma_dom_is_keys();
            assert forall|k: Seq<char>| #[trigger] old(self)@.contains_key(k) && !is_servable(old(self)@[k].stored_at, old(self).ttl(), now)
                implies exists|m: int| 0 <= m < doomed@.len() && doomed@[m]@ == k by {
                assert(self.entries.key_order().to_set().contains(k));
                let j = choose|j: int| 0 <= j < self.entries.key_order().len() && self.entries.key_order()[j] == k;
                assert(!is_servable(self@[self.entries.key_order()[j]].stored_at, self.ttl, now));
            }
        }
        let mut removed: usize = 0;
        let mut d: usize = 0;
        while d < doomed.len()
            invariant
                self.wf(),
                self.ttl == old(self).ttl(),
                0 <= d <= doomed@.len(),
                forall|k: Seq<char>| #[trigger] self@.contains_key(k) ==> old(self)@.contains_key(k) && self@[k] == old(self)@[k],
                forall|k: Seq<char>| #[trigger] old(self)@.contains_key(k) && is_servable(old(self)@[k].stored_at, old(self).ttl(), now)
                    ==> self@.contains_key(k),
                forall|j: int| 0 <= j < d ==> !self@.contains_key(#[trigger] doomed@[j]@),
                forall|j: int| 0 <= j < doomed@.len() ==> #[trigger] old(self)@.contains_key(doomed@[j]@)
                    && !is_servable(old(self)@[doomed@[j]@].stored_at, old(self).ttl(), now),
                forall|k: Seq<char>| #[trigger] old(self)@.contains_key(k) && !is_servable(old(self)@[k].stored_at, old(self).ttl(), now)
                    ==> exists|m: int| 0 <= m < doomed@.len() && doomed@[m]@ == k,
                self@.dom().finite(),
                old(self)@.dom().finite(),
                old(self)@.dom().len() == n,
                self@.dom().len() <= old(self)@.dom().len(),
                removed == old(self)@.dom().len() - self@.dom().len(),
            decreases doomed@.len() - d,
        {
            let ghost before = self@;
            let gone = self.entries.remove(doomed[d].as_str());
            if gone.is_some() {
                proof {
                    assert(before.dom().contains(doomed@[d as int]@));
                    assert(self@.dom() =~= before.dom().remove(doomed@[d as int]@));
                    assert(self@.dom().len() == before.dom().len() - 1);
                }
                removed = removed + 1;
            }
            d = d + 1;
        }
        proof {
            assert forall|k: Seq<char>| #[trigger] self@.contains_key(k) <==> (old(self)@.contains_key(k)
                && is_servable(old(self)@[k].stored_at, old(self).ttl(), now)) by {
                if self@.contains_key(k) && !is_servable(old(self)@[k].stored_at, old(self).ttl(), now) {
                    let m = choose|m: int| 0 <= m < doomed@.len() && doomed@[m]@ == k;
                    assert(!self@.contains_key(doomed@[m]@));
                }
            }
            assert(self@ =~= servable_part(old(self)@, old(self).ttl(), now));
        }
        removed
    }
}

/// An answer stored at `at` is served at any later `now` until the time to
/// live has passed, and no longer after that.
pub proof fn law_answer_served_until_ttl<T>(before: Map<Seq<char>, StoredValue<T>>, key: Seq<char>, value: T, at: u64, ttl: u64, now: u64)
    ensures
        ({
            let after = before.insert(key, StoredValue { value, stored_at: at });
            &&& after.contains_key(key)
            &&& after[key].value == value
            &&& (now >= at ==> (is_servable(after[key].stored_at, ttl, now) <==> now - at < ttl))
        }),
{
}

/// Cleaning a cache changes no answer it gives at that time, and cleaning it
/// twice at the same time is the same as cleaning it once.
pub proof fn law_clean_keeps_answers<T>(m: Map<Seq<char>, StoredValue<T>>, ttl: u64, now: u64, key: Seq<char>)
    ensures
        (servable_part(m, ttl, now).contains_key(key) && is_servable(servable_part(m, ttl, now)[key].stored_at, ttl, now))
            <==> (m.contains_key(key) && is_servable(m[key].stored_at, ttl, now)),
        servable_part(m, ttl, now).contains_key(key) ==> servable_part(m, ttl, now)[key] == m[key],
        servable_part(servable_part(m, ttl, now), ttl, now) == servable_part(m, ttl, now),
{
    assert(servable_part(servable_part(m, ttl, now), ttl, now) =~= servable_part(m, ttl, now));
}

/// Reading from a store gives back what was last kept under that key, and
/// keeping a value under one key leaves every other key as it was.
pub proof fn law_read_after_write<T>(before: Map<Seq<char>, T>, key: Seq<char>, value: T, other: Seq<char>)
    requires
        other != key,
    ensures
        before.insert(key, value)[key] == value,
        before.insert(key, value).contains_key(key),
        before.insert(key, value).contains_key(other) == before.contains_key(other),
        before.contains_key(other) ==> before.insert(key, value)[other] == before[other],
        !before.remove(key).contains_key(key),
{
}

/// A value cached at `at` is served again at any later `now` that is no
/// more than the time to live after it, and no longer once more has passed.
pub proof fn law_fresh_after_update<T>(before: Map<Seq<char>, CacheEntry<T>>, key: Seq<char>, value: T, at: u64, ttl: u64, now: u64)
    ensures
        ({
            let after = before.insert(key, CacheEntry { value, cached_at: at, access_count: 0, last_accessed: at });
            &&& after.contains_key(key)
            &&& after[key].value == value
            &&& (now >= at ==> (!is_expired(after[key], ttl, now) <==> now - at <= ttl))
            &&& (now < at ==> !is_expired(after[key], ttl, now))
        }),
{
}

/// The positions below `n` at which `k` occurs in `keys`, in ascending
/// order.
pub open spec fn positions_of(keys: Seq<Seq<char>>, k: Seq<char>, n: int) -> Seq<usize>
    decreases n,
{
    if n <= 0 {
        Seq::empty()
    } else if keys[n - 1] == k {
        positions_of(keys, k, n - 1).push((n - 1) as usize)
    } else {
        positions_of(keys, k, n - 1)
    }
}

/// Groups the positions of a list of keys by key: each key that occurs is
/// kept with the positions at which it occurs, in ascending order.
pub fn group_positions(keys: &Vec<String>) -> (r: KeyedStore<Vec<usize>>)
    ensures
        r.wf(),
        forall|k: Seq<char>| #[trigger] r@.contains_key(k) <==> keys@.map_values(|s: String| s@).contains(k),
        forall|k: Seq<char>| #[trigger] r@.contains_key(k) ==> r@[k]@ == positions_of(
            keys@.map_values(|s: String| s@),
            k,
            keys@.len() as int,
        ),
{
    let ghost kv = keys@.map_values(|s: String| s@);
    let mut groups: KeyedStore<Vec<usize>> = KeyedStore::new();
    let mut i: usize = 0;
    while i < keys.len()
        invariant
            0 <= i <= keys@.len(),
            kv == keys@.map_values(|s: String| s@),
            groups.wf(),
            forall|k: Seq<char>| #[trigger] groups@.contains_key(k) <==> kv.subrange(0, i as int).contains(k),
            forall|k: Seq<char>| #[trigger] groups@.contains_key(k) ==> groups@[k]@ == positions_of(kv, k, i as int),
            forall|k: Seq<char>| !groups@.contains_key(k) ==> #[trigger] positions_of(kv, k, i as int) == Seq::<usize>::empty(),
        decreases keys@.len() - i,
    {
        let key = &keys[i];
        assert(kv[i as int] == key@);
        let ghost before = groups@;
        let mut list: Vec<usize> = match groups.remove(key.as_str()) {
            Some(v) => v,
            None => Vec::new(),
        };
        assert(list@ == positions_of(kv, key@, i as int));
        list.push(i);
        assert(positions_of(kv, key@, i + 1) == positions_of(kv, key@, i as int).push(i));
        assert(list@ == positions_of(kv, key@, i + 1));
        let _ = groups.insert(key.clone(), list);
        proof {
            assert forall|k: Seq<char>| #[trigger] groups@.contains_key(k) <==> kv.subrange(0, i + 1).contains(k) by {
                assert(kv.subrange(0, i + 1) =~= kv.subrange(0, i as int).push(kv[i as int]));
                if kv.subrange(0, i + 1).contains(k) && k != key@ {
                    let j = choose|j: int| 0 <= j < i + 1 && #[trigger] kv.subrange(0, i + 1)[j] == k;
                    assert(kv.subrange(0, i as int)[j] == k);
                }
                if kv.subrange(0, i as int).contains(k) {
                    let j = choose|j: int| 0 <= j < i && #[trigger] kv.subrange(0, i as int)[j] == k;
                    assert(kv.subrange(0, i + 1)[j] == k);
                }
                assert(kv.subrange(0, i + 1)[i as int] == key@);
            }
            assert forall|k: Seq<char>| #[trigger] groups@.contains_key(k) implies groups@[k]@ == positions_of(kv, k, i + 1) by {
                if k != key@ {
                    assert(before.contains_key(k));
                    assert(positions_of(kv, k, i + 1) == positions_of(kv, k, i as int));
                }
            }
            assert forall|k: Seq<char>| !groups@.contains_key(k) implies #[trigger] positions_of(kv, k, i + 1) == Seq::<usize>::empty() by {
                assert(k != key@);
                assert(!before.contains_key(k));
                assert(positions_of(kv, k, i + 1) == positions_of(kv, k, i as int));
            }
        }
        i = i + 1;
    }
    assert(kv.subrange(0, keys@.len() as int) =~= kv);
    groups
}

} // verus!
