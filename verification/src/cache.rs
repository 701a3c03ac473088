//! The bounded least-recently-used result cache.
//!
//! The cache itself is `lru::LruCache`; its contents are modeled as a
//! sequence of key/value entries ordered from least to most recently used.
//! Everything around the four trusted calls — capacity bound, key
//! uniqueness, and the exact eviction behavior — is verified against that
//! model.

use vstd::prelude::*;

verus! {

/// What the cache stores for one key: threat flag, classifier label,
/// confidence in hundredths, severity, and the reason strings.
pub type StoredValue = (bool, String, u32, String, Vec<String>);

/// The mathematical view of one stored value.
pub type StoredView = (bool, Seq<char>, u32, Seq<char>, Seq<Seq<char>>);

/// One modeled cache entry: the key's characters and the stored view.
pub type CacheEntry = (Seq<char>, StoredView);

/// The concrete cache type: keys are hex digest strings, values the stored
/// classification fields, hashed with std's default hasher.
pub type LruInner = lru::LruCache<String, StoredValue, std::collections::hash_map::RandomState>;

/// The view of a stored value.
pub open spec fn stored_view(v: StoredValue) -> StoredView {
    (v.0, v.1@, v.2, v.3@, v.4.deep_view())
}

#[verifier::external_type_specification]
#[verifier::external_body]
#[verifier::reject_recursive_types(K)]
#[verifier::reject_recursive_types(V)]
#[verifier::reject_recursive_types(S)]
pub struct ExLruCache<K, V, S>(lru::LruCache<K, V, S>);

/// The entries held by the cache, ordered from least recently used (index 0)
/// to most recently used (last).
pub uninterp spec fn lru_entries(c: LruInner) -> Seq<CacheEntry>;

/// The fixed capacity the cache was created with.
pub uninterp spec fn lru_capacity(c: LruInner) -> nat;

/// Some entry carries the key `k`.
pub open spec fn has_key(es: Seq<CacheEntry>, k: Seq<char>) -> bool {
    exists|i: int| 0 <= i < es.len() && (#[trigger] es[i]).0 == k
}

/// The index of the entry carrying `k`.
pub open spec fn key_index(es: Seq<CacheEntry>, k: Seq<char>) -> int {
    choose|i: int| 0 <= i < es.len() && (#[trigger] es[i]).0 == k
}

/// The value stored under `k`.
pub open spec fn value_of(es: Seq<CacheEntry>, k: Seq<char>) -> StoredView {
    es[key_index(es, k)].1
}

/// No two entries carry the same key.
pub open spec fn unique_keys(es: Seq<CacheEntry>) -> bool {
    forall|i: int, j: int|
        0 <= i < j < es.len() ==> (#[trigger] es[i]).0 != (#[trigger] es[j]).0
}

/// The entries after an insert: an existing key is re-valued and becomes the
/// most recent; a fresh key is appended, evicting the least recently used
/// entry when the cache is full.
pub open spec fn put_spec(es: Seq<CacheEntry>, cap: nat, k: Seq<char>, v: StoredView) -> Seq<
    CacheEntry,
> {
    if has_key(es, k) {
        es.remove(key_index(es, k)).push((k, v))
    } else if es.len() < cap {
        es.push((k, v))
    } else {
        es.subrange(1, es.len() as int).push((k, v))
    }
}

/// Relies on lru::LruCache::new: an empty cache with the given capacity.
#[verifier::external_body]
fn lru_new(cap: usize) -> (c: LruInner)
    requires
        1 <= cap,
    ensures
        lru_entries(c) == Seq::<CacheEntry>::empty(),
        lru_capacity(c) == cap as nat,
{
    lru::LruCache::with_hasher(
        std::num::NonZeroUsize::new(cap).unwrap(),
        std::collections::hash_map::RandomState::new(),
    )
}

/// Relies on lru::LruCache::put: an existing key's value is replaced and its
/// entry becomes the most recent, returning the previous value; a fresh key
/// is inserted as most recent, evicting the least recently used entry when
/// the cache is already at capacity, and returns nothing.
#[verifier::external_body]
fn lru_put(c: &mut LruInner, k: String, v: StoredValue) -> (r: Option<
    StoredValue,
>)
    ensures
        lru_capacity(*final(c)) == lru_capacity(*old(c)),
        has_key(lru_entries(*old(c)), k@) ==> (match r {
            Some(prev) => exists|i: int|
                0 <= i < lru_entries(*old(c)).len() && (#[trigger] lru_entries(*old(c))[i]).0 == k@
                    && stored_view(prev) == lru_entries(*old(c))[i].1 && lru_entries(*final(c))
                    == lru_entries(*old(c)).remove(i).push((k@, stored_view(v))),
            None => false,
        }),
        !has_key(lru_entries(*old(c)), k@) && lru_entries(*old(c)).len() < lru_capacity(*old(c))
            ==> r is None && lru_entries(*final(c)) == lru_entries(*old(c)).push(
            (k@, stored_view(v)),
        ),
        !has_key(lru_entries(*old(c)), k@) && lru_entries(*old(c)).len() == lru_capacity(*old(c))
            ==> r is None && lru_entries(*final(c)) == lru_entries(*old(c)).subrange(
            1,
            lru_entries(*old(c)).len() as int,
        ).push((k@, stored_view(v))),
{
    c.put(k, v)
}

/// Relies on lru::LruCache::peek: returns the value stored under the key, if
/// any, without touching the recency order.
#[verifier::external_body]
fn lru_peek<'a>(c: &'a LruInner, k: &String) -> (r: Option<
    &'a StoredValue,
>)
    ensures
        match r {
            Some(v) => exists|i: int|
                0 <= i < lru_entries(*c).len() && (#[trigger] lru_entries(*c)[i]).0 == k@
                    && stored_view(*v) == lru_entries(*c)[i].1,
            None => !has_key(lru_entries(*c), k@),
        },
{
    c.peek(k)
}

/// Relies on lru::LruCache::len: the number of entries held.
#[verifier::external_body]
fn lru_len(c: &LruInner) -> (n: usize)
    ensures
        n == lru_entries(*c).len(),
{
    c.len()
}

/// Appending an entry with a fresh key keeps keys unique and stores its
/// value under that key.
proof fn lemma_push_fresh(es: Seq<CacheEntry>, k: Seq<char>, v: StoredView)
    requires
        unique_keys(es),
        !has_key(es, k),
    ensures
        unique_keys(es.push((k, v))),
        has_key(es.push((k, v)), k),
        value_of(es.push((k, v)), k) == v,
{
    let es2 = es.push((k, v));
    assert(es2[es.len() as int].0 == k);
    assert(forall|i: int| 0 <= i < es.len() ==> (#[trigger] es2[i]) == es[i]);
    assert(forall|i: int| 0 <= i < es.len() ==> (#[trigger] es[i]).0 != k);
    let w = key_index(es2, k);
    assert(es2[w].0 == k);
    assert(w == es.len());
}

/// The occupancy bound and eviction discipline of an insert: capacity is
/// never exceeded, keys stay unique, and the inserted key holds the
/// inserted value.
pub proof fn lemma_put_spec_properties(es: Seq<CacheEntry>, cap: nat, k: Seq<char>, v: StoredView)
    requires
        1 <= cap,
        es.len() <= cap,
        unique_keys(es),
    ensures
        put_spec(es, cap, k, v).len() <= cap,
        unique_keys(put_spec(es, cap, k, v)),
        has_key(put_spec(es, cap, k, v), k),
        value_of(put_spec(es, cap, k, v), k) == v,
{
    if has_key(es, k) {
        let i = key_index(es, k);
        assert(0 <= i < es.len() && es[i].0 == k);
        es.remove_ensures(i);
        let rem = es.remove(i);
        assert(forall|j: int| 0 <= j < rem.len() ==> (#[trigger] rem[j]).0 != k) by {
            assert forall|j: int| 0 <= j < rem.len() implies (#[trigger] rem[j]).0 != k by {
                if j < i {
                    assert(rem[j] == es[j]);
                } else {
                    assert(rem[j] == es[j + 1]);
                }
            }
        }
        assert(unique_keys(rem)) by {
            assert forall|a: int, b: int| 0 <= a < b < rem.len() implies (#[trigger] rem[a]).0 != (
            #[trigger] rem[b]).0 by {
                if b < i {
                    assert(rem[a] == es[a] && rem[b] == es[b]);
                } else if a < i {
                    assert(rem[a] == es[a] && rem[b] == es[b + 1]);
                } else {
                    assert(rem[a] == es[a + 1] && rem[b] == es[b + 1]);
                }
            }
        }
        assert(!has_key(rem, k));
        lemma_push_fresh(rem, k, v);
    } else if es.len() < cap {
        lemma_push_fresh(es, k, v);
    } else {
        let rem = es.subrange(1, es.len() as int);
        assert(unique_keys(rem)) by {
            assert forall|a: int, b: int| 0 <= a < b < rem.len() implies (#[trigger] rem[a]).0 != (
            #[trigger] rem[b]).0 by {
                assert(rem[a] == es[a + 1] && rem[b] == es[b + 1]);
            }
        }
        assert(!has_key(rem, k)) by {
            assert forall|j: int| 0 <= j < rem.len() implies (#[trigger] rem[j]).0 != k by {
                assert(rem[j] == es[j + 1]);
            }
        }
        lemma_push_fresh(rem, k, v);
    }
}

/// Inserting a fresh key into a full cache evicts exactly the least
/// recently used entry: the oldest key leaves, every other entry survives
/// in order, and occupancy stays at capacity.
pub proof fn lemma_lru_eviction(es: Seq<CacheEntry>, cap: nat, k: Seq<char>, v: StoredView)
    requires
        1 <= cap,
        es.len() == cap,
        unique_keys(es),
        !has_key(es, k),
    ensures
        put_spec(es, cap, k, v).len() == cap,
        !has_key(put_spec(es, cap, k, v), es[0].0),
        forall|j: int|
            1 <= j < es.len() ==> #[trigger] put_spec(es, cap, k, v)[j - 1] == es[j],
        put_spec(es, cap, k, v)[cap as int - 1] == (k, v),
{
    let es2 = put_spec(es, cap, k, v);
    let rem = es.subrange(1, es.len() as int);
    assert(forall|j: int| 1 <= j < es.len() ==> #[trigger] es2[j - 1] == es[j]);
    assert(!has_key(es2, es[0].0)) by {
        assert forall|j: int| 0 <= j < es2.len() implies (#[trigger] es2[j]).0 != es[0].0 by {
            if j < rem.len() {
                assert(es2[j] == es[j + 1]);
            } else {
                assert(es2[j].0 == k);
                assert(es[0].0 != k);
            }
        }
    }
}

/// The bounded least-recently-used cache of classification results.
pub struct ResultCache {
    inner: LruInner,
}

impl ResultCache {
    /// The modeled entries, least recently used first.
    pub closed spec fn entries(&self) -> Seq<CacheEntry> {
        lru_entries(self.inner)
    }

    /// The fixed capacity.
    pub closed spec fn capacity(&self) -> nat {
        lru_capacity(self.inner)
    }

    /// Well-formedness: a positive capacity that the occupancy never
    /// exceeds, and pairwise-distinct keys.
    pub open spec fn wf(&self) -> bool {
        1 <= self.capacity() && self.entries().len() <= self.capacity() && unique_keys(
            self.entries(),
        )
    }

    /// An empty cache with the given capacity.
    pub fn new(cap: usize) -> (c: ResultCache)
        requires
            1 <= cap,
        ensures
            c.wf(),
            c.entries() == Seq::<CacheEntry>::empty(),
            c.capacity() == cap as nat,
    {
        ResultCache { inner: lru_new(cap) }
    }

    /// Inserts a value under a key, per the least-recently-used discipline.
    pub fn insert(&mut self, key: String, value: StoredValue)
        requires
            old(self).wf(),
        ensures
            final(self).wf(),
            final(self).capacity() == old(self).capacity(),
            final(self).entries() == put_spec(
                old(self).entries(),
                old(self).capacity(),
                key@,
                stored_view(value),
            ),
    {
        let ghost es = lru_entries(self.inner);
        let ghost cap = lru_capacity(self.inner);
        let ghost k = key@;
        let ghost sv = stored_view(value);
        let _ = lru_put(&mut self.inner, key, value);
        proof {
            if has_key(es, k) {
                let i = choose|i: int|
                    0 <= i < es.len() && (#[trigger] es[i]).0 == k && lru_entries(self.inner)
                        == es.remove(i).push((k, sv));
                let ki = key_index(es, k);
                assert(0 <= ki < es.len() && es[ki].0 == k);
                assert(i == ki);
            }
            lemma_put_spec_properties(es, cap, k, sv);
        }
    }

    /// Looks the key up without touching the recency order.
    pub fn lookup<'a>(&'a self, key: &String) -> (r: Option<&'a StoredValue>)
        requires
            self.wf(),
        ensures
            match r {
                Some(v) => has_key(self.entries(), key@) && stored_view(*v) == value_of(
                    self.entries(),
                    key@,
                ),
                None => !has_key(self.entries(), key@),
            },
    {
        let r = lru_peek(&self.inner, key);
        proof {
            match r {
                Some(v) => {
                    let es = self.entries();
                    let i = choose|i: int|
                        0 <= i < es.len() && (#[trigger] es[i]).0 == key@ && stored_view(*v)
                            == es[i].1;
                    let ki = key_index(es, key@);
                    assert(0 <= ki < es.len() && es[ki].0 == key@);
                    assert(i == ki);
                },
                None => {},
            }
        }
        r
    }

    /// The current occupancy.
    pub fn len(&self) -> (n: usize)
        ensures
            n == self.entries().len(),
    {
        lru_len(&self.inner)
    }
}

} // verus!
