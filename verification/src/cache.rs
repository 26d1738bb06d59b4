//! A key→value interning cache. The first value stored under a key becomes
//! canonical: every later lookup of that key returns it again and discards
//! the caller's replacement candidate. Entries are never evicted.

use vstd::pervasive::cloned;
use vstd::prelude::*;

verus! {

/// An executable equality test on keys that agrees with the key's abstract
/// view. The cache compares keys only through this method, so two keys name
/// the same entry exactly when their views are equal.
pub trait InternKey: View + Sized {
    /// Decides whether two keys name the same cache entry.
    fn same_key(&self, other: &Self) -> (r: bool)
        ensures
            r == (self@ == other@),
    ;
}

impl InternKey for String {
    /// Strings intern by their character content.
    fn same_key(&self, other: &Self) -> (r: bool)
        ensures
            r == (self@ == other@),
    {
        *self == *other
    }
}

/// A memoizing key→value store used as an interning table: for a fixed key,
/// repeated lookups return the same stored value, so long as the key was
/// seen before. There is no eviction, no capacity bound and no error
/// condition.
pub struct Cache<K, V> where K: InternKey, V: Clone {
    entries: Vec<(K, V)>,
}

impl<K: InternKey, V: Clone> View for Cache<K, V> {
    type V = Map<<K as View>::V, V>;

    /// A cache abstracts to the map from key views to stored values.
    closed spec fn view(&self) -> Map<<K as View>::V, V> {
        Self::entries_map(self.entries@)
    }
}

impl<K: InternKey, V: Clone> Cache<K, V> {
    /// Whether some entry's key has the given view.
    spec fn has_key(entries: Seq<(K, V)>, k: <K as View>::V) -> bool {
        exists|i: int| 0 <= i < entries.len() && (#[trigger] entries[i]).0@ == k
    }

    /// The position of the entry whose key has the given view.
    spec fn key_index(entries: Seq<(K, V)>, k: <K as View>::V) -> int {
        choose|i: int| 0 <= i < entries.len() && (#[trigger] entries[i]).0@ == k
    }

    /// The map an entry sequence stands for.
    spec fn entries_map(entries: Seq<(K, V)>) -> Map<<K as View>::V, V> {
        Map::new(
            |k: <K as View>::V| Self::has_key(entries, k),
            |k: <K as View>::V| entries[Self::key_index(entries, k)].1,
        )
    }

    /// No two entries share a key view, so each key is bound at most once.
    spec fn distinct_keys(entries: Seq<(K, V)>) -> bool {
        forall|i: int, j: int|
            0 <= i < j < entries.len() ==> (#[trigger] entries[i]).0@ != (
            #[trigger] entries[j]).0@
    }

    #[verifier::type_invariant]
    spec fn wf(self) -> bool {
        Self::distinct_keys(self.entries@)
    }

    /// With distinct keys, any entry whose key matches is the one the map
    /// reads.
    proof fn lemma_entry_value(entries: Seq<(K, V)>, i: int)
        requires
            Self::distinct_keys(entries),
            0 <= i < entries.len(),
        ensures
            Self::has_key(entries, entries[i].0@),
            Self::key_index(entries, entries[i].0@) == i,
    {
        let k = entries[i].0@;
        assert(Self::has_key(entries, k));
        let j = Self::key_index(entries, k);
        if j < i {
            assert(entries[j].0@ != entries[i].0@);
        } else if j > i {
            assert(entries[i].0@ != entries[j].0@);
        }
    }

    /// Creates a new empty `Cache`.
    pub fn new() -> (c: Self)
        ensures
            c@ == Map::<<K as View>::V, V>::empty(),
    {
        let c = Self { entries: Vec::new() };
        proof {
            assert(c@ =~= Map::<<K as View>::V, V>::empty());
        }
        c
    }

    /// If `key` has been seen before, discards `default` and returns the
    /// value stored when the key was first seen; otherwise stores `default`
    /// under `key` and returns it. This is the sole entry point: the caller
    /// accepts that a candidate built for a hit is constructed in vain.
    ///
    /// The returned value is a clone of the canonical stored one, so a
    /// shareable value type (such as a reference-counted pointer) yields one
    /// shared record however often its key recurs.
    pub fn lookup(&mut self, key: K, default: V) -> (r: V)
        ensures
            final(self)@ == spec_lookup_state(old(self)@, key@, default),
            cloned::<V>(spec_lookup_result(old(self)@, key@, default), r),
    {
        proof {
            use_type_invariant(&*self);
        }
        let ghost m0 = self@;
        let ghost es0 = self.entries@;
        let n = self.entries.len();
        let mut i: usize = 0;
        while i < n
            invariant
                n == self.entries@.len(),
                i <= n,
                self.entries@ == es0,
                Self::distinct_keys(es0),
                m0 == Self::entries_map(es0),
                forall|j: int| 0 <= j < i ==> (#[trigger] es0[j]).0@ != key@,
            decreases n - i,
        {
            let e = &self.entries[i];
            if e.0.same_key(&key) {
                let r = e.1.clone();
                proof {
                    Self::lemma_entry_value(es0, i as int);
                    assert(m0.contains_key(key@));
                    assert(m0[key@] == es0[i as int].1);
                }
                return r;
            }
            i += 1;
        }
        let r = default.clone();
        let ghost d = default;
        let ghost k = key@;
        let mut entries: Vec<(K, V)> = Vec::new();
        std::mem::swap(&mut entries, &mut self.entries);
        entries.push((key, default));
        proof {
            assert(!Self::has_key(es0, k));
            assert forall|k2: <K as View>::V| true implies Self::entries_map(entries@)
                .contains_key(k2) == spec_lookup_state(m0, k, d).contains_key(k2) by {
                if Self::has_key(entries@, k2) {
                    let w = Self::key_index(entries@, k2);
                    if w < es0.len() {
                        assert(Self::has_key(es0, k2));
                    }
                }
                if Self::has_key(es0, k2) {
                    let w = choose|w: int| 0 <= w < es0.len() && (#[trigger] es0[w]).0@ == k2;
                    assert(entries@[w].0@ == k2);
                    assert(Self::has_key(entries@, k2));
                }
                if k2 == k {
                    assert(entries@[es0.len() as int].0@ == k2);
                    assert(Self::has_key(entries@, k2));
                }
            }
            assert forall|k2: <K as View>::V| Self::entries_map(entries@).contains_key(k2)
                implies Self::entries_map(entries@)[k2] == spec_lookup_state(m0, k, d)[k2] by {
                let w = Self::key_index(entries@, k2);
                assert(0 <= w < entries@.len() && entries@[w].0@ == k2);
                if w < es0.len() {
                    Self::lemma_entry_value(es0, w);
                    assert(m0[k2] == es0[w].1);
                } else {
                    assert(k2 == k);
                }
            }
            assert(Self::entries_map(entries@) =~= spec_lookup_state(m0, k, d));
        }
        std::mem::swap(&mut entries, &mut self.entries);
        r
    }
}

/// The value a lookup hands back, over the cache's abstract map: the stored
/// value on a hit, the caller's default on a miss.
pub open spec fn spec_lookup_result<KV, V>(m: Map<KV, V>, k: KV, default: V) -> V {
    if m.contains_key(k) {
        m[k]
    } else {
        default
    }
}

/// The cache's abstract map after a lookup: unchanged on a hit, extended by
/// the caller's default on a miss.
pub open spec fn spec_lookup_state<KV, V>(m: Map<KV, V>, k: KV, default: V) -> Map<KV, V> {
    if m.contains_key(k) {
        m
    } else {
        m.insert(k, default)
    }
}

/// Interning is idempotent: the first lookup of a fresh key stores and
/// returns its default; a second lookup of the same key with any other
/// default returns the first stored value again and leaves the cache
/// unchanged.
pub proof fn lemma_lookup_idempotent<KV, V>(m: Map<KV, V>, k: KV, v1: V, v2: V)
    requires
        !m.contains_key(k),
    ensures
        spec_lookup_result(m, k, v1) == v1,
        spec_lookup_result(spec_lookup_state(m, k, v1), k, v2) == v1,
        spec_lookup_state(spec_lookup_state(m, k, v1), k, v2) == spec_lookup_state(m, k, v1),
{
}

/// Distinct keys intern independently: each fresh key receives and keeps its
/// own value, and binding one key never rebinds or returns the other's.
pub proof fn lemma_lookup_distinct_keys<KV, V>(m: Map<KV, V>, k1: KV, k2: KV, v1: V, v2: V)
    requires
        k1 != k2,
        !m.contains_key(k1),
        !m.contains_key(k2),
    ensures
        spec_lookup_result(spec_lookup_state(m, k1, v1), k2, v2) == v2,
        spec_lookup_state(spec_lookup_state(m, k1, v1), k2, v2)[k1] == v1,
        spec_lookup_state(spec_lookup_state(m, k1, v1), k2, v2)[k2] == v2,
{
}

} // verus!
