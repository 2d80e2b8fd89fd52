//! The tri-state cache: every key is absent, pending or loaded.

use vstd::prelude::*;
use crate::keys::Key;

verus! {

/// What a cache knows about one key.
#[derive(Debug, PartialEq, Eq)]
pub enum Entry<V> {
    /// Nothing is known and nothing was requested.
    Absent,
    /// A fetch was issued and has not been answered yet.
    Pending,
    /// The value arrived.
    Loaded(V),
}

/// The state that a map from keys to optional values gives to `key`.
pub open spec fn state_of<I, V>(m: Map<I, Option<V>>, key: I) -> Entry<V> {
    if !m.dom().contains(key) {
        Entry::Absent
    } else {
        match m[key] {
            None => Entry::Pending,
            Some(v) => Entry::Loaded(v),
        }
    }
}

/// A cache from keys to values that may still be on their way.
///
/// The presence of a key, whatever it holds, is the sign that its fetch
/// was issued: a key is requested only while it is absent.
#[derive(Debug)]
pub struct Cache<K: Key, V: DeepView> {
    entries: Vec<(K, Option<V>)>,
}

/// No key occurs twice among `entries`.
spec fn distinct<K: Key, V>(entries: Seq<(K, Option<V>)>) -> bool {
    forall|i: int, j: int| 0 <= i < j < entries.len() ==> entries[i].0@ != entries[j].0@
}

/// Where `key` stands among `entries`.
spec fn holds<K: Key, V>(entries: Seq<(K, Option<V>)>, key: K::V, i: int) -> bool {
    0 <= i < entries.len() && entries[i].0@ == key
}

/// The map that `entries` stand for.
spec fn map_of<K: Key, V: DeepView>(entries: Seq<(K, Option<V>)>) -> Map<K::V, Option<V::V>> {
    Map::new(
        |k: K::V| exists|i: int| holds(entries, k, i),
        |k: K::V| entries[choose|i: int| holds(entries, k, i)].1.deep_view(),
    )
}

proof fn lemma_entry<K: Key, V: DeepView>(entries: Seq<(K, Option<V>)>, i: int)
    requires
        distinct(entries),
        0 <= i < entries.len(),
    ensures
        map_of(entries).dom().contains(entries[i].0@),
        map_of(entries)[entries[i].0@] == entries[i].1.deep_view(),
{
    let k = entries[i].0@;
    assert(holds(entries, k, i));
    let j = choose|j: int| holds(entries, k, j);
    assert(j == i);
}

proof fn lemma_map_is<K: Key, V: DeepView>(
    entries: Seq<(K, Option<V>)>,
    m: Map<K::V, Option<V::V>>,
)
    requires
        distinct(entries),
        forall|i: int|
            0 <= i < entries.len() ==> m.dom().contains((#[trigger] entries[i]).0@)
                && m[entries[i].0@] == entries[i].1.deep_view(),
        forall|k: K::V| m.dom().contains(k) ==> exists|i: int| holds(entries, k, i),
    ensures
        map_of(entries) == m,
{
    assert forall|k: K::V| map_of(entries).dom().contains(k) implies m.dom().contains(k) by {
        let i = choose|i: int| holds(entries, k, i);
        assert(m.dom().contains(entries[i].0@));
    }
    assert forall|k: K::V| m.dom().contains(k) implies map_of(entries).dom().contains(k)
        && map_of(entries)[k] == m[k] by {
        let i = choose|i: int| holds(entries, k, i);
        lemma_entry(entries, i);
    }
}

proof fn lemma_push<K: Key, V: DeepView>(entries: Seq<(K, Option<V>)>, key: K, slot: Option<V>)
    requires
        distinct(entries),
        forall|i: int| 0 <= i < entries.len() ==> entries[i].0@ != key@,
    ensures
        distinct(entries.push((key, slot))),
        map_of(entries.push((key, slot))) == map_of(entries).insert(key@, slot.deep_view()),
{
    let after = entries.push((key, slot));
    let m = map_of(entries).insert(key@, slot.deep_view());
    assert forall|i: int| 0 <= i < after.len() implies m.dom().contains(
        (#[trigger] after[i]).0@,
    ) && m[after[i].0@] == after[i].1.deep_view() by {
        if i < entries.len() {
            lemma_entry(entries, i);
        }
    }
    assert forall|k: K::V| m.dom().contains(k) implies exists|i: int| holds(after, k, i) by {
        if k == key@ {
            assert(holds(after, k, entries.len() as int));
        } else {
            let i = choose|i: int| holds(entries, k, i);
            assert(holds(after, k, i));
        }
    }
    lemma_map_is(after, m);
}

proof fn lemma_update<K: Key, V: DeepView>(
    entries: Seq<(K, Option<V>)>,
    i: int,
    key: K,
    slot: Option<V>,
)
    requires
        distinct(entries),
        holds(entries, key@, i),
    ensures
        distinct(entries.update(i, (key, slot))),
        map_of(entries.update(i, (key, slot))) == map_of(entries).insert(key@, slot.deep_view()),
{
    let after = entries.update(i, (key, slot));
    let m = map_of(entries).insert(key@, slot.deep_view());
    assert forall|j: int| 0 <= j < after.len() implies (#[trigger] after[j]).0@
        == entries[j].0@ by {}
    assert forall|j: int| 0 <= j < after.len() implies m.dom().contains(
        (#[trigger] after[j]).0@,
    ) && m[after[j].0@] == after[j].1.deep_view() by {
        lemma_entry(entries, j);
    }
    assert forall|k: K::V| m.dom().contains(k) implies exists|j: int| holds(after, k, j) by {
        if k == key@ {
            assert(holds(after, k, i));
        } else {
            let j = choose|j: int| holds(entries, k, j);
            assert(holds(after, k, j));
        }
    }
    lemma_map_is(after, m);
}

proof fn lemma_remove<K: Key, V: DeepView>(entries: Seq<(K, Option<V>)>, i: int)
    requires
        distinct(entries),
        0 <= i < entries.len(),
    ensures
        distinct(entries.remove(i)),
        map_of(entries.remove(i)) == map_of(entries).remove(entries[i].0@),
{
    let after = entries.remove(i);
    let m = map_of(entries).remove(entries[i].0@);
    assert forall|j: int| 0 <= j < after.len() implies #[trigger] after[j] == entries[if j < i {
        j
    } else {
        j + 1
    }] by {}
    assert forall|j: int| 0 <= j < after.len() implies m.dom().contains(
        (#[trigger] after[j]).0@,
    ) && m[after[j].0@] == after[j].1.deep_view() by {
        lemma_entry(entries, if j < i { j } else { j + 1 });
    }
    assert forall|k: K::V| m.dom().contains(k) implies exists|j: int| holds(after, k, j) by {
        let j = choose|j: int| holds(entries, k, j);
        if j < i {
            assert(holds(after, k, j));
        } else {
            assert(holds(after, k, j - 1));
        }
    }
    lemma_map_is(after, m);
}

impl<K: Key, V: DeepView> View for Cache<K, V> {
    type V = Map<K::V, Option<V::V>>;

    closed spec fn view(&self) -> Map<K::V, Option<V::V>> {
        map_of(self.entries@)
    }
}

impl<K: Key, V: DeepView> Cache<K, V> {
    /// No key occurs twice.
    #[verifier::type_invariant]
    pub closed spec fn wf(self) -> bool {
        distinct(self.entries@)
    }

    /// The state of `key` in this cache.
    pub open spec fn state(&self, key: K::V) -> Entry<V::V> {
        state_of(self@, key)
    }

    /// An empty cache: every key is absent.
    pub fn new() -> (r: Self)
        ensures
            r@ == Map::<K::V, Option<V::V>>::empty(),
    {
        let r = Cache { entries: Vec::new() };
        r
    }

    fn position(&self, key: &K) -> (r: Option<usize>)
        ensures
            match r {
                Some(i) => holds(self.entries@, key@, i as int),
                None => !self@.dom().contains(key@),
            },
    {
        let mut i: usize = 0;
        while i < self.entries.len()
            invariant
                i <= self.entries@.len(),
                forall|j: int| 0 <= j < i ==> !holds(self.entries@, key@, j),
            decreases self.entries@.len() - i,
        {
            if self.entries[i].0.same(key) {
                return Some(i);
            }
            i += 1;
        }
        None
    }

    /// Reads the state of `key`. Nothing changes.
    pub fn observe(&self, key: &K) -> (r: Entry<&V>)
        ensures
            match r {
                Entry::Absent => self.state(key@) is Absent,
                Entry::Pending => self.state(key@) is Pending,
                Entry::Loaded(v) => self.state(key@) == Entry::Loaded(v.deep_view()),
            },
    {
        proof {
            use_type_invariant(self);
        }
        match self.position(key) {
            None => Entry::Absent,
            Some(i) => {
                proof {
                    lemma_entry(self.entries@, i as int);
                }
                match &self.entries[i].1 {
                    None => Entry::Pending,
                    Some(v) => Entry::Loaded(v),
                }
            },
        }
    }

    /// Whether `key` is present, pending or loaded.
    pub fn contains_key(&self, key: &K) -> (b: bool)
        ensures
            b == self@.dom().contains(key@),
    {
        self.position(key).is_some()
    }

    fn put(&mut self, key: K, slot: Option<V>)
        ensures
            final(self)@ == old(self)@.insert(key@, slot.deep_view()),
    {
        proof {
            use_type_invariant(&*self);
        }
        let found = self.position(&key);
        let mut entries = Vec::new();
        core::mem::swap(&mut self.entries, &mut entries);
        match found {
            Some(i) => {
                proof {
                    lemma_update(entries@, i as int, key, slot);
                }
                entries.set(i, (key, slot));
            },
            None => {
                proof {
                    assert forall|i: int| 0 <= i < entries@.len() implies entries@[i].0@
                        != key@ by {
                        if entries@[i].0@ == key@ {
                            assert(holds(entries@, key@, i));
                        }
                    }
                    lemma_push(entries@, key, slot);
                }
                entries.push((key, slot));
            },
        }
        self.entries = entries;
    }

    /// Records that the fetch for `key` is being issued: the key becomes
    /// pending. The caller has looked first: a key whose fetch is still
    /// outstanding is not requested again.
    pub fn begin_fetch(&mut self, key: K)
        requires
            !(old(self).state(key@) is Pending),
        ensures
            final(self)@ == old(self)@.insert(key@, None),
            final(self).state(key@) is Pending,
    {
        self.put(key, None);
    }

    /// Stores the value that arrived for `key`. A pending key becomes
    /// loaded; a key that is absent, because its answer outran the
    /// placeholder or its view was closed meanwhile, is created as loaded.
    pub fn resolve(&mut self, key: K, value: V)
        ensures
            final(self)@ == old(self)@.insert(key@, Some(value.deep_view())),
            final(self).state(key@) == Entry::Loaded(value.deep_view()),
    {
        self.put(key, Some(value));
    }

    /// Forgets `key`, whatever its state: it is absent afterwards.
    pub fn release(&mut self, key: &K)
        ensures
            final(self)@ == old(self)@.remove(key@),
            final(self).state(key@) is Absent,
    {
        proof {
            use_type_invariant(&*self);
        }
        match self.position(key) {
            Some(i) => {
                let mut entries = Vec::new();
                core::mem::swap(&mut self.entries, &mut entries);
                proof {
                    lemma_remove(entries@, i as int);
                }
                entries.remove(i);
                self.entries = entries;
            },
            None => {
            },
        }
    }

    /// The keys that are present, each once, in no particular order.
    pub fn keys(&self) -> (r: Vec<&K>)
        ensures
            forall|i: int, j: int| 0 <= i < j < r@.len() ==> r@[i]@ != r@[j]@,
            forall|i: int| 0 <= i < r@.len() ==> self@.dom().contains(#[trigger] r@[i]@),
            forall|k: K::V|
                self@.dom().contains(k) ==> exists|i: int|
                    0 <= i < r@.len() && #[trigger] r@[i]@ == k,
    {
        proof {
            use_type_invariant(self);
        }
        let mut r: Vec<&K> = Vec::new();
        let mut i: usize = 0;
        while i < self.entries.len()
            invariant
                i <= self.entries@.len(),
                r@.len() == i,
                forall|j: int| 0 <= j < i ==> *(#[trigger] r@[j]) == self.entries@[j].0,
            decreases self.entries@.len() - i,
        {
            r.push(&self.entries[i].0);
            i += 1;
        }
        proof {
            assert forall|j: int| 0 <= j < r@.len() implies self@.dom().contains(
                #[trigger] r@[j]@,
            ) by {
                lemma_entry(self.entries@, j);
            }
            assert forall|k: K::V| self@.dom().contains(k) implies exists|j: int|
                0 <= j < r@.len() && #[trigger] r@[j]@ == k by {
                let j = choose|j: int| holds(self.entries@, k, j);
                assert(r@[j]@ == k);
            }
        }
        r
    }

    /// Requests `key` unless it is known already: an absent key becomes
    /// pending and the result is `true`, which tells the caller to issue
    /// the fetch; any other key is left as it is and the result is `false`.
    pub fn request(&mut self, key: K) -> (fresh: bool)
        ensures
            fresh == (old(self).state(key@) is Absent),
            fresh ==> final(self)@ == old(self)@.insert(key@, None),
            !fresh ==> final(self)@ == old(self)@,
            !(final(self).state(key@) is Absent),
    {
        if self.contains_key(&key) {
            false
        } else {
            self.begin_fetch(key);
            true
        }
    }
}

/// A set of keys: the detail views that are open.
#[derive(Debug)]
pub struct KeySet<K: Key> {
    slots: Cache<K, ()>,
}

impl<K: Key> View for KeySet<K> {
    type V = Set<K::V>;

    closed spec fn view(&self) -> Set<K::V> {
        self.slots@.dom()
    }
}

impl<K: Key> KeySet<K> {
    /// The empty set.
    pub fn new() -> (r: Self)
        ensures
            r@ == Set::<K::V>::empty(),
    {
        let r = KeySet { slots: Cache::new() };
        r
    }

    /// Whether `key` is in the set.
    pub fn contains(&self, key: &K) -> (b: bool)
        ensures
            b == self@.contains(key@),
    {
        self.slots.contains_key(key)
    }

    /// Puts `key` into the set.
    pub fn insert(&mut self, key: K)
        ensures
            final(self)@ == old(self)@.insert(key@),
    {
        self.slots.resolve(key, ());
    }

    /// Takes `key` out of the set.
    pub fn remove(&mut self, key: &K)
        ensures
            final(self)@ == old(self)@.remove(key@),
    {
        self.slots.release(key);
    }

    /// The members, each once, in no particular order.
    pub fn keys(&self) -> (r: Vec<&K>)
        ensures
            forall|i: int, j: int| 0 <= i < j < r@.len() ==> r@[i]@ != r@[j]@,
            forall|i: int| 0 <= i < r@.len() ==> self@.contains(#[trigger] r@[i]@),
            forall|k: K::V|
                self@.contains(k) ==> exists|i: int| 0 <= i < r@.len() && #[trigger] r@[i]@ == k,
    {
        self.slots.keys()
    }
}

/// One call in the history of a cache, named by the view of its key.
pub enum Op<I, V> {
    /// `observe`: a read.
    Observe(I),
    /// `begin_fetch`: the key becomes pending.
    BeginFetch(I),
    /// `resolve`: the key becomes loaded.
    Resolve(I, V),
    /// `release`: the key becomes absent.
    Release(I),
}

/// The map after one call.
pub open spec fn apply<I, V>(m: Map<I, Option<V>>, op: Op<I, V>) -> Map<I, Option<V>> {
    match op {
        Op::Observe(_) => m,
        Op::BeginFetch(k) => m.insert(k, None),
        Op::Resolve(k, v) => m.insert(k, Some(v)),
        Op::Release(k) => m.remove(k),
    }
}

/// The map after a history of calls, first call first.
pub open spec fn run<I, V>(m: Map<I, Option<V>>, ops: Seq<Op<I, V>>) -> Map<I, Option<V>>
    decreases ops.len(),
{
    if ops.len() == 0 {
        m
    } else {
        apply(run(m, ops.drop_last()), ops.last())
    }
}

/// Call number `i` of the history takes `key` from absent to pending.
pub open spec fn starts_fetch<I, V>(
    m: Map<I, Option<V>>,
    ops: Seq<Op<I, V>>,
    i: int,
    key: I,
) -> bool {
    &&& 0 <= i < ops.len()
    &&& ops[i] == Op::<I, V>::BeginFetch(key)
    &&& state_of(run(m, ops.take(i)), key) is Absent
}

proof fn lemma_stays_present<I, V>(m: Map<I, Option<V>>, ops: Seq<Op<I, V>>, a: int, b: int, key: I)
    requires
        0 <= a <= b <= ops.len(),
        run(m, ops.take(a)).dom().contains(key),
        forall|r: int| a <= r < b ==> ops[r] != Op::<I, V>::Release(key),
    ensures
        run(m, ops.take(b)).dom().contains(key),
    decreases b - a,
{
    if a < b {
        lemma_stays_present(m, ops, a, b - 1, key);
        assert(ops.take(b).drop_last() =~= ops.take(b - 1));
    }
}

/// Deduplication: between two calls that take the same key from absent to
/// pending lies a release of that key. So nothing is requested a second
/// time while its first request is outstanding or answered.
pub proof fn law_fetch_once_until_release<I, V>(
    m: Map<I, Option<V>>,
    ops: Seq<Op<I, V>>,
    i: int,
    j: int,
    key: I,
)
    requires
        i < j,
        starts_fetch(m, ops, i, key),
        starts_fetch(m, ops, j, key),
    ensures
        exists|r: int| i < r < j && ops[r] == Op::<I, V>::Release(key),
{
    if forall|r: int| i < r < j ==> ops[r] != Op::<I, V>::Release(key) {
        lemma_stays_present(m, ops, i + 1, j, key);
    }
}

/// Closure of the transitions: whatever the state of the key, `resolve`
/// leaves it loaded with the value given, and `release` leaves it absent;
/// after `begin_fetch` it is pending. No other key changes its state.
pub proof fn law_transitions<I, V>(m: Map<I, Option<V>>, key: I, value: V, other: I)
    requires
        other != key,
    ensures
        state_of(apply(m, Op::Resolve(key, value)), key) == Entry::Loaded(value),
        state_of(apply(m, Op::<I, V>::Release(key)), key) is Absent,
        state_of(apply(m, Op::<I, V>::BeginFetch(key)), key) is Pending,
        state_of(apply(m, Op::<I, V>::Observe(key)), key) == state_of(m, key),
        state_of(apply(m, Op::Resolve(key, value)), other) == state_of(m, other),
        state_of(apply(m, Op::<I, V>::Release(key)), other) == state_of(m, other),
        state_of(apply(m, Op::<I, V>::BeginFetch(key)), other) == state_of(m, other),
{
}

} // verus!
