//! The per-section failure tracker: a finite map from section key to
//! recorded failures that can be listed entry by entry.

use crate::stats::SectionFailures;
use vstd::prelude::*;

verus! {

/// One tracked section: its key and its failures.
pub struct TrackedSection {
    pub key: String,
    pub failures: SectionFailures,
}

/// The map that a sequence of tracked sections stands for; a later entry
/// overrides an earlier one with the same key.
pub open spec fn tracked_map(entries: Seq<TrackedSection>) -> Map<Seq<char>, SectionFailures>
    decreases entries.len(),
{
    if entries.len() == 0 {
        Map::empty()
    } else {
        tracked_map(entries.drop_last()).insert(entries.last().key@, entries.last().failures)
    }
}

/// No key occurs twice.
pub open spec fn distinct_keys(entries: Seq<TrackedSection>) -> bool {
    forall|i: int, j: int|
        0 <= i < j < entries.len() ==> (#[trigger] entries[i]).key@ != (#[trigger] entries[j]).key@
}

/// A key is in the map exactly if some entry carries it.
pub proof fn lemma_tracked_map_dom(entries: Seq<TrackedSection>, key: Seq<char>)
    ensures
        tracked_map(entries).contains_key(key) <==> exists|i: int|
            0 <= i < entries.len() && (#[trigger] entries[i]).key@ == key,
    decreases entries.len(),
{
    if entries.len() > 0 {
        let front = entries.drop_last();
        lemma_tracked_map_dom(front, key);
        if tracked_map(entries).contains_key(key) {
            if entries.last().key@ == key {
                assert(entries[entries.len() - 1].key@ == key);
            } else {
                let i = choose|i: int| 0 <= i < front.len() && (#[trigger] front[i]).key@ == key;
                assert(entries[i].key@ == key);
            }
        }
        if exists|i: int| 0 <= i < entries.len() && (#[trigger] entries[i]).key@ == key {
            let i = choose|i: int| 0 <= i < entries.len() && (#[trigger] entries[i]).key@ == key;
            if i < front.len() {
                assert(front[i].key@ == key);
            }
        }
    }
}

/// With distinct keys, the map holds at each entry's key that entry's value.
pub proof fn lemma_tracked_map_value(entries: Seq<TrackedSection>, i: int)
    requires
        distinct_keys(entries),
        0 <= i < entries.len(),
    ensures
        tracked_map(entries).contains_key(entries[i].key@),
        tracked_map(entries)[entries[i].key@] == entries[i].failures,
    decreases entries.len(),
{
    let front = entries.drop_last();
    if i < entries.len() - 1 {
        assert(distinct_keys(front)) by {
            assert forall|a: int, b: int| 0 <= a < b < front.len() implies (#[trigger] front[a]).key@
                != (#[trigger] front[b]).key@ by {
                assert(front[a] == entries[a]);
                assert(front[b] == entries[b]);
            }
        }
        lemma_tracked_map_value(front, i);
        assert(front[i] == entries[i]);
        assert(entries[i].key@ != entries[entries.len() - 1].key@);
    }
}

/// The per-section failure tracker: a finite map from section key to the
/// failures recorded for it, in which no key occurs twice.
pub struct FailureTracker {
    entries: Vec<TrackedSection>,
}

impl View for FailureTracker {
    type V = Map<Seq<char>, SectionFailures>;

    closed spec fn view(&self) -> Map<Seq<char>, SectionFailures> {
        tracked_map(self.entries@)
    }
}

impl FailureTracker {
    #[verifier::type_invariant]
    spec fn distinct(self) -> bool {
        distinct_keys(self.entries@)
    }

    /// The entries of the tracker, one for each tracked section.
    pub closed spec fn listing(&self) -> Seq<TrackedSection> {
        self.entries@
    }

    /// An empty tracker.
    pub fn new() -> (tracker: Self)
        ensures
            tracker@ == Map::<Seq<char>, SectionFailures>::empty(),
            tracker.listing().len() == 0,
    {
        FailureTracker { entries: Vec::new() }
    }

    /// The number of tracked sections. The listing names each of them once,
    /// and the view is the map of the listing.
    pub fn len(&self) -> (n: usize)
        ensures
            n == self.listing().len(),
            n == self@.len(),
            distinct_keys(self.listing()),
            self@ == tracked_map(self.listing()),
    {
        proof {
            use_type_invariant(self);
            lemma_tracked_map_len(self.entries@);
        }
        self.entries.len()
    }

    /// Where `key` stands in the listing, if it is tracked.
    fn position(&self, key: &String) -> (at: Option<usize>)
        ensures
            match at {
                Some(i) => i < self.entries@.len() && self.entries@[i as int].key@ == key@,
                None => forall|i: int|
                    0 <= i < self.entries@.len() ==> (#[trigger] self.entries@[i]).key@ != key@,
            },
    {
        let mut i: usize = 0;
        while i < self.entries.len()
            invariant
                i <= self.entries@.len(),
                forall|j: int| 0 <= j < i ==> (#[trigger] self.entries@[j]).key@ != key@,
            decreases self.entries@.len() - i,
        {
            if self.entries[i].key == *key {
                return Some(i);
            }
            i += 1;
        }
        None
    }

    /// The failures recorded for `key`, if any.
    pub fn get(&self, key: &str) -> (found: Option<SectionFailures>)
        ensures
            found == (if self@.contains_key(key@) {
                Some(self@[key@])
            } else {
                None
            }),
    {
        proof {
            use_type_invariant(self);
            lemma_tracked_map_dom(self.entries@, key@);
        }
        let owned = key.to_owned();
        match self.position(&owned) {
            Some(i) => {
                proof {
                    lemma_tracked_map_value(self.entries@, i as int);
                }
                Some(self.entries[i].failures)
            },
            None => None,
        }
    }

    /// Whether `key` is tracked.
    pub fn contains_key(&self, key: &str) -> (present: bool)
        ensures
            present == self@.contains_key(key@),
    {
        self.get(key).is_some()
    }

    /// Records `failures` for `key`, replacing what was recorded before.
    pub fn insert(&mut self, key: &str, failures: SectionFailures)
        ensures
            final(self)@ == old(self)@.insert(key@, failures),
    {
        proof {
            use_type_invariant(&*self);
        }
        let owned = key.to_owned();
        let at = self.position(&owned);
        let mut entries = Vec::new();
        std::mem::swap(&mut entries, &mut self.entries);
        let ghost before = entries@;
        match at {
            Some(i) => {
                entries.set(i, TrackedSection { key: owned, failures });
                proof {
                    lemma_tracked_map_update(before, i as int, entries@[i as int]);
                }
            },
            None => {
                entries.push(TrackedSection { key: owned, failures });
                proof {
                    assert(entries@.drop_last() == before);
                    assert forall|a: int, b: int| 0 <= a < b < entries@.len() implies (
                    #[trigger] entries@[a]).key@ != (#[trigger] entries@[b]).key@ by {
                        if b < before.len() {
                            assert(before[a].key@ != before[b].key@);
                        } else {
                            assert(before[a].key@ != key@);
                        }
                    }
                }
            },
        }
        self.entries = entries;
    }

    /// Forgets `key`; a key that is not tracked leaves the tracker as it was.
    pub fn remove(&mut self, key: &str)
        ensures
            final(self)@ == old(self)@.remove(key@),
    {
        proof {
            use_type_invariant(&*self);
        }
        let owned = key.to_owned();
        let at = self.position(&owned);
        match at {
            Some(i) => {
                let mut entries = Vec::new();
                std::mem::swap(&mut entries, &mut self.entries);
                let ghost before = entries@;
                let _ = entries.remove(i);
                proof {
                    lemma_tracked_map_remove(before, i as int);
                }
                self.entries = entries;
            },
            None => {
                proof {
                    lemma_tracked_map_dom(self.entries@, key@);
                    assert(self@.remove(key@) =~= self@);
                }
            },
        }
    }

    /// A copy of the tracker.
    pub fn snapshot(&self) -> (copy: Self)
        ensures
            copy@ == self@,
            copy.listing() == self.listing(),
    {
        proof {
            use_type_invariant(self);
        }
        let mut entries: Vec<TrackedSection> = Vec::new();
        let mut i: usize = 0;
        while i < self.entries.len()
            invariant
                i <= self.entries@.len(),
                entries@ == self.entries@.take(i as int),
            decreases self.entries@.len() - i,
        {
            entries.push(
                TrackedSection {
                    key: self.entries[i].key.clone(),
                    failures: self.entries[i].failures,
                },
            );
            assert(entries@ =~= self.entries@.take(i + 1));
            i += 1;
        }
        assert(self.entries@.take(self.entries@.len() as int) =~= self.entries@);
        FailureTracker { entries }
    }

    /// The key and the failures of the entry at `index` of the listing, if
    /// the listing is that long. Indices from zero up to the length list
    /// every tracked section once.
    pub fn entry_at(&self, index: usize) -> (entry: Option<(String, SectionFailures)>)
        ensures
            entry is Some == (index < self.listing().len()),
            entry matches Some((key, failures)) ==> {
                &&& key@ == self.listing()[index as int].key@
                &&& failures == self.listing()[index as int].failures
                &&& self@.contains_key(key@)
                &&& self@[key@] == failures
            },
    {
        proof {
            use_type_invariant(self);
        }
        if index < self.entries.len() {
            proof {
                lemma_tracked_map_value(self.entries@, index as int);
            }
            Some((self.entries[index].key.clone(), self.entries[index].failures))
        } else {
            None
        }
    }
}

/// Replacing the entry at `i` by one with the same key replaces its value
/// in the map and keeps the keys distinct.
pub proof fn lemma_tracked_map_update(entries: Seq<TrackedSection>, i: int, entry: TrackedSection)
    requires
        distinct_keys(entries),
        0 <= i < entries.len(),
        entry.key@ == entries[i].key@,
    ensures
        distinct_keys(entries.update(i, entry)),
        tracked_map(entries.update(i, entry)) == tracked_map(entries).insert(
            entry.key@,
            entry.failures,
        ),
{
    let after = entries.update(i, entry);
    assert forall|a: int, b: int| 0 <= a < b < after.len() implies (#[trigger] after[a]).key@ != (
    #[trigger] after[b]).key@ by {
        assert(entries[a].key@ != entries[b].key@);
    }
    let want = tracked_map(entries).insert(entry.key@, entry.failures);
    assert forall|k: Seq<char>| #[trigger] tracked_map(after).contains_key(k) <==> want.contains_key(k) by {
        lemma_tracked_map_dom(after, k);
        lemma_tracked_map_dom(entries, k);
        if tracked_map(after).contains_key(k) {
            let j = choose|j: int| 0 <= j < after.len() && (#[trigger] after[j]).key@ == k;
            assert(entries[j].key@ == k);
        }
        if want.contains_key(k) {
            if k == entry.key@ {
                assert(after[i].key@ == k);
            } else {
                let j = choose|j: int| 0 <= j < entries.len() && (#[trigger] entries[j]).key@ == k;
                assert(after[j].key@ == k);
            }
        }
    }
    assert forall|k: Seq<char>| #[trigger] tracked_map(after).contains_key(k) implies tracked_map(after)[k]
        == want[k] by {
        lemma_tracked_map_dom(after, k);
        let j = choose|j: int| 0 <= j < after.len() && (#[trigger] after[j]).key@ == k;
        lemma_tracked_map_value(after, j);
        if j != i {
            lemma_tracked_map_value(entries, j);
            assert(entries[j].key@ != entries[i].key@);
        }
    }
    assert(tracked_map(after) =~= want);
}

/// Taking the entry at `i` out removes its key from the map and keeps the
/// keys distinct.
pub proof fn lemma_tracked_map_remove(entries: Seq<TrackedSection>, i: int)
    requires
        distinct_keys(entries),
        0 <= i < entries.len(),
    ensures
        distinct_keys(entries.remove(i)),
        tracked_map(entries.remove(i)) == tracked_map(entries).remove(entries[i].key@),
{
    let after = entries.remove(i);
    assert forall|a: int, b: int| 0 <= a < b < after.len() implies (#[trigger] after[a]).key@ != (
    #[trigger] after[b]).key@ by {
        let a0 = if a < i { a } else { a + 1 };
        let b0 = if b < i { b } else { b + 1 };
        assert(after[a] == entries[a0]);
        assert(after[b] == entries[b0]);
        assert(entries[a0].key@ != entries[b0].key@);
    }
    let want = tracked_map(entries).remove(entries[i].key@);
    assert forall|k: Seq<char>| #[trigger] tracked_map(after).contains_key(k) <==> want.contains_key(k) by {
        lemma_tracked_map_dom(after, k);
        lemma_tracked_map_dom(entries, k);
        if tracked_map(after).contains_key(k) {
            let j = choose|j: int| 0 <= j < after.len() && (#[trigger] after[j]).key@ == k;
            let j0 = if j < i { j } else { j + 1 };
            assert(after[j] == entries[j0]);
            assert(entries[j0].key@ == k);
            assert(entries[j0].key@ != entries[i].key@);
        }
        if want.contains_key(k) {
            let j = choose|j: int| 0 <= j < entries.len() && (#[trigger] entries[j]).key@ == k;
            assert(j != i);
            let j1 = if j < i { j } else { j - 1 };
            assert(after[j1] == entries[j]);
            assert(after[j1].key@ == k);
        }
    }
    assert forall|k: Seq<char>| #[trigger] tracked_map(after).contains_key(k) implies tracked_map(after)[k]
        == want[k] by {
        lemma_tracked_map_dom(after, k);
        let j = choose|j: int| 0 <= j < after.len() && (#[trigger] after[j]).key@ == k;
        let j0 = if j < i { j } else { j + 1 };
        assert(after[j] == entries[j0]);
        lemma_tracked_map_value(after, j);
        lemma_tracked_map_value(entries, j0);
    }
    assert(tracked_map(after) =~= want);
}

/// With distinct keys the map has as many keys as there are entries.
pub proof fn lemma_tracked_map_len(entries: Seq<TrackedSection>)
    requires
        distinct_keys(entries),
    ensures
        tracked_map(entries).dom().finite(),
        tracked_map(entries).len() == entries.len(),
    decreases entries.len(),
{
    if entries.len() > 0 {
        let front = entries.drop_last();
        assert forall|a: int, b: int| 0 <= a < b < front.len() implies (#[trigger] front[a]).key@ != (
        #[trigger] front[b]).key@ by {
            assert(front[a] == entries[a]);
            assert(front[b] == entries[b]);
        }
        lemma_tracked_map_len(front);
        lemma_tracked_map_dom(front, entries.last().key@);
        if tracked_map(front).contains_key(entries.last().key@) {
            let j = choose|j: int| 0 <= j < front.len() && (#[trigger] front[j]).key@ == entries.last().key@;
            assert(front[j] == entries[j]);
            assert(entries[j].key@ != entries[entries.len() - 1].key@);
        }
    }
}

} // verus!
