//! The timer table.
//!
//! Tap-toggle resolution records, for each pressed tap-toggle key, the
//! instant of its initial press.  Entries are few and short-lived, so the
//! table is a small association list viewed as a map.

use vstd::prelude::*;

use crate::keycodes::KeyCode;

verus! {

/// Folds timer entries into a map; a later entry for the same key replaces an
/// earlier one.
pub open spec fn spec_timers_map(entries: Seq<(KeyCode, u64)>) -> Map<KeyCode, u64>
    decreases entries.len(),
{
    if entries.len() == 0 {
        Map::empty()
    } else {
        spec_timers_map(entries.drop_last()).insert(entries.last().0, entries.last().1)
    }
}

proof fn lemma_timers_contains(entries: Seq<(KeyCode, u64)>, k: KeyCode)
    ensures
        spec_timers_map(entries).contains_key(k) <==> exists|i: int|
            0 <= i < entries.len() && (#[trigger] entries[i]).0 == k,
    decreases entries.len(),
{
    if entries.len() > 0 {
        lemma_timers_contains(entries.drop_last(), k);
        if spec_timers_map(entries).contains_key(k) {
            if entries.last().0 == k {
                assert(entries[entries.len() - 1].0 == k);
            } else {
                let i = choose|i: int|
                    0 <= i < entries.drop_last().len() && (#[trigger] entries.drop_last()[i]).0
                        == k;
                assert(entries[i].0 == k);
            }
        } else {
            assert(forall|i: int|
                0 <= i < entries.len() - 1 ==> (#[trigger] entries[i]) == entries.drop_last()[i]);
        }
    }
}

proof fn lemma_timers_found(entries: Seq<(KeyCode, u64)>, k: KeyCode, j: int)
    requires
        0 <= j < entries.len(),
        entries[j].0 == k,
        forall|l: int| j < l < entries.len() ==> (#[trigger] entries[l]).0 != k,
    ensures
        spec_timers_map(entries).contains_key(k),
        spec_timers_map(entries)[k] == entries[j].1,
    decreases entries.len(),
{
    if j == entries.len() - 1 {
    } else {
        lemma_timers_found(entries.drop_last(), k, j);
    }
}

proof fn lemma_timers_remove(entries: Seq<(KeyCode, u64)>, k: KeyCode, j: int)
    requires
        0 <= j < entries.len(),
        entries[j].0 == k,
        forall|i1: int, i2: int|
            0 <= i1 < i2 < entries.len() ==> (#[trigger] entries[i1]).0 != (#[trigger] entries[i2]).0,
    ensures
        spec_timers_map(entries.remove(j)) == spec_timers_map(entries).remove(k),
    decreases entries.len(),
{
    if j == entries.len() - 1 {
        assert(entries.remove(j) =~= entries.drop_last());
        assert(forall|i: int|
            0 <= i < entries.len() - 1 ==> (#[trigger] entries.drop_last()[i]).0 != k);
        lemma_timers_contains(entries.drop_last(), k);
        assert(spec_timers_map(entries.drop_last()).remove(k) =~= spec_timers_map(
            entries.drop_last(),
        ));
        assert(spec_timers_map(entries).remove(k) =~= spec_timers_map(entries.drop_last()));
    } else {
        lemma_timers_remove(entries.drop_last(), k, j);
        assert(entries.remove(j).drop_last() =~= entries.drop_last().remove(j));
        assert(entries.remove(j).last() == entries.last());
        assert(spec_timers_map(entries.remove(j)) =~= spec_timers_map(entries).remove(k));
    }
}

/// The per-key press instants of the tap-toggle keys currently being pressed.
#[derive(Debug)]
pub struct Timers {
    pub entries: Vec<(KeyCode, u64)>,
}

impl View for Timers {
    type V = Map<KeyCode, u64>;

    open spec fn view(&self) -> Map<KeyCode, u64> {
        spec_timers_map(self.entries@)
    }
}

impl Timers {
    /// No key twice; keeps the table's size equal to the number of keys it
    /// tracks.
    pub open spec fn wf(&self) -> bool {
        forall|i1: int, i2: int|
            0 <= i1 < i2 < self.entries@.len() ==> (#[trigger] self.entries@[i1]).0 != (
            #[trigger] self.entries@[i2]).0
    }

    /// An empty table.
    pub fn new() -> (r: Timers)
        ensures
            r@ == Map::<KeyCode, u64>::empty(),
            r.wf(),
    {
        Timers { entries: Vec::new() }
    }

    /// How many keys the table tracks.
    pub fn len(&self) -> (n: usize)
        requires
            self.wf(),
        ensures
            n == self@.dom().len(),
    {
        proof {
            self.lemma_len();
        }
        self.entries.len()
    }

    /// A well-formed table is exactly as large as its entry list.
    pub proof fn lemma_len(&self)
        requires
            self.wf(),
        ensures
            self@.dom().len() == self.entries@.len(),
            self@.dom().finite(),
    {
        lemma_timers_len(self.entries@);
    }

    /// The recorded instant for a key, if one is present.
    pub fn get(&self, k: KeyCode) -> (r: Option<u64>)
        ensures
            match r {
                Some(t) => self@.contains_key(k) && self@[k] == t,
                None => !self@.contains_key(k),
            },
    {
        let n = self.entries.len();
        let mut i: usize = n;
        while i > 0
            invariant
                i <= n,
                n == self.entries@.len(),
                forall|l: int| i <= l < n ==> (#[trigger] self.entries@[l]).0 != k,
            decreases i,
        {
            i = i - 1;
            if self.entries[i].0 == k {
                proof {
                    lemma_timers_found(self.entries@, k, i as int);
                }
                return Some(self.entries[i].1);
            }
        }
        proof {
            lemma_timers_contains(self.entries@, k);
        }
        None
    }

    /// Records the instant for a key the table does not track yet.
    pub fn insert(&mut self, k: KeyCode, t: u64)
        requires
            old(self).wf(),
            !old(self)@.contains_key(k),
        ensures
            final(self).wf(),
            final(self)@ == old(self)@.insert(k, t),
    {
        proof {
            lemma_timers_contains(self.entries@, k);
        }
        self.entries.push((k, t));
        proof {
            assert(self.entries@.drop_last() =~= old(self).entries@);
        }
    }

    /// Drops the entry for a key; a key the table does not track is left
    /// alone.
    pub fn remove(&mut self, k: KeyCode)
        requires
            old(self).wf(),
        ensures
            final(self).wf(),
            final(self)@ == old(self)@.remove(k),
    {
        let n = self.entries.len();
        let mut i: usize = 0;
        while i < n
            invariant
                i <= n,
                n == self.entries@.len(),
                old(self).wf(),
                *self == *old(self),
                forall|l: int| 0 <= l < i ==> (#[trigger] self.entries@[l]).0 != k,
            decreases n - i,
        {
            if self.entries[i].0 == k {
                proof {
                    lemma_timers_remove(self.entries@, k, i as int);
                }
                let ghost olds = self.entries@;
                let ghost oi = i as int;
                self.entries.remove(i);
                proof {
                    olds.remove_ensures(oi);
                    assert forall|i1: int, i2: int|
                        0 <= i1 < i2 < self.entries@.len() implies (#[trigger] self.entries@[i1]).0
                        != (#[trigger] self.entries@[i2]).0 by {
                        let o1: int = if i1 < oi { i1 } else { i1 + 1 };
                        let o2: int = if i2 < oi { i2 } else { i2 + 1 };
                        assert(self.entries@[i1] == olds[o1]);
                        assert(self.entries@[i2] == olds[o2]);
                    }
                }
                return;
            }
            i = i + 1;
        }
        proof {
            lemma_timers_contains(self.entries@, k);
            assert(self@.remove(k) =~= self@);
        }
    }
}

proof fn lemma_timers_len(entries: Seq<(KeyCode, u64)>)
    requires
        forall|i1: int, i2: int|
            0 <= i1 < i2 < entries.len() ==> (#[trigger] entries[i1]).0 != (
            #[trigger] entries[i2]).0,
    ensures
        spec_timers_map(entries).dom().finite(),
        spec_timers_map(entries).dom().len() == entries.len(),
    decreases entries.len(),
{
    if entries.len() > 0 {
        lemma_timers_len(entries.drop_last());
        lemma_timers_contains(entries.drop_last(), entries.last().0);
        assert(forall|i: int|
            0 <= i < entries.len() - 1 ==> (#[trigger] entries.drop_last()[i]) == entries[i]);
        assert(!spec_timers_map(entries.drop_last()).contains_key(entries.last().0));
        assert(spec_timers_map(entries).dom() =~= spec_timers_map(entries.drop_last()).dom().insert(
            entries.last().0,
        ));
        vstd::set::axiom_set_insert_len(
            spec_timers_map(entries.drop_last()).dom(),
            entries.last().0,
        );
    }
}

} // verus!
