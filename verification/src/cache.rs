//! The job-title cache: the label-to-id map built by the job-title pass
//! and read by the user pass.  It is built fresh every pass, read-only
//! once built, and scoped to that pass only.

use vstd::prelude::*;

use crate::uow::opt_int;

verus! {

/// The binding that a sequence of label/id pairs denotes; a later pair
/// would win, and well-formed caches never bind a label twice.
pub open spec fn assoc_map(entries: Seq<(Seq<char>, i32)>) -> Map<Seq<char>, int>
    decreases entries.len(),
{
    if entries.len() == 0 {
        Map::empty()
    } else {
        assoc_map(entries.drop_last()).insert(entries.last().0, entries.last().1 as int)
    }
}

/// The lookup that the user pass performs on a cache image.
pub open spec fn cache_lookup(m: Map<Seq<char>, int>, label: Seq<char>) -> Option<int> {
    if m.contains_key(label) {
        Some(m[label])
    } else {
        None
    }
}

/// Distinct labels over a pair sequence.
pub open spec fn entries_distinct(entries: Seq<(Seq<char>, i32)>) -> bool {
    forall|i: int, j: int|
        0 <= i < j < entries.len() ==> (#[trigger] entries[i]).0 != (#[trigger] entries[j]).0
}

/// What the map of a duplicate-free pair sequence holds: each pair, and
/// nothing else; its domain is finite and counts the pairs.
pub proof fn lemma_assoc_map_properties(entries: Seq<(Seq<char>, i32)>)
    requires
        entries_distinct(entries),
    ensures
        forall|i: int|
            0 <= i < entries.len() ==> assoc_map(entries).contains_key(
                (#[trigger] entries[i]).0,
            ) && assoc_map(entries)[entries[i].0] == entries[i].1 as int,
        forall|k: Seq<char>|
            #[trigger] assoc_map(entries).contains_key(k) ==> exists|i: int|
                0 <= i < entries.len() && (#[trigger] entries[i]).0 == k,
        assoc_map(entries).dom().finite(),
        assoc_map(entries).dom().len() == entries.len(),
    decreases entries.len(),
{
    if entries.len() > 0 {
        let prefix = entries.drop_last();
        let last = entries.last();
        assert(forall|i: int| 0 <= i < prefix.len() ==> #[trigger] prefix[i] == entries[i]);
        assert(entries_distinct(prefix));
        lemma_assoc_map_properties(prefix);
        assert(!assoc_map(prefix).contains_key(last.0)) by {
            if assoc_map(prefix).contains_key(last.0) {
                let i = choose|i: int|
                    0 <= i < prefix.len() && (#[trigger] prefix[i]).0 == last.0;
                assert(entries[i].0 == entries[entries.len() - 1].0);
            }
        }
        assert forall|i: int| 0 <= i < entries.len() implies assoc_map(entries).contains_key(
            (#[trigger] entries[i]).0,
        ) && assoc_map(entries)[entries[i].0] == entries[i].1 as int by {
            if i < entries.len() - 1 {
                assert(prefix[i] == entries[i]);
                assert(assoc_map(prefix).contains_key(prefix[i].0));
                assert(assoc_map(prefix)[prefix[i].0] == prefix[i].1 as int);
                assert(entries[i].0 != last.0);
            } else {
                assert(entries[i] == last);
            }
        }
        assert forall|k: Seq<char>| #[trigger]
            assoc_map(entries).contains_key(k) implies exists|i: int|
            0 <= i < entries.len() && (#[trigger] entries[i]).0 == k by {
            if k == last.0 {
                assert(entries[entries.len() - 1].0 == k);
            } else {
                assert(assoc_map(prefix).contains_key(k));
                let i = choose|i: int| 0 <= i < prefix.len() && (#[trigger] prefix[i]).0 == k;
                assert(entries[i].0 == k);
            }
        }
        assert(assoc_map(prefix).dom().insert(last.0).len() == assoc_map(prefix).dom().len()
            + 1) by {
            vstd::set::axiom_set_insert_len(assoc_map(prefix).dom(), last.0);
        }
        assert(assoc_map(entries).dom() =~= assoc_map(prefix).dom().insert(last.0));
    }
}

/// A label-to-id map over the job titles of the local store, valid for a
/// single reconciliation pass.
#[derive(Debug)]
pub struct JobTitleCache {
    entries: Vec<(String, i32)>,
}

impl View for JobTitleCache {
    type V = Map<Seq<char>, int>;

    closed spec fn view(&self) -> Map<Seq<char>, int> {
        assoc_map(self.entries.deep_view())
    }
}

impl JobTitleCache {
    /// No label bound twice.
    pub closed spec fn wf(&self) -> bool {
        entries_distinct(self.entries.deep_view())
    }

    /// An empty cache.
    pub fn new() -> (r: Self)
        ensures
            r.wf(),
            r@ == Map::<Seq<char>, int>::empty(),
            r@.dom().len() == 0,
    {
        let r = JobTitleCache { entries: Vec::new() };
        proof {
            assert(r.entries.deep_view() =~= Seq::<(Seq<char>, i32)>::empty());
        }
        r
    }

    /// Binds a label not bound yet.
    pub fn insert(&mut self, label: String, id: i32)
        requires
            old(self).wf(),
            !old(self)@.contains_key(label@),
        ensures
            final(self).wf(),
            final(self)@ == old(self)@.insert(label@, id as int),
    {
        proof {
            lemma_assoc_map_properties(self.entries.deep_view());
        }
        let ghost old_entries = self.entries.deep_view();
        self.entries.push((label, id));
        proof {
            let new_entries = self.entries.deep_view();
            assert(new_entries.drop_last() =~= old_entries);
            assert(forall|i: int|
                0 <= i < old_entries.len() ==> #[trigger] new_entries[i] == old_entries[i]);
        }
    }

    /// Looks a label up.
    pub fn get(&self, label: &String) -> (r: Option<i32>)
        requires
            self.wf(),
        ensures
            opt_int(r) == cache_lookup(self@, label@),
    {
        proof {
            lemma_assoc_map_properties(self.entries.deep_view());
        }
        let mut i: usize = 0;
        while i < self.entries.len()
            invariant
                self.wf(),
                i <= self.entries.len(),
                forall|k: int|
                    0 <= k < i ==> (#[trigger] self.entries.deep_view()[k]).0 != label@,
            decreases self.entries.len() - i,
        {
            if self.entries[i].0 == *label {
                proof {
                    lemma_assoc_map_properties(self.entries.deep_view());
                    let es = self.entries.deep_view();
                    assert(es[i as int].0 == label@);
                    assert(self@.contains_key(es[i as int].0));
                    assert(self@[es[i as int].0] == es[i as int].1 as int);
                    assert(es[i as int].1 == self.entries@[i as int].1);
                }
                return Some(self.entries[i].1);
            }
            i += 1;
        }
        proof {
            if self@.contains_key(label@) {
                let w = choose|k: int|
                    0 <= k < self.entries.deep_view().len() && (
                    #[trigger] self.entries.deep_view()[k]).0 == label@;
                assert(false);
            }
        }
        None
    }

    /// How many labels are bound.
    pub fn len(&self) -> (r: usize)
        requires
            self.wf(),
        ensures
            r == self@.dom().len(),
    {
        proof {
            lemma_assoc_map_properties(self.entries.deep_view());
        }
        self.entries.len()
    }
}

} // verus!
