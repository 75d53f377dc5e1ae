//! The expression definitions of a project, keyed by abbreviation.

use crate::expression::{ExpressionDescriptor, ExpressionDescriptorView};
use vstd::prelude::*;

verus! {

/// Whether no key occurs twice in `entries`.
pub open spec fn keys_distinct(entries: Seq<(String, ExpressionDescriptor)>) -> bool {
    forall|i: int, j: int| 0 <= i < j < entries.len() ==> entries[i].0@ != entries[j].0@
}

/// The mapping that a list of entries stands for. Where a key occurs more
/// than once, its last entry counts.
pub open spec fn mapping_of(entries: Seq<(String, ExpressionDescriptor)>) -> Map<
    Seq<char>,
    ExpressionDescriptorView,
>
    decreases entries.len(),
{
    if entries.len() == 0 {
        Map::empty()
    } else {
        mapping_of(entries.drop_last()).insert(entries.last().0@, entries.last().1.deep_view())
    }
}

/// A key that no entry has is not in the mapping.
pub proof fn lemma_absent(entries: Seq<(String, ExpressionDescriptor)>, key: Seq<char>)
    requires
        forall|i: int| 0 <= i < entries.len() ==> entries[i].0@ != key,
    ensures
        !mapping_of(entries).contains_key(key),
    decreases entries.len(),
{
    if entries.len() > 0 {
        lemma_absent(entries.drop_last(), key);
    }
}

/// With distinct keys, each entry is in the mapping with its own value.
pub proof fn lemma_present(entries: Seq<(String, ExpressionDescriptor)>, i: int)
    requires
        keys_distinct(entries),
        0 <= i < entries.len(),
    ensures
        mapping_of(entries).contains_key(entries[i].0@),
        mapping_of(entries)[entries[i].0@] == entries[i].1.deep_view(),
    decreases entries.len(),
{
    if i < entries.len() - 1 {
        lemma_present(entries.drop_last(), i);
    }
}

/// The mapping is finite.
pub proof fn lemma_finite(entries: Seq<(String, ExpressionDescriptor)>)
    ensures
        mapping_of(entries).dom().finite(),
    decreases entries.len(),
{
    if entries.len() > 0 {
        lemma_finite(entries.drop_last());
    }
}

/// With distinct keys, the mapping has as many keys as there are entries.
pub proof fn lemma_size(entries: Seq<(String, ExpressionDescriptor)>)
    requires
        keys_distinct(entries),
    ensures
        mapping_of(entries).dom().finite(),
        mapping_of(entries).dom().len() == entries.len(),
    decreases entries.len(),
{
    lemma_finite(entries);
    if entries.len() > 0 {
        let front = entries.drop_last();
        lemma_size(front);
        lemma_absent(front, entries.last().0@);
    }
}

/// With distinct keys, taking an entry out takes its key out of the
/// mapping and leaves the rest as it was.
pub proof fn lemma_removed(entries: Seq<(String, ExpressionDescriptor)>, i: int)
    requires
        keys_distinct(entries),
        0 <= i < entries.len(),
    ensures
        keys_distinct(entries.remove(i)),
        mapping_of(entries.remove(i)) == mapping_of(entries).remove(entries[i].0@),
    decreases entries.len(),
{
    let rest = entries.remove(i);
    let front = entries.drop_last();
    if i == entries.len() - 1 {
        assert(rest =~= front);
        lemma_absent(front, entries[i].0@);
        assert(mapping_of(front) =~= mapping_of(entries).remove(entries[i].0@));
    } else {
        lemma_removed(front, i);
        assert(rest.drop_last() =~= front.remove(i));
        assert(rest.last() == entries.last());
        assert(mapping_of(rest) =~= mapping_of(entries).remove(entries[i].0@));
    }
}

/// Lists that agree entry by entry in key and value stand for the same
/// mapping.
pub proof fn lemma_same_mapping(
    a: Seq<(String, ExpressionDescriptor)>,
    b: Seq<(String, ExpressionDescriptor)>,
)
    requires
        a.len() == b.len(),
        forall|k: int|
            0 <= k < a.len() ==> (#[trigger] a[k]).0@ == b[k].0@ && a[k].1.deep_view()
                == b[k].1.deep_view(),
    ensures
        mapping_of(a) == mapping_of(b),
        keys_distinct(b) ==> keys_distinct(a),
    decreases a.len(),
{
    if a.len() > 0 {
        lemma_same_mapping(a.drop_last(), b.drop_last());
    }
    if keys_distinct(b) {
        assert forall|i: int, j: int| 0 <= i < j < a.len() implies a[i].0@ != a[j].0@ by {
            assert(a[i].0@ == b[i].0@);
            assert(a[j].0@ == b[j].0@);
        }
    }
}

/// The expression definitions of a project: a finite mapping from
/// abbreviation to definition, in which each abbreviation occurs once. The
/// order of the entries carries no meaning.
#[derive(Debug)]
pub struct ExpressionMap {
    entries: Vec<(String, ExpressionDescriptor)>,
}

impl DeepView for ExpressionMap {
    type V = Map<Seq<char>, ExpressionDescriptorView>;

    closed spec fn deep_view(&self) -> Map<Seq<char>, ExpressionDescriptorView> {
        mapping_of(self.entries@)
    }
}

impl Clone for ExpressionMap {
    fn clone(&self) -> (r: Self)
        ensures
            r.deep_view() == self.deep_view(),
    {
        proof {
            use_type_invariant(self);
        }
        let mut entries: Vec<(String, ExpressionDescriptor)> = Vec::new();
        let mut i: usize = 0;
        while i < self.entries.len()
            invariant
                i <= self.entries@.len(),
                entries@.len() == i,
                forall|k: int|
                    0 <= k < i ==> (#[trigger] entries@[k]).0@ == self.entries@[k].0@
                        && entries@[k].1.deep_view() == self.entries@[k].1.deep_view(),
            decreases self.entries@.len() - i,
        {
            entries.push((self.entries[i].0.clone(), self.entries[i].1.clone()));
            i += 1;
        }
        proof {
            lemma_same_mapping(entries@, self.entries@);
        }
        ExpressionMap { entries }
    }
}

impl ExpressionMap {
    #[verifier::type_invariant]
    spec fn well_formed(&self) -> bool {
        keys_distinct(self.entries@)
    }

    /// The empty mapping.
    pub fn new() -> (r: Self)
        ensures
            r.deep_view() == Map::<Seq<char>, ExpressionDescriptorView>::empty(),
    {
        ExpressionMap { entries: Vec::new() }
    }

    /// The number of definitions.
    pub fn len(&self) -> (r: usize)
        ensures
            self.deep_view().dom().finite(),
            r == self.deep_view().dom().len(),
    {
        proof {
            use_type_invariant(self);
            lemma_size(self.entries@);
        }
        self.entries.len()
    }

    /// Whether there is no definition.
    pub fn is_empty(&self) -> (r: bool)
        ensures
            r == (self.deep_view() == Map::<Seq<char>, ExpressionDescriptorView>::empty()),
    {
        proof {
            use_type_invariant(self);
            lemma_size(self.entries@);
            if self.entries@.len() == 0 {
                assert(self.deep_view() =~= Map::empty());
            }
        }
        self.entries.len() == 0
    }

    /// Where the entry with the given key stands, if there is one.
    fn position(&self, key: &str) -> (r: Option<usize>)
        ensures
            match r {
                Some(i) => i < self.entries@.len() && self.entries@[i as int].0@ == key@,
                None => forall|i: int| 0 <= i < self.entries@.len() ==> self.entries@[i].0@ != key@,
            },
    {
        let wanted: String = key.to_owned();
        let mut i: usize = 0;
        while i < self.entries.len()
            invariant
                i <= self.entries@.len(),
                wanted@ == key@,
                forall|k: int| 0 <= k < i ==> self.entries@[k].0@ != key@,
            decreases self.entries@.len() - i,
        {
            if self.entries[i].0 == wanted {
                return Some(i);
            }
            i += 1;
        }
        None
    }

    /// Whether a definition stands under `key`.
    pub fn contains_key(&self, key: &str) -> (r: bool)
        ensures
            r == self.deep_view().contains_key(key@),
    {
        proof {
            use_type_invariant(self);
        }
        match self.position(key) {
            Some(i) => {
                proof {
                    lemma_present(self.entries@, i as int);
                }
                true
            },
            None => {
                proof {
                    lemma_absent(self.entries@, key@);
                }
                false
            },
        }
    }

    /// The definition under `key`, if there is one.
    pub fn get(&self, key: &str) -> (r: Option<&ExpressionDescriptor>)
        ensures
            match r {
                Some(descriptor) => self.deep_view().contains_key(key@) && self.deep_view()[key@]
                    == descriptor.deep_view(),
                None => !self.deep_view().contains_key(key@),
            },
    {
        proof {
            use_type_invariant(self);
        }
        match self.position(key) {
            Some(i) => {
                proof {
                    lemma_present(self.entries@, i as int);
                }
                Some(&self.entries[i].1)
            },
            None => {
                proof {
                    lemma_absent(self.entries@, key@);
                }
                None
            },
        }
    }

    /// Takes the definition under `key` out of the mapping and returns it,
    /// if there is one.
    pub fn remove(&mut self, key: &str) -> (r: Option<ExpressionDescriptor>)
        ensures
            final(self).deep_view() == old(self).deep_view().remove(key@),
            match r {
                Some(descriptor) => old(self).deep_view().contains_key(key@) && old(
                    self,
                ).deep_view()[key@] == descriptor.deep_view(),
                None => !old(self).deep_view().contains_key(key@),
            },
    {
        proof {
            use_type_invariant(&*self);
        }
        match self.position(key) {
            Some(i) => {
                proof {
                    lemma_present(self.entries@, i as int);
                    lemma_removed(self.entries@, i as int);
                }
                let mut entries: Vec<(String, ExpressionDescriptor)> = Vec::new();
                std::mem::swap(&mut self.entries, &mut entries);
                let entry = entries.remove(i);
                self.entries = entries;
                Some(entry.1)
            },
            None => {
                proof {
                    lemma_absent(self.entries@, key@);
                    assert(self.deep_view() =~= self.deep_view().remove(key@));
                }
                None
            },
        }
    }

    /// Puts `value` under `key` and returns the definition that stood there
    /// before, if there was one.
    pub fn insert(&mut self, key: String, value: ExpressionDescriptor) -> (r: Option<
        ExpressionDescriptor,
    >)
        ensures
            final(self).deep_view() == old(self).deep_view().insert(key@, value.deep_view()),
            match r {
                Some(descriptor) => old(self).deep_view().contains_key(key@) && old(
                    self,
                ).deep_view()[key@] == descriptor.deep_view(),
                None => !old(self).deep_view().contains_key(key@),
            },
    {
        let previous = self.remove(key.as_str());
        proof {
            use_type_invariant(&*self);
            let before = self.entries@;
            let after = before.push((key, value));
            assert(after.drop_last() =~= before);
            assert(!mapping_of(before).contains_key(key@));
            assert forall|i: int, j: int| 0 <= i < j < after.len() implies after[i].0@
                != after[j].0@ by {
                if j == before.len() {
                    lemma_present(before, i);
                }
            }
            assert(mapping_of(after) =~= old(self).deep_view().insert(key@, value.deep_view()));
        }
        let mut entries: Vec<(String, ExpressionDescriptor)> = Vec::new();
        std::mem::swap(&mut self.entries, &mut entries);
        entries.push((key, value));
        self.entries = entries;
        previous
    }

    /// The entries of the mapping, each key once, in no particular order.
    pub fn entries(&self) -> (r: &Vec<(String, ExpressionDescriptor)>)
        ensures
            keys_distinct(r@),
            mapping_of(r@) == self.deep_view(),
    {
        proof {
            use_type_invariant(self);
        }
        &self.entries
    }

    /// The mapping that `entries` stands for, see [`mapping_of`].
    pub fn from_entries(entries: Vec<(String, ExpressionDescriptor)>) -> (r: Self)
        ensures
            r.deep_view() == mapping_of(entries@),
    {
        let mut map = ExpressionMap::new();
        let ghost all = entries@;
        for entry in it: entries
            invariant
                it.seq() == all,
                map.deep_view() == mapping_of(all.take(it.index() as int)),
        {
            proof {
                let next = all.take(it.index() + 1);
                assert(next.drop_last() =~= all.take(it.index() as int));
            }
            map.insert(entry.0, entry.1);
        }
        proof {
            assert(all.take(all.len() as int) =~= all);
        }
        map
    }
}

} // verus!
