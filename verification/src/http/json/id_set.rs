//! Finite sets of JSON-RPC identifiers.

use crate::http::json::id::{Id, IdView};
use vstd::prelude::*;
use vstd::std_specs::cmp::PartialEqSpecImpl;

verus! {

/// The values of a sequence of identifiers, in the same order.
pub open spec fn id_views(ids: Seq<Id>) -> Seq<IdView> {
    ids.map_values(|id: Id| id@)
}

/// The distinct values of `ids`, each at the place of its first occurrence.
pub open spec fn first_occurrences(ids: Seq<IdView>) -> Seq<IdView>
    decreases ids.len(),
{
    if ids.len() == 0 {
        Seq::empty()
    } else {
        let before = first_occurrences(ids.drop_last());
        if before.contains(ids.last()) {
            before
        } else {
            before.push(ids.last())
        }
    }
}

/// A finite set of identifiers. It remembers the order in which they were first inserted.
#[derive(Debug)]
pub struct IdSet {
    ids: Vec<Id>,
}

impl View for IdSet {
    type V = Set<IdView>;

    closed spec fn view(&self) -> Set<IdView> {
        id_views(self.ids@).to_set()
    }
}

impl IdSet {
    #[verifier::type_invariant]
    spec fn distinct(&self) -> bool {
        id_views(self.ids@).no_duplicates()
    }

    /// The elements in the order in which they were first inserted.
    pub closed spec fn order(&self) -> Seq<IdView> {
        id_views(self.ids@)
    }

    /// The set holds exactly the elements of its order, and is finite.
    pub proof fn lemma_view_of_order(&self)
        ensures
            self@ == self.order().to_set(),
            self@.finite(),
    {
        vstd::seq_lib::seq_to_set_is_finite(id_views(self.ids@));
    }

    /// Creates an empty set.
    pub fn new() -> (set: Self)
        ensures
            set@ == Set::<IdView>::empty(),
            set.order() == Seq::<IdView>::empty(),
    {
        IdSet { ids: Vec::new() }
    }

    /// Number of elements.
    pub fn len(&self) -> (len: usize)
        ensures
            len == self@.len(),
            len == self.order().len(),
    {
        proof {
            use_type_invariant(self);
            id_views(self.ids@).unique_seq_to_set();
        }
        self.ids.len()
    }

    /// Whether the set has no element.
    pub fn is_empty(&self) -> (empty: bool)
        ensures
            empty == (self@ == Set::<IdView>::empty()),
    {
        proof {
            if self.ids@.len() == 0 {
                assert(self@ =~= Set::<IdView>::empty());
            } else {
                assert(id_views(self.ids@)[0] == self.ids@[0]@);
                assert(!Set::<IdView>::empty().contains(self.ids@[0]@));
            }
        }
        self.ids.len() == 0
    }

    /// Whether the given identifier is an element.
    pub fn contains(&self, id: &Id) -> (found: bool)
        ensures
            found == self@.contains(id@),
    {
        let mut i: usize = 0;
        while i < self.ids.len()
            invariant
                i <= self.ids.len(),
                forall|k: int| 0 <= k < i ==> id_views(self.ids@)[k] != id@,
            decreases self.ids.len() - i,
        {
            if self.ids[i] == *id {
                proof {
                    assert(id_views(self.ids@)[i as int] == id@);
                }
                return true;
            }
            i += 1;
        }
        false
    }

    /// Adds the given identifier, and says whether it was new.
    pub fn insert(&mut self, id: Id) -> (inserted: bool)
        ensures
            final(self)@ == old(self)@.insert(id@),
            inserted == !old(self)@.contains(id@),
            final(self).order() == if inserted {
                old(self).order().push(id@)
            } else {
                old(self).order()
            },
    {
        proof {
            use_type_invariant(&*self);
        }
        if self.contains(&id) {
            false
        } else {
            let ghost before = self.ids@;
            let mut ids: Vec<Id> = Vec::new();
            core::mem::swap(&mut ids, &mut self.ids);
            ids.push(id);
            proof {
                assert(id_views(ids@) =~= id_views(before).push(id@));
            }
            self.ids = ids;
            proof {
                id_views(before).lemma_push_to_set_commute(id@);
            }
            true
        }
    }

    /// The elements in the order in which they were first inserted.
    pub fn ids(&self) -> (ids: &Vec<Id>)
        ensures
            id_views(ids@) == self.order(),
            self.order().no_duplicates(),
            self.order().to_set() == self@,
    {
        proof {
            use_type_invariant(self);
        }
        &self.ids
    }

    /// Whether every element of this set is an element of the other.
    pub fn is_subset(&self, other: &IdSet) -> (subset: bool)
        ensures
            subset == self@.subset_of(other@),
    {
        let mut i: usize = 0;
        while i < self.ids.len()
            invariant
                i <= self.ids.len(),
                forall|k: int| 0 <= k < i ==> other@.contains(#[trigger] id_views(self.ids@)[k]),
            decreases self.ids.len() - i,
        {
            if !other.contains(&self.ids[i]) {
                proof {
                    assert(id_views(self.ids@)[i as int] == self.ids@[i as int]@);
                }
                return false;
            }
            i += 1;
        }
        true
    }

    /// Number of elements of this set that are not elements of the other.
    pub fn difference_len(&self, other: &IdSet) -> (count: usize)
        ensures
            count == self@.difference(other@).len(),
    {
        proof {
            use_type_invariant(self);
        }
        let ghost views = id_views(self.ids@);
        let mut count: usize = 0;
        let mut i: usize = 0;
        proof {
            assert(views.take(0).to_set().difference(other@) =~= Set::<IdView>::empty());
        }
        while i < self.ids.len()
            invariant
                i <= self.ids.len(),
                views == id_views(self.ids@),
                views.no_duplicates(),
                count <= i,
                count == views.take(i as int).to_set().difference(other@).len(),
            decreases self.ids.len() - i,
        {
            let outside = !other.contains(&self.ids[i]);
            proof {
                let before = views.take(i as int);
                let item = views[i as int];
                assert(views.take(i + 1) =~= before.push(item));
                before.lemma_push_to_set_commute(item);
                vstd::seq_lib::seq_to_set_is_finite(before);
                assert(!before.to_set().contains(item)) by {
                    if before.contains(item) {
                        let k = choose|k: int| 0 <= k < before.len() && before[k] == item;
                    }
                }
                let diff = before.to_set().difference(other@);
                vstd::set_lib::lemma_len_difference(before.to_set(), other@);
                if outside {
                    assert(before.to_set().insert(item).difference(other@) =~= diff.insert(item));
                } else {
                    assert(before.to_set().insert(item).difference(other@) =~= diff);
                }
            }
            if outside {
                count += 1;
            }
            i += 1;
        }
        proof {
            assert(views.take(i as int) =~= views);
        }
        count
    }
}

impl Clone for IdSet {
    fn clone(&self) -> (copy: Self)
        ensures
            copy@ == self@,
            copy.order() == self.order(),
    {
        proof {
            use_type_invariant(self);
        }
        let mut ids: Vec<Id> = Vec::new();
        let mut i: usize = 0;
        while i < self.ids.len()
            invariant
                i <= self.ids.len(),
                ids@ == self.ids@.take(i as int),
            decreases self.ids.len() - i,
        {
            ids.push(self.ids[i].clone());
            i += 1;
        }
        proof {
            assert(self.ids@.take(i as int) =~= self.ids@);
        }
        IdSet { ids }
    }
}

impl PartialEq for IdSet {
    fn eq(&self, other: &Self) -> (equal: bool) {
        proof {
            self.lemma_view_of_order();
            other.lemma_view_of_order();
        }
        let equal = self.len() == other.len() && self.is_subset(other);
        proof {
            if equal {
                vstd::set_lib::lemma_subset_equality(self@, other@);
            }
        }
        equal
    }
}

impl PartialEqSpecImpl for IdSet {
    open spec fn obeys_eq_spec() -> bool {
        true
    }

    open spec fn eq_spec(&self, other: &Self) -> bool {
        self@ == other@
    }
}

impl Eq for IdSet {}

} // verus!
