//! The in-memory set of cats: look one up by id, list them all, or keep those
//! that a filter accepts. Nothing here changes a repository but `insert`.
//!
//! The cats are held in a hash map by id. A hash map is walked in an order of
//! its own, so the ids are held a second time in the order in which they came
//! in, and that is the order of every listing.

use crate::entity::{cat_views, Cat, CatView};
use crate::text::{contains_text, is_substring};
use std::collections::HashMap;
use vstd::pervasive::unreached;
use vstd::prelude::*;
use vstd::std_specs::hash::*;

verus! {

/// No two cats of the sequence share an id.
pub open spec fn distinct_ids(cats: Seq<CatView>) -> bool {
    forall|i: int, j: int| 0 <= i < j < cats.len() ==> (#[trigger] cats[i]).id != (#[trigger] cats[j]).id
}

/// Some cat of the sequence has this id.
pub open spec fn has_id(cats: Seq<CatView>, id: nat) -> bool {
    exists|i: int| 0 <= i < cats.len() && (#[trigger] cats[i]).id == id
}

/// The cat with this id, if the sequence holds one.
pub open spec fn lookup(cats: Seq<CatView>, id: nat) -> Option<CatView> {
    if has_id(cats, id) {
        Some(cats[choose|i: int| 0 <= i < cats.len() && (#[trigger] cats[i]).id == id])
    } else {
        None
    }
}

/// The sequence after `cat` was put in: in the place of the cat with the same id
/// where there is one, else at the end.
pub open spec fn with_cat(cats: Seq<CatView>, cat: CatView) -> Seq<CatView> {
    if has_id(cats, cat.id) {
        cats.update(choose|i: int| 0 <= i < cats.len() && (#[trigger] cats[i]).id == cat.id, cat)
    } else {
        cats.push(cat)
    }
}

/// A condition on a single cat.
#[derive(Debug, PartialEq, Eq)]
pub enum CatFilter {
    /// The cat's breed contains this text.
    BreedContains(String),
    /// The cat lives indoors.
    Indoor,
}

/// What a [`CatFilter`] holds, as mathematical values.
pub enum CatFilterView {
    BreedContains(Seq<char>),
    Indoor,
}

impl View for CatFilter {
    type V = CatFilterView;

    open spec fn view(&self) -> CatFilterView {
        match self {
            CatFilter::BreedContains(text) => CatFilterView::BreedContains(text@),
            CatFilter::Indoor => CatFilterView::Indoor,
        }
    }
}

/// Whether the filter accepts the cat.
pub open spec fn filter_accepts(filter: CatFilterView, cat: CatView) -> bool {
    match filter {
        CatFilterView::BreedContains(text) => is_substring(text, cat.breed),
        CatFilterView::Indoor => cat.is_indoor,
    }
}

/// The cats that the filter accepts, in their order.
pub open spec fn matching(cats: Seq<CatView>, filter: CatFilterView) -> Seq<CatView> {
    cats.filter(|cat: CatView| filter_accepts(filter, cat))
}

impl CatFilter {
    /// Whether this filter accepts `cat`.
    pub fn accepts(&self, cat: &Cat) -> (accepted: bool)
        ensures
            accepted == filter_accepts(self@, cat@),
    {
        match self {
            CatFilter::BreedContains(text) => contains_text(cat.breed.as_str(), text.as_str()),
            CatFilter::Indoor => cat.is_indoor,
        }
    }
}

/// The cats of a map by id, in the order of a list of ids.
spec fn ordered_views(by_id: Map<u32, Cat>, order: Seq<u32>) -> Seq<CatView> {
    Seq::new(order.len(), |i: int| by_id[order[i]]@)
}

/// The list holds every key of the map once and nothing else, and every cat
/// stands under its own id.
spec fn in_order(by_id: Map<u32, Cat>, order: Seq<u32>) -> bool {
    &&& forall|i: int, j: int| 0 <= i < j < order.len() ==> order[i] != order[j]
    &&& forall|i: int|
        0 <= i < order.len() ==> by_id.contains_key(#[trigger] order[i]) && by_id[order[i]].id
            == order[i]
    &&& forall|id: u32| #[trigger] by_id.contains_key(id) ==> order.contains(id)
}

/// Where map and list are in order, no two cats of the listing share an id, and
/// the listing has a cat of an id just where the map has that id.
proof fn listing_follows_map(by_id: Map<u32, Cat>, order: Seq<u32>, id: u32)
    requires
        in_order(by_id, order),
    ensures
        distinct_ids(ordered_views(by_id, order)),
        has_id(ordered_views(by_id, order), id as nat) == by_id.contains_key(id),
        by_id.contains_key(id) ==> lookup(ordered_views(by_id, order), id as nat) == Some(
            by_id[id]@,
        ),
{
    let cats = ordered_views(by_id, order);
    assert forall|i: int| 0 <= i < cats.len() implies (#[trigger] cats[i]).id == order[i] by {
        assert(by_id[order[i]].id == order[i]);
    }
    if by_id.contains_key(id) {
        let at = choose|i: int| 0 <= i < order.len() && order[i] == id;
        assert(cats[at].id == id);
        let chosen = choose|i: int| 0 <= i < cats.len() && (#[trigger] cats[i]).id == id as nat;
        assert(order[chosen] == id);
        assert(chosen == at);
    } else if has_id(cats, id as nat) {
        let i = choose|i: int| 0 <= i < cats.len() && (#[trigger] cats[i]).id == id as nat;
        assert(order[i] == id);
    }
}

/// A set of cats, listed in the order in which their ids first came in.
#[derive(Debug, PartialEq, Eq)]
pub struct CatRepository {
    by_id: HashMap<u32, Cat>,
    order: Vec<u32>,
}

impl View for CatRepository {
    type V = Seq<CatView>;

    closed spec fn view(&self) -> Seq<CatView> {
        ordered_views(self.by_id@, self.order@)
    }
}

impl CatRepository {
    /// Map and list are in order, so every id occurs once. This holds of every
    /// repository.
    #[verifier::type_invariant]
    pub closed spec fn wf(&self) -> bool {
        in_order(self.by_id@, self.order@)
    }

    /// The repository without cats.
    pub fn new() -> (repository: CatRepository)
        ensures
            repository@ == Seq::<CatView>::empty(),
    {
        let repository = CatRepository { by_id: HashMap::new(), order: Vec::new() };
        assert(repository@ =~= Seq::<CatView>::empty());
        repository
    }

    /// The number of cats.
    pub fn len(&self) -> (count: usize)
        ensures
            count == self@.len(),
    {
        self.order.len()
    }

    /// Puts `cat` in: in the place of the cat with the same id where there is
    /// one, else at the end.
    pub fn insert(&mut self, cat: Cat)
        ensures
            final(self)@ == with_cat(old(self)@, cat@),
    {
        broadcast use group_hash_axioms;

        proof {
            use_type_invariant(&*self);
        }
        let ghost before = self@;
        let ghost added = cat@;
        let id = cat.id;
        let mut taken = CatRepository::new();
        std::mem::swap(&mut taken, self);
        let CatRepository { by_id, order } = taken;
        let mut by_id = by_id;
        let mut order = order;
        let ghost old_map = by_id@;
        let ghost old_order = order@;
        proof {
            listing_follows_map(old_map, old_order, id);
        }
        let replaced = by_id.insert(id, cat);
        if replaced.is_none() {
            order.push(id);
        }
        proof {
            let cats = ordered_views(by_id@, order@);
            if old_map.contains_key(id) {
                let at = choose|i: int| 0 <= i < old_order.len() && old_order[i] == id;
                let chosen = choose|k: int|
                    0 <= k < before.len() && (#[trigger] before[k]).id == added.id;
                assert(old_map[old_order[chosen]].id == old_order[chosen]);
                assert(chosen == at);
                assert(cats =~= before.update(at, added));
            } else {
                assert(cats =~= before.push(added));
                assert forall|key: u32| #[trigger] by_id@.contains_key(key) implies order@.contains(
                    key,
                ) by {
                    if key == id {
                        assert(order@[order@.len() - 1] == id);
                    } else {
                        let i = choose|i: int| 0 <= i < old_order.len() && old_order[i] == key;
                        assert(order@[i] == key);
                    }
                }
            }
            assert(in_order(by_id@, order@));
        }
        *self = CatRepository { by_id, order };
    }

    /// The cat with this id, or `None` where the repository has none.
    pub fn get(&self, id: u32) -> (found: Option<&Cat>)
        ensures
            match found {
                Some(cat) => lookup(self@, id as nat) == Some(cat@),
                None => lookup(self@, id as nat) is None,
            },
    {
        broadcast use group_hash_axioms;

        proof {
            use_type_invariant(self);
            listing_follows_map(self.by_id@, self.order@, id);
        }
        self.by_id.get(&id)
    }

    /// The cat at a place of the listing.
    fn at(&self, place: usize) -> (cat: &Cat)
        requires
            place < self@.len(),
        ensures
            cat@ == self@[place as int],
    {
        broadcast use group_hash_axioms;

        proof {
            use_type_invariant(self);
        }
        match self.by_id.get(&self.order[place]) {
            Some(cat) => cat,
            None => unreached(),
        }
    }

    /// Every cat, in the repository's order.
    pub fn all(&self) -> (cats: Vec<&Cat>)
        ensures
            cat_views(cats@) == self@,
            cats@.len() == self@.len(),
    {
        let count = self.len();
        let mut cats: Vec<&Cat> = Vec::new();
        let mut i: usize = 0;
        while i < count
            invariant
                count == self@.len(),
                i <= count,
                cats@.len() == i,
                forall|k: int| 0 <= k < i ==> (#[trigger] cats@[k])@ == self@[k],
            decreases count - i,
        {
            cats.push(self.at(i));
            i += 1;
        }
        assert(cat_views(cats@) =~= self@);
        cats
    }

    /// The cats that `filter` accepts, in the repository's order.
    pub fn filter(&self, filter: &CatFilter) -> (cats: Vec<&Cat>)
        ensures
            cat_views(cats@) == matching(self@, filter@),
            cats@.len() <= self@.len(),
    {
        let count = self.len();
        let mut cats: Vec<&Cat> = Vec::new();
        let mut i: usize = 0;
        assert(self@.take(0) =~= Seq::<CatView>::empty());
        assert(cat_views(cats@) =~= matching(self@.take(0), filter@)) by {
            reveal(Seq::filter);
        }
        while i < count
            invariant
                count == self@.len(),
                i <= count,
                cat_views(cats@) == matching(self@.take(i as int), filter@),
            decreases count - i,
        {
            let cat = self.at(i);
            let ghost before = cat_views(cats@);
            proof {
                let next = self@.take(i + 1);
                assert(next.drop_last() =~= self@.take(i as int));
                assert(next.last() == cat@);
                reveal(Seq::filter);
            }
            if filter.accepts(cat) {
                cats.push(cat);
                assert(cat_views(cats@) =~= before.push(cat@));
            }
            i += 1;
        }
        proof {
            assert(self@.take(i as int) =~= self@);
            self@.lemma_filter_len(|cat: CatView| filter_accepts(filter@, cat));
        }
        cats
    }
}

} // verus!
