use vstd::prelude::*;
use crate::components::{ComponentSet, Components};

verus! {

/// Identifies one entity of a `World`. Identifiers are never reused, so a
/// stale identifier refers to a destroyed entity and to nothing else.
#[derive(Clone, Copy, Debug, PartialEq, Eq, Structural)]
pub struct EntityId {
    pub index: usize,
}

/// The entity store: slot `i` holds the components of the entity with index
/// `i`, or nothing once that entity has been destroyed.
pub struct World {
    slots: Vec<Option<Components>>,
}

impl View for World {
    type V = Seq<Option<Components>>;

    closed spec fn view(&self) -> Seq<Option<Components>> {
        self.slots@
    }
}

/// The store after `id` has been destroyed: its slot is emptied; an unknown
/// identifier leaves the store as it is.
pub open spec fn destroyed(w: Seq<Option<Components>>, id: EntityId) -> Seq<Option<Components>> {
    if id.index < w.len() {
        w.update(id.index as int, None)
    } else {
        w
    }
}

/// The store after each identifier of `ids` has been destroyed, in order.
pub open spec fn destroyed_all(w: Seq<Option<Components>>, ids: Seq<EntityId>) -> Seq<
    Option<Components>,
>
    decreases ids.len(),
{
    if ids.len() == 0 {
        w
    } else {
        destroyed(destroyed_all(w, ids.drop_last()), ids.last())
    }
}

/// Is slot `i` a live entity that has every kind of component that `q` asks for?
pub open spec fn matches(w: Seq<Option<Components>>, q: ComponentSet, i: int) -> bool {
    0 <= i < w.len() && w[i] is Some && w[i]->Some_0.spec_has_all(q)
}

impl World {
    /// An empty store.
    pub fn new() -> (r: World)
        ensures
            r@ == Seq::<Option<Components>>::empty(),
    {
        World { slots: Vec::new() }
    }

    /// Number of entities ever created (live or destroyed).
    pub fn slot_count(&self) -> (r: usize)
        ensures
            r == self@.len(),
    {
        self.slots.len()
    }

    /// Adds an entity with the given components and returns its identifier.
    pub fn create_entity(&mut self, c: Components) -> (id: EntityId)
        requires
            old(self)@.len() < usize::MAX,
        ensures
            id.index == old(self)@.len(),
            final(self)@ == old(self)@.push(Some(c)),
    {
        let id = EntityId { index: self.slots.len() };
        self.slots.push(Some(c));
        id
    }

    /// Removes the entity and all its components. Destroying an entity that is
    /// already gone, or that never existed, does nothing.
    pub fn destroy_entity(&mut self, id: EntityId)
        ensures
            final(self)@ == destroyed(old(self)@, id),
    {
        if id.index < self.slots.len() {
            self.slots.set(id.index, None);
        }
    }

    /// Destroys each entity of `ids`, in order.
    pub fn destroy_entities(&mut self, ids: &Vec<EntityId>)
        ensures
            final(self)@ == destroyed_all(old(self)@, ids@),
    {
        let mut k: usize = 0;
        while k < ids.len()
            invariant
                k <= ids@.len(),
                self@ == destroyed_all(old(self)@, ids@.take(k as int)),
            decreases ids@.len() - k,
        {
            proof {
                assert(ids@.take(k as int + 1).drop_last() =~= ids@.take(k as int));
            }
            self.destroy_entity(ids[k]);
            k = k + 1;
        }
        proof {
            assert(ids@.take(ids@.len() as int) =~= ids@);
        }
    }

    /// Is the entity alive?
    pub fn is_alive(&self, id: EntityId) -> (r: bool)
        ensures
            r == (id.index < self@.len() && self@[id.index as int] is Some),
    {
        id.index < self.slots.len() && self.slots[id.index].is_some()
    }

    /// The components of an entity, if it is alive.
    pub fn get(&self, id: EntityId) -> (r: Option<Components>)
        ensures
            id.index < self@.len() ==> r == self@[id.index as int],
            id.index >= self@.len() ==> r is None,
    {
        if id.index < self.slots.len() {
            self.slots[id.index]
        } else {
            None
        }
    }

    /// Replaces the components of a live entity; does nothing otherwise.
    pub fn set(&mut self, id: EntityId, c: Components)
        ensures
            final(self)@ == (if id.index < old(self)@.len() && old(self)@[id.index as int] is Some {
                old(self)@.update(id.index as int, Some(c))
            } else {
                old(self)@
            }),
    {
        if id.index < self.slots.len() && self.slots[id.index].is_some() {
            self.slots.set(id.index, Some(c));
        }
    }

    /// The live entities that have every component kind of `q`, each exactly
    /// once, in increasing order of index.
    pub fn query(&self, q: ComponentSet) -> (r: Vec<EntityId>)
        ensures
            forall|k: int| 0 <= k < r@.len() ==> matches(self@, q, r@[k].index as int),
            forall|k: int, l: int| 0 <= k < l < r@.len() ==> r@[k].index < r@[l].index,
            forall|i: int|
                matches(self@, q, i) ==> exists|k: int| 0 <= k < r@.len() && r@[k].index == i,
    {
        let mut r: Vec<EntityId> = Vec::new();
        let mut i: usize = 0;
        while i < self.slots.len()
            invariant
                i <= self@.len(),
                forall|k: int| 0 <= k < r@.len() ==> matches(self@, q, r@[k].index as int),
                forall|k: int| 0 <= k < r@.len() ==> r@[k].index < i,
                forall|k: int, l: int| 0 <= k < l < r@.len() ==> r@[k].index < r@[l].index,
                forall|j: int|
                    0 <= j < i && matches(self@, q, j) ==> exists|k: int|
                        0 <= k < r@.len() && r@[k].index == j,
            decreases self@.len() - i,
        {
            let hit = match self.slots[i] {
                Some(c) => c.has_all(q),
                None => false,
            };
            if hit {
                let ghost before = r@;
                r.push(EntityId { index: i });
                proof {
                    assert forall|j: int|
                        0 <= j < i + 1 && matches(self@, q, j) implies exists|k: int|
                            0 <= k < r@.len() && r@[k].index == j by {
                        if j < i {
                            let k = choose|k: int| 0 <= k < before.len() && before[k].index == j;
                            assert(r@[k] == before[k]);
                        } else {
                            assert(r@[r@.len() - 1].index == j);
                        }
                    }
                }
            }
            i = i + 1;
        }
        r
    }
}

/// Destroying entities keeps the number of slots.
pub proof fn lemma_destroyed_all_len(w: Seq<Option<Components>>, ids: Seq<EntityId>)
    ensures
        destroyed_all(w, ids).len() == w.len(),
    decreases ids.len(),
{
    if ids.len() > 0 {
        lemma_destroyed_all_len(w, ids.drop_last());
    }
}

/// Destroying every entity of `ids` empties their slots and leaves every
/// other slot as it was, so afterwards no query matches any of them.
pub proof fn lemma_teardown_removes(w: Seq<Option<Components>>, ids: Seq<EntityId>, q: ComponentSet)
    ensures
        destroyed_all(w, ids).len() == w.len(),
        forall|k: int| 0 <= k < ids.len() && ids[k].index < w.len() ==> #[trigger] destroyed_all(w, ids)[ids[k].index as int] is None,
        forall|k: int| 0 <= k < ids.len() ==> !matches(destroyed_all(w, ids), q, #[trigger] ids[k].index as int),
        forall|i: int|
            0 <= i < w.len() && (forall|k: int| 0 <= k < ids.len() ==> ids[k].index != i)
                ==> #[trigger] destroyed_all(w, ids)[i] == w[i],
    decreases ids.len(),
{
    lemma_destroyed_all_len(w, ids);
    if ids.len() > 0 {
        let rest = ids.drop_last();
        lemma_teardown_removes(w, rest, q);
        lemma_destroyed_all_len(w, rest);
        assert forall|k: int| 0 <= k < ids.len() && ids[k].index < w.len() implies #[trigger] destroyed_all(w, ids)[ids[k].index as int] is None by {
            if k < ids.len() - 1 {
                assert(rest[k] == ids[k]);
            }
        }
        assert forall|k: int| 0 <= k < ids.len() implies !matches(destroyed_all(w, ids), q, #[trigger] ids[k].index as int) by {
            if k < ids.len() - 1 {
                assert(rest[k] == ids[k]);
            }
        }
        assert forall|i: int|
            0 <= i < w.len() && (forall|k: int| 0 <= k < ids.len() ==> ids[k].index != i)
                implies #[trigger] destroyed_all(w, ids)[i] == w[i] by {
            assert forall|k: int| 0 <= k < rest.len() implies rest[k].index != i by {
                assert(rest[k] == ids[k]);
            }
            assert(ids[ids.len() - 1].index != i);
        }
    }
}

/// Destroying an entity twice leaves the store as destroying it once.
pub proof fn lemma_destroy_idempotent(w: Seq<Option<Components>>, id: EntityId)
    ensures
        destroyed(destroyed(w, id), id) == destroyed(w, id),
{
    if id.index < w.len() {
        assert(destroyed(destroyed(w, id), id) =~= destroyed(w, id));
    }
}

} // verus!
