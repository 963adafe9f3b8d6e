use vstd::prelude::*;

verus! {

/// Handle of an entity in the game world.
#[derive(Clone, Copy, Debug, PartialEq, Eq, Hash, Structural)]
pub struct EntityId(pub u32);

/// Marker for the data an entity can carry.
pub trait Component: 'static + Send + Sync {}

/// The entities of the game world. Ids of destroyed entities are recycled,
/// the most recently freed first; fresh ids count up from 0.
pub struct World {
    entities: Vec<EntityId>,
    next_entity_id: u32,
    free_list: Vec<EntityId>,
}

/// No id occurs twice in a sequence.
pub open spec fn distinct(s: Seq<EntityId>) -> bool {
    forall|a: int, b: int| 0 <= a < b < s.len() ==> s[a] != s[b]
}

/// First position at or after `i` holding `e`.
pub open spec fn position_from(s: Seq<EntityId>, e: EntityId, i: int) -> Option<int>
    decreases s.len() - i,
{
    if i < 0 || i >= s.len() {
        None
    } else if s[i] == e {
        Some(i)
    } else {
        position_from(s, e, i + 1)
    }
}

impl World {
    /// The living entities, in the order the world keeps them.
    pub closed spec fn alive(&self) -> Seq<EntityId> {
        self.entities@
    }

    /// Ids freed and waiting for reuse; the last is reused first.
    pub closed spec fn free(&self) -> Seq<EntityId> {
        self.free_list@
    }

    /// The id the next fresh entity gets.
    pub closed spec fn next_id(&self) -> u32 {
        self.next_entity_id
    }

    /// Living and freed ids are distinct, never both, and all below the next
    /// fresh id.
    pub closed spec fn wf(&self) -> bool {
        &&& distinct(self.entities@)
        &&& distinct(self.free_list@)
        &&& forall|a: int, b: int| 0 <= a < self.entities@.len() && 0 <= b < self.free_list@.len()
            ==> self.entities@[a] != self.free_list@[b]
        &&& forall|a: int| 0 <= a < self.entities@.len() ==> (#[trigger] self.entities@[a]).0 < self.next_entity_id
        &&& forall|b: int| 0 <= b < self.free_list@.len() ==> (#[trigger] self.free_list@[b]).0 < self.next_entity_id
    }

    /// `after` is `before` with the entity `id` created: the most recently
    /// freed id when there is one, else the next fresh id; it was not alive
    /// and now is, last among the living.
    pub open spec fn created(before: World, after: World, id: EntityId) -> bool {
        &&& !before.alive().contains(id)
        &&& after.alive() == before.alive().push(id)
        &&& if before.free().len() > 0 {
            &&& id == before.free().last()
            &&& after.free() == before.free().drop_last()
            &&& after.next_id() == before.next_id()
        } else {
            &&& id == EntityId(before.next_id())
            &&& after.free() == before.free()
            &&& after.next_id() == before.next_id() + 1
        }
    }

    /// `after` is `before` with `entity` destroyed, `was_alive` telling
    /// whether it was alive: a living entity leaves the living (the last one
    /// takes its place) and its id goes to the free list; otherwise nothing
    /// changes.
    pub open spec fn destroyed(before: World, after: World, entity: EntityId, was_alive: bool) -> bool {
        &&& was_alive == before.alive().contains(entity)
        &&& was_alive ==> {
            let k = position_from(before.alive(), entity, 0)->0;
            &&& after.alive() == before.alive().update(k, before.alive().last()).drop_last()
            &&& after.free() == before.free().push(entity)
        }
        &&& !was_alive ==> after == before
        &&& after.next_id() == before.next_id()
    }

    /// An empty world.
    pub fn new() -> (w: World)
        ensures
            w.wf(),
            w.alive().len() == 0,
            w.free().len() == 0,
            w.next_id() == 0,
    {
        World { entities: Vec::new(), next_entity_id: 0, free_list: Vec::new() }
    }

    /// Creates an entity: the most recently freed id if there is one, else
    /// a fresh id. The new entity is alive and was not before.
    pub fn create_entity(&mut self) -> (id: EntityId)
        requires
            old(self).wf(),
            old(self).free().len() == 0 ==> old(self).next_id() < u32::MAX,
        ensures
            final(self).wf(),
            World::created(*old(self), *final(self), id),
    {
        let id = if let Some(recycled) = self.free_list.pop() {
            proof {
                let n = old(self).free_list@.len() - 1;
                assert(old(self).free_list@[n] == recycled);
                assert forall|a: int| 0 <= a < self.entities@.len() implies self.entities@[a] != recycled by {
                    assert(old(self).entities@[a] != old(self).free_list@[n]);
                }
            }
            recycled
        } else {
            let new_id = EntityId(self.next_entity_id);
            self.next_entity_id = self.next_entity_id + 1;
            new_id
        };
        self.entities.push(id);
        proof {
            let e0 = old(self).entities@;
            assert forall|a: int, b: int| 0 <= a < b < self.entities@.len() implies self.entities@[a] != self.entities@[b] by {
                if b == e0.len() {
                    assert(self.entities@[a] == e0[a]);
                }
            }
            if e0.contains(id) {
                let k = choose|k: int| 0 <= k < e0.len() && e0[k] == id;
                assert(e0[k] == self.entities@[k]);
            }
        }
        id
    }

    fn position(&self, entity: EntityId) -> (r: Option<usize>)
        ensures
            match r {
                Some(k) => position_from(self.alive(), entity, 0) == Some(k as int) && k < self.alive().len()
                    && self.alive()[k as int] == entity,
                None => position_from(self.alive(), entity, 0) is None && !self.alive().contains(entity),
            },
    {
        let mut i: usize = 0;
        while i < self.entities.len()
            invariant
                0 <= i <= self.entities@.len(),
                position_from(self.entities@, entity, 0) == position_from(self.entities@, entity, i as int),
                forall|j: int| 0 <= j < i ==> self.entities@[j] != entity,
            decreases self.entities@.len() - i,
        {
            if self.entities[i] == entity {
                return Some(i);
            }
            i = i + 1;
        }
        None
    }

    /// Destroys an entity: when it is alive it leaves the living entities
    /// (the last living entity takes its place) and its id goes to the free
    /// list; returns whether it was alive. A dead or unknown id changes
    /// nothing.
    pub fn destroy_entity(&mut self, entity: EntityId) -> (was_alive: bool)
        requires
            old(self).wf(),
        ensures
            final(self).wf(),
            World::destroyed(*old(self), *final(self), entity, was_alive),
            !final(self).alive().contains(entity),
    {
        match self.position(entity) {
            Some(pos) => {
                let ghost e0 = self.entities@;
                let ghost f0 = self.free_list@;
                self.entities.swap_remove(pos);
                self.free_list.push(entity);
                proof {
                    let n = e0.len() - 1;
                    let e1 = self.entities@;
                    assert(e1 == e0.update(pos as int, e0[n]).drop_last());
                    // every surviving id comes from a position other than `pos`
                    assert forall|a: int| 0 <= a < e1.len() implies #[trigger] e1[a] == e0[if a == pos { n } else { a }] by {}
                    assert forall|a: int, b: int| 0 <= a < b < e1.len() implies e1[a] != e1[b] by {
                        let ia = if a == pos { n } else { a };
                        let ib = if b == pos { n } else { b };
                        assert(e1[a] == e0[ia]);
                        assert(e1[b] == e0[ib]);
                    }
                    assert forall|a: int| 0 <= a < e1.len() implies e1[a] != entity by {
                        let ia = if a == pos { n } else { a };
                        assert(e1[a] == e0[ia]);
                        assert(ia != pos as int);
                    }
                    assert forall|a: int, b: int| 0 <= a < e1.len() && 0 <= b < self.free_list@.len()
                        implies e1[a] != self.free_list@[b] by {
                        let ia = if a == pos { n } else { a };
                        assert(e1[a] == e0[ia]);
                        if b < f0.len() {
                            assert(self.free_list@[b] == f0[b]);
                        }
                    }
                    assert forall|a: int, b: int| 0 <= a < b < self.free_list@.len()
                        implies self.free_list@[a] != self.free_list@[b] by {
                        if b == f0.len() {
                            assert(self.free_list@[a] == f0[a]);
                            assert(self.free_list@[b] == e0[pos as int]);
                        }
                    }
                    assert forall|a: int| 0 <= a < e1.len() implies (#[trigger] e1[a]).0 < self.next_entity_id by {
                        let ia = if a == pos { n } else { a };
                        assert(e1[a] == e0[ia]);
                    }
                    assert forall|b: int| 0 <= b < self.free_list@.len() implies (#[trigger] self.free_list@[b]).0 < self.next_entity_id by {
                        if b == f0.len() {
                            assert(self.free_list@[b] == e0[pos as int]);
                        } else {
                            assert(self.free_list@[b] == f0[b]);
                        }
                    }
                    assert(old(self).alive().contains(entity)) by {
                        assert(e0[pos as int] == entity);
                    }
                }
                true
            },
            None => false,
        }
    }
}

/// An entity that is destroyed and immediately followed by a creation gets
/// its id back: the freed id is the first to be reused, and the free list is
/// as it was.
pub proof fn law_destroy_then_create_reuses(w0: World, w1: World, w2: World, e: EntityId, id: EntityId)
    requires
        World::destroyed(w0, w1, e, true),
        World::created(w1, w2, id),
    ensures
        id == e,
        w2.free() == w0.free(),
        w2.alive().contains(e),
{
    assert(w1.free().len() > 0);
    assert(w1.free().drop_last() =~= w0.free());
    assert(w2.alive()[w1.alive().len() as int] == e);
}

/// Creation never hands out the id of a living entity: the new id was not
/// alive before, and is alive after.
pub proof fn law_created_id_is_new(w0: World, w1: World, id: EntityId)
    requires
        World::created(w0, w1, id),
    ensures
        !w0.alive().contains(id),
        w1.alive().contains(id),
{
    assert(w1.alive()[w0.alive().len() as int] == id);
}

} // verus!
