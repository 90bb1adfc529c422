//! The set of live entities and the passes that run over it each frame.

use vstd::prelude::*;
use crate::particle::{Appearance, Particle, ParticleEntity};

verus! {

/// The entities that exist, in the order in which they were created.
pub struct World {
    entities: Vec<ParticleEntity>,
    next_id: u64,
}

/// Whether an entity awaits removal.
pub open spec fn is_pending(e: ParticleEntity) -> bool {
    e.pending_removal
}

/// Whether an entity does not await removal.
pub open spec fn is_kept(e: ParticleEntity) -> bool {
    !e.pending_removal
}

/// The entities of `s` that a sweep leaves in place, in their order.
pub open spec fn survivors(s: Seq<ParticleEntity>) -> Seq<ParticleEntity> {
    s.filter(|e: ParticleEntity| is_kept(e))
}

/// The handles of the entities of `s` that a sweep destroys, in their order.
pub open spec fn swept(s: Seq<ParticleEntity>) -> Seq<u64> {
    s.filter(|e: ParticleEntity| is_pending(e)).map_values(|e: ParticleEntity| e.id)
}

/// Every entity of `s` after one tick of the integrator.
pub open spec fn stepped_all(s: Seq<ParticleEntity>, dt: int) -> Seq<ParticleEntity> {
    s.map_values(|e: ParticleEntity| e.stepped(dt))
}

/// Handles rise along `s` and stay below `bound`, no mesh handle is above the
/// handle of its entity, and every tag agrees with the lifespan it stands for.
pub open spec fn well_formed(s: Seq<ParticleEntity>, bound: int) -> bool {
    &&& forall|i: int, j: int| 0 <= i < j < s.len() ==> s[i].id < s[j].id
    &&& forall|i: int| 0 <= i < s.len() ==> #[trigger] s[i].id < bound
    &&& forall|i: int| 0 <= i < s.len() ==> #[trigger] s[i].mesh <= s[i].id
    &&& forall|i: int| 0 <= i < s.len() ==> #[trigger] s[i].tag_agrees()
}

/// The appearance that a particle in the given state is shown with, given the
/// appearance it has now. The state drives nothing yet: the appearance stays.
pub fn appearance_of(particle: &Particle, current: Appearance) -> (shown: Appearance)
    ensures
        shown == current,
{
    current
}

impl View for World {
    type V = Seq<ParticleEntity>;

    closed spec fn view(&self) -> Seq<ParticleEntity> {
        self.entities@
    }
}

impl World {
    /// The handle that the next entity will get.
    pub closed spec fn next_id(&self) -> int {
        self.next_id as int
    }

    /// The validity of a world: see [`well_formed`].
    pub open spec fn wf(&self) -> bool {
        well_formed(self@, self.next_id())
    }

    /// A world without entities.
    pub fn new() -> (world: World)
        ensures
            world.wf(),
            world@.len() == 0,
            world.next_id() == 0,
    {
        World { entities: Vec::new(), next_id: 0 }
    }

    /// The number of entities, those that await removal included.
    pub fn len(&self) -> (n: usize)
        ensures
            n == self@.len(),
    {
        self.entities.len()
    }

    /// The entity at place `index` in the order of creation.
    pub fn get(&self, index: usize) -> (found: Option<ParticleEntity>)
        ensures
            found == if index < self@.len() {
                Some(self@[index as int])
            } else {
                None
            },
    {
        if index < self.entities.len() {
            Some(self.entities[index])
        } else {
            None
        }
    }

    /// The handle that the next entity will get.
    pub fn upcoming_id(&self) -> (id: u64)
        ensures
            id == self.next_id(),
    {
        self.next_id
    }

    /// The number of entities that await removal.
    pub fn pending_count(&self) -> (n: usize)
        ensures
            n == swept(self@).len(),
    {
        let mut n: usize = 0;
        let mut i: usize = 0;
        while i < self.entities.len()
            invariant
                i <= self.entities.len(),
                n <= i,
                n == self.entities@.take(i as int).filter(|e: ParticleEntity| is_pending(e)).len(),
            decreases self.entities.len() - i,
        {
            proof {
                let pending = |e: ParticleEntity| is_pending(e);
                let head = self.entities@.take(i as int);
                assert(self.entities@.take(i + 1) == head.push(self.entities@[i as int]));
                head.lemma_filter_push(self.entities@[i as int], pending);
            }
            if self.entities[i].pending_removal {
                n = n + 1;
            }
            i = i + 1;
        }
        proof {
            assert(self.entities@.take(i as int) == self.entities@);
        }
        n
    }

    /// Whether any entity still refers to the mesh `mesh`. A mesh that none
    /// refers to can be released.
    pub fn mesh_in_use(&self, mesh: u64) -> (used: bool)
        ensures
            used <==> exists|i: int| 0 <= i < self@.len() && #[trigger] self@[i].mesh == mesh,
    {
        let mut i: usize = 0;
        while i < self.entities.len()
            invariant
                i <= self.entities.len(),
                forall|k: int| 0 <= k < i ==> #[trigger] self.entities@[k].mesh != mesh,
            decreases self.entities.len() - i,
        {
            if self.entities[i].mesh == mesh {
                assert(self@[i as int].mesh == mesh);
                return true;
            }
            i = i + 1;
        }
        false
    }

    /// Adds an entity made of the given parts under the next free handle and
    /// returns that handle. The entity refers to the mesh `mesh`, or to a mesh
    /// of its own, named by its handle, where `mesh` is `None`.
    ///
    /// Nothing is added, and `None` is returned, when the handles are used up,
    /// when the particle has no life left, or when `mesh` is above the next
    /// free handle.
    pub fn insert(
        &mut self,
        particle: Particle,
        position: crate::vector::Vector3,
        appearance: Appearance,
        mesh: Option<u64>,
    ) -> (id: Option<u64>)
        requires
            old(self).wf(),
        ensures
            final(self).wf(),
            id is Some <==> World::admits(old(self).next_id(), particle, mesh),
            id is None ==> final(self)@ == old(self)@ && final(self).next_id() == old(
                self,
            ).next_id(),
            id matches Some(handle) ==> {
                &&& handle == old(self).next_id()
                &&& final(self).next_id() == handle + 1
                &&& final(self)@ == old(self)@.push(
                    ParticleEntity {
                        id: handle,
                        mesh: match mesh {
                            Some(m) => m,
                            None => handle,
                        },
                        particle,
                        position,
                        appearance,
                        pending_removal: false,
                    },
                )
            },
    {
        if self.next_id == u64::MAX || particle.lifespan_remaining <= 0 {
            return None;
        }
        let handle = self.next_id;
        let shared = match mesh {
            Some(m) => {
                if m > handle {
                    return None;
                }
                m
            },
            None => handle,
        };
        let entity = ParticleEntity {
            id: handle,
            mesh: shared,
            particle,
            position,
            appearance,
            pending_removal: false,
        };
        self.entities.push(entity);
        self.next_id = handle + 1;
        Some(handle)
    }

    /// The integrator and the expiry pass: every entity that does not await
    /// removal moves by its velocity, gains velocity, loses `dt` ticks of
    /// lifespan and is tagged for removal if none is left. Nothing is removed
    /// here.
    pub fn integrate(&mut self, dt: u32)
        requires
            old(self).wf(),
        ensures
            final(self).wf(),
            final(self).next_id() == old(self).next_id(),
            final(self)@ == stepped_all(old(self)@, dt as int),
    {
        let mut i: usize = 0;
        while i < self.entities.len()
            invariant
                i <= self.entities.len(),
                self.next_id == old(self).next_id,
                self.entities@.len() == old(self).entities@.len(),
                old(self).wf(),
                forall|k: int|
                    0 <= k < i ==> #[trigger] self.entities@[k] == old(self).entities@[k].stepped(
                        dt as int,
                    ),
                forall|k: int|
                    i <= k < self.entities@.len() ==> #[trigger] self.entities@[k] == old(
                        self,
                    ).entities@[k],
            decreases self.entities.len() - i,
        {
            let entity = self.entities[i];
            self.entities.set(i, entity.integrate(dt));
            i = i + 1;
        }
        proof {
            let before = old(self).entities@;
            assert forall|k: int| 0 <= k < before.len() implies #[trigger] self.entities@[k].id
                == before[k].id && self.entities@[k].mesh == before[k].mesh
                && self.entities@[k].tag_agrees() by {
                assert(before[k].tag_agrees());
            }
            assert(self.entities@ =~= stepped_all(before, dt as int));
        }
    }

    /// The reaper: destroys every entity that awaits removal and returns the
    /// handles of the destroyed, in the order of creation. The others stay, in
    /// their order.
    pub fn reap(&mut self) -> (removed: Vec<u64>)
        requires
            old(self).wf(),
        ensures
            final(self).wf(),
            final(self).next_id() == old(self).next_id(),
            final(self)@ == survivors(old(self)@),
            removed@ == swept(old(self)@),
    {
        let mut kept: Vec<ParticleEntity> = Vec::new();
        let mut removed: Vec<u64> = Vec::new();
        let ghost all = self.entities@;
        let ghost keep = |e: ParticleEntity| is_kept(e);
        let ghost pending = |e: ParticleEntity| is_pending(e);
        let ghost handle = |e: ParticleEntity| e.id;
        let mut i: usize = 0;
        proof {
            assert(all.take(0).filter(keep) =~= Seq::<ParticleEntity>::empty()) by {
                reveal(Seq::filter);
            }
            assert(all.take(0).filter(pending) =~= Seq::<ParticleEntity>::empty()) by {
                reveal(Seq::filter);
            }
        }
        while i < self.entities.len()
            invariant
                i <= self.entities.len(),
                self.entities@ == all,
                self.next_id == old(self).next_id,
                well_formed(all, self.next_id as int),
                keep == |e: ParticleEntity| is_kept(e),
                pending == |e: ParticleEntity| is_pending(e),
                handle == |e: ParticleEntity| e.id,
                kept@ == all.take(i as int).filter(keep),
                removed@ == all.take(i as int).filter(pending).map_values(handle),
                well_formed(
                    kept@,
                    if i < all.len() {
                        all[i as int].id as int
                    } else {
                        self.next_id as int
                    },
                ),
            decreases self.entities.len() - i,
        {
            let entity = self.entities[i];
            proof {
                let head = all.take(i as int);
                assert(all.take(i + 1) == head.push(entity));
                head.lemma_filter_push(entity, keep);
                head.lemma_filter_push(entity, pending);
                assert(entity.tag_agrees());
                assert(entity.mesh <= entity.id);
                if i + 1 < all.len() {
                    assert(all[i as int].id < all[i + 1].id);
                }
            }
            if entity.pending_removal {
                removed.push(entity.id);
                proof {
                    let before = all.take(i as int).filter(pending);
                    assert(before.push(entity).map_values(handle) =~= before.map_values(
                        handle,
                    ).push(entity.id));
                }
            } else {
                kept.push(entity);
            }
            i = i + 1;
        }
        proof {
            assert(all.take(i as int) == all);
        }
        self.entities = kept;
        removed
    }

    /// The appearance pass: visits every entity that does not await removal
    /// and lets the simulation state drive what the renderer shows. Nothing is
    /// driven yet: every entity keeps the appearance it has.
    pub fn sync_appearance(&mut self)
        requires
            old(self).wf(),
        ensures
            final(self).wf(),
            final(self).next_id() == old(self).next_id(),
            final(self)@ == old(self)@,
    {
        let mut i: usize = 0;
        while i < self.entities.len()
            invariant
                i <= self.entities.len(),
                self.next_id == old(self).next_id,
                self.entities@ == old(self).entities@,
            decreases self.entities.len() - i,
        {
            let entity = self.entities[i];
            if !entity.pending_removal {
                let shown = ParticleEntity {
                    id: entity.id,
                    mesh: entity.mesh,
                    particle: entity.particle,
                    position: entity.position,
                    appearance: appearance_of(&entity.particle, entity.appearance),
                    pending_removal: entity.pending_removal,
                };
                self.entities.set(i, shown);
                assert(self.entities@ =~= old(self).entities@);
            }
            i = i + 1;
        }
    }

    /// Whether an entity with this particle and mesh can be added when the next
    /// free handle is `next`.
    pub open spec fn admits(next: int, particle: Particle, mesh: Option<u64>) -> bool {
        &&& next < u64::MAX
        &&& particle.is_live()
        &&& mesh matches Some(m) ==> m <= next
    }
}

} // verus!
