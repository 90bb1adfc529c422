//! What holds of the simulation as a whole, proved from the definitions that
//! the contracts of the other modules are written in.

use vstd::prelude::*;
use vstd::arithmetic::div_mod::lemma_div_multiples_vanish;
use crate::particle::ParticleEntity;
use crate::projection::{interpolated, world_point, OrthographicProjection, Pixel, Viewport};
use crate::spawner::{burst_of, fresh_particle, Burst, SpawnConfig};
use crate::units::fits;
use crate::vector::Vector3;
use crate::world::{is_kept, is_pending, stepped_all, survivors, swept, well_formed};

verus! {

/// One tick of the integrator takes `dt` off the lifespan of a live particle,
/// and tags the particle for removal exactly when nothing is left.
pub proof fn law_tick_ages_and_tags(e: ParticleEntity, dt: u32)
    requires
        !e.pending_removal,
        e.particle.is_live(),
    ensures
        e.stepped(dt as int).particle.lifespan_remaining == e.particle.lifespan_remaining - dt,
        e.stepped(dt as int).pending_removal <==> e.particle.lifespan_remaining - dt <= 0,
{
}

/// Whatever lifespan an untagged particle has, and however long the tick, the
/// particle is tagged by the tick exactly when the lifespan less the tick is
/// not positive.
pub proof fn law_tick_tags_the_expired(e: ParticleEntity, dt: nat)
    requires
        !e.pending_removal,
    ensures
        e.stepped(dt as int).pending_removal <==> e.particle.lifespan_remaining - dt <= 0,
        e.stepped(dt as int).tag_agrees(),
{
}

/// One tick moves a particle by its velocity as it was before the tick, and
/// then adds the acceleration to the velocity, wherever the sums can be held.
pub proof fn law_tick_moves_then_accelerates(e: ParticleEntity, dt: u32)
    requires
        !e.pending_removal,
        e.position.advance_fits(e.particle.velocity, dt as int),
        e.particle.velocity.advance_fits(e.particle.acceleration, dt as int),
    ensures
        e.stepped(dt as int).position.x == e.position.x + e.particle.velocity.x * dt,
        e.stepped(dt as int).position.y == e.position.y + e.particle.velocity.y * dt,
        e.stepped(dt as int).position.z == e.position.z + e.particle.velocity.z * dt,
        e.stepped(dt as int).particle.velocity.x == e.particle.velocity.x
            + e.particle.acceleration.x * dt,
        e.stepped(dt as int).particle.velocity.y == e.particle.velocity.y
            + e.particle.acceleration.y * dt,
        e.stepped(dt as int).particle.velocity.z == e.particle.velocity.z
            + e.particle.acceleration.z * dt,
        e.stepped(dt as int).particle.acceleration == e.particle.acceleration,
{
}

/// A tick leaves an entity that awaits removal as it is: a dead particle is
/// not integrated again.
pub proof fn law_tick_skips_the_tagged(e: ParticleEntity, dt: int)
    requires
        e.pending_removal,
    ensures
        e.stepped(dt) == e,
{
}

/// A tick never adds to a lifespan.
pub proof fn law_lifespan_never_grows(e: ParticleEntity, dt: nat)
    ensures
        e.stepped(dt as int).particle.lifespan_remaining <= e.particle.lifespan_remaining,
{
}

/// A filter keeps a sequence whole when every element passes.
proof fn lemma_filter_keeps_all<A>(s: Seq<A>, pred: spec_fn(A) -> bool)
    requires
        forall|i: int| 0 <= i < s.len() ==> pred(#[trigger] s[i]),
    ensures
        s.filter(pred) == s,
    decreases s.len(),
{
    reveal(Seq::filter);
    if s.len() > 0 {
        lemma_filter_keeps_all(s.drop_last(), pred);
        assert(s.drop_last().push(s.last()) =~= s);
    }
}

/// A filter leaves nothing when no element passes.
proof fn lemma_filter_drops_all<A>(s: Seq<A>, pred: spec_fn(A) -> bool)
    requires
        forall|i: int| 0 <= i < s.len() ==> !pred(#[trigger] s[i]),
    ensures
        s.filter(pred) == Seq::<A>::empty(),
    decreases s.len(),
{
    reveal(Seq::filter);
    if s.len() > 0 {
        lemma_filter_drops_all(s.drop_last(), pred);
    }
}

/// No entity that a sweep leaves in place awaits removal.
pub proof fn law_survivors_are_untagged(s: Seq<ParticleEntity>, i: int)
    requires
        0 <= i < survivors(s).len(),
    ensures
        !survivors(s)[i].pending_removal,
{
    s.lemma_filter_pred(|e: ParticleEntity| is_kept(e), i);
}

/// In a valid world every entity that a sweep leaves in place is live.
pub proof fn law_survivors_are_live(s: Seq<ParticleEntity>, bound: int, i: int)
    requires
        well_formed(s, bound),
        0 <= i < survivors(s).len(),
    ensures
        survivors(s)[i].particle.is_live(),
{
    let keep = |e: ParticleEntity| is_kept(e);
    let e = survivors(s)[i];
    s.lemma_filter_pred(keep, i);
    assert(s.filter(keep).contains(e));
    s.lemma_filter_contains_rev(keep, e);
    let j = choose|j: int| 0 <= j < s.len() && s[j] == e;
    assert(s[j].tag_agrees());
}

/// The reaper is idempotent: a second sweep right after the first destroys
/// nothing and leaves every entity in place, so each tagged entity is
/// destroyed exactly once.
pub proof fn law_reap_twice(s: Seq<ParticleEntity>)
    ensures
        survivors(survivors(s)) == survivors(s),
        swept(survivors(s)) == Seq::<u64>::empty(),
{
    let kept = survivors(s);
    assert forall|i: int| 0 <= i < kept.len() implies is_kept(#[trigger] kept[i]) by {
        law_survivors_are_untagged(s, i);
    }
    lemma_filter_keeps_all(kept, |e: ParticleEntity| is_kept(e));
    lemma_filter_drops_all(kept, |e: ParticleEntity| is_pending(e));
    assert(swept(kept) =~= Seq::<u64>::empty());
}

/// In a valid world whose entities are all untagged, a sweep destroys nothing.
pub proof fn law_reap_spares_the_living(s: Seq<ParticleEntity>, bound: int)
    requires
        well_formed(s, bound),
        forall|i: int| 0 <= i < s.len() ==> (#[trigger] s[i]).particle.is_live(),
    ensures
        survivors(s) == s,
        swept(s) == Seq::<u64>::empty(),
{
    assert forall|i: int| 0 <= i < s.len() implies is_kept(#[trigger] s[i]) by {
        assert(s[i].tag_agrees());
    }
    lemma_filter_keeps_all(s, |e: ParticleEntity| is_kept(e));
    lemma_filter_drops_all(s, |e: ParticleEntity| is_pending(e));
    assert(swept(s) =~= Seq::<u64>::empty());
}

/// Once every particle of a valid world has run out of life, a tick changes
/// nothing and a sweep leaves no entity.
pub proof fn law_reap_clears_the_dead(s: Seq<ParticleEntity>, bound: int, dt: int)
    requires
        well_formed(s, bound),
        forall|i: int| 0 <= i < s.len() ==> !(#[trigger] s[i]).particle.is_live(),
    ensures
        stepped_all(s, dt) == s,
        survivors(s) == Seq::<ParticleEntity>::empty(),
        swept(s).len() == s.len(),
{
    assert forall|i: int| 0 <= i < s.len() implies is_pending(#[trigger] s[i]) by {
        assert(s[i].tag_agrees());
    }
    assert(stepped_all(s, dt) =~= s);
    lemma_filter_drops_all(s, |e: ParticleEntity| is_kept(e));
    lemma_filter_keeps_all(s, |e: ParticleEntity| is_pending(e));
}

/// The spawner never creates a particle without life: under a valid
/// configuration a new particle is live, whatever velocity was drawn.
pub proof fn law_fresh_particle_is_live(config: SpawnConfig, vx: i64, vy: i64)
    requires
        config.wf(),
    ensures
        fresh_particle(config, vx, vy).is_live(),
{
}

/// Every particle of a burst is live, untagged, and has its drawn velocity
/// components within the configured ranges.
pub proof fn law_burst_within_configuration(
    config: SpawnConfig,
    next: int,
    target: Vector3,
    burst: Burst,
    k: int,
)
    requires
        burst_of(config, next, target, burst),
        0 <= k < burst.created@.len(),
    ensures
        burst.created@[k].particle.lifespan_remaining > 0,
        !burst.created@[k].pending_removal,
        config.velocity_x.min <= burst.created@[k].particle.velocity.x <= config.velocity_x.max,
        config.velocity_y.min <= burst.created@[k].particle.velocity.y <= config.velocity_y.max,
        burst.created@[k].particle.velocity.z == 0,
{
}

/// The corners of the viewport map to the extents of the projection: the top
/// left pixel to the left and top extents, the bottom right pixel to the right
/// and bottom extents.
pub proof fn law_corners_map_to_extents(viewport: Viewport, projection: OrthographicProjection)
    requires
        viewport.wf(),
    ensures
        world_point(viewport, projection, Pixel { x: 0, y: 0 }) == (Vector3 {
            x: projection.left,
            y: projection.top,
            z: 0,
        }),
        world_point(viewport, projection, Pixel { x: viewport.width, y: viewport.height })
            == (Vector3 { x: projection.right, y: projection.bottom, z: 0 }),
        world_point(viewport, projection, Pixel { x: viewport.width, y: 0 }) == (Vector3 {
            x: projection.right,
            y: projection.top,
            z: 0,
        }),
        world_point(viewport, projection, Pixel { x: 0, y: viewport.height }) == (Vector3 {
            x: projection.left,
            y: projection.bottom,
            z: 0,
        }),
{
    lemma_interpolated_ends(
        projection.left as int,
        projection.right as int,
        viewport.width as int,
    );
    lemma_interpolated_ends(
        projection.bottom as int,
        projection.top as int,
        viewport.height as int,
    );
}

/// The centre of the viewport maps to the origin of the world when the
/// projection is centred on it.
pub proof fn law_centre_maps_to_origin(viewport: Viewport, projection: OrthographicProjection)
    requires
        viewport.wf(),
        viewport.width % 2 == 0,
        viewport.height % 2 == 0,
        projection.left == -projection.right,
        projection.bottom == -projection.top,
    ensures
        world_point(
            viewport,
            projection,
            Pixel { x: viewport.width / 2, y: viewport.height / 2 },
        ) == (Vector3 { x: 0, y: 0, z: 0 }),
{
    lemma_interpolated_middle(projection.right as int, viewport.width as int);
    lemma_interpolated_middle(projection.top as int, viewport.height as int);
}

/// Interpolation starts at the low end and arrives at the high end.
proof fn lemma_interpolated_ends(low: int, high: int, whole: int)
    requires
        0 < whole,
    ensures
        interpolated(low, high, 0, whole) == low,
        interpolated(low, high, whole, whole) == high,
{
    assert((high - low) * 0 == 0) by (nonlinear_arith);
    assert((high - low) * whole == whole * (high - low)) by (nonlinear_arith);
    lemma_div_multiples_vanish(high - low, whole);
}

/// Half way between `-high` and `high` lies 0.
proof fn lemma_interpolated_middle(high: int, whole: int)
    requires
        0 < whole,
        whole % 2 == 0,
    ensures
        interpolated(-high, high, whole / 2, whole) == 0,
        interpolated(-high, high, whole - whole / 2, whole) == 0,
{
    assert((high - (-high)) * (whole / 2) == whole * high) by (nonlinear_arith)
        requires
            whole % 2 == 0,
    ;
    lemma_div_multiples_vanish(high, whole);
}

} // verus!
