//! The spawner: when to create particles, and what a new particle is.

use vstd::prelude::*;
use crate::particle::{Appearance, Color, Particle, ParticleEntity, Size2};
use crate::projection::{world_point, window_to_world, OrthographicProjection, Pixel, Viewport};
use crate::random::RandomSource;
use crate::timer::SpawnTimer;
use crate::units::COLOR_ONE;
use crate::vector::Vector3;
use crate::world::World;

verus! {

/// The downward acceleration of every particle, in units of acceleration:
/// 9.8 world units per second squared.
pub const GRAVITY_Y: i64 = -98;

/// A range of integers, both ends included.
#[derive(Clone, Copy, Debug, PartialEq, Eq, Structural)]
pub struct Interval {
    pub min: i64,
    pub max: i64,
}

/// What triggers a burst and where it is placed.
#[derive(Clone, Copy, Debug, PartialEq, Eq, Structural)]
pub enum SpawnMode {
    /// A burst needs the pointer button held and a pointer position, and is
    /// placed under the pointer.
    Interactive,
    /// A burst needs nothing but the timer and is placed at the configured
    /// origin.
    Ambient,
}

/// The spawner's configuration.
#[derive(Clone, Copy, Debug, PartialEq, Eq, Structural)]
pub struct SpawnConfig {
    pub mode: SpawnMode,
    /// The number of particles in one burst.
    pub burst_size: u32,
    /// The range of the x component of the initial velocity.
    pub velocity_x: Interval,
    /// The range of the y component of the initial velocity.
    pub velocity_y: Interval,
    /// The range of the colour offset, within 0 and `COLOR_ONE`.
    pub color_offset: Interval,
    /// The lifespan of a new particle, in ticks; positive.
    pub lifespan: i64,
    /// The size of the quad that a particle is drawn as.
    pub particle_size: Size2,
    /// Where an ambient burst is placed.
    pub origin: Vector3,
}

/// Why a configuration is refused.
#[derive(Clone, Copy, Debug, PartialEq, Eq, Structural)]
pub enum ConfigError {
    /// A velocity range has its minimum above its maximum.
    EmptyVelocityRange,
    /// The colour offset range is empty or leaves 0 to `COLOR_ONE`.
    ColorOffsetOutOfRange,
    /// The lifespan is not positive.
    NonPositiveLifespan,
}

/// The pointer as the windowing layer reports it.
#[derive(Clone, Copy, Debug, PartialEq, Eq, Structural)]
pub struct PointerInput {
    pub viewport: Viewport,
    pub projection: OrthographicProjection,
    pub cursor: Pixel,
}

/// What the spawner learns from the host each frame.
#[derive(Clone, Copy, Debug, PartialEq, Eq, Structural)]
pub struct SpawnInput {
    /// Whether the primary pointer button is held.
    pub button_held: bool,
    /// The pointer, if there is a viewport with the pointer in it and a camera.
    pub pointer: Option<PointerInput>,
}

/// One burst: the entities created, which share the mesh `mesh`.
pub struct Burst {
    /// The handle of the quad mesh that the burst shares.
    pub mesh: u64,
    /// The size of that quad.
    pub mesh_size: Size2,
    /// The entities created, as they stand in the world right after creation.
    pub created: Vec<ParticleEntity>,
}

/// What the spawner did in a frame.
pub enum SpawnOutcome {
    /// The timer has not fired.
    NotDue,
    /// The timer fired, but what the mode asks of the input was missing.
    Suppressed,
    /// The timer fired and a burst was created.
    Spawned(Burst),
}

impl Interval {
    /// The range holds at least one value.
    pub open spec fn wf(self) -> bool {
        self.min <= self.max
    }

    /// Whether `v` lies in the range.
    pub open spec fn contains(self, v: int) -> bool {
        self.min <= v <= self.max
    }
}

impl SpawnConfig {
    /// The validity of a configuration: no range is empty, the colour offset
    /// stays within a channel, and a new particle has life.
    pub open spec fn wf(self) -> bool {
        self.check() is Ok
    }

    /// The first fault of the configuration, if it has one.
    pub open spec fn check(self) -> Result<(), ConfigError> {
        if !self.velocity_x.wf() || !self.velocity_y.wf() {
            Err(ConfigError::EmptyVelocityRange)
        } else if !(0 <= self.color_offset.min <= self.color_offset.max <= COLOR_ONE) {
            Err(ConfigError::ColorOffsetOutOfRange)
        } else if self.lifespan <= 0 {
            Err(ConfigError::NonPositiveLifespan)
        } else {
            Ok(())
        }
    }

    /// Checks the configuration.
    pub fn validate(&self) -> (checked: Result<(), ConfigError>)
        ensures
            checked == self.check(),
            checked is Ok <==> self.wf(),
    {
        if self.velocity_x.min > self.velocity_x.max || self.velocity_y.min > self.velocity_y.max {
            Err(ConfigError::EmptyVelocityRange)
        } else if self.color_offset.min < 0 || self.color_offset.min > self.color_offset.max
            || self.color_offset.max > COLOR_ONE {
            Err(ConfigError::ColorOffsetOutOfRange)
        } else if self.lifespan <= 0 {
            Err(ConfigError::NonPositiveLifespan)
        } else {
            Ok(())
        }
    }

    /// The pointer-driven spawner: one particle of 1 by 1 world units per
    /// burst, placed under the pointer while the button is held, with both
    /// velocity components between -10 and 10 world units per second, a colour
    /// offset between 0 and 1, and 5 seconds of life.
    pub fn interactive() -> (config: SpawnConfig)
        ensures
            config.wf(),
            config == (SpawnConfig {
                mode: SpawnMode::Interactive,
                burst_size: 1,
                velocity_x: Interval { min: -100_000i64, max: 100_000 },
                velocity_y: Interval { min: -100_000i64, max: 100_000 },
                color_offset: Interval { min: 0, max: 1_000 },
                lifespan: 5_000,
                particle_size: Size2 { width: 10_000_000, height: 10_000_000 },
                origin: Vector3 { x: 0, y: 0, z: 0 },
            }),
    {
        SpawnConfig {
            mode: SpawnMode::Interactive,
            burst_size: 1,
            velocity_x: Interval { min: -100_000i64, max: 100_000 },
            velocity_y: Interval { min: -100_000i64, max: 100_000 },
            color_offset: Interval { min: 0, max: 1_000 },
            lifespan: 5_000,
            particle_size: Size2 { width: 10_000_000, height: 10_000_000 },
            origin: Vector3 { x: 0, y: 0, z: 0 },
        }
    }

    /// The ambient spawner: ten particles of 10 by 10 world units per burst,
    /// placed at the origin whenever the timer fires, with the x velocity
    /// between -1 and 1 and the y velocity between 1 and 3 world units per
    /// second, a colour offset between 0 and 0.2, and 5 seconds of life.
    pub fn ambient() -> (config: SpawnConfig)
        ensures
            config.wf(),
            config == (SpawnConfig {
                mode: SpawnMode::Ambient,
                burst_size: 10,
                velocity_x: Interval { min: -10_000i64, max: 10_000 },
                velocity_y: Interval { min: 10_000, max: 30_000 },
                color_offset: Interval { min: 0, max: 200 },
                lifespan: 5_000,
                particle_size: Size2 { width: 100_000_000, height: 100_000_000 },
                origin: Vector3 { x: 0, y: 0, z: 0 },
            }),
    {
        SpawnConfig {
            mode: SpawnMode::Ambient,
            burst_size: 10,
            velocity_x: Interval { min: -10_000i64, max: 10_000 },
            velocity_y: Interval { min: 10_000, max: 30_000 },
            color_offset: Interval { min: 0, max: 200 },
            lifespan: 5_000,
            particle_size: Size2 { width: 100_000_000, height: 100_000_000 },
            origin: Vector3 { x: 0, y: 0, z: 0 },
        }
    }
}

/// The colour of a particle whose colour offset is `offset`: red and green
/// dimmed by the offset, blue and alpha full.
pub open spec fn tinted(offset: int) -> Color {
    Color {
        red: (COLOR_ONE - offset) as i64,
        green: (COLOR_ONE - offset) as i64,
        blue: COLOR_ONE,
        alpha: COLOR_ONE,
    }
}

/// The particle that the spawner makes of the drawn velocity components.
pub open spec fn fresh_particle(config: SpawnConfig, vx: i64, vy: i64) -> Particle {
    Particle {
        velocity: Vector3 { x: vx, y: vy, z: 0 },
        acceleration: Vector3 { x: 0, y: GRAVITY_Y, z: 0 },
        lifespan_remaining: config.lifespan,
    }
}

/// Whether `e` is an entity that a burst of `config` at `target` may have
/// created under the handle `id` with the mesh `mesh`.
pub open spec fn spawned_by(
    config: SpawnConfig,
    e: ParticleEntity,
    id: int,
    mesh: int,
    target: Vector3,
) -> bool {
    &&& e.id == id
    &&& e.mesh == mesh
    &&& !e.pending_removal
    &&& e.position == target
    &&& e.particle.acceleration == (Vector3 { x: 0, y: GRAVITY_Y, z: 0 })
    &&& e.particle.lifespan_remaining == config.lifespan
    &&& e.particle.lifespan_remaining > 0
    &&& config.velocity_x.contains(e.particle.velocity.x as int)
    &&& config.velocity_y.contains(e.particle.velocity.y as int)
    &&& e.particle.velocity.z == 0
    &&& e.appearance.size == config.particle_size
    &&& e.appearance.color.green == e.appearance.color.red
    &&& e.appearance.color.blue == COLOR_ONE
    &&& e.appearance.color.alpha == COLOR_ONE
    &&& config.color_offset.contains(COLOR_ONE - e.appearance.color.red)
}

/// The world point under the pointer, if the pointer can be mapped: the
/// viewport has an area, the cursor lies in it and the projection is
/// invertible.
pub open spec fn pointer_target(pointer: PointerInput) -> Option<Vector3> {
    if pointer.viewport.wf() && pointer.viewport.holds(pointer.cursor)
        && pointer.projection.invertible() {
        Some(world_point(pointer.viewport, pointer.projection, pointer.cursor))
    } else {
        None
    }
}

/// Where a burst is due, if one is: nowhere unless the timer fired; at the
/// origin in ambient mode; under the pointer in interactive mode, provided the
/// button is held and the pointer can be mapped.
pub open spec fn spawn_target(config: SpawnConfig, fired: bool, input: SpawnInput) -> Option<
    Vector3,
> {
    if !fired {
        None
    } else {
        match config.mode {
            SpawnMode::Ambient => Some(config.origin),
            SpawnMode::Interactive => match input.pointer {
                Some(pointer) if input.button_held => pointer_target(pointer),
                _ => None,
            },
        }
    }
}

/// The number of particles that a burst of `config` creates when the next
/// free handle is `next`: the configured number, or as many as there are
/// handles left.
pub open spec fn burst_count(config: SpawnConfig, next: int) -> int {
    if config.burst_size <= u64::MAX - next {
        config.burst_size as int
    } else {
        u64::MAX - next
    }
}

/// Whether `burst` is a burst of `config` at `target`, created when the next
/// free handle was `next`: it has as many particles as [`burst_count`] says,
/// numbered from `next` on, each as [`spawned_by`] describes, all sharing the
/// mesh `next`.
pub open spec fn burst_of(config: SpawnConfig, next: int, target: Vector3, burst: Burst) -> bool {
    &&& burst.mesh == next
    &&& burst.mesh_size == config.particle_size
    &&& burst.created@.len() == burst_count(config, next)
    &&& forall|k: int|
        0 <= k < burst.created@.len() ==> spawned_by(
            config,
            #[trigger] burst.created@[k],
            next + k,
            next,
            target,
        )
}

/// Whether `outcome` is what the spawner owes when its timer did or did not
/// fire: nothing while the timer has not fired, a suppressed burst where
/// [`spawn_target`] names no place, and a burst at that place otherwise.
pub open spec fn outcome_of(
    config: SpawnConfig,
    fired: bool,
    input: SpawnInput,
    next: int,
    outcome: SpawnOutcome,
) -> bool {
    match spawn_target(config, fired, input) {
        Some(target) => outcome matches SpawnOutcome::Spawned(burst) && burst_of(
            config,
            next,
            target,
            burst,
        ),
        None => if fired {
            outcome is Suppressed
        } else {
            outcome is NotDue
        },
    }
}

/// The entities that exist once the spawner has added what `outcome` holds.
pub open spec fn after_spawn(before: Seq<ParticleEntity>, outcome: SpawnOutcome) -> Seq<
    ParticleEntity,
> {
    match outcome {
        SpawnOutcome::Spawned(burst) => before + burst.created@,
        _ => before,
    }
}

/// The colour for the colour offset `offset`.
pub fn tint(offset: i64) -> (color: Color)
    requires
        0 <= offset <= COLOR_ONE,
    ensures
        color == tinted(offset as int),
{
    Color { red: COLOR_ONE - offset, green: COLOR_ONE - offset, blue: COLOR_ONE, alpha: COLOR_ONE }
}

/// The particle for the drawn velocity components: it falls under gravity and
/// has the configured lifespan.
pub fn new_particle(config: &SpawnConfig, vx: i64, vy: i64) -> (particle: Particle)
    ensures
        particle == fresh_particle(*config, vx, vy),
{
    Particle {
        velocity: Vector3 { x: vx, y: vy, z: 0 },
        acceleration: Vector3 { x: 0, y: GRAVITY_Y, z: 0 },
        lifespan_remaining: config.lifespan,
    }
}

/// Computes [`pointer_target`].
pub fn map_pointer(pointer: &PointerInput) -> (target: Option<Vector3>)
    ensures
        target == pointer_target(*pointer),
{
    if pointer.viewport.width > 0 && pointer.viewport.height > 0 && pointer.cursor.x
        <= pointer.viewport.width && pointer.cursor.y <= pointer.viewport.height
        && pointer.projection.left != pointer.projection.right && pointer.projection.bottom
        != pointer.projection.top {
        Some(window_to_world(pointer.viewport, pointer.projection, pointer.cursor))
    } else {
        None
    }
}

/// Computes [`spawn_target`].
pub fn decide_spawn(config: &SpawnConfig, fired: bool, input: &SpawnInput) -> (target: Option<
    Vector3,
>)
    ensures
        target == spawn_target(*config, fired, *input),
{
    if !fired {
        return None;
    }
    match config.mode {
        SpawnMode::Ambient => Some(config.origin),
        SpawnMode::Interactive => {
            if !input.button_held {
                return None;
            }
            match &input.pointer {
                Some(pointer) => map_pointer(pointer),
                None => None,
            }
        },
    }
}

/// Draws a value of `range`.
fn draw_from(rng: &mut RandomSource, range: &Interval) -> (r: i64)
    requires
        range.wf(),
    ensures
        range.contains(r as int),
{
    match rng.draw(range.min, range.max) {
        Some(r) => r,
        None => range.min,
    }
}

/// Creates one burst at `target`: each particle with a velocity and a colour
/// offset drawn from the configured ranges. The particles share one mesh,
/// named by the handle of the first.
pub fn spawn_burst(
    world: &mut World,
    config: &SpawnConfig,
    rng: &mut RandomSource,
    target: Vector3,
) -> (burst: Burst)
    requires
        old(world).wf(),
        config.wf(),
    ensures
        final(world).wf(),
        burst_of(*config, old(world).next_id(), target, burst),
        final(world).next_id() == old(world).next_id() + burst.created@.len(),
        final(world)@ == old(world)@ + burst.created@,
{
    let first = world.upcoming_id();
    let mut created: Vec<ParticleEntity> = Vec::new();
    let mut k: u32 = 0;
    while k < config.burst_size && world.upcoming_id() < u64::MAX
        invariant
            k <= config.burst_size,
            config.wf(),
            world.wf(),
            first == old(world).next_id(),
            created@.len() == k,
            world.next_id() == first + k,
            world.next_id() <= u64::MAX,
            world@ == old(world)@ + created@,
            forall|j: int|
                0 <= j < created@.len() ==> spawned_by(
                    *config,
                    #[trigger] created@[j],
                    first + j,
                    first as int,
                    target,
                ),
        decreases config.burst_size - k,
    {
        let vx = draw_from(rng, &config.velocity_x);
        let vy = draw_from(rng, &config.velocity_y);
        let offset = draw_from(rng, &config.color_offset);
        let particle = new_particle(config, vx, vy);
        let appearance = Appearance { color: tint(offset), size: config.particle_size };
        // a live particle, a free handle and a mesh handed out already: the
        // world takes the entity
        if let Some(handle) = world.insert(particle, target, appearance, Some(first)) {
            created.push(
                ParticleEntity {
                    id: handle,
                    mesh: first,
                    particle,
                    position: target,
                    appearance,
                    pending_removal: false,
                },
            );
            assert(world@ =~= old(world)@ + created@);
        }
        k = k + 1;
    }
    Burst { mesh: first, mesh_size: config.particle_size, created }
}

/// The spawner's part of a frame: advances the timer by `dt` ticks and, if it
/// fired and the mode's conditions hold, creates a burst.
pub fn particle_spawner_system(
    world: &mut World,
    timer: &mut SpawnTimer,
    config: &SpawnConfig,
    rng: &mut RandomSource,
    dt: u32,
    input: &SpawnInput,
) -> (outcome: SpawnOutcome)
    requires
        old(world).wf(),
        old(timer).wf(),
        config.wf(),
    ensures
        final(world).wf(),
        final(timer).wf(),
        final(timer).period() == old(timer).period(),
        final(timer).elapsed() == old(timer).elapsed_after(dt as int),
        outcome_of(
            *config,
            old(timer).fires(dt as int),
            *input,
            old(world).next_id(),
            outcome,
        ),
        final(world)@ == after_spawn(old(world)@, outcome),
        final(world).next_id() == old(world).next_id() + final(world)@.len() - old(world)@.len(),
{
    let fired = timer.tick(dt);
    if !fired {
        return SpawnOutcome::NotDue;
    }
    match decide_spawn(config, fired, input) {
        Some(target) => SpawnOutcome::Spawned(spawn_burst(world, config, rng, target)),
        None => SpawnOutcome::Suppressed,
    }
}

} // verus!
