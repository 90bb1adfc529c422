//! One frame of the simulation, with its passes in their fixed order.

use vstd::prelude::*;
use crate::random::RandomSource;
use crate::spawner::{
    after_spawn,
    outcome_of,
    particle_spawner_system,
    SpawnConfig,
    SpawnInput,
    SpawnOutcome,
};
use crate::timer::SpawnTimer;
use crate::world::{stepped_all, survivors, swept, World};

verus! {

/// What one frame did, for the renderer to follow: the entities to create and
/// the handles of the entities to destroy.
pub struct FrameReport {
    pub spawn: SpawnOutcome,
    pub destroyed: Vec<u64>,
}

/// Runs one frame of `dt` ticks: the spawner, then the integrator with the
/// expiry pass, then the reaper, then the appearance pass.
///
/// The particles of a burst are integrated in the frame that creates them.
/// What expires in a frame is destroyed in that frame.
pub fn run_frame(
    world: &mut World,
    timer: &mut SpawnTimer,
    config: &SpawnConfig,
    rng: &mut RandomSource,
    dt: u32,
    input: &SpawnInput,
) -> (report: FrameReport)
    requires
        old(world).wf(),
        old(timer).wf(),
        config.wf(),
    ensures
        final(world).wf(),
        final(timer).wf(),
        final(timer).period() == old(timer).period(),
        final(timer).elapsed() == old(timer).elapsed_after(dt as int),
        outcome_of(
            *config,
            old(timer).fires(dt as int),
            *input,
            old(world).next_id(),
            report.spawn,
        ),
        final(world).next_id() == old(world).next_id() + after_spawn(
            old(world)@,
            report.spawn,
        ).len() - old(world)@.len(),
        final(world)@ == survivors(
            stepped_all(after_spawn(old(world)@, report.spawn), dt as int),
        ),
        report.destroyed@ == swept(
            stepped_all(after_spawn(old(world)@, report.spawn), dt as int),
        ),
{
    let spawn = particle_spawner_system(world, timer, config, rng, dt, input);
    world.integrate(dt);
    let destroyed = world.reap();
    world.sync_appearance();
    FrameReport { spawn, destroyed }
}

} // verus!
