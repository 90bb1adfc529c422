//! The simulated particle and the entity that carries it.

use vstd::prelude::*;
use crate::units::{advance, clamp};
use crate::vector::Vector3;

verus! {

/// The simulation state of one particle.
#[derive(Clone, Copy, Debug, PartialEq, Eq, Structural)]
pub struct Particle {
    /// Velocity, in units of velocity.
    pub velocity: Vector3,
    /// Acceleration, constant over the particle's life.
    pub acceleration: Vector3,
    /// Ticks of life that remain. The particle is dead once this is not positive.
    pub lifespan_remaining: i64,
}

/// A colour of four channels, each between 0 and `COLOR_ONE`.
#[derive(Clone, Copy, Debug, PartialEq, Eq, Structural)]
pub struct Color {
    pub red: i64,
    pub green: i64,
    pub blue: i64,
    pub alpha: i64,
}

/// The extent of a quad, in units of position.
#[derive(Clone, Copy, Debug, PartialEq, Eq, Structural)]
pub struct Size2 {
    pub width: i64,
    pub height: i64,
}

/// What the renderer draws for one particle. Each particle owns its own.
#[derive(Clone, Copy, Debug, PartialEq, Eq, Structural)]
pub struct Appearance {
    pub color: Color,
    pub size: Size2,
}

/// A particle together with what the renderer holds for it.
#[derive(Clone, Copy, Debug, PartialEq, Eq, Structural)]
pub struct ParticleEntity {
    /// The handle by which the entity is known. No two entities share one.
    pub id: u64,
    /// The handle of the quad mesh, shared by the entities of one burst.
    pub mesh: u64,
    pub particle: Particle,
    /// Where the entity stands, in units of position.
    pub position: Vector3,
    pub appearance: Appearance,
    /// Set once the particle has expired; the entity then awaits removal.
    pub pending_removal: bool,
}

impl Particle {
    /// Whether the particle still has life left.
    pub open spec fn is_live(self) -> bool {
        self.lifespan_remaining > 0
    }

    /// The particle after `dt` ticks: the velocity has gained `acceleration * dt`
    /// and the lifespan has lost `dt`.
    pub open spec fn aged(self, dt: int) -> Particle {
        Particle {
            velocity: self.velocity.advanced(self.acceleration, dt),
            acceleration: self.acceleration,
            lifespan_remaining: clamp(self.lifespan_remaining - dt) as i64,
        }
    }

    /// Whether the particle has life left.
    pub fn has_life(&self) -> (live: bool)
        ensures
            live == self.is_live(),
    {
        self.lifespan_remaining > 0
    }

    /// Ages the particle by `dt` ticks.
    pub fn age(self, dt: u32) -> (next: Particle)
        ensures
            next == self.aged(dt as int),
            next.acceleration == self.acceleration,
            self.is_live() ==> next.lifespan_remaining == self.lifespan_remaining - dt,
            next.lifespan_remaining <= 0 <==> self.lifespan_remaining - dt <= 0,
            self.velocity.advance_fits(self.acceleration, dt as int) ==> {
                &&& next.velocity.x == self.velocity.x + self.acceleration.x * dt
                &&& next.velocity.y == self.velocity.y + self.acceleration.y * dt
                &&& next.velocity.z == self.velocity.z + self.acceleration.z * dt
            },
    {
        Particle {
            velocity: self.velocity.advance(self.acceleration, dt),
            acceleration: self.acceleration,
            lifespan_remaining: advance(self.lifespan_remaining, -1, dt),
        }
    }
}

impl ParticleEntity {
    /// The entity after one tick of the integrator over `dt` ticks of time.
    ///
    /// An entity that awaits removal is left as it is. Any other moves by its
    /// velocity as it was before the tick, then gains velocity and loses
    /// lifespan, and is tagged for removal if no lifespan is left.
    pub open spec fn stepped(self, dt: int) -> ParticleEntity {
        if self.pending_removal {
            self
        } else {
            ParticleEntity {
                id: self.id,
                mesh: self.mesh,
                particle: self.particle.aged(dt),
                position: self.position.advanced(self.particle.velocity, dt),
                appearance: self.appearance,
                pending_removal: self.particle.aged(dt).lifespan_remaining <= 0,
            }
        }
    }

    /// Whether the tag agrees with the lifespan: tagged exactly when dead.
    pub open spec fn tag_agrees(self) -> bool {
        self.pending_removal <==> self.particle.lifespan_remaining <= 0
    }

    /// Runs the integrator on this entity for `dt` ticks.
    pub fn integrate(self, dt: u32) -> (next: ParticleEntity)
        ensures
            next == self.stepped(dt as int),
            next.id == self.id,
            self.tag_agrees() ==> next.tag_agrees(),
            !self.pending_removal ==> (next.pending_removal
                <==> self.particle.lifespan_remaining - dt <= 0),
            !self.pending_removal && self.particle.is_live()
                ==> next.particle.lifespan_remaining == self.particle.lifespan_remaining - dt,
            !self.pending_removal && self.position.advance_fits(self.particle.velocity, dt as int)
                ==> {
                &&& next.position.x == self.position.x + self.particle.velocity.x * dt
                &&& next.position.y == self.position.y + self.particle.velocity.y * dt
                &&& next.position.z == self.position.z + self.particle.velocity.z * dt
            },
    {
        if self.pending_removal {
            self
        } else {
            let position = self.position.advance(self.particle.velocity, dt);
            let particle = self.particle.age(dt);
            ParticleEntity {
                id: self.id,
                mesh: self.mesh,
                particle,
                position,
                appearance: self.appearance,
                pending_removal: particle.lifespan_remaining <= 0,
            }
        }
    }
}

} // verus!
