//! A particle-effect simulation in exact integer arithmetic.
//!
//! Particles are spawned in bursts, move under constant acceleration, age, are
//! tagged once their lifespan has elapsed and are swept away in a separate
//! pass. Every quantity is an integer counted in coherent units (see
//! [`units`]), so one simulation step needs no division and no rounding.

pub mod units;

pub mod vector;

pub mod particle;

pub mod timer;

pub mod random;

pub mod projection;

pub mod world;

pub mod spawner;

pub mod frame;

pub mod laws;
