//! Deployment tuning. None of these values affects the protocol's
//! correctness, only its feel, so they are carried as configuration rather
//! than hard-coded: spawn pose and seed velocities for projectiles, the
//! impulse a force command applies, and the elimination threshold.
//!
//! The `standard` constructors hold this deployment's tuning, in
//! fixed-point units (thousandths of a world unit).

use vstd::prelude::*;

verus! {

use crate::vec3::Vec3;

/// Which authority regime newly fired projectiles use: replicated as
/// authoritative-only samples, or locally predicted by each observer. A
/// deployment-time choice, never varied per entity.
#[derive(Clone, Copy, PartialEq, Eq, Structural, Debug)]
pub enum AuthorityModel {
    ServerSimulation,
    ClientPrediction,
}

/// Spawn pose and seed velocities for fired projectiles.
#[derive(Clone, Copy, PartialEq, Eq, Structural, Debug)]
pub struct SpawnConfig {
    /// The authority regime every projectile of this deployment uses.
    pub model: AuthorityModel,
    pub translation: Vec3,
    pub euler: Vec3,
    pub velocity: Vec3,
    pub angular_velocity: Vec3,
}

impl SpawnConfig {
    pub open spec fn wf(self) -> bool {
        &&& self.translation.in_range()
        &&& self.euler.in_range()
        &&& self.velocity.in_range()
        &&& self.angular_velocity.in_range()
    }

    /// This deployment's tuning: projectiles spawn 15 units up with no
    /// rotation, rising at 10 units per second and spinning about x and y,
    /// and are locally predicted.
    pub fn standard() -> (c: SpawnConfig)
        ensures
            c.model is ClientPrediction,
            c.translation == (Vec3 { x: 0i64, y: 15_000i64, z: 0i64 }),
            c.euler == (Vec3 { x: 0i64, y: 0i64, z: 0i64 }),
            c.velocity == (Vec3 { x: 0i64, y: 10_000i64, z: 0i64 }),
            c.angular_velocity == (Vec3 { x: 5_000i64, y: 5_000i64, z: 0i64 }),
            c.wf(),
    {
        SpawnConfig {
            model: AuthorityModel::ClientPrediction,
            translation: Vec3 { x: 0, y: 15_000, z: 0 },
            euler: Vec3 { x: 0, y: 0, z: 0 },
            velocity: Vec3 { x: 0, y: 10_000, z: 0 },
            angular_velocity: Vec3 { x: 5_000, y: 5_000, z: 0 },
        }
    }
}

/// The instantaneous impulse and torque impulse a force command applies to
/// each projectile owned by its sender.
#[derive(Clone, Copy, PartialEq, Eq, Structural, Debug)]
pub struct ForceConfig {
    pub impulse: Vec3,
    pub torque_impulse: Vec3,
}

impl ForceConfig {
    /// This deployment's tuning: a strong upward kick with a twist about z.
    pub fn standard() -> (c: ForceConfig)
        ensures
            c.impulse == (Vec3 { x: 0i64, y: 100_000i64, z: 0i64 }),
            c.torque_impulse == (Vec3 { x: 0i64, y: 0i64, z: 5_000i64 }),
    {
        ForceConfig {
            impulse: Vec3 { x: 0, y: 100_000, z: 0 },
            torque_impulse: Vec3 { x: 0, y: 0, z: 5_000 },
        }
    }
}

/// The elimination rule's tuning: the world-space lower bound below which
/// the authority despawns a fallen body.
#[derive(Clone, Copy, PartialEq, Eq, Structural, Debug)]
pub struct LifecycleConfig {
    pub dropped_y: i64,
}

impl LifecycleConfig {
    /// This deployment's tuning: bodies are eliminated 15 units below the
    /// origin.
    pub fn standard() -> (c: LifecycleConfig)
        ensures
            c.dropped_y == -15_000i64,
    {
        LifecycleConfig { dropped_y: -15_000 }
    }
}

} // verus!
