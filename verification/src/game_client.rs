//! Observer-side decisions.
//!
//! When a replicated projectile first appears, the observer sets its local
//! entity up one of two statically distinct ways: an authoritative-only
//! body gets an interpolation cache and a kinematic collider driven by
//! sampled transforms, while a predicted body gets a dynamic collider
//! seeded with the transmitted velocities. The choice is made by matching
//! on the state variant, never by a runtime flag, so authoritative
//! smoothing can never be applied to a predicted body or vice versa.

use vstd::prelude::*;

verus! {

use crate::Cache;
use crate::NetworkFireBall;
use crate::fresh_cache;
use crate::network_rigidbody::NetworkRigidBody;
use crate::vec3::Vec3;

/// How an observer initializes its local entity for a newly seen body.
#[derive(Clone, Copy, PartialEq, Eq, Structural, Debug)]
pub enum ObserverSetup {
    /// Authoritative-only: render by sampling this cache; never simulate.
    Interpolated { cache: Cache },
    /// Predicted: simulate locally, seeded with these velocities.
    Predicted { velocity: Vec3, angular_velocity: Vec3 },
}

/// Decide the observer-side setup for a newly replicated body. An
/// authoritative-only body yields a fresh interpolation cache holding its
/// spawn sample twice, so the very first render shows the exact spawn
/// pose; a predicted body yields its transmitted seed velocities.
pub fn observer_setup(body: &NetworkRigidBody) -> (s: ObserverSetup)
    requires
        body.in_range(),
    ensures
        body is ServerSimulation ==> s == (ObserverSetup::Interpolated {
            cache: fresh_cache(*body),
        }),
        body is ClientPrediction ==> s == (ObserverSetup::Predicted {
            velocity: body->ClientPrediction_velocity,
            angular_velocity: body->ClientPrediction_angular_velocity,
        }),
{
    match body {
        NetworkRigidBody::ServerSimulation { .. } => ObserverSetup::Interpolated {
            cache: Cache::new(*body),
        },
        NetworkRigidBody::ClientPrediction { velocity, angular_velocity, .. } => {
            ObserverSetup::Predicted { velocity: *velocity, angular_velocity: *angular_velocity }
        },
    }
}

/// Observer-side handling of a force acknowledgement: whether this local
/// projectile belongs to the party whose command is being applied.
pub fn force_applies(ball: &NetworkFireBall, client_id: u64) -> (b: bool)
    ensures
        b == (ball.spec_caster() == client_id),
{
    ball.caster() == client_id
}

} // verus!
