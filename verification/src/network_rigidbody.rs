//! The replicated state of one synchronized rigid body.
//!
//! A body is either simulated only by the authority (observers render the
//! interpolated samples and never run physics on it) or locally predicted
//! (observers integrate it themselves and are periodically corrected).
//! The variant is fixed when the entity spawns and never changes; the two
//! rendering paths are told apart by matching on it, never by a runtime
//! flag.

use vstd::prelude::*;

verus! {

use crate::vec3::Vec3;

/// Wire representation of a synchronized rigid body. Orientation travels as
/// Euler angles; the simulation boundary converts to and from rotation form.
#[derive(Clone, Copy, PartialEq, Eq, Structural, Debug)]
pub enum NetworkRigidBody {
    /// Motion fully decided by the authority.
    ServerSimulation { translation: Vec3, euler: Vec3 },
    /// Advanced locally by each observer from this corrected baseline;
    /// carries velocity so integration can resume between corrections.
    ClientPrediction { translation: Vec3, velocity: Vec3, euler: Vec3, angular_velocity: Vec3 },
}

impl NetworkRigidBody {
    /// The body's translation, whichever variant it is.
    pub open spec fn spec_translation(self) -> Vec3 {
        match self {
            NetworkRigidBody::ServerSimulation { translation, .. } => translation,
            NetworkRigidBody::ClientPrediction { translation, .. } => translation,
        }
    }

    /// The body's orientation as Euler angles, whichever variant it is.
    pub open spec fn spec_euler(self) -> Vec3 {
        match self {
            NetworkRigidBody::ServerSimulation { euler, .. } => euler,
            NetworkRigidBody::ClientPrediction { euler, .. } => euler,
        }
    }

    /// Every vector the body carries stays inside the fixed-point range.
    pub open spec fn in_range(self) -> bool {
        match self {
            NetworkRigidBody::ServerSimulation { translation, euler } => {
                translation.in_range() && euler.in_range()
            },
            NetworkRigidBody::ClientPrediction {
                translation,
                velocity,
                euler,
                angular_velocity,
            } => {
                &&& translation.in_range()
                &&& velocity.in_range()
                &&& euler.in_range()
                &&& angular_velocity.in_range()
            },
        }
    }

    pub fn translation(&self) -> (t: Vec3)
        ensures
            t == self.spec_translation(),
    {
        match self {
            NetworkRigidBody::ServerSimulation { translation, .. } => *translation,
            NetworkRigidBody::ClientPrediction { translation, .. } => *translation,
        }
    }

    pub fn euler(&self) -> (e: Vec3)
        ensures
            e == self.spec_euler(),
    {
        match self {
            NetworkRigidBody::ServerSimulation { euler, .. } => *euler,
            NetworkRigidBody::ClientPrediction { euler, .. } => *euler,
        }
    }

    pub fn is_server_simulation(&self) -> (b: bool)
        ensures
            b == (self is ServerSimulation),
    {
        match self {
            NetworkRigidBody::ServerSimulation { .. } => true,
            NetworkRigidBody::ClientPrediction { .. } => false,
        }
    }

    /// The velocities a predicted body carries as its integration seed.
    /// Authoritative-only bodies have none; handing one here is a protocol
    /// violation, rejected before the call.
    pub fn prediction_velocities(&self) -> (v: (Vec3, Vec3))
        requires
            self is ClientPrediction,
        ensures
            v.0 == self->ClientPrediction_velocity,
            v.1 == self->ClientPrediction_angular_velocity,
    {
        match self {
            NetworkRigidBody::ClientPrediction { velocity, angular_velocity, .. } => {
                (*velocity, *angular_velocity)
            },
            NetworkRigidBody::ServerSimulation { .. } => unreached(),
        }
    }

    /// Authority-side writer: once per simulation tick, overwrite this
    /// body's fields with what the physics integrator produced. The variant
    /// never switches: an authoritative body stays authoritative and keeps
    /// no velocities, a predicted body keeps carrying its velocities.
    pub fn set_from_physics(
        &mut self,
        translation: Vec3,
        euler: Vec3,
        velocity: Vec3,
        angular_velocity: Vec3,
    )
        ensures
            (*final(self) is ServerSimulation) == (*old(self) is ServerSimulation),
            *old(self) is ServerSimulation ==> *final(self) == (NetworkRigidBody::ServerSimulation {
                translation,
                euler,
            }),
            *old(self) is ClientPrediction ==> *final(self) == (NetworkRigidBody::ClientPrediction {
                translation,
                velocity,
                euler,
                angular_velocity,
            }),
    {
        match self {
            NetworkRigidBody::ServerSimulation { translation: t, euler: e } => {
                *t = translation;
                *e = euler;
            },
            NetworkRigidBody::ClientPrediction {
                translation: t,
                velocity: v,
                euler: e,
                angular_velocity: av,
            } => {
                *t = translation;
                *v = velocity;
                *e = euler;
                *av = angular_velocity;
            },
        }
    }
}

} // verus!
