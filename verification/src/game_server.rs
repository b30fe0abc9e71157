//! Authority-side protocol rules.
//!
//! On a fire command the authority spawns exactly one projectile owned by
//! the sender; on a force command it kicks every live projectile owned by
//! the sender and nobody else's; each tick it eliminates every body fallen
//! below the configured threshold. The engine around this module performs
//! the spawns, impulses and despawns; the rules here decide them.

use vstd::prelude::*;

verus! {

use crate::NetworkFireBall;
use crate::config::SpawnConfig;
use crate::network_rigidbody::NetworkRigidBody;
use crate::vec3::Vec3;

/// What the authority spawns for one received fire command: one projectile
/// tagged with the sender's identity, at the configured spawn pose, its
/// state variant fixed by the deployment's chosen authority model.
pub fn fire_spawn(sender: u64, config: &SpawnConfig) -> (r: (NetworkFireBall, NetworkRigidBody))
    requires
        config.wf(),
    ensures
        r.0.spec_caster() == sender,
        config.model is ServerSimulation ==> r.1 == (NetworkRigidBody::ServerSimulation {
            translation: config.translation,
            euler: config.euler,
        }),
        config.model is ClientPrediction ==> r.1 == (NetworkRigidBody::ClientPrediction {
            translation: config.translation,
            velocity: config.velocity,
            euler: config.euler,
            angular_velocity: config.angular_velocity,
        }),
        r.1.in_range(),
{
    let ball = NetworkFireBall::new(sender);
    let body = match config.model {
        crate::config::AuthorityModel::ServerSimulation => NetworkRigidBody::ServerSimulation {
            translation: config.translation,
            euler: config.euler,
        },
        crate::config::AuthorityModel::ClientPrediction => NetworkRigidBody::ClientPrediction {
            translation: config.translation,
            velocity: config.velocity,
            euler: config.euler,
            angular_velocity: config.angular_velocity,
        },
    };
    (ball, body)
}

/// The entities a force command from `sender` touches: of the live
/// projectiles `balls` (each an entity handle with its ownership tag), the
/// handles of exactly those the sender owns, in order.
pub open spec fn owned_targets(balls: Seq<(u64, NetworkFireBall)>, sender: u64) -> Seq<u64>
    decreases balls.len(),
{
    if balls.len() == 0 {
        Seq::empty()
    } else {
        let rest = owned_targets(balls.drop_last(), sender);
        if balls.last().1.spec_caster() == sender {
            rest.push(balls.last().0)
        } else {
            rest
        }
    }
}

/// Authority-side handling of one force command: select every live
/// projectile owned by the sender. The engine then applies the configured
/// impulse to each selected entity.
pub fn force_targets(balls: &Vec<(u64, NetworkFireBall)>, sender: u64) -> (targets: Vec<u64>)
    ensures
        targets@ == owned_targets(balls@, sender),
{
    let mut targets: Vec<u64> = Vec::new();
    let n = balls.len();
    let mut i: usize = 0;
    while i < n
        invariant
            n == balls@.len(),
            i <= n,
            targets@ == owned_targets(balls@.subrange(0, i as int), sender),
        decreases n - i,
    {
        proof {
            assert(balls@.subrange(0, (i + 1) as int).drop_last() =~= balls@.subrange(0, i as int));
            assert(balls@.subrange(0, (i + 1) as int).last() == balls@[i as int]);
        }
        let p = &balls[i];
        if p.1.caster() == sender {
            targets.push(p.0);
        }
        i += 1;
    }
    proof {
        assert(balls@.subrange(0, n as int) =~= balls@);
    }
    targets
}

/// A sender that owns no live projectile: true of a party whose fire
/// command has not yet been delivered, or that never fired.
pub open spec fn owns_none(balls: Seq<(u64, NetworkFireBall)>, sender: u64) -> bool {
    forall|i: int| 0 <= i < balls.len() ==> (#[trigger] balls[i]).1.spec_caster() != sender
}

/// A force command from a sender that owns no live projectile touches
/// nothing: delivery ahead of the matching fire command is a silent no-op,
/// never an error.
pub proof fn lemma_force_no_op(balls: Seq<(u64, NetworkFireBall)>, sender: u64)
    requires
        owns_none(balls, sender),
    ensures
        owned_targets(balls, sender) == Seq::<u64>::empty(),
    decreases balls.len(),
{
    if balls.len() == 0 {
        assert(owned_targets(balls, sender) =~= Seq::<u64>::empty());
    } else {
        assert(balls.last() == balls[balls.len() - 1]);
        lemma_force_no_op(balls.drop_last(), sender);
    }
}

/// Every entity a force command touches is a projectile of the sender:
/// nobody else's body is ever kicked.
pub proof fn lemma_force_only_owned(balls: Seq<(u64, NetworkFireBall)>, sender: u64, j: int)
    requires
        0 <= j < owned_targets(balls, sender).len(),
    ensures
        exists|i: int|
            0 <= i < balls.len() && (#[trigger] balls[i]).0 == owned_targets(balls, sender)[j]
                && balls[i].1.spec_caster() == sender,
    decreases balls.len(),
{
    let targets = owned_targets(balls, sender);
    let rest = owned_targets(balls.drop_last(), sender);
    if j < rest.len() {
        lemma_force_only_owned(balls.drop_last(), sender, j);
        let i = choose|i: int|
            0 <= i < balls.drop_last().len() && (#[trigger] balls.drop_last()[i]).0 == rest[j]
                && balls.drop_last()[i].1.spec_caster() == sender;
        assert(balls[i] == balls.drop_last()[i]);
    } else {
        assert(balls.last() == balls[balls.len() - 1]);
    }
}

/// The bodies the elimination sweep removes: of the live physics bodies
/// `entries` (each an entity handle with its authoritative translation),
/// the handles of exactly those fallen below `dropped_y`, in order.
pub open spec fn dropped_ids(entries: Seq<(u64, Vec3)>, dropped_y: int) -> Seq<u64>
    decreases entries.len(),
{
    if entries.len() == 0 {
        Seq::empty()
    } else {
        let rest = dropped_ids(entries.drop_last(), dropped_y);
        if entries.last().1.y < dropped_y {
            rest.push(entries.last().0)
        } else {
            rest
        }
    }
}

/// One tick of the lifecycle rule: select every body whose authoritative
/// vertical position has crossed the elimination threshold. The engine
/// then despawns each selected entity, which removes it from replication;
/// observers discard its interpolation cache with it.
pub fn despawn_dropped(entries: &Vec<(u64, Vec3)>, dropped_y: i64) -> (dropped: Vec<u64>)
    ensures
        dropped@ == dropped_ids(entries@, dropped_y as int),
{
    let mut dropped: Vec<u64> = Vec::new();
    let n = entries.len();
    let mut i: usize = 0;
    while i < n
        invariant
            n == entries@.len(),
            i <= n,
            dropped@ == dropped_ids(entries@.subrange(0, i as int), dropped_y as int),
        decreases n - i,
    {
        proof {
            assert(entries@.subrange(0, (i + 1) as int).drop_last() =~= entries@.subrange(
                0,
                i as int,
            ));
            assert(entries@.subrange(0, (i + 1) as int).last() == entries@[i as int]);
        }
        let p = &entries[i];
        if p.1.y < dropped_y {
            dropped.push(p.0);
        }
        i += 1;
    }
    proof {
        assert(entries@.subrange(0, n as int) =~= entries@);
    }
    dropped
}

/// Elimination is complete: every body below the threshold is selected on
/// the very tick it is scanned — by the next tick it no longer exists.
pub proof fn lemma_dropped_complete(entries: Seq<(u64, Vec3)>, dropped_y: int, i: int)
    requires
        0 <= i < entries.len(),
        entries[i].1.y < dropped_y,
    ensures
        dropped_ids(entries, dropped_y).contains(entries[i].0),
    decreases entries.len(),
{
    let ids = dropped_ids(entries, dropped_y);
    let rest = dropped_ids(entries.drop_last(), dropped_y);
    assert(entries.last() == entries[entries.len() - 1]);
    if i == entries.len() - 1 {
        assert(ids[ids.len() - 1] == entries[i].0);
    } else {
        assert(entries.drop_last()[i] == entries[i]);
        lemma_dropped_complete(entries.drop_last(), dropped_y, i);
        let j = choose|j: int| 0 <= j < rest.len() && rest[j] == entries[i].0;
        assert(ids.contains(entries[i].0)) by {
            if entries.last().1.y < dropped_y {
                assert(ids[j] == rest[j]);
            } else {
                assert(ids[j] == rest[j]);
            }
        }
    }
}

/// Elimination is sound: every selected body really was below the
/// threshold when it was scanned.
pub proof fn lemma_dropped_sound(entries: Seq<(u64, Vec3)>, dropped_y: int, j: int)
    requires
        0 <= j < dropped_ids(entries, dropped_y).len(),
    ensures
        exists|i: int|
            0 <= i < entries.len() && (#[trigger] entries[i]).0 == dropped_ids(entries, dropped_y)[j]
                && entries[i].1.y < dropped_y,
    decreases entries.len(),
{
    let ids = dropped_ids(entries, dropped_y);
    let rest = dropped_ids(entries.drop_last(), dropped_y);
    if j < rest.len() {
        lemma_dropped_sound(entries.drop_last(), dropped_y, j);
        let i = choose|i: int|
            0 <= i < entries.drop_last().len() && (#[trigger] entries.drop_last()[i]).0 == rest[j]
                && entries.drop_last()[i].1.y < dropped_y;
        assert(entries[i] == entries.drop_last()[i]);
    } else {
        assert(entries.last() == entries[entries.len() - 1]);
    }
}

} // verus!
