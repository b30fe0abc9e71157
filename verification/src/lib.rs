//! Networked rigid-body synchronization core.
//!
//! An authoritative host simulates rigid bodies and periodically publishes
//! their state; observers smooth the sparse samples into continuous motion.
//! This crate holds the replicated state representation, the authority-aware
//! writer, the observer-side interpolation cache, the fire/force event
//! protocol, and the drop-threshold lifecycle rule.
//!
//! All positions, angles and times are fixed-point integers: a coordinate is
//! a count of thousandths of a world unit, a time a count of thousandths of a
//! second. The engine that integrates physics and renders works in floating
//! point and converts at the boundary; everything here is exact integer
//! arithmetic.

pub mod config;
pub mod game_client;
pub mod game_server;
pub mod network_rigidbody;
pub mod vec3;

use vstd::prelude::*;

verus! {

use crate::network_rigidbody::NetworkRigidBody;
use crate::vec3::TIME_LIMIT;
use crate::vec3::Vec3;
use crate::vec3::lemma_lerp1_bounded;
use crate::vec3::lemma_lerp1_full;
use crate::vec3::lemma_lerp1_monotone;
use crate::vec3::lemma_lerp1_zero;
use crate::vec3::lerp;
use crate::vec3::lerp1;

/// Binds a replicated entity to the session identifier of the connected
/// party that owns it. Created when the party connects, never mutated,
/// removed when it disconnects.
#[derive(Clone, Copy, PartialEq, Eq, Structural, Debug)]
pub struct NetworkId(pub u64);

impl NetworkId {
    /// The session identifier this tag carries.
    pub open spec fn spec_client_id(self) -> u64 {
        self.0
    }

    #[inline]
    pub fn new(client_id: u64) -> (r: Self)
        ensures
            r.spec_client_id() == client_id,
    {
        Self(client_id)
    }

    #[inline]
    pub fn client_id(&self) -> (r: u64)
        ensures
            r == self.spec_client_id(),
    {
        self.0
    }
}

/// Binds a spawned projectile to the session identifier of the party whose
/// fire command created it; force commands are routed only to projectiles
/// owned by the issuing party.
#[derive(Clone, Copy, PartialEq, Eq, Structural, Debug)]
pub struct NetworkFireBall(pub u64);

impl NetworkFireBall {
    /// The session identifier of the party that fired this projectile.
    pub open spec fn spec_caster(self) -> u64 {
        self.0
    }

    #[inline]
    pub fn new(caster: u64) -> (r: Self)
        ensures
            r.spec_caster() == caster,
    {
        Self(caster)
    }

    #[inline]
    pub fn caster(&self) -> (r: u64)
        ensures
            r == self.spec_caster(),
    {
        self.0
    }
}

/// Observer-to-authority command: spawn one projectile owned by the sender.
/// Carries no payload; the channel tags it with the sender's identity.
#[derive(Clone, Copy, PartialEq, Eq, Structural, Debug)]
pub struct NetworkFire;

/// Observer-to-authority command: apply the configured impulse to every
/// live projectile owned by the sender. Carries no payload.
#[derive(Clone, Copy, PartialEq, Eq, Structural, Debug)]
pub struct NetworkForce;

/// Observer-side smoothing state for one authoritative-only entity: the two
/// most recent received samples and the time since the newer one arrived.
///
/// A negative `elapsed_time` is the freshness sentinel: only one sample has
/// ever been received, and `second` equals `latest` so sampling degenerates
/// to the exact received value instead of extrapolating from a stale
/// default.
#[derive(Clone, Copy, PartialEq, Eq, Structural, Debug)]
pub struct Cache {
    /// The newest received sample.
    pub latest: NetworkRigidBody,
    /// What `latest` held before its most recent overwrite.
    pub second: NetworkRigidBody,
    /// Fixed-point seconds since `latest` was written; `-1` until a second
    /// sample has arrived.
    pub elapsed_time: i64,
}

/// The cache state created alongside the first observed sample.
pub open spec fn fresh_cache(initial: NetworkRigidBody) -> Cache {
    Cache { latest: initial, second: initial, elapsed_time: -1i64 }
}

/// The cache state after a newly received sample is shifted in: `latest`
/// moves to `second` (unless the cache was fresh, in which case the new
/// sample fills both slots) and the clock restarts.
pub open spec fn updated(c: Cache, sample: NetworkRigidBody) -> Cache {
    Cache {
        latest: sample,
        second: if c.elapsed_time < 0 {
            sample
        } else {
            c.latest
        },
        elapsed_time: 0i64,
    }
}

/// How far between `second` and `latest` a sample taken `elapsed` after the
/// last update lies, as a numerator over the denominator `period`. Clamped:
/// an entity whose updates arrive late holds at the last known sample.
pub open spec fn interp_progress(elapsed: int, period: int) -> int {
    if elapsed <= 0 {
        0
    } else if elapsed >= period {
        period
    } else {
        elapsed
    }
}

/// Orientation output of a sample: spherical interpolation is left to the
/// floating-point boundary, so the cache hands out the two Euler endpoints
/// and the exact interpolation parameter `num / den`.
#[derive(Clone, Copy, PartialEq, Eq, Structural, Debug)]
pub struct OrientationBlend {
    /// Euler angles of the older sample; the rotation at `num == 0`.
    pub from_euler: Vec3,
    /// Euler angles of the newer sample; the rotation at `num == den`.
    pub to_euler: Vec3,
    /// Numerator of the interpolation parameter, between `0` and `den`.
    pub num: i64,
    /// Denominator of the interpolation parameter: the network tick period.
    pub den: i64,
}

/// One smoothed transform produced by sampling the cache.
#[derive(Clone, Copy, PartialEq, Eq, Structural, Debug)]
pub struct SampledTransform {
    pub translation: Vec3,
    pub orientation: OrientationBlend,
}

/// Exactly what `Cache::sample` returns for cache state `c` and network
/// tick period `period`: the translation linearly interpolated from
/// `second` toward `latest`, and the orientation endpoints with the same
/// clamped progress.
pub open spec fn is_sample_of(p: SampledTransform, c: Cache, period: int) -> bool {
    let num = interp_progress(c.elapsed_time as int, period);
    let from = c.second.spec_translation();
    let to = c.latest.spec_translation();
    &&& p.translation.x == lerp1(from.x as int, to.x as int, num, period)
    &&& p.translation.y == lerp1(from.y as int, to.y as int, num, period)
    &&& p.translation.z == lerp1(from.z as int, to.z as int, num, period)
    &&& p.orientation.from_euler == c.second.spec_euler()
    &&& p.orientation.to_euler == c.latest.spec_euler()
    &&& p.orientation.num == num
    &&& p.orientation.den == period
}

impl Cache {
    /// No second sample has been received yet.
    pub open spec fn is_fresh(self) -> bool {
        self.elapsed_time < 0
    }

    /// Cache well-formedness: the clock is the sentinel or a bounded
    /// nonnegative time, a fresh cache brackets a single value, and both
    /// samples stay in the fixed-point range.
    pub open spec fn wf(self) -> bool {
        &&& self.elapsed_time == -1 || 0 <= self.elapsed_time <= TIME_LIMIT
        &&& self.is_fresh() ==> self.second == self.latest
        &&& self.latest.in_range()
        &&& self.second.in_range()
    }

    /// Create the cache for a newly observed entity from its first sample.
    /// The very first render shows the exact spawn pose.
    pub fn new(initial: NetworkRigidBody) -> (c: Cache)
        requires
            initial.in_range(),
        ensures
            c == fresh_cache(initial),
            c.wf(),
    {
        Cache { latest: initial, second: initial, elapsed_time: -1 }
    }

    /// A new network sample arrived: shift it in and restart the clock.
    /// Applied on every arrival, in arrival order; a late sample still
    /// shifts in, last write wins.
    pub fn update(&mut self, sample: NetworkRigidBody)
        requires
            old(self).wf(),
            sample.in_range(),
        ensures
            *final(self) == updated(*old(self), sample),
            final(self).wf(),
    {
        self.second = if self.elapsed_time < 0 {
            sample
        } else {
            self.latest
        };
        self.latest = sample;
        self.elapsed_time = 0;
    }

    /// A fixed simulation tick passed: advance the clock by the tick's
    /// delta, saturating at the bound. A cache that has never received a
    /// second sample keeps its freshness sentinel; only an update starts
    /// the clock.
    pub fn advance(&mut self, delta: i64)
        requires
            old(self).wf(),
            0 <= delta <= TIME_LIMIT,
        ensures
            final(self).latest == old(self).latest,
            final(self).second == old(self).second,
            old(self).is_fresh() ==> final(self).elapsed_time == old(self).elapsed_time,
            !old(self).is_fresh() ==> final(self).elapsed_time == (
                if old(self).elapsed_time + delta > TIME_LIMIT {
                    TIME_LIMIT as int
                } else {
                    old(self).elapsed_time + delta
                }
            ),
            final(self).wf(),
    {
        if self.elapsed_time >= 0 {
            if self.elapsed_time > TIME_LIMIT - delta {
                self.elapsed_time = TIME_LIMIT;
            } else {
                self.elapsed_time = self.elapsed_time + delta;
            }
        }
    }

    /// Smooth the two cached samples into one transform: translation
    /// linearly interpolated, orientation handed out as the two Euler
    /// endpoints with the same progress for spherical interpolation at the
    /// floating-point boundary.
    ///
    /// Only authoritative-only bodies go through this path; a predicted
    /// body in the cache is a protocol violation, rejected before the call.
    pub fn sample(&self, period: i64) -> (p: SampledTransform)
        requires
            self.wf(),
            self.latest is ServerSimulation,
            self.second is ServerSimulation,
            0 < period <= TIME_LIMIT,
        ensures
            is_sample_of(p, *self, period as int),
            p.translation.in_range(),
    {
        let num: i64 = if self.elapsed_time <= 0 {
            0
        } else if self.elapsed_time >= period {
            period
        } else {
            self.elapsed_time
        };
        let from = self.second.translation();
        let to = self.latest.translation();
        SampledTransform {
            translation: lerp(&from, &to, num, period),
            orientation: OrientationBlend {
                from_euler: self.second.euler(),
                to_euler: self.latest.euler(),
                num,
                den: period,
            },
        }
    }
}

/// Bracket law: the first update fills both slots with the new sample, and
/// every later update keeps in `second` exactly what `latest` held
/// immediately before — over any sequence of updates the cache always
/// holds the two most recent samples.
pub proof fn lemma_update_brackets(c: Cache, sample: NetworkRigidBody)
    ensures
        c.is_fresh() ==> updated(c, sample).second == sample,
        c.is_fresh() ==> updated(c, sample).second == updated(c, sample).latest,
        !c.is_fresh() ==> updated(c, sample).second == c.latest,
        !updated(c, sample).is_fresh(),
{
}

/// The cache state after a whole sequence of updates is shifted in, in
/// arrival order.
pub open spec fn apply_updates(c: Cache, samples: Seq<NetworkRigidBody>) -> Cache
    decreases samples.len(),
{
    if samples.len() == 0 {
        c
    } else {
        updated(apply_updates(c, samples.drop_last()), samples.last())
    }
}

/// Bracket law over every sequence of updates: starting from a fresh
/// cache, after one update both slots hold that sample, and after two or
/// more the cache holds exactly the two most recent samples.
pub proof fn lemma_bracket_over_sequence(c: Cache, samples: Seq<NetworkRigidBody>)
    requires
        c.is_fresh(),
        samples.len() >= 1,
    ensures
        apply_updates(c, samples).elapsed_time == 0,
        apply_updates(c, samples).latest == samples.last(),
        samples.len() == 1 ==> apply_updates(c, samples).second == samples[0],
        samples.len() >= 2 ==> apply_updates(c, samples).second == samples[samples.len() - 2],
    decreases samples.len(),
{
    if samples.len() == 1 {
        assert(samples.drop_last().len() == 0);
        assert(apply_updates(c, samples.drop_last()) == c);
        assert(samples.last() == samples[0]);
    } else {
        lemma_bracket_over_sequence(c, samples.drop_last());
        assert(samples.drop_last().last() == samples[samples.len() - 2]);
    }
}

/// Sampling with no elapsed time (or while fresh) returns exactly the
/// older sample: its translation, and an orientation blend that has made
/// no progress away from it.
pub proof fn lemma_sample_at_start(p: SampledTransform, c: Cache, period: int)
    requires
        is_sample_of(p, c, period),
        period > 0,
        c.elapsed_time <= 0,
    ensures
        p.translation == c.second.spec_translation(),
        p.orientation.num == 0,
{
    let from = c.second.spec_translation();
    let to = c.latest.spec_translation();
    lemma_lerp1_zero(from.x as int, to.x as int, period);
    lemma_lerp1_zero(from.y as int, to.y as int, period);
    lemma_lerp1_zero(from.z as int, to.z as int, period);
}

/// Sampling once a full network tick period has elapsed returns exactly
/// the newest sample: its translation, and an orientation blend that has
/// fully reached it.
pub proof fn lemma_sample_at_period(p: SampledTransform, c: Cache, period: int)
    requires
        is_sample_of(p, c, period),
        period > 0,
        c.elapsed_time >= period,
    ensures
        p.translation == c.latest.spec_translation(),
        p.orientation.num == p.orientation.den,
{
    let from = c.second.spec_translation();
    let to = c.latest.spec_translation();
    lemma_lerp1_full(from.x as int, to.x as int, period);
    lemma_lerp1_full(from.y as int, to.y as int, period);
    lemma_lerp1_full(from.z as int, to.z as int, period);
}

/// Dead-reckoning stays inside the bracket: every sampled translation
/// component lies between the two cached samples, whatever the elapsed
/// time — no overshoot.
pub proof fn lemma_sample_bounded(p: SampledTransform, c: Cache, period: int)
    requires
        is_sample_of(p, c, period),
        period > 0,
    ensures
        min_i(c.second.spec_translation().x as int, c.latest.spec_translation().x as int)
            <= p.translation.x
            <= max_i(c.second.spec_translation().x as int, c.latest.spec_translation().x as int),
        min_i(c.second.spec_translation().y as int, c.latest.spec_translation().y as int)
            <= p.translation.y
            <= max_i(c.second.spec_translation().y as int, c.latest.spec_translation().y as int),
        min_i(c.second.spec_translation().z as int, c.latest.spec_translation().z as int)
            <= p.translation.z
            <= max_i(c.second.spec_translation().z as int, c.latest.spec_translation().z as int),
        0 <= p.orientation.num <= p.orientation.den,
{
    let num = interp_progress(c.elapsed_time as int, period);
    let from = c.second.spec_translation();
    let to = c.latest.spec_translation();
    lemma_lerp1_bounded(from.x as int, to.x as int, num, period);
    lemma_lerp1_bounded(from.y as int, to.y as int, num, period);
    lemma_lerp1_bounded(from.z as int, to.z as int, num, period);
}

/// Sampling is monotonic in elapsed time: with the same two cached
/// samples, a later sample time never moves any translation component back
/// toward the older sample, and the orientation progress never decreases.
pub proof fn lemma_sample_monotone(
    p1: SampledTransform,
    p2: SampledTransform,
    c1: Cache,
    c2: Cache,
    period: int,
)
    requires
        is_sample_of(p1, c1, period),
        is_sample_of(p2, c2, period),
        c1.latest == c2.latest,
        c1.second == c2.second,
        c1.elapsed_time <= c2.elapsed_time,
        period > 0,
    ensures
        p1.orientation.num <= p2.orientation.num,
        c1.second.spec_translation().x <= c1.latest.spec_translation().x ==> p1.translation.x
            <= p2.translation.x,
        c1.second.spec_translation().x >= c1.latest.spec_translation().x ==> p1.translation.x
            >= p2.translation.x,
        c1.second.spec_translation().y <= c1.latest.spec_translation().y ==> p1.translation.y
            <= p2.translation.y,
        c1.second.spec_translation().y >= c1.latest.spec_translation().y ==> p1.translation.y
            >= p2.translation.y,
        c1.second.spec_translation().z <= c1.latest.spec_translation().z ==> p1.translation.z
            <= p2.translation.z,
        c1.second.spec_translation().z >= c1.latest.spec_translation().z ==> p1.translation.z
            >= p2.translation.z,
{
    let num1 = interp_progress(c1.elapsed_time as int, period);
    let num2 = interp_progress(c2.elapsed_time as int, period);
    let from = c1.second.spec_translation();
    let to = c1.latest.spec_translation();
    lemma_lerp1_monotone(from.x as int, to.x as int, num1, num2, period);
    lemma_lerp1_monotone(from.y as int, to.y as int, num1, num2, period);
    lemma_lerp1_monotone(from.z as int, to.z as int, num1, num2, period);
}

/// Sampling is idempotent: the sampled transform is a function of the
/// cache state and the period alone, so two samples with no intervening
/// update or time advance are identical.
pub proof fn lemma_sample_idempotent(
    p1: SampledTransform,
    p2: SampledTransform,
    c: Cache,
    period: int,
)
    requires
        is_sample_of(p1, c, period),
        is_sample_of(p2, c, period),
    ensures
        p1 == p2,
{
}

/// Smaller of two integers.
pub open spec fn min_i(a: int, b: int) -> int {
    if a <= b {
        a
    } else {
        b
    }
}

/// Larger of two integers.
pub open spec fn max_i(a: int, b: int) -> int {
    if a >= b {
        a
    } else {
        b
    }
}

} // verus!
