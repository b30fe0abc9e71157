//! Interpolation-cache behaviour: bracket maintenance, exact endpoints,
//! monotone dead-reckoning, idempotent sampling.

use netphys::Cache;
use netphys::network_rigidbody::NetworkRigidBody;
use netphys::vec3::Vec3;

const PERIOD: i64 = 100;

fn server_sample(translation: Vec3, euler: Vec3) -> NetworkRigidBody {
    NetworkRigidBody::ServerSimulation { translation, euler }
}

fn spawn_pose() -> NetworkRigidBody {
    server_sample(Vec3::new(0, 25_000, 0), Vec3::new(0, 0, 0))
}

fn second_pose() -> NetworkRigidBody {
    server_sample(Vec3::new(0, 24_000, 0), Vec3::new(0, 0, 0))
}

#[test]
fn fresh_cache_brackets_one_sample() {
    let c = Cache::new(spawn_pose());
    assert_eq!(c.latest, spawn_pose());
    assert_eq!(c.second, spawn_pose());
    assert_eq!(c.elapsed_time, -1);
}

#[test]
fn first_update_sets_both_slots() {
    let mut c = Cache::new(spawn_pose());
    c.update(second_pose());
    assert_eq!(c.second, c.latest);
    assert_eq!(c.latest, second_pose());
    assert_eq!(c.elapsed_time, 0);
}

#[test]
fn second_update_keeps_previous_latest() {
    let mut c = Cache::new(spawn_pose());
    c.update(spawn_pose());
    let before_second_update = c.latest;
    c.update(second_pose());
    assert_eq!(c.second, before_second_update);
    assert_eq!(c.latest, second_pose());
    assert_eq!(c.elapsed_time, 0);
}

#[test]
fn many_updates_keep_the_bracket() {
    let mut c = Cache::new(spawn_pose());
    for k in 0..10i64 {
        let sample = server_sample(Vec3::new(k, 25_000 - k * 1_000, 0), Vec3::new(0, 0, 0));
        let latest_before = c.latest;
        let was_fresh = c.elapsed_time < 0;
        c.update(sample);
        if was_fresh {
            assert_eq!(c.second, sample);
        } else {
            assert_eq!(c.second, latest_before);
        }
        assert_eq!(c.latest, sample);
        assert_eq!(c.elapsed_time, 0);
        c.advance(37);
    }
}

#[test]
fn spawn_sample_is_exact() {
    // Entity spawns at (0, 25, 0); the first sample shows exactly that pose.
    let c = Cache::new(spawn_pose());
    let p = c.sample(PERIOD);
    assert_eq!(p.translation, Vec3::new(0, 25_000, 0));
    assert_eq!(p.orientation.num, 0);
}

#[test]
fn sample_after_full_period_is_latest() {
    // A second update to (0, 24, 0) arrives; a full network tick period
    // later, sampling returns exactly (0, 24, 0).
    let mut c = Cache::new(spawn_pose());
    c.update(spawn_pose());
    c.update(second_pose());
    c.advance(PERIOD);
    let p = c.sample(PERIOD);
    assert_eq!(p.translation, Vec3::new(0, 24_000, 0));
    assert_eq!(p.orientation.num, p.orientation.den);
}

#[test]
fn sample_at_half_period_is_midpoint() {
    // Halfway between (0, 25, 0) and (0, 24, 0) lies (0, 24.5, 0).
    let mut c = Cache::new(spawn_pose());
    c.update(spawn_pose());
    c.update(second_pose());
    c.advance(PERIOD / 2);
    let p = c.sample(PERIOD);
    assert_eq!(p.translation, Vec3::new(0, 24_500, 0));
    assert_eq!(p.orientation.num, PERIOD / 2);
    assert_eq!(p.orientation.den, PERIOD);
}

#[test]
fn sample_at_zero_elapsed_is_previous() {
    let mut c = Cache::new(spawn_pose());
    c.update(spawn_pose());
    c.update(second_pose());
    let p = c.sample(PERIOD);
    assert_eq!(p.translation, Vec3::new(0, 25_000, 0));
    assert_eq!(p.orientation.num, 0);
    assert_eq!(p.orientation.from_euler, Vec3::new(0, 0, 0));
}

#[test]
fn sampling_is_monotone_and_never_overshoots() {
    let mut c = Cache::new(spawn_pose());
    c.update(spawn_pose());
    c.update(server_sample(Vec3::new(3_000, 24_000, -2_000), Vec3::new(0, 0, 0)));
    let mut last_x = i64::MIN;
    let mut last_y = i64::MAX;
    let mut last_z = i64::MAX;
    for _ in 0..20 {
        let p = c.sample(PERIOD);
        // x rises toward 3000, y falls toward 24000, z falls toward -2000.
        assert!(p.translation.x >= last_x);
        assert!(p.translation.y <= last_y);
        assert!(p.translation.z <= last_z);
        assert!((0..=3_000).contains(&p.translation.x));
        assert!((24_000..=25_000).contains(&p.translation.y));
        assert!((-2_000..=0).contains(&p.translation.z));
        last_x = p.translation.x;
        last_y = p.translation.y;
        last_z = p.translation.z;
        c.advance(9);
    }
}

#[test]
fn late_samples_hold_at_latest() {
    // Updates that stop arriving leave the entity at the last known
    // sample: progress clamps at the full period and stays there.
    let mut c = Cache::new(spawn_pose());
    c.update(spawn_pose());
    c.update(second_pose());
    c.advance(PERIOD * 7);
    let p = c.sample(PERIOD);
    assert_eq!(p.translation, Vec3::new(0, 24_000, 0));
    assert_eq!(p.orientation.num, PERIOD);
}

#[test]
fn sampling_twice_is_identical() {
    // No intervening update or time advance: both samples agree exactly.
    let mut c = Cache::new(spawn_pose());
    c.update(spawn_pose());
    c.update(second_pose());
    c.advance(33);
    let p1 = c.sample(PERIOD);
    let p2 = c.sample(PERIOD);
    assert_eq!(p1, p2);
}

#[test]
fn advance_keeps_freshness_sentinel() {
    let mut c = Cache::new(spawn_pose());
    c.advance(50);
    assert_eq!(c.elapsed_time, -1);
    let p = c.sample(PERIOD);
    assert_eq!(p.translation, Vec3::new(0, 25_000, 0));
}

#[test]
fn advance_saturates_at_the_time_bound() {
    let mut c = Cache::new(spawn_pose());
    c.update(spawn_pose());
    c.advance(netphys::vec3::TIME_LIMIT);
    c.advance(netphys::vec3::TIME_LIMIT);
    assert_eq!(c.elapsed_time, netphys::vec3::TIME_LIMIT);
}

#[test]
fn equal_endpoints_interpolate_to_themselves() {
    let mut c = Cache::new(spawn_pose());
    c.update(spawn_pose());
    c.update(spawn_pose());
    c.advance(PERIOD / 4);
    let p = c.sample(PERIOD);
    assert_eq!(p.translation, Vec3::new(0, 25_000, 0));
}

#[test]
fn orientation_blend_carries_both_euler_endpoints() {
    let mut c = Cache::new(server_sample(Vec3::new(0, 0, 0), Vec3::new(100, 200, 300)));
    c.update(server_sample(Vec3::new(0, 0, 0), Vec3::new(100, 200, 300)));
    c.update(server_sample(Vec3::new(0, 0, 0), Vec3::new(400, 500, 600)));
    c.advance(40);
    let p = c.sample(PERIOD);
    assert_eq!(p.orientation.from_euler, Vec3::new(100, 200, 300));
    assert_eq!(p.orientation.to_euler, Vec3::new(400, 500, 600));
    assert_eq!(p.orientation.num, 40);
    assert_eq!(p.orientation.den, PERIOD);
}
