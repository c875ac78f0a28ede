use fireflies::config::Config;
use fireflies::fly::Fly;
use fireflies::swarm::Swarm;
use fireflies::units::ONE;
use fireflies::vector::Vector2;

fn resting(x: i64, y: i64, energy: i64) -> Fly {
    Fly {
        shape: 0,
        position: Vector2::new(x, y),
        velocity: Vector2::new(0, 0),
        energy,
        glowing: false,
    }
}

fn swarm_of(flies: Vec<Fly>) -> Swarm {
    Swarm::new(Config::default(), flies).unwrap()
}

fn tick(swarm: &mut Swarm) {
    assert!(swarm.can_step());
    swarm.step();
}

fn energies(swarm: &Swarm) -> Vec<i64> {
    swarm.agents().iter().map(|fly| fly.energy).collect()
}

fn glows(swarm: &Swarm) -> Vec<bool> {
    swarm.agents().iter().map(|fly| fly.glowing).collect()
}

#[test]
fn two_resting_neighbours_flash_together() {
    // 0.05 apart, well within the coupling radius of 0.09
    let mut swarm = swarm_of(vec![resting(0, 0, 95 * ONE), resting(50_000_000, 0, 95 * ONE)]);
    for _ in 0..5 {
        tick(&mut swarm);
    }
    // 95 + 5 * 1 = 100, which is not yet above the threshold
    assert_eq!(energies(&swarm), vec![100 * ONE, 100 * ONE]);
    assert_eq!(glows(&swarm), vec![false, false]);

    tick(&mut swarm);
    // The first lights up and lifts the second to 105 before its turn; the
    // second is clamped to 100 by its own tick, lights up too and lifts the
    // first, whose turn is over, to 105.
    assert_eq!(energies(&swarm), vec![105 * ONE, 100 * ONE]);
    assert_eq!(glows(&swarm), vec![true, true]);

    tick(&mut swarm);
    assert_eq!(energies(&swarm), vec![95 * ONE, 90 * ONE]);
    assert_eq!(glows(&swarm), vec![true, true]);
}

#[test]
fn a_flash_lifts_a_later_neighbour_before_its_turn() {
    let mut swarm = swarm_of(vec![resting(0, 0, 100 * ONE), resting(50_000_000, 0, 40 * ONE)]);
    tick(&mut swarm);
    // 40 + 5 from the flash, + 1 from its own tick
    assert_eq!(energies(&swarm), vec![100 * ONE, 46 * ONE]);
    assert_eq!(glows(&swarm), vec![true, false]);
}

#[test]
fn a_flash_lifts_an_earlier_neighbour_after_its_turn() {
    let mut swarm = swarm_of(vec![resting(50_000_000, 0, 40 * ONE), resting(0, 0, 100 * ONE)]);
    tick(&mut swarm);
    // 40 + 1 from its own tick, + 5 from the flash
    assert_eq!(energies(&swarm), vec![46 * ONE, 100 * ONE]);
    assert_eq!(glows(&swarm), vec![false, true]);
}

#[test]
fn a_flash_can_push_a_later_neighbour_over_the_threshold() {
    let mut swarm = swarm_of(vec![resting(0, 0, 100 * ONE), resting(0, 50_000_000, 96 * ONE)]);
    tick(&mut swarm);
    // the second reaches 96 + 5 + 1 = 102, is clamped and flashes back
    assert_eq!(energies(&swarm), vec![105 * ONE, 100 * ONE]);
    assert_eq!(glows(&swarm), vec![true, true]);
}

#[test]
fn a_flash_does_not_push_an_earlier_neighbour_over_the_threshold() {
    let mut swarm = swarm_of(vec![resting(0, 50_000_000, 96 * ONE), resting(0, 0, 100 * ONE)]);
    tick(&mut swarm);
    // 96 + 1 + 5 = 102 is left standing until the next tick of the first
    assert_eq!(energies(&swarm), vec![102 * ONE, 100 * ONE]);
    assert_eq!(glows(&swarm), vec![false, true]);
    tick(&mut swarm);
    assert_eq!(energies(&swarm), vec![100 * ONE, 95 * ONE]);
    assert_eq!(glows(&swarm), vec![true, true]);
}

#[test]
fn a_fly_at_the_coupling_radius_is_reached() {
    let mut swarm = swarm_of(vec![resting(0, 0, 100 * ONE), resting(90_000_000, 0, 0)]);
    tick(&mut swarm);
    assert_eq!(energies(&swarm), vec![100 * ONE, 6 * ONE]);
}

#[test]
fn a_fly_just_beyond_the_coupling_radius_is_not_reached() {
    let mut swarm = swarm_of(vec![resting(0, 0, 100 * ONE), resting(90_000_001, 0, 0)]);
    tick(&mut swarm);
    assert_eq!(energies(&swarm), vec![100 * ONE, ONE]);
}

#[test]
fn the_reach_is_a_circle() {
    // (0.07, 0.07) lies 0.0990 away: inside the square, outside the circle
    let mut swarm = swarm_of(vec![
        resting(0, 0, 100 * ONE),
        resting(70_000_000, 70_000_000, 0),
        resting(-54_000_000, 72_000_000, 0),
    ]);
    tick(&mut swarm);
    assert_eq!(energies(&swarm), vec![100 * ONE, ONE, 6 * ONE]);
}

#[test]
fn a_glowing_neighbour_is_lifted_too() {
    let mut lit = resting(10_000_000, 0, 50 * ONE);
    lit.glowing = true;
    let mut swarm = swarm_of(vec![resting(0, 0, 100 * ONE), lit]);
    tick(&mut swarm);
    // 50 + 5 from the flash, - 10 from its own tick
    assert_eq!(energies(&swarm), vec![100 * ONE, 45 * ONE]);
    assert_eq!(glows(&swarm), vec![true, true]);
}

#[test]
fn going_dark_lifts_nobody() {
    let mut fading = resting(0, 0, 0);
    fading.glowing = true;
    let mut swarm = swarm_of(vec![fading, resting(10_000_000, 0, 20 * ONE)]);
    tick(&mut swarm);
    assert_eq!(energies(&swarm), vec![0, 21 * ONE]);
    assert_eq!(glows(&swarm), vec![false, false]);
}

#[test]
fn every_flash_of_a_tick_counts() {
    let mut swarm = swarm_of(vec![
        resting(0, 0, 100 * ONE),
        resting(10_000_000, 0, 100 * ONE),
        resting(0, 10_000_000, 100 * ONE),
        resting(10_000_000, 10_000_000, 0),
    ]);
    tick(&mut swarm);
    // the last fly gets three boosts and its own charge
    assert_eq!(energies(&swarm), vec![110 * ONE, 105 * ONE, 100 * ONE, 16 * ONE]);
    assert_eq!(glows(&swarm), vec![true, true, true, false]);
}

#[test]
fn the_flash_starts_where_the_fly_has_moved_to() {
    let mut runner = resting(0, 0, 100 * ONE);
    runner.velocity = Vector2::new(100_000_000, 0);
    // 0.15 away from where the runner starts, 0.05 from where it flashes
    let mut swarm = swarm_of(vec![runner, resting(150_000_000, 0, 0)]);
    tick(&mut swarm);
    assert_eq!(swarm.agents()[0].position, Vector2::new(100_000_000, 0));
    assert_eq!(energies(&swarm), vec![100 * ONE, 6 * ONE]);
}

#[test]
fn an_earlier_neighbour_is_aimed_at_where_it_has_moved_to() {
    let mut walker = resting(150_000_000, 0, 0);
    walker.velocity = Vector2::new(-100_000_000, 0);
    let mut swarm = swarm_of(vec![walker, resting(0, 0, 100 * ONE)]);
    tick(&mut swarm);
    assert_eq!(swarm.agents()[0].position, Vector2::new(50_000_000, 0));
    assert_eq!(energies(&swarm), vec![6 * ONE, 100 * ONE]);
}

#[test]
fn a_later_neighbour_is_aimed_at_where_it_still_stands() {
    let mut walker = resting(150_000_000, 0, 0);
    walker.velocity = Vector2::new(-100_000_000, 0);
    let mut swarm = swarm_of(vec![resting(0, 0, 100 * ONE), walker]);
    tick(&mut swarm);
    assert_eq!(swarm.agents()[1].position, Vector2::new(50_000_000, 0));
    assert_eq!(energies(&swarm), vec![100 * ONE, ONE]);
}

#[test]
fn a_lone_fly_in_a_swarm_cycles() {
    let mut swarm = swarm_of(vec![resting(0, 0, 37 * ONE)]);
    let mut changes = 0;
    for _ in 0..1_000 {
        let before = swarm.agents()[0];
        tick(&mut swarm);
        let after = swarm.agents()[0];
        assert!(0 <= after.energy && after.energy <= 100 * ONE);
        if before.glowing != after.glowing {
            changes += 1;
        }
    }
    assert_eq!(changes, 18);
}

#[test]
fn distant_flies_never_hear_of_each_other() {
    let mut together = swarm_of(vec![
        resting(-500_000_000, 0, 90 * ONE),
        resting(500_000_000, 0, 13 * ONE),
    ]);
    let mut first = swarm_of(vec![resting(-500_000_000, 0, 90 * ONE)]);
    let mut second = swarm_of(vec![resting(500_000_000, 0, 13 * ONE)]);
    for _ in 0..400 {
        tick(&mut together);
        tick(&mut first);
        tick(&mut second);
        assert_eq!(together.agents()[0], first.agents()[0]);
        assert_eq!(together.agents()[1], second.agents()[0]);
    }
}

#[test]
fn a_swarm_keeps_its_length_settings_and_order() {
    let flies = vec![resting(1, 0, 0), resting(2, 0, 0), resting(3, 0, 0)];
    let mut swarm = swarm_of(flies);
    assert_eq!(swarm.len(), 3);
    tick(&mut swarm);
    assert_eq!(swarm.len(), 3);
    assert_eq!(*swarm.config(), Config::default());
    let places: Vec<i64> = swarm.agents().iter().map(|fly| fly.position.x).collect();
    assert_eq!(places, vec![1, 2, 3]);
}

#[test]
fn an_empty_swarm_steps() {
    let mut swarm = swarm_of(vec![]);
    tick(&mut swarm);
    assert_eq!(swarm.len(), 0);
}

#[test]
fn a_swarm_refuses_a_fly_that_cannot_reverse() {
    let mut odd = resting(0, 0, 0);
    odd.velocity = Vector2::new(0, i64::MIN);
    assert!(Swarm::new(Config::default(), vec![resting(0, 0, 0), odd]).is_none());
}

#[test]
fn a_swarm_refuses_settings_that_are_not_valid() {
    let mut config = Config::default();
    config.discharge_rate = -1;
    assert!(Swarm::new(config, vec![]).is_none());
}

#[test]
fn a_fly_without_room_for_the_boosts_stops_the_swarm() {
    let config = Config::default();
    let limit = i64::MAX - 2 * config.coupling_boost;
    let roomy = swarm_of(vec![resting(0, 0, limit), resting(500_000_000, 0, 0)]);
    assert!(roomy.can_step());
    let full = swarm_of(vec![resting(0, 0, limit + 1), resting(500_000_000, 0, 0)]);
    assert!(!full.can_step());
}

#[test]
fn a_boost_too_large_for_the_threshold_stops_the_swarm() {
    let mut config = Config::default();
    config.coupling_boost = i64::MAX / 2;
    let swarm = Swarm::new(config, vec![resting(0, 0, 0), resting(1, 0, 0)]).unwrap();
    assert!(!swarm.can_step());
    let alone = Swarm::new(config, vec![resting(0, 0, 0)]).unwrap();
    assert!(alone.can_step());
}
