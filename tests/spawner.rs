use code_rain::particle::{Kind, Particle};
use code_rain::spawner::{spawn, transition};

#[test]
fn idle_lane_starts_raining_when_draw_within_threshold() {
    assert_eq!(transition(Kind::Clearing, 30, 'k', 50, 900), Some(Kind::Raining('k')));
    assert_eq!(transition(Kind::Clearing, 50, 'k', 50, 900), Some(Kind::Raining('k')));
    assert_eq!(transition(Kind::Clearing, 51, 'k', 50, 900), None);
}

#[test]
fn raining_lane_starts_clearing_on_clear_threshold() {
    assert_eq!(transition(Kind::Raining('a'), 900, 'k', 50, 900), Some(Kind::Clearing));
    assert_eq!(transition(Kind::Raining('a'), 901, 'k', 50, 900), None);
    assert_eq!(transition(Kind::Raining('a'), 40, 'k', 50, 30), None);
}

#[test]
fn certain_rain_spawns_one_particle_per_lane() {
    let mut lanes = vec![Kind::Clearing, Kind::Clearing];
    let mut particles: Vec<Particle> = Vec::new();
    spawn(&mut lanes, &mut particles, &vec![1000, 0], &vec!['x', 'y'], 1000, 50);
    assert_eq!(
        particles,
        vec![
            Particle { column: 0, row: 0, kind: Kind::Raining('x') },
            Particle { column: 2, row: 0, kind: Kind::Raining('y') },
        ]
    );
    assert_eq!(lanes, vec![Kind::Raining('x'), Kind::Raining('y')]);
}

#[test]
fn spawn_appends_in_lane_order_after_existing_particles() {
    let old = Particle { column: 4, row: 3, kind: Kind::Clearing };
    let mut lanes = vec![Kind::Raining('q'), Kind::Clearing, Kind::Clearing, Kind::Raining('r')];
    let mut particles = vec![old];
    spawn(&mut lanes, &mut particles, &vec![10, 500, 5, 999], &vec!['a', 'b', 'c', 'd'], 20, 100);
    assert_eq!(
        particles,
        vec![
            old,
            Particle { column: 0, row: 0, kind: Kind::Clearing },
            Particle { column: 4, row: 0, kind: Kind::Raining('c') },
        ]
    );
    assert_eq!(lanes, vec![Kind::Clearing, Kind::Clearing, Kind::Raining('c'), Kind::Raining('r')]);
}

#[test]
fn lane_kind_follows_most_recent_spawn_over_frames() {
    let mut lanes = vec![Kind::Clearing];
    let mut particles: Vec<Particle> = Vec::new();
    spawn(&mut lanes, &mut particles, &vec![700], &vec!['a'], 100, 100);
    assert_eq!(lanes, vec![Kind::Clearing]);
    spawn(&mut lanes, &mut particles, &vec![100], &vec!['b'], 100, 100);
    assert_eq!(lanes, vec![Kind::Raining('b')]);
    spawn(&mut lanes, &mut particles, &vec![300], &vec!['c'], 100, 100);
    assert_eq!(lanes, vec![Kind::Raining('b')]);
    spawn(&mut lanes, &mut particles, &vec![0], &vec!['d'], 100, 100);
    assert_eq!(lanes, vec![Kind::Clearing]);
    assert_eq!(particles.len(), 2);
    assert_eq!(particles[1].kind, lanes[0]);
}

#[test]
fn zero_odds_spawn_nothing_on_nonzero_draws() {
    let mut lanes = vec![Kind::Clearing; 5];
    let mut particles: Vec<Particle> = Vec::new();
    for frame in 0..200u16 {
        let draws: Vec<u16> = (0..5u16).map(|l| 1 + (frame * 7 + l * 13) % 1000).collect();
        spawn(&mut lanes, &mut particles, &draws, &vec!['z'; 5], 0, 0);
        assert!(particles.is_empty());
    }
    assert_eq!(lanes, vec![Kind::Clearing; 5]);
}

#[test]
fn zero_threshold_still_commits_on_a_zero_draw() {
    assert_eq!(transition(Kind::Clearing, 0, 'z', 0, 0), Some(Kind::Raining('z')));
}

#[test]
fn spawn_on_no_lanes_does_nothing() {
    let mut lanes: Vec<Kind> = Vec::new();
    let mut particles: Vec<Particle> = Vec::new();
    spawn(&mut lanes, &mut particles, &Vec::new(), &Vec::new(), 1000, 1000);
    assert!(lanes.is_empty());
    assert!(particles.is_empty());
}
