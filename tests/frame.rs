use code_rain::config::{Config, ConfigError, CLEAR_PROB, GLYPHS, RAIN_PROB};
use code_rain::frame::Simulation;
use code_rain::particle::{Kind, Particle, Tone};
use code_rain::random::{random_glyph, random_per_mille};

fn config(rain_prob: u16, clear_prob: u16) -> Config {
    Config { rain_prob, clear_prob, glyphs: vec!['a', 'b', 'c'] }
}

#[test]
fn standard_config_uses_default_odds_and_alphabet() {
    let c = Config::standard();
    assert_eq!(c.rain_prob, RAIN_PROB);
    assert_eq!(c.clear_prob, CLEAR_PROB);
    assert_eq!(c.rain_prob, 50);
    assert_eq!(c.glyphs.len(), 90);
    assert_eq!(c.glyphs, GLYPHS.chars().collect::<Vec<char>>());
    assert_eq!(c.glyphs[0], 'a');
    assert_eq!(c.glyphs[89], '?');
}

#[test]
fn empty_alphabet_is_refused() {
    let r = Simulation::new(10, 10, Config { rain_prob: 50, clear_prob: 50, glyphs: Vec::new() });
    assert_eq!(r.err(), Some(ConfigError::EmptyAlphabet));
}

#[test]
fn new_simulation_has_idle_lanes_and_no_particles() {
    let s = Simulation::new(7, 3, config(50, 50)).unwrap();
    assert_eq!(s.lanes, vec![Kind::Clearing; 3]);
    assert!(s.particles.is_empty());
    assert_eq!((s.width, s.height), (7, 3));
}

#[test]
fn certain_rain_on_four_columns_spawns_two_raining_particles() {
    let mut s = Simulation::new(4, 10, config(1000, 0)).unwrap();
    let writes = s.step_frame();
    assert_eq!(s.particles.len(), 2);
    assert_eq!(s.particles.iter().map(|p| p.column).collect::<Vec<_>>(), vec![0, 2]);
    assert!(s.particles.iter().all(|p| p.row == 1 && matches!(p.kind, Kind::Raining(_))));
    assert_eq!(writes.len(), 2);
    assert!(writes.iter().all(|w| w.row == 0 && w.tone == Tone::Head));
    assert_eq!(writes.iter().map(|w| w.column).collect::<Vec<_>>(), vec![0, 2]);
    assert!(s.lanes.iter().all(|k| matches!(k, Kind::Raining(_))));
    for (w, p) in writes.iter().zip(s.particles.iter()) {
        assert_eq!(Kind::Raining(w.glyph), p.kind);
    }
}

#[test]
fn step_frame_advances_a_given_particle() {
    let mut s = Simulation::new(4, 5, config(0, 0)).unwrap();
    s.particles.push(Particle { column: 2, row: 4, kind: Kind::Clearing });
    let writes = s.step_frame();
    assert!(writes.iter().any(|w| w.column == 2 && w.row == 4 && w.glyph == ' '));
    assert!(!s.particles.iter().any(|p| p.column == 2 && p.row == 5));
}

#[test]
fn writes_stay_on_screen_over_many_frames() {
    let mut s = Simulation::new(21, 6, Config { rain_prob: 400, clear_prob: 300, glyphs: vec!['x', 'y'] }).unwrap();
    for _ in 0..300 {
        let writes = s.step_frame();
        assert!(writes.iter().all(|w| w.row < 6 && w.column < 21 && w.column % 2 == 0));
        assert!(s.particles.iter().all(|p| p.row < 6 && p.row >= 1 && p.column < 20));
        assert_eq!(s.lanes.len(), 10);
        for w in writes.iter() {
            if w.tone == Tone::Unchanged {
                assert_eq!(w.glyph, ' ');
            } else {
                assert!(w.glyph == 'x' || w.glyph == 'y');
            }
        }
    }
}

#[test]
fn no_cell_is_painted_twice_by_one_particle() {
    let mut s = Simulation::new(2, 8, config(1000, 0)).unwrap();
    for _ in 0..8 {
        let writes = s.step_frame();
        assert!(writes.len() <= 16);
        let rows: Vec<u16> = s.particles.iter().map(|p| p.row).collect();
        let mut sorted = rows.clone();
        sorted.dedup();
        assert_eq!(sorted.len(), rows.len());
    }
}

#[test]
fn random_glyph_comes_from_the_alphabet() {
    assert_eq!(random_glyph(&vec!['#']), '#');
    let alphabet = vec!['p', 'q', 'r'];
    for _ in 0..100 {
        assert!(alphabet.contains(&random_glyph(&alphabet)));
    }
}

#[test]
fn per_mille_draws_cover_the_range() {
    let draws: Vec<u16> = (0..5000).map(|_| random_per_mille()).collect();
    assert!(draws.iter().all(|d| *d <= 1000));
    assert!(draws.iter().any(|d| *d < 500));
    assert!(draws.iter().any(|d| *d >= 500));
}
