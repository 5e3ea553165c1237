use idle_game::emitter::{Emitter, EMISSION_PERIOD};
use idle_game::material::TileType;

#[test]
fn emits_only_on_every_tenth_tick() {
    let mut e = Emitter::new(EMISSION_PERIOD);
    let mut fired = Vec::new();
    for _ in 0..35 {
        let out = e.tick(1, 1);
        if !out.is_empty() {
            fired.push(e.counter());
        }
    }
    assert_eq!(fired, vec![10, 20, 30]);
    assert_eq!(e.counter(), 35);
}

#[test]
fn one_stone_particle_per_camera() {
    let mut e = Emitter::new(10);
    for _ in 0..9 {
        assert!(e.tick(1, 3).is_empty());
    }
    let out = e.tick(1, 3);
    assert_eq!(out.len(), 3);
    assert!(out.iter().all(|p| p.tile_type == TileType::Stone));
}

#[test]
fn missing_or_duplicated_cursor_skips_emission() {
    let mut e = Emitter::new(10);
    for _ in 0..9 {
        e.tick(0, 1);
    }
    assert!(e.tick(0, 1).is_empty());
    for _ in 0..9 {
        e.tick(2, 1);
    }
    assert!(e.tick(2, 1).is_empty());
    assert_eq!(e.counter(), 20);
    assert_eq!(e.period(), 10);
}

#[test]
fn no_cameras_no_particles() {
    let mut e = Emitter::new(1);
    assert!(e.tick(1, 0).is_empty());
    assert_eq!(e.tick(1, 2).len(), 2);
}
