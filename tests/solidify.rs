use idle_game::material::{TileType, STONE};
use idle_game::swarm::{solidify, RayHit, Solidification, Swarm, TrackedParticle};
use idle_game::voxel::{Particle, VoxelCoord, VoxelWrite};

fn stone(id: u64) -> TrackedParticle {
    TrackedParticle { id, particle: Particle { tile_type: TileType::Stone } }
}

fn hit(x: i32, y: i32, z: i32, within_reach: bool) -> Option<RayHit> {
    Some(RayHit { cell: VoxelCoord::new(x, y, z), within_reach })
}

#[test]
fn voxel_goes_one_cell_above_the_hit() {
    assert_eq!(VoxelCoord::new(0, 3, 0).above(), VoxelCoord::new(0, 4, 0));
    assert_eq!(VoxelCoord::new(-5, -1, 7).above(), VoxelCoord::new(-5, 0, 7));
    assert_eq!(VoxelCoord::new(2, i32::MAX - 1, 2).above(), VoxelCoord::new(2, i32::MAX, 2));
}

#[test]
fn falling_particle_solidifies_on_the_floor_below() {
    // Particle at (0,5,0) with velocity (0,-15,0) over a tick of 0.1 s; the
    // ray query reports a hit at (0,3.4,0).
    let pos = [0.0f32, 5.0, 0.0];
    let vel = [0.0f32, -15.0, 0.0];
    let dt = 0.1f32;
    let next = [pos[0] + vel[0] * dt, pos[1] + vel[1] * dt, pos[2] + vel[2] * dt];
    let step = (next[1] - pos[1]).abs();
    let hit_pos = [0.0f32, 3.4, 0.0];
    let distance = (hit_pos[1] - pos[1]).abs();
    assert!((step - 1.5).abs() < 1e-5);
    assert!((distance - 1.6).abs() < 1e-5);
    let cell = VoxelCoord::new(
        hit_pos[0].floor() as i32,
        hit_pos[1].floor() as i32,
        hit_pos[2].floor() as i32,
    );
    let report = Some(RayHit { cell, within_reach: distance <= 3.0 * step });
    let r = solidify(&stone(7), report);
    assert_eq!(
        r,
        Some(Solidification {
            id: 7,
            write: VoxelWrite { coord: VoxelCoord::new(0, 4, 0), material: STONE },
        })
    );
}

#[test]
fn no_hit_leaves_particle_flying() {
    assert_eq!(solidify(&stone(1), None), None);
}

#[test]
fn guarded_hit_leaves_particle_flying() {
    assert_eq!(solidify(&stone(1), hit(0, 3, 0, false)), None);
}

#[test]
fn solidified_voxel_keeps_particle_material() {
    let p = TrackedParticle { id: 4, particle: Particle { tile_type: TileType::FullBrick } };
    let r = solidify(&p, hit(-3, -1, 2, true)).unwrap();
    assert_eq!(r.id, 4);
    assert_eq!(r.write.coord, VoxelCoord::new(-3, 0, 2));
    assert_eq!(r.write.material, 1);
}

#[test]
fn spawn_hands_out_increasing_ids() {
    let mut s = Swarm::new();
    assert_eq!(s.len(), 0);
    assert_eq!(s.spawn(Particle { tile_type: TileType::Stone }), Some(0));
    assert_eq!(s.spawn(Particle { tile_type: TileType::Grass }), Some(1));
    assert_eq!(s.len(), 2);
    assert_eq!(s.particles()[1].particle.tile_type, TileType::Grass);
}

#[test]
fn resolve_removes_struck_particles_and_keeps_order() {
    let mut s = Swarm::new();
    for _ in 0..4 {
        s.spawn(Particle { tile_type: TileType::Stone });
    }
    let hits = vec![None, hit(1, 2, 3, true), hit(0, 0, 0, false), hit(-1, -1, -1, true)];
    let r = s.resolve(&hits);
    assert_eq!(r.len(), 2);
    assert_eq!(r[0].id, 1);
    assert_eq!(r[0].write.coord, VoxelCoord::new(1, 3, 3));
    assert_eq!(r[1].id, 3);
    assert_eq!(r[1].write.coord, VoxelCoord::new(-1, 0, -1));
    let ids: Vec<u64> = s.particles().iter().map(|p| p.id).collect();
    assert_eq!(ids, vec![0, 2]);
}

#[test]
fn solidified_particle_never_returns() {
    let mut s = Swarm::new();
    s.spawn(Particle { tile_type: TileType::Stone });
    s.spawn(Particle { tile_type: TileType::Stone });
    let r = s.resolve(&vec![hit(0, 0, 0, true), None]);
    assert_eq!(r.len(), 1);
    assert_eq!(r[0].id, 0);
    // Later ticks: the solidified particle is gone, new ones get fresh ids.
    assert_eq!(s.spawn(Particle { tile_type: TileType::Stone }), Some(2));
    let r2 = s.resolve(&vec![hit(5, 5, 5, true), hit(6, 6, 6, true)]);
    let ids: Vec<u64> = r2.iter().map(|x| x.id).collect();
    assert_eq!(ids, vec![1, 2]);
    assert_eq!(s.len(), 0);
    let r3 = s.resolve(&vec![]);
    assert!(r3.is_empty());
}
