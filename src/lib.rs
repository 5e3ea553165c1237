//! Discrete core of a voxel sandbox in which emitted particles turn into
//! solid voxels where they strike the world.

pub mod material;
pub mod voxel;
pub mod swarm;
pub mod emitter;
pub mod scene;
