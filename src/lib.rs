//! Chunked voxel terrain: storage and neighbour queries, face culling with
//! ambient occlusion, mesh construction and column-based terrain generation.
//!
//! All geometry is integral: vertex positions are voxel-corner coordinates,
//! texture coordinates are counted in tenths of the atlas and colours in
//! hundredths of full intensity.

pub mod util;
pub mod voxel;
pub mod chunk;
pub mod ao;
pub mod mesh;
pub mod global;
pub mod chunk_mesh;
pub mod world;
