//! A verified voxel-volume data pipeline.
//!
//! The library builds a dense, linearly addressed grid of packed RGB voxel
//! colors — procedurally (a banded sphere) or by importing a sparse
//! MagicaVoxel model — packs the grid into a little-endian byte buffer
//! ready for GPU upload, and rewrites shader-stage entry points for the
//! opaque-mesh pipeline variant used by the volume material.

pub mod grid;
pub mod material;
pub mod model;
pub mod pack;

pub use grid::create_sphere_voxels;
pub use grid::create_uniform_sphere_voxels;
pub use grid::VoxelGrid;
pub use material::VoxelVolumeMaterial;
pub use model::SparseVoxelModel;
pub use pack::voxels_to_data;
