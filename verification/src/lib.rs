//! Verified core of a Moving Least Squares Material Point Method (MLS-MPM) simulator.
//!
//! The library holds the integer and bookkeeping logic of the simulator: the
//! layout of grid and particle buffers, the material registry, the node
//! indexing used by the transfer kernels, the boundary rule applied to grid
//! velocities and the plan of one simulation step.
use vstd::prelude::*;

pub mod boundary;
pub mod grid_buffer;
pub mod grid_index;
pub mod kernel;
pub mod layout;
pub mod material;
pub mod particle_buffer;
pub mod step;

pub use boundary::BoundaryType;
pub use grid_buffer::GridBuffer;
pub use material::{MaterialDescriptor, MaterialDict, MaterialError, MaterialId, MaterialName};
pub use particle_buffer::ParticleBuffer;

verus! {

} // verus!
