//! Verified core of a heightmap terrain renderer: mesh and texture data,
//! the swap-chain bookkeeping of the device context, and the frame state
//! machine that decides which GPU commands each frame submits.
//!
//! Numbers that the GPU reads as IEEE-754 floats are carried here as their
//! bit patterns (`u32` for single, `u64` for double precision).

pub mod gpu;
pub mod pipeline;
pub mod render_context;
pub mod utils;
