//! Synthetic airborne LIDAR point clouds: capability lookup, terrain, point
//! synthesis and the binary record encoding of the container format.

pub mod config;
pub mod encoder;
pub mod error;
pub mod format;
pub mod generate;
pub mod random;
pub mod synth;
pub mod terrain;
