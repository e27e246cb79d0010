//! Configuration, buffer encoding, and telemetry for a GPU-driven particle
//! simulation.
//!
//! Every scalar that the GPU consumes as a 32-bit float is held here as its
//! raw IEEE 754 bit pattern (`u32`), and every plotted 64-bit float as its
//! bit pattern (`u64`). The encoders produce the exact 32-bit slot contents
//! of the GPU buffers, so their contracts pin the wire layout bit for bit;
//! callers reinterpret the patterns as floats at the boundary.

pub mod bits;
pub mod bond;
pub mod config;
pub mod error;
pub mod material;
pub mod telemetry;
