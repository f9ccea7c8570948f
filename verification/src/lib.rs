//! Dispatch layer for discrete Fourier transforms of a few fixed lengths.
//!
//! A fixed-length transform holds one backend, picked once when it is built,
//! and forwards every operation of the transform interface to it. The
//! arithmetic lives in the backends; this crate states and proves what the
//! layer around them decides: which candidate is kept, that forwarding meets
//! the backend's demands on buffer and scratch lengths, and how the
//! process-wide switch that turns the fixed-length paths off is read.

#![allow(unused_imports)]

pub mod direction;
pub mod sample;
pub mod transform;
pub mod checked;
pub mod candidate;
pub mod probe;
pub mod toggle;
pub mod fixed_256;
pub mod fixed_1000;
pub mod fixed_1536;
pub mod fixed_512;
pub mod laws;

pub use crate::direction::FftDirection;
pub use crate::fixed_1000::Fft1000;
pub use crate::fixed_1536::Fft1536;
pub use crate::fixed_256::Fft256;
pub use crate::fixed_512::Fft512;
pub use crate::toggle::special_fft_enabled;
pub use crate::transform::Fft;
