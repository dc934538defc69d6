//! One-dimensional leapfrog field integration on a staggered grid, with a
//! half-block waveform renderer and the driver's tick logic.
//!
//! The library is generic over the sample type: the arithmetic of one sample
//! update is handed in as a function value, and the contracts speak of what
//! that function promises for each index.

pub mod driver;
pub mod engine;
pub mod field;
pub mod run;
pub mod parallel;
pub mod render;
pub mod sample;
