//! Verified core of a waveshaping distortion effect: the discrete shape
//! selection and the block layout of the real-time processing loop. The
//! floating-point signal path itself sits outside this crate's scope and is
//! driven by the items here.

pub mod blocks;
pub mod shape;
