//! Discrete core of an equidistant-fisheye rectification engine.
//!
//! A rectification pass maps every destination pixel back through a lens
//! model to a fractional source location and resamples the source image
//! bilinearly.  The ray mathematics that produces those fractional
//! locations is numeric (real-valued) and lives with the caller; this
//! crate owns everything that can be stated exactly over integers:
//!
//! * [`frame::Frame`], an RGBA image buffer with an explicit row stride,
//!   whose accessors prove that every read and write stays inside the
//!   buffer and touches exactly the addressed pixel;
//! * [`sampler`], the bilinear sampling footprint rule: a destination
//!   pixel is resampled only when all four neighbouring source pixels
//!   exist, and is otherwise forced to the transparent zero pixel, with
//!   no clamping and no wraparound;
//! * row-wise destination assembly, which proves that a full pass writes
//!   every destination pixel exactly once.

pub mod frame;
pub mod pixel;
pub mod sampler;
