//! Assembly of a macOS-style application bundle around its icon pipeline.
//!
//! The crate classifies candidate icon bitmaps into the fixed slot taxonomy of
//! the multi-resolution icon container, applies the power-of-two downsampling
//! policy to bitmaps of unsupported sizes, accumulates the survivors into an
//! icon family with first-candidate-wins duplicate handling, serializes the
//! family through the icns crate, and computes the exact plan of directory,
//! metadata and copy steps that places everything in the bundle tree.  All
//! decisions are verified; file reading and writing is left to the caller,
//! which executes the plan.

pub mod assemble;
pub mod classify;
pub mod family;
pub mod names;
pub mod pipeline;
pub mod plist;
pub mod resample;
pub mod raster;
