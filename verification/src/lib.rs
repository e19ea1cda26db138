//! Temporal cache for a coordinate-frame transform pair: a time-ordered
//! history of rigid transforms (translation + rotation) that answers "what
//! was the transform at time T?" by exact match, interpolation between the
//! two bracketing samples, or a typed extrapolation error.
//!
//! Stamps are exact integer pairs and every ordering and boundary decision
//! on them is verified. Translation and rotation components are carried as
//! the decimal renderings of IEEE-754 doubles, since the verifier has no
//! model of floating point: the blending itself is delegated to nalgebra
//! and approx behind trusted wrappers whose results the contracts name.

pub mod interpolation;
pub mod tf_buffer;
pub mod time_cache;
pub mod transform_storage;
