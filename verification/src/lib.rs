//! The core of a small path tracer: closest-hit resolution over a scene,
//! the scattering rules of three materials and the depth-bounded walk of a
//! ray through the scene.
//!
//! Real numbers are carried as binary64 bit patterns ([`scalar::Scalar`]).
//! The library compares them, tests their sign and negates them; sums,
//! products, quotients and roots are formed by the caller.
pub mod engine;
pub mod scalar;
pub mod vectors;
