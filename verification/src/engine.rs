//! Rays, what they hit and how they scatter.
pub mod hittables;
pub mod integrator;
pub mod materials;
pub mod ray;
