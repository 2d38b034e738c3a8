//! How surfaces send a ray on.
pub mod dielectric;
pub mod lambertian;
pub mod material;
pub mod metal;
