//! Things a ray can hit.
pub mod hittable;
pub mod hittable_collection;
pub mod sphere;
