pub mod hittable;
pub mod sphere;

pub use hittable::Hittable;
pub use sphere::Sphere;
