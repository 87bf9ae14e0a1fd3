pub mod point_light;

pub use point_light::PointLight;
