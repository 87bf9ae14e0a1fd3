pub mod camera;

pub use camera::Camera;
