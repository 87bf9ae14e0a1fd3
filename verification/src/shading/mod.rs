pub mod material;

pub use material::Material;
