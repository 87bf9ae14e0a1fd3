pub mod arithmetic;
pub mod canvas;
pub mod hit;
pub mod hit_record;
pub mod point;
pub mod ray;
pub mod rgb_color;
pub mod scalar;
pub mod square_matrix;
pub mod vector;
pub mod world;

pub use canvas::Canvas;
pub use hit::Hit;
pub use hit_record::HitRecord;
pub use point::Point;
pub use ray::Ray;
pub use rgb_color::RgbColor;
pub use scalar::Scalar;
pub use square_matrix::SquareMatrix;
pub use vector::Vector;
pub use world::World;
