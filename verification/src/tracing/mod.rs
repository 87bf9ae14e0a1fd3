pub mod tracer;

pub use tracer::Tracer;
