//! Exact geometry for a ray tracer: integer vectors, points and rays, with a
//! gradient image rendered to PPM text.

pub mod coords;
pub mod vector;
pub mod point;
pub mod ray;
pub mod ppm;
pub mod gradient;
