//! The kernel of a ray tracer: the algebra of vectors, points and
//! matrices, rays and the sphere they meet, and the choice of the visible
//! hit, all over a scalar that the user picks.

pub mod scalar;
pub mod traits;
pub mod fixed;
pub mod vector;
pub mod point;
pub mod matrix;
pub mod ray;
pub mod hit;
pub mod geometry;
pub mod sphere;
pub mod color;
pub mod lighting;
pub mod text;
pub mod canvas;
pub mod environment;
