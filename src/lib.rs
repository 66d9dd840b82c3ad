pub mod fixed;
pub mod vector;
pub mod matrix;
pub mod scene;
pub mod intersect;
pub mod color;
pub mod render;
pub mod cofactor;
pub mod loader;
