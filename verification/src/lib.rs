//! Resource descriptions and frame plans for two small rendering programs:
//! a textured cube and a coloured triangle.

pub mod cube;
pub mod mesh;
pub mod scalar;
pub mod setup;
pub mod shader;
pub mod texture;
pub mod triangle;
pub mod window;
