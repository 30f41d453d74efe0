pub mod image;
pub mod integrator;
pub mod scene;
