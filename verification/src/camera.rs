pub mod camera;
pub mod uniforms;
