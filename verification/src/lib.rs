//! A retained-mode scene graph and rendering core.
//!
//! The crate keeps a hierarchy of transforms, the lights, the camera and the
//! meshes of a scene, builds the bind sets and pipeline state of each
//! material, and plans every frame as a list of commands. Scalars travel as
//! IEEE-754 bit patterns: the host program computes the matrices of a frame,
//! owns the window and the GPU, and replays the commands.

pub mod camera;
pub mod demo_scene_1;
pub mod demo_scene_2;
pub mod engine;
pub mod geometry;
pub mod input;
pub mod lights;
pub mod materials;
pub mod render_pass;
pub mod scalar;
pub mod scene;
pub mod settings;
pub mod texture;
pub mod transform;
