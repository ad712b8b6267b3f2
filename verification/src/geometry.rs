pub mod mesh;
pub mod primitive;
pub mod procedural;
pub mod vertex_data;
