pub mod bind_group;
pub mod blinn_phong;
pub mod material;
pub mod material_pipeline;
pub mod pbr;
pub mod phong;
pub mod shader;
pub mod terrain;
pub mod uniform_buffer;
pub mod utils;
