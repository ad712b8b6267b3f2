pub mod debug;
pub mod directional_light;
pub mod light;
pub mod point_light;
