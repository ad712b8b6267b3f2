pub mod event;
pub mod mouse;
