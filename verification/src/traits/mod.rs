pub mod color;
pub mod events;
