pub mod apod;
pub mod trigger;
