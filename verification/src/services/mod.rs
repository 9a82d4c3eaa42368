pub mod apod;
pub mod discord;
