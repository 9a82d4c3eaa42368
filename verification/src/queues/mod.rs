pub mod apod;
