pub mod hello;
pub mod ext;
pub mod bot;
pub mod nasa;
pub mod mods;
