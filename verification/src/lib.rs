//! Verified core of the GGsBot Discord bot: the parsing, routing and
//! message-building rules that the Cloudflare worker and the gateway apply.

pub mod text;
pub mod traits;
pub mod discord;
pub mod gateway;
pub mod components;
pub mod error;
pub mod pages;
pub mod services;
pub mod structs;
pub mod triggers;
pub mod queues;
pub mod commands;
