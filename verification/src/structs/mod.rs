pub mod extension;
pub mod kv;
