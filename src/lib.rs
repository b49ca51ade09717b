//! A URL-shortening service: short URLs and API keys kept in two tables,
//! mutating routes guarded by an API-key header.

pub mod text;
pub mod error;
pub mod model;
pub mod store;
pub mod http;
pub mod handlers;
pub mod server;
pub mod laws;
pub mod config;
pub mod client;
