//! The core of a small todo service: the record model, the JSON wire
//! format, the `todos` table and the dispatch of requests to handlers.

pub mod http;
pub mod json;
pub mod models;
pub mod service;
pub mod store;
pub mod wire;
