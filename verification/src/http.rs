//! HTTP requests and responses as plain data.

pub mod client;
pub mod headers;
pub mod request;
pub mod response;
