//! Per-API markers and error catalogues.
pub mod advanced_commerce_api;
pub mod retention_messaging_api;
