//! Durable single-slot storage for the lottery options: the JSON file format,
//! the cache slot, and the decisions taken around each save.

pub mod json;
pub mod options;
pub mod store;
