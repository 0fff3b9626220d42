//! Storage access layer for typed record collections held in a document
//! database: identifier handling, a small error taxonomy, and the decisions
//! taken around each round trip to the backend.

pub mod error;
pub mod model;
pub mod models;
pub mod object_id;
pub mod storage;
