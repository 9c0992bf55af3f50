//! What each write to the store does to a record, and how the schema is
//! applied.
pub mod jobs;
pub mod migrations;
pub mod videos;
