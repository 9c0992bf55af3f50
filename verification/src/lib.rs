//! StreamDrop: the verified core of a private video streaming service —
//! upload validation, the video and job lifecycles, and the processing
//! pipeline that turns an uploaded source into published HLS renditions.
pub mod config;
pub mod db;
pub mod dto;
pub mod errors;
pub mod laws;
pub mod models;
pub mod service;
pub mod text;
pub mod utils;
pub mod worker;
