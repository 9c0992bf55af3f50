//! The background worker: retry policy, probing, transcoding plans and the
//! processing pipeline.
pub mod pipeline;
pub mod probe;
pub mod retry;
pub mod transcode;
