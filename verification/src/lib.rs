//! A bounded-concurrency batch pipeline that turns a list of media files
//! into thumbnail artifacts by driving an external transcoding process.
//!
//! The library holds the decision logic of the pipeline: deriving artifact
//! locations, tracking progress, bounding concurrent generation with a gate,
//! stepping each item through its phases, and aggregating the per-item
//! outcomes. The surrounding process plumbing (filesystem checks, spawning
//! the transcoder, the async runtime) lives outside and reports its results
//! back as events.

pub mod counts;
pub mod gate;
pub mod generator;
pub mod pipeline;
pub mod paths;
pub mod progress;
