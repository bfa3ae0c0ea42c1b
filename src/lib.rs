//! Coordination logic for downloading a batch of videos: the request list,
//! the per-video download unit, and the shared progress counter.

pub mod error;
pub mod request;
pub mod unit;
pub mod progress;
pub mod laws;
