//! Human-friendly trim points for a video: clock time, plain seconds or a
//! percentage of the total length, parsed from text and ordered against a
//! known duration.

pub mod timestamp;
pub mod trim;
pub mod video_utils;
pub mod args;
pub mod error;
pub mod grammar;
pub mod laws;
