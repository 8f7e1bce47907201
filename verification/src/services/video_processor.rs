//! What the backend shares with the video processing engine.

pub mod codec;
pub mod error;
pub mod options;

pub use codec::VideoCodec;
pub use error::{VideoError, VideoErrorView, VideoResult};
