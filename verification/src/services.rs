//! Services the scheduler hands work to.

pub mod video_processor;
