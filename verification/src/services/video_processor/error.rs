//! Errors of the video processor.

use crate::state::errors::{StateError, StateErrorView};
use crate::utils::error::{IoFailure, IoFailureView};
use crate::utils::text::{prefixed, wrapped};
use vstd::prelude::*;
use vstd::string::*;

verus! {

/// Specialized errors for the video processor. A path is held as its text.
#[derive(Debug, PartialEq, Eq)]
pub enum VideoError {
    Io(IoFailure),
    Ffmpeg(String),
    TaskNotFound(String),
    NoVideoStream(String),
    Codec(String),
    Encoder(String),
    Decoder(String),
    InvalidParam(String),
    ThreadPool(String),
    State(StateError),
    Other(String),
}

/// Result with a `VideoError`.
pub type VideoResult<T> = Result<T, VideoError>;

/// A `VideoError` with its strings read as characters.
pub enum VideoErrorView {
    Io(IoFailureView),
    Ffmpeg(Seq<char>),
    TaskNotFound(Seq<char>),
    NoVideoStream(Seq<char>),
    Codec(Seq<char>),
    Encoder(Seq<char>),
    Decoder(Seq<char>),
    InvalidParam(Seq<char>),
    ThreadPool(Seq<char>),
    State(StateErrorView),
    Other(Seq<char>),
}

impl VideoErrorView {
    /// The text shown for the error.
    pub open spec fn message(self) -> Seq<char> {
        match self {
            VideoErrorView::Io(failure) => "I/O error: "@ + failure.message,
            VideoErrorView::Ffmpeg(msg) => "FFmpeg error: "@ + msg,
            VideoErrorView::TaskNotFound(id) => "Task "@ + id + " not found"@,
            VideoErrorView::NoVideoStream(path) => "Video stream not found in "@ + path,
            VideoErrorView::Codec(msg) => "Codec error: "@ + msg,
            VideoErrorView::Encoder(msg) => "Encoder error: "@ + msg,
            VideoErrorView::Decoder(msg) => "Decoder error: "@ + msg,
            VideoErrorView::InvalidParam(msg) => "Invalid parameter: "@ + msg,
            VideoErrorView::ThreadPool(msg) => "Thread pool error: "@ + msg,
            VideoErrorView::State(e) => "State error: "@ + e.message(),
            VideoErrorView::Other(msg) => msg,
        }
    }
}

impl View for VideoError {
    type V = VideoErrorView;

    open spec fn view(&self) -> VideoErrorView {
        match self {
            VideoError::Io(failure) => VideoErrorView::Io(failure@),
            VideoError::Ffmpeg(msg) => VideoErrorView::Ffmpeg(msg@),
            VideoError::TaskNotFound(id) => VideoErrorView::TaskNotFound(id@),
            VideoError::NoVideoStream(path) => VideoErrorView::NoVideoStream(path@),
            VideoError::Codec(msg) => VideoErrorView::Codec(msg@),
            VideoError::Encoder(msg) => VideoErrorView::Encoder(msg@),
            VideoError::Decoder(msg) => VideoErrorView::Decoder(msg@),
            VideoError::InvalidParam(msg) => VideoErrorView::InvalidParam(msg@),
            VideoError::ThreadPool(msg) => VideoErrorView::ThreadPool(msg@),
            VideoError::State(e) => VideoErrorView::State(e@),
            VideoError::Other(msg) => VideoErrorView::Other(msg@),
        }
    }
}

impl VideoError {
    pub fn ffmpeg(msg: String) -> (e: VideoError)
        ensures
            e@ == VideoErrorView::Ffmpeg(msg@),
    {
        VideoError::Ffmpeg(msg)
    }

    pub fn codec(msg: String) -> (e: VideoError)
        ensures
            e@ == VideoErrorView::Codec(msg@),
    {
        VideoError::Codec(msg)
    }

    pub fn encoder(msg: String) -> (e: VideoError)
        ensures
            e@ == VideoErrorView::Encoder(msg@),
    {
        VideoError::Encoder(msg)
    }

    pub fn decoder(msg: String) -> (e: VideoError)
        ensures
            e@ == VideoErrorView::Decoder(msg@),
    {
        VideoError::Decoder(msg)
    }

    pub fn invalid_param(msg: String) -> (e: VideoError)
        ensures
            e@ == VideoErrorView::InvalidParam(msg@),
    {
        VideoError::InvalidParam(msg)
    }

    pub fn task_not_found(id: String) -> (e: VideoError)
        ensures
            e@ == VideoErrorView::TaskNotFound(id@),
    {
        VideoError::TaskNotFound(id)
    }

    pub fn other(msg: String) -> (e: VideoError)
        ensures
            e@ == VideoErrorView::Other(msg@),
    {
        VideoError::Other(msg)
    }

    /// The text shown for the error.
    pub fn message(&self) -> (s: String)
        ensures
            s@ == self@.message(),
    {
        match self {
            VideoError::Io(failure) => prefixed("I/O error: ", failure.message.as_str()),
            VideoError::Ffmpeg(msg) => prefixed("FFmpeg error: ", msg.as_str()),
            VideoError::TaskNotFound(id) => wrapped("Task ", id.as_str(), " not found"),
            VideoError::NoVideoStream(path) => prefixed(
                "Video stream not found in ",
                path.as_str(),
            ),
            VideoError::Codec(msg) => prefixed("Codec error: ", msg.as_str()),
            VideoError::Encoder(msg) => prefixed("Encoder error: ", msg.as_str()),
            VideoError::Decoder(msg) => prefixed("Decoder error: ", msg.as_str()),
            VideoError::InvalidParam(msg) => prefixed("Invalid parameter: ", msg.as_str()),
            VideoError::ThreadPool(msg) => prefixed("Thread pool error: ", msg.as_str()),
            VideoError::State(e) => {
                let inner = e.message();
                prefixed("State error: ", inner.as_str())
            },
            VideoError::Other(msg) => msg.clone(),
        }
    }
}

} // verus!
