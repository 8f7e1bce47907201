//! How the errors of the parts become the application's error.

use crate::services::video_processor::error::{VideoError, VideoErrorView};
use crate::state::errors::StateError;
use crate::state::task_manager::errors::{TaskError, TaskErrorView};
use crate::utils::error::{AppError, AppErrorView, ErrorCode, IoErrorKind, IoFailure};
use crate::utils::text::{prefixed, wrapped};
use vstd::prelude::*;
use vstd::std_specs::convert::FromSpecImpl;
use vstd::string::*;

verus! {

/// What is said of a failure of this kind.
pub fn io_context(kind: IoErrorKind) -> (s: String)
    ensures
        s@ == kind.context(),
{
    match kind {
        IoErrorKind::NotFound => String::from_str("File or directory not found"),
        IoErrorKind::PermissionDenied => String::from_str("Permission denied when accessing file"),
        IoErrorKind::ConnectionRefused => String::from_str("Connection refused"),
        IoErrorKind::ConnectionReset => String::from_str("Connection reset"),
        IoErrorKind::ConnectionAborted => String::from_str("Connection aborted"),
        IoErrorKind::NotConnected => String::from_str("Not connected"),
        IoErrorKind::AddrInUse => String::from_str("Address already in use"),
        IoErrorKind::AddrNotAvailable => String::from_str("Address not available"),
        IoErrorKind::BrokenPipe => String::from_str("Broken pipe"),
        IoErrorKind::AlreadyExists => String::from_str("File already exists"),
        IoErrorKind::WouldBlock => String::from_str("Operation would block"),
        IoErrorKind::InvalidInput => String::from_str("Invalid input parameter"),
        IoErrorKind::InvalidData => String::from_str("Invalid data"),
        IoErrorKind::TimedOut => String::from_str("Operation timed out"),
        IoErrorKind::WriteZero => String::from_str("Write returned zero bytes"),
        IoErrorKind::Interrupted => String::from_str("Operation interrupted"),
        IoErrorKind::Unsupported => String::from_str("Operation not supported"),
        IoErrorKind::UnexpectedEof => String::from_str("Unexpected end of file"),
        IoErrorKind::OutOfMemory => String::from_str("Out of memory"),
        IoErrorKind::Other => String::from_str("I/O error occurred"),
    }
}

/// The application's error for a failure of input or output.
pub open spec fn from_io(failure: crate::utils::error::IoFailureView) -> AppErrorView {
    AppErrorView::IoError {
        source: failure,
        code: failure.kind.code(),
        context: Some(failure.kind.context()),
    }
}

impl From<IoFailure> for AppError {
    fn from(error: IoFailure) -> (e: AppError)
        ensures
            e@ == from_io(error@),
    {
        let code = match error.kind {
            IoErrorKind::NotFound => ErrorCode::FileNotFound,
            IoErrorKind::PermissionDenied => ErrorCode::PermissionDenied,
            _ => ErrorCode::FileReadError,
        };
        let context = Some(io_context(error.kind));
        AppError::IoError { source: error, code, context }
    }
}

/// The converted error holds strings of its own, so what `from` returns is
/// stated over views, by the contract of `from` itself.
impl FromSpecImpl<IoFailure> for AppError {
    open spec fn obeys_from_spec() -> bool {
        false
    }

    open spec fn from_spec(v: IoFailure) -> AppError {
        arbitrary()
    }
}

/// The application's error for a plain message: a failure of video
/// processing.
pub open spec fn from_text(message: Seq<char>) -> AppErrorView {
    AppErrorView::VideoProcessingError {
        message,
        code: ErrorCode::VideoProcessingFailed,
        context: Some("Error during video processing operation"@),
    }
}

impl From<String> for AppError {
    fn from(error: String) -> (e: AppError)
        ensures
            e@ == from_text(error@),
    {
        AppError::VideoProcessingError {
            message: error,
            code: ErrorCode::VideoProcessingFailed,
            context: Some(String::from_str("Error during video processing operation")),
        }
    }
}

/// What `from` returns is stated by the contract of `from` itself.
impl FromSpecImpl<String> for AppError {
    open spec fn obeys_from_spec() -> bool {
        false
    }

    open spec fn from_spec(v: String) -> AppError {
        arbitrary()
    }
}

impl<'a> From<&'a str> for AppError {
    fn from(error: &'a str) -> (e: AppError)
        ensures
            e@ == from_text(error@),
    {
        AppError::VideoProcessingError {
            message: String::from_str(error),
            code: ErrorCode::VideoProcessingFailed,
            context: Some(String::from_str("Error during video processing operation")),
        }
    }
}

/// What `from` returns is stated by the contract of `from` itself.
impl<'a> FromSpecImpl<&'a str> for AppError {
    open spec fn obeys_from_spec() -> bool {
        false
    }

    open spec fn from_spec(v: &'a str) -> AppError {
        arbitrary()
    }
}

impl From<StateError> for AppError {
    fn from(error: StateError) -> (e: AppError)
        ensures
            e@ == AppErrorView::DomainStateError(error@),
    {
        AppError::DomainStateError(error)
    }
}

/// What `from` returns is stated by the contract of `from` itself.
impl FromSpecImpl<StateError> for AppError {
    open spec fn obeys_from_spec() -> bool {
        false
    }

    open spec fn from_spec(v: StateError) -> AppError {
        arbitrary()
    }
}

/// The application's error for an error of the video processor.
pub open spec fn from_video(error: VideoErrorView) -> AppErrorView {
    match error {
        VideoErrorView::Io(failure) => AppErrorView::IoError {
            source: failure,
            code: ErrorCode::FileReadError,
            context: Some("Video file access error"@),
        },
        VideoErrorView::Ffmpeg(msg) => AppErrorView::FFmpegError {
            message: msg,
            code: ErrorCode::FFmpegInitError,
            context: Some("FFmpeg operation failed"@),
        },
        VideoErrorView::TaskNotFound(id) => AppErrorView::OtherError {
            message: "Task not found: "@ + id,
            code: ErrorCode::TaskNotFound,
            context: Some("Video processing task lookup failed"@),
        },
        VideoErrorView::NoVideoStream(path) => AppErrorView::VideoProcessingError {
            message: "No video stream found in \""@ + path + "\""@,
            code: ErrorCode::InvalidVideoFormat,
            context: Some("File does not contain a valid video stream: \""@ + path + "\""@),
        },
        VideoErrorView::Codec(msg) => AppErrorView::VideoProcessingError {
            message: msg,
            code: ErrorCode::CodecNotSupported,
            context: Some("Video codec not supported or not found"@),
        },
        VideoErrorView::Encoder(msg) => AppErrorView::VideoProcessingError {
            message: msg,
            code: ErrorCode::EncodingError,
            context: Some("Video encoding operation failed"@),
        },
        VideoErrorView::Decoder(msg) => AppErrorView::VideoProcessingError {
            message: msg,
            code: ErrorCode::DecodingError,
            context: Some("Video decoding operation failed"@),
        },
        VideoErrorView::InvalidParam(msg) => AppErrorView::ValidationError {
            message: msg,
            code: ErrorCode::InvalidArgument,
            context: Some("Invalid parameter for video processing"@),
        },
        VideoErrorView::ThreadPool(msg) => AppErrorView::VideoProcessingError {
            message: msg,
            code: ErrorCode::VideoProcessingFailed,
            context: Some("Thread pool error during video processing"@),
        },
        VideoErrorView::State(e) => AppErrorView::DomainStateError(e),
        VideoErrorView::Other(msg) => AppErrorView::OtherError {
            message: msg,
            code: ErrorCode::VideoProcessingFailed,
            context: Some("Unexpected error during video processing"@),
        },
    }
}

impl From<VideoError> for AppError {
    fn from(error: VideoError) -> (e: AppError)
        ensures
            e@ == from_video(error@),
    {
        match error {
            VideoError::Io(failure) => AppError::IoError {
                source: failure,
                code: ErrorCode::FileReadError,
                context: Some(String::from_str("Video file access error")),
            },
            VideoError::Ffmpeg(msg) => AppError::FFmpegError {
                message: msg,
                code: ErrorCode::FFmpegInitError,
                context: Some(String::from_str("FFmpeg operation failed")),
            },
            VideoError::TaskNotFound(id) => AppError::OtherError {
                message: prefixed("Task not found: ", id.as_str()),
                code: ErrorCode::TaskNotFound,
                context: Some(String::from_str("Video processing task lookup failed")),
            },
            VideoError::NoVideoStream(path) => AppError::VideoProcessingError {
                message: wrapped("No video stream found in \"", path.as_str(), "\""),
                code: ErrorCode::InvalidVideoFormat,
                context: Some(
                    wrapped(
                        "File does not contain a valid video stream: \"",
                        path.as_str(),
                        "\"",
                    ),
                ),
            },
            VideoError::Codec(msg) => AppError::VideoProcessingError {
                message: msg,
                code: ErrorCode::CodecNotSupported,
                context: Some(String::from_str("Video codec not supported or not found")),
            },
            VideoError::Encoder(msg) => AppError::VideoProcessingError {
                message: msg,
                code: ErrorCode::EncodingError,
                context: Some(String::from_str("Video encoding operation failed")),
            },
            VideoError::Decoder(msg) => AppError::VideoProcessingError {
                message: msg,
                code: ErrorCode::DecodingError,
                context: Some(String::from_str("Video decoding operation failed")),
            },
            VideoError::InvalidParam(msg) => AppError::ValidationError {
                message: msg,
                code: ErrorCode::InvalidArgument,
                context: Some(String::from_str("Invalid parameter for video processing")),
            },
            VideoError::ThreadPool(msg) => AppError::VideoProcessingError {
                message: msg,
                code: ErrorCode::VideoProcessingFailed,
                context: Some(String::from_str("Thread pool error during video processing")),
            },
            VideoError::State(e) => AppError::DomainStateError(e),
            VideoError::Other(msg) => AppError::OtherError {
                message: msg,
                code: ErrorCode::VideoProcessingFailed,
                context: Some(String::from_str("Unexpected error during video processing")),
            },
        }
    }
}

/// What `from` returns is stated by the contract of `from` itself.
impl FromSpecImpl<VideoError> for AppError {
    open spec fn obeys_from_spec() -> bool {
        false
    }

    open spec fn from_spec(v: VideoError) -> AppError {
        arbitrary()
    }
}

/// The application's error for an error of the task manager: the text, the
/// code and what more is said of it.
pub open spec fn from_task(error: TaskErrorView) -> AppErrorView {
    match error {
        TaskErrorView::TaskNotFound(id) => AppErrorView::OtherError {
            message: "Task "@ + id + " not found"@,
            code: ErrorCode::TaskNotFound,
            context: Some("Task not found in task manager"@),
        },
        TaskErrorView::InvalidStatus(msg) => AppErrorView::OtherError {
            message: "Invalid task status: "@ + msg,
            code: ErrorCode::InvalidArgument,
            context: Some("Cannot change task to the requested state"@),
        },
        TaskErrorView::ProcessingFailed(msg) => AppErrorView::OtherError {
            message: "Task processing failed: "@ + msg,
            code: ErrorCode::VideoProcessingFailed,
            context: Some("Error processing video"@),
        },
        TaskErrorView::UnsupportedTaskType(kind) => AppErrorView::OtherError {
            message: "Unsupported task type: "@ + kind,
            code: ErrorCode::InvalidArgument,
            context: Some("The specified task type is not supported"@),
        },
        TaskErrorView::StoreSaveError(msg) => AppErrorView::OtherError {
            message: "Failed to save task state: "@ + msg,
            code: ErrorCode::FileWriteError,
            context: Some("Error saving task state to store"@),
        },
        TaskErrorView::StoreLoadError(msg) => AppErrorView::OtherError {
            message: "Failed to load task state: "@ + msg,
            code: ErrorCode::FileReadError,
            context: Some("Error loading task state from store"@),
        },
        TaskErrorView::Canceled => AppErrorView::OtherError {
            message: "Task was canceled"@,
            code: ErrorCode::TaskCanceled,
            context: Some("The task was canceled by the user"@),
        },
        TaskErrorView::Other(msg) => AppErrorView::OtherError {
            message: msg,
            code: ErrorCode::UnknownError,
            context: Some("Unexpected error in task manager"@),
        },
    }
}

impl From<TaskError> for AppError {
    fn from(error: TaskError) -> (e: AppError)
        ensures
            e@ == from_task(error@),
    {
        match error {
            TaskError::TaskNotFound(id) => AppError::OtherError {
                message: wrapped("Task ", id.as_str(), " not found"),
                code: ErrorCode::TaskNotFound,
                context: Some(String::from_str("Task not found in task manager")),
            },
            TaskError::InvalidStatus(msg) => AppError::OtherError {
                message: prefixed("Invalid task status: ", msg.as_str()),
                code: ErrorCode::InvalidArgument,
                context: Some(String::from_str("Cannot change task to the requested state")),
            },
            TaskError::ProcessingFailed(msg) => AppError::OtherError {
                message: prefixed("Task processing failed: ", msg.as_str()),
                code: ErrorCode::VideoProcessingFailed,
                context: Some(String::from_str("Error processing video")),
            },
            TaskError::UnsupportedTaskType(kind) => AppError::OtherError {
                message: prefixed("Unsupported task type: ", kind.as_str()),
                code: ErrorCode::InvalidArgument,
                context: Some(String::from_str("The specified task type is not supported")),
            },
            TaskError::StoreSaveError(msg) => AppError::OtherError {
                message: prefixed("Failed to save task state: ", msg.as_str()),
                code: ErrorCode::FileWriteError,
                context: Some(String::from_str("Error saving task state to store")),
            },
            TaskError::StoreLoadError(msg) => AppError::OtherError {
                message: prefixed("Failed to load task state: ", msg.as_str()),
                code: ErrorCode::FileReadError,
                context: Some(String::from_str("Error loading task state from store")),
            },
            TaskError::Canceled => AppError::OtherError {
                message: String::from_str("Task was canceled"),
                code: ErrorCode::TaskCanceled,
                context: Some(String::from_str("The task was canceled by the user")),
            },
            TaskError::Other(msg) => AppError::OtherError {
                message: msg,
                code: ErrorCode::UnknownError,
                context: Some(String::from_str("Unexpected error in task manager")),
            },
        }
    }
}

/// What `from` returns is stated by the contract of `from` itself.
impl FromSpecImpl<TaskError> for AppError {
    open spec fn obeys_from_spec() -> bool {
        false
    }

    open spec fn from_spec(v: TaskError) -> AppError {
        arbitrary()
    }
}

} // verus!
