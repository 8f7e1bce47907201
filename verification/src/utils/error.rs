//! The application's error type and what the frontend is told of an error.

use crate::state::errors::{StateError, StateErrorView};
use crate::utils::text::{clone_opt, opt_chars, prefixed};
use vstd::prelude::*;
use vstd::string::*;

verus! {

/// Error codes for categorizing errors.
#[derive(Debug, Clone, Copy, PartialEq, Eq, Structural)]
pub enum ErrorCode {
    FileNotFound,
    PermissionDenied,
    FileReadError,
    FileWriteError,
    DirectoryError,
    FFmpegInitError,
    CodecNotSupported,
    EncodingError,
    DecodingError,
    FormatError,
    StateAccessError,
    StateMutationError,
    StateSerializationError,
    TaskNotFound,
    FileNotFound3,
    TaskCanceled,
    PresetNotFound,
    PresetValidationError,
    PresetSaveError,
    VideoInfoError,
    VideoProcessingFailed,
    InvalidVideoFormat,
    GpuNotAvailable,
    GpuInitError,
    UnknownError,
    NotImplemented,
    InvalidArgument,
}

impl ErrorCode {
    /// The number of the code: 1000 and up for files, 2000 for FFmpeg, 3000
    /// for state, 4000 for presets, 5000 for video processing, 6000 for the
    /// GPU and 9000 for the rest.
    pub open spec fn spec_number(self) -> u32 {
        match self {
            ErrorCode::FileNotFound => 1000,
            ErrorCode::PermissionDenied => 1001,
            ErrorCode::FileReadError => 1002,
            ErrorCode::FileWriteError => 1003,
            ErrorCode::DirectoryError => 1004,
            ErrorCode::FFmpegInitError => 2000,
            ErrorCode::CodecNotSupported => 2001,
            ErrorCode::EncodingError => 2002,
            ErrorCode::DecodingError => 2003,
            ErrorCode::FormatError => 2004,
            ErrorCode::StateAccessError => 3000,
            ErrorCode::StateMutationError => 3001,
            ErrorCode::StateSerializationError => 3002,
            ErrorCode::TaskNotFound => 3003,
            ErrorCode::FileNotFound3 => 3004,
            ErrorCode::TaskCanceled => 3005,
            ErrorCode::PresetNotFound => 4000,
            ErrorCode::PresetValidationError => 4001,
            ErrorCode::PresetSaveError => 4002,
            ErrorCode::VideoInfoError => 5000,
            ErrorCode::VideoProcessingFailed => 5001,
            ErrorCode::InvalidVideoFormat => 5002,
            ErrorCode::GpuNotAvailable => 6000,
            ErrorCode::GpuInitError => 6001,
            ErrorCode::UnknownError => 9000,
            ErrorCode::NotImplemented => 9001,
            ErrorCode::InvalidArgument => 9002,
        }
    }

    /// The number of the code.
    #[verifier::when_used_as_spec(spec_number)]
    pub fn number(self) -> (n: u32)
        ensures
            n == self.spec_number(),
    {
        match self {
            ErrorCode::FileNotFound => 1000,
            ErrorCode::PermissionDenied => 1001,
            ErrorCode::FileReadError => 1002,
            ErrorCode::FileWriteError => 1003,
            ErrorCode::DirectoryError => 1004,
            ErrorCode::FFmpegInitError => 2000,
            ErrorCode::CodecNotSupported => 2001,
            ErrorCode::EncodingError => 2002,
            ErrorCode::DecodingError => 2003,
            ErrorCode::FormatError => 2004,
            ErrorCode::StateAccessError => 3000,
            ErrorCode::StateMutationError => 3001,
            ErrorCode::StateSerializationError => 3002,
            ErrorCode::TaskNotFound => 3003,
            ErrorCode::FileNotFound3 => 3004,
            ErrorCode::TaskCanceled => 3005,
            ErrorCode::PresetNotFound => 4000,
            ErrorCode::PresetValidationError => 4001,
            ErrorCode::PresetSaveError => 4002,
            ErrorCode::VideoInfoError => 5000,
            ErrorCode::VideoProcessingFailed => 5001,
            ErrorCode::InvalidVideoFormat => 5002,
            ErrorCode::GpuNotAvailable => 6000,
            ErrorCode::GpuInitError => 6001,
            ErrorCode::UnknownError => 9000,
            ErrorCode::NotImplemented => 9001,
            ErrorCode::InvalidArgument => 9002,
        }
    }
}

/// Structured error information for frontend consumption.
#[derive(Debug, PartialEq, Eq)]
pub struct ErrorInfo {
    pub code: ErrorCode,
    pub message: String,
    pub details: Option<String>,
}

/// An `ErrorInfo` with its strings read as characters.
pub struct ErrorInfoView {
    pub code: ErrorCode,
    pub message: Seq<char>,
    pub details: Option<Seq<char>>,
}

impl View for ErrorInfo {
    type V = ErrorInfoView;

    open spec fn view(&self) -> ErrorInfoView {
        ErrorInfoView { code: self.code, message: self.message@, details: opt_chars(self.details) }
    }
}

/// The kinds of input and output failure that the application tells apart.
#[derive(Debug, Clone, Copy, PartialEq, Eq, Structural)]
pub enum IoErrorKind {
    NotFound,
    PermissionDenied,
    ConnectionRefused,
    ConnectionReset,
    ConnectionAborted,
    NotConnected,
    AddrInUse,
    AddrNotAvailable,
    BrokenPipe,
    AlreadyExists,
    WouldBlock,
    InvalidInput,
    InvalidData,
    TimedOut,
    WriteZero,
    Interrupted,
    Unsupported,
    UnexpectedEof,
    OutOfMemory,
    Other,
}

impl IoErrorKind {
    /// The code under which a failure of this kind is reported.
    pub open spec fn code(self) -> ErrorCode {
        match self {
            IoErrorKind::NotFound => ErrorCode::FileNotFound,
            IoErrorKind::PermissionDenied => ErrorCode::PermissionDenied,
            _ => ErrorCode::FileReadError,
        }
    }

    /// What is said of a failure of this kind.
    pub open spec fn context(self) -> Seq<char> {
        match self {
            IoErrorKind::NotFound => "File or directory not found"@,
            IoErrorKind::PermissionDenied => "Permission denied when accessing file"@,
            IoErrorKind::ConnectionRefused => "Connection refused"@,
            IoErrorKind::ConnectionReset => "Connection reset"@,
            IoErrorKind::ConnectionAborted => "Connection aborted"@,
            IoErrorKind::NotConnected => "Not connected"@,
            IoErrorKind::AddrInUse => "Address already in use"@,
            IoErrorKind::AddrNotAvailable => "Address not available"@,
            IoErrorKind::BrokenPipe => "Broken pipe"@,
            IoErrorKind::AlreadyExists => "File already exists"@,
            IoErrorKind::WouldBlock => "Operation would block"@,
            IoErrorKind::InvalidInput => "Invalid input parameter"@,
            IoErrorKind::InvalidData => "Invalid data"@,
            IoErrorKind::TimedOut => "Operation timed out"@,
            IoErrorKind::WriteZero => "Write returned zero bytes"@,
            IoErrorKind::Interrupted => "Operation interrupted"@,
            IoErrorKind::Unsupported => "Operation not supported"@,
            IoErrorKind::UnexpectedEof => "Unexpected end of file"@,
            IoErrorKind::OutOfMemory => "Out of memory"@,
            IoErrorKind::Other => "I/O error occurred"@,
        }
    }
}

/// A failure of input or output: its kind and the text the system gave.
#[derive(Debug, PartialEq, Eq)]
pub struct IoFailure {
    pub kind: IoErrorKind,
    pub message: String,
}

/// An `IoFailure` with its text read as characters.
pub struct IoFailureView {
    pub kind: IoErrorKind,
    pub message: Seq<char>,
}

impl View for IoFailure {
    type V = IoFailureView;

    open spec fn view(&self) -> IoFailureView {
        IoFailureView { kind: self.kind, message: self.message@ }
    }
}

/// Main application error type.
#[derive(Debug, PartialEq, Eq)]
pub enum AppError {
    IoError { source: IoFailure, code: ErrorCode, context: Option<String> },
    FFmpegError { message: String, code: ErrorCode, context: Option<String> },
    StateError { message: String, code: ErrorCode, context: Option<String> },
    PresetError { message: String, code: ErrorCode, context: Option<String> },
    VideoProcessingError { message: String, code: ErrorCode, context: Option<String> },
    GpuError { message: String, code: ErrorCode, context: Option<String> },
    ValidationError { message: String, code: ErrorCode, context: Option<String> },
    OtherError { message: String, code: ErrorCode, context: Option<String> },
    DomainStateError(StateError),
}

/// Result with an `AppError`.
pub type AppResult<T> = Result<T, AppError>;

/// An `AppError` with its strings read as characters.
pub enum AppErrorView {
    IoError { source: IoFailureView, code: ErrorCode, context: Option<Seq<char>> },
    FFmpegError { message: Seq<char>, code: ErrorCode, context: Option<Seq<char>> },
    StateError { message: Seq<char>, code: ErrorCode, context: Option<Seq<char>> },
    PresetError { message: Seq<char>, code: ErrorCode, context: Option<Seq<char>> },
    VideoProcessingError { message: Seq<char>, code: ErrorCode, context: Option<Seq<char>> },
    GpuError { message: Seq<char>, code: ErrorCode, context: Option<Seq<char>> },
    ValidationError { message: Seq<char>, code: ErrorCode, context: Option<Seq<char>> },
    OtherError { message: Seq<char>, code: ErrorCode, context: Option<Seq<char>> },
    DomainStateError(StateErrorView),
}

impl AppErrorView {
    /// The code of the error. An error of state management counts as a
    /// failure to reach the state.
    pub open spec fn code(self) -> ErrorCode {
        match self {
            AppErrorView::IoError { code, .. } => code,
            AppErrorView::FFmpegError { code, .. } => code,
            AppErrorView::StateError { code, .. } => code,
            AppErrorView::PresetError { code, .. } => code,
            AppErrorView::VideoProcessingError { code, .. } => code,
            AppErrorView::GpuError { code, .. } => code,
            AppErrorView::ValidationError { code, .. } => code,
            AppErrorView::OtherError { code, .. } => code,
            AppErrorView::DomainStateError(_) => ErrorCode::StateAccessError,
        }
    }

    /// The text shown for the error.
    pub open spec fn message(self) -> Seq<char> {
        match self {
            AppErrorView::IoError { source, .. } => "IO Error: "@ + source.message,
            AppErrorView::FFmpegError { message, .. } => "FFmpeg Error: "@ + message,
            AppErrorView::StateError { message, .. } => "State Error: "@ + message,
            AppErrorView::PresetError { message, .. } => "Preset Error: "@ + message,
            AppErrorView::VideoProcessingError { message, .. } => "Video Processing Error: "@
                + message,
            AppErrorView::GpuError { message, .. } => "GPU Error: "@ + message,
            AppErrorView::ValidationError { message, .. } => "Validation Error: "@ + message,
            AppErrorView::OtherError { message, .. } => message,
            AppErrorView::DomainStateError(e) => "State error: "@ + e.message(),
        }
    }

    /// What more is known of the error.
    pub open spec fn details(self) -> Option<Seq<char>> {
        match self {
            AppErrorView::IoError { context, .. } => context,
            AppErrorView::FFmpegError { context, .. } => context,
            AppErrorView::StateError { context, .. } => context,
            AppErrorView::PresetError { context, .. } => context,
            AppErrorView::VideoProcessingError { context, .. } => context,
            AppErrorView::GpuError { context, .. } => context,
            AppErrorView::ValidationError { context, .. } => context,
            AppErrorView::OtherError { context, .. } => context,
            AppErrorView::DomainStateError(_) => None,
        }
    }

    /// What the frontend is told of the error.
    pub open spec fn to_error_info(self) -> ErrorInfoView {
        ErrorInfoView { code: self.code(), message: self.message(), details: self.details() }
    }
}

impl View for AppError {
    type V = AppErrorView;

    open spec fn view(&self) -> AppErrorView {
        match self {
            AppError::IoError { source, code, context } => AppErrorView::IoError {
                source: source@,
                code: *code,
                context: opt_chars(*context),
            },
            AppError::FFmpegError { message, code, context } => AppErrorView::FFmpegError {
                message: message@,
                code: *code,
                context: opt_chars(*context),
            },
            AppError::StateError { message, code, context } => AppErrorView::StateError {
                message: message@,
                code: *code,
                context: opt_chars(*context),
            },
            AppError::PresetError { message, code, context } => AppErrorView::PresetError {
                message: message@,
                code: *code,
                context: opt_chars(*context),
            },
            AppError::VideoProcessingError {
                message,
                code,
                context,
            } => AppErrorView::VideoProcessingError {
                message: message@,
                code: *code,
                context: opt_chars(*context),
            },
            AppError::GpuError { message, code, context } => AppErrorView::GpuError {
                message: message@,
                code: *code,
                context: opt_chars(*context),
            },
            AppError::ValidationError { message, code, context } => AppErrorView::ValidationError {
                message: message@,
                code: *code,
                context: opt_chars(*context),
            },
            AppError::OtherError { message, code, context } => AppErrorView::OtherError {
                message: message@,
                code: *code,
                context: opt_chars(*context),
            },
            AppError::DomainStateError(e) => AppErrorView::DomainStateError(e@),
        }
    }
}

impl AppError {
    /// Create a new IO error.
    pub fn io_error(source: IoFailure, code: ErrorCode, context: Option<String>) -> (e: AppError)
        ensures
            e@ == (AppErrorView::IoError { source: source@, code, context: opt_chars(context) }),
    {
        AppError::IoError { source, code, context }
    }

    /// Create a new FFmpeg error.
    pub fn ffmpeg_error(message: String, code: ErrorCode, context: Option<String>) -> (e: AppError)
        ensures
            e@ == (AppErrorView::FFmpegError {
                message: message@,
                code,
                context: opt_chars(context),
            }),
    {
        AppError::FFmpegError { message, code, context }
    }

    /// Create a new state error.
    pub fn state_error(message: String, code: ErrorCode, context: Option<String>) -> (e: AppError)
        ensures
            e@ == (AppErrorView::StateError {
                message: message@,
                code,
                context: opt_chars(context),
            }),
    {
        AppError::StateError { message, code, context }
    }

    /// Create a new preset error.
    pub fn preset_error(message: String, code: ErrorCode, context: Option<String>) -> (e: AppError)
        ensures
            e@ == (AppErrorView::PresetError {
                message: message@,
                code,
                context: opt_chars(context),
            }),
    {
        AppError::PresetError { message, code, context }
    }

    /// Create a new video processing error.
    pub fn video_error(message: String, code: ErrorCode, context: Option<String>) -> (e: AppError)
        ensures
            e@ == (AppErrorView::VideoProcessingError {
                message: message@,
                code,
                context: opt_chars(context),
            }),
    {
        AppError::VideoProcessingError { message, code, context }
    }

    /// Create a new GPU error.
    pub fn gpu_error(message: String, code: ErrorCode, context: Option<String>) -> (e: AppError)
        ensures
            e@ == (AppErrorView::GpuError { message: message@, code, context: opt_chars(context) }),
    {
        AppError::GpuError { message, code, context }
    }

    /// Create a new validation error.
    pub fn validation_error(message: String, code: ErrorCode, context: Option<String>) -> (e:
        AppError)
        ensures
            e@ == (AppErrorView::ValidationError {
                message: message@,
                code,
                context: opt_chars(context),
            }),
    {
        AppError::ValidationError { message, code, context }
    }

    /// Create a new generic error.
    pub fn other_error(message: String, code: ErrorCode, context: Option<String>) -> (e: AppError)
        ensures
            e@ == (AppErrorView::OtherError {
                message: message@,
                code,
                context: opt_chars(context),
            }),
    {
        AppError::OtherError { message, code, context }
    }

    /// Get the error code.
    pub fn code(&self) -> (code: ErrorCode)
        ensures
            code == self@.code(),
    {
        match self {
            AppError::IoError { code, .. } => *code,
            AppError::FFmpegError { code, .. } => *code,
            AppError::StateError { code, .. } => *code,
            AppError::PresetError { code, .. } => *code,
            AppError::VideoProcessingError { code, .. } => *code,
            AppError::GpuError { code, .. } => *code,
            AppError::ValidationError { code, .. } => *code,
            AppError::OtherError { code, .. } => *code,
            AppError::DomainStateError(_) => ErrorCode::StateAccessError,
        }
    }

    /// The text shown for the error.
    pub fn message(&self) -> (s: String)
        ensures
            s@ == self@.message(),
    {
        match self {
            AppError::IoError { source, .. } => prefixed("IO Error: ", source.message.as_str()),
            AppError::FFmpegError { message, .. } => prefixed("FFmpeg Error: ", message.as_str()),
            AppError::StateError { message, .. } => prefixed("State Error: ", message.as_str()),
            AppError::PresetError { message, .. } => prefixed("Preset Error: ", message.as_str()),
            AppError::VideoProcessingError { message, .. } => prefixed(
                "Video Processing Error: ",
                message.as_str(),
            ),
            AppError::GpuError { message, .. } => prefixed("GPU Error: ", message.as_str()),
            AppError::ValidationError { message, .. } => prefixed(
                "Validation Error: ",
                message.as_str(),
            ),
            AppError::OtherError { message, .. } => message.clone(),
            AppError::DomainStateError(e) => {
                let inner = e.message();
                prefixed("State error: ", inner.as_str())
            },
        }
    }

    /// Convert to a structured error info for frontend consumption.
    pub fn to_error_info(&self) -> (info: ErrorInfo)
        ensures
            info@ == self@.to_error_info(),
    {
        let details = match self {
            AppError::IoError { context, .. } => clone_opt(context),
            AppError::FFmpegError { context, .. } => clone_opt(context),
            AppError::StateError { context, .. } => clone_opt(context),
            AppError::PresetError { context, .. } => clone_opt(context),
            AppError::VideoProcessingError { context, .. } => clone_opt(context),
            AppError::GpuError { context, .. } => clone_opt(context),
            AppError::ValidationError { context, .. } => clone_opt(context),
            AppError::OtherError { context, .. } => clone_opt(context),
            AppError::DomainStateError(_) => None,
        };
        ErrorInfo { code: self.code(), message: self.message(), details }
    }
}

} // verus!
