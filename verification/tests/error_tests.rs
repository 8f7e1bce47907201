use vid_kit_simple::services::video_processor::VideoError;
use vid_kit_simple::state::errors::StateError;
use vid_kit_simple::state::helpers::{log_and_return_error, log_error};
use vid_kit_simple::state::task_manager::TaskError;
use vid_kit_simple::utils::error::{AppError, ErrorCode, ErrorInfo, IoErrorKind, IoFailure};
use vid_kit_simple::utils::error_handler::{
    handle_error, handle_error_string, string_to_error_info, to_error_info,
};
use vid_kit_simple::utils::text::{decimal, prefixed, wrapped};

fn s(text: &str) -> String {
    text.to_string()
}

fn io(kind: IoErrorKind, message: &str) -> IoFailure {
    IoFailure { kind, message: s(message) }
}

#[test]
fn error_codes_have_their_numbers() {
    let cases = [
        (ErrorCode::FileNotFound, 1000),
        (ErrorCode::PermissionDenied, 1001),
        (ErrorCode::FileReadError, 1002),
        (ErrorCode::FileWriteError, 1003),
        (ErrorCode::DirectoryError, 1004),
        (ErrorCode::FFmpegInitError, 2000),
        (ErrorCode::CodecNotSupported, 2001),
        (ErrorCode::EncodingError, 2002),
        (ErrorCode::DecodingError, 2003),
        (ErrorCode::FormatError, 2004),
        (ErrorCode::StateAccessError, 3000),
        (ErrorCode::StateMutationError, 3001),
        (ErrorCode::StateSerializationError, 3002),
        (ErrorCode::TaskNotFound, 3003),
        (ErrorCode::FileNotFound3, 3004),
        (ErrorCode::TaskCanceled, 3005),
        (ErrorCode::PresetNotFound, 4000),
        (ErrorCode::PresetValidationError, 4001),
        (ErrorCode::PresetSaveError, 4002),
        (ErrorCode::VideoInfoError, 5000),
        (ErrorCode::VideoProcessingFailed, 5001),
        (ErrorCode::InvalidVideoFormat, 5002),
        (ErrorCode::GpuNotAvailable, 6000),
        (ErrorCode::GpuInitError, 6001),
        (ErrorCode::UnknownError, 9000),
        (ErrorCode::NotImplemented, 9001),
        (ErrorCode::InvalidArgument, 9002),
    ];
    for (code, number) in cases {
        assert_eq!(code.number(), number);
    }
}

#[test]
fn app_error_constructors_keep_their_values() {
    let context = Some(s("ctx"));
    assert_eq!(
        AppError::io_error(io(IoErrorKind::Other, "x"), ErrorCode::FileReadError, context.clone()),
        AppError::IoError {
            source: io(IoErrorKind::Other, "x"),
            code: ErrorCode::FileReadError,
            context: context.clone()
        }
    );
    assert_eq!(
        AppError::ffmpeg_error(s("m"), ErrorCode::FFmpegInitError, context.clone()),
        AppError::FFmpegError {
            message: s("m"),
            code: ErrorCode::FFmpegInitError,
            context: context.clone()
        }
    );
    assert_eq!(
        AppError::state_error(s("m"), ErrorCode::StateAccessError, None),
        AppError::StateError { message: s("m"), code: ErrorCode::StateAccessError, context: None }
    );
    assert_eq!(
        AppError::preset_error(s("m"), ErrorCode::PresetNotFound, None),
        AppError::PresetError { message: s("m"), code: ErrorCode::PresetNotFound, context: None }
    );
    assert_eq!(
        AppError::video_error(s("m"), ErrorCode::VideoInfoError, None),
        AppError::VideoProcessingError {
            message: s("m"),
            code: ErrorCode::VideoInfoError,
            context: None
        }
    );
    assert_eq!(
        AppError::gpu_error(s("m"), ErrorCode::GpuInitError, None),
        AppError::GpuError { message: s("m"), code: ErrorCode::GpuInitError, context: None }
    );
    assert_eq!(
        AppError::validation_error(s("m"), ErrorCode::InvalidArgument, None),
        AppError::ValidationError {
            message: s("m"),
            code: ErrorCode::InvalidArgument,
            context: None
        }
    );
    assert_eq!(
        AppError::other_error(s("m"), ErrorCode::UnknownError, context.clone()),
        AppError::OtherError { message: s("m"), code: ErrorCode::UnknownError, context }
    );
}

#[test]
fn app_error_texts_carry_their_prefix() {
    let none = || None;
    assert_eq!(
        AppError::io_error(io(IoErrorKind::Other, "disk"), ErrorCode::FileReadError, none())
            .message(),
        "IO Error: disk"
    );
    assert_eq!(
        AppError::ffmpeg_error(s("m"), ErrorCode::FFmpegInitError, none()).message(),
        "FFmpeg Error: m"
    );
    assert_eq!(
        AppError::state_error(s("m"), ErrorCode::StateAccessError, none()).message(),
        "State Error: m"
    );
    assert_eq!(
        AppError::preset_error(s("m"), ErrorCode::PresetNotFound, none()).message(),
        "Preset Error: m"
    );
    assert_eq!(
        AppError::video_error(s("m"), ErrorCode::VideoInfoError, none()).message(),
        "Video Processing Error: m"
    );
    assert_eq!(
        AppError::gpu_error(s("m"), ErrorCode::GpuInitError, none()).message(),
        "GPU Error: m"
    );
    assert_eq!(
        AppError::validation_error(s("m"), ErrorCode::InvalidArgument, none()).message(),
        "Validation Error: m"
    );
    assert_eq!(AppError::other_error(s("m"), ErrorCode::UnknownError, none()).message(), "m");
    assert_eq!(
        AppError::DomainStateError(StateError::InvalidGpuIndex(-3)).message(),
        "State error: Invalid GPU index -3"
    );
}

#[test]
fn app_error_code_and_info() {
    let e = AppError::gpu_error(s("no gpu"), ErrorCode::GpuNotAvailable, Some(s("probe")));
    assert_eq!(e.code(), ErrorCode::GpuNotAvailable);
    assert_eq!(
        e.to_error_info(),
        ErrorInfo {
            code: ErrorCode::GpuNotAvailable,
            message: s("GPU Error: no gpu"),
            details: Some(s("probe")),
        }
    );
    let d = AppError::DomainStateError(StateError::other(s("odd")));
    assert_eq!(d.code(), ErrorCode::StateAccessError);
    assert_eq!(
        d.to_error_info(),
        ErrorInfo {
            code: ErrorCode::StateAccessError,
            message: s("State error: odd"),
            details: None
        }
    );
    let i = AppError::io_error(io(IoErrorKind::NotFound, "gone"), ErrorCode::DirectoryError, None);
    assert_eq!(i.code(), ErrorCode::DirectoryError);
    assert_eq!(i.to_error_info().details, None);
}

#[test]
fn io_failures_map_by_kind() {
    let e = AppError::from(io(IoErrorKind::NotFound, "no file"));
    assert_eq!(
        e,
        AppError::IoError {
            source: io(IoErrorKind::NotFound, "no file"),
            code: ErrorCode::FileNotFound,
            context: Some(s("File or directory not found")),
        }
    );
    let e = AppError::from(io(IoErrorKind::PermissionDenied, "no"));
    assert_eq!(e.code(), ErrorCode::PermissionDenied);
    assert_eq!(e.to_error_info().details, Some(s("Permission denied when accessing file")));
    let cases = [
        (IoErrorKind::ConnectionRefused, "Connection refused"),
        (IoErrorKind::ConnectionReset, "Connection reset"),
        (IoErrorKind::ConnectionAborted, "Connection aborted"),
        (IoErrorKind::NotConnected, "Not connected"),
        (IoErrorKind::AddrInUse, "Address already in use"),
        (IoErrorKind::AddrNotAvailable, "Address not available"),
        (IoErrorKind::BrokenPipe, "Broken pipe"),
        (IoErrorKind::AlreadyExists, "File already exists"),
        (IoErrorKind::WouldBlock, "Operation would block"),
        (IoErrorKind::InvalidInput, "Invalid input parameter"),
        (IoErrorKind::InvalidData, "Invalid data"),
        (IoErrorKind::TimedOut, "Operation timed out"),
        (IoErrorKind::WriteZero, "Write returned zero bytes"),
        (IoErrorKind::Interrupted, "Operation interrupted"),
        (IoErrorKind::Unsupported, "Operation not supported"),
        (IoErrorKind::UnexpectedEof, "Unexpected end of file"),
        (IoErrorKind::OutOfMemory, "Out of memory"),
        (IoErrorKind::Other, "I/O error occurred"),
    ];
    for (kind, context) in cases {
        let e = AppError::from(io(kind, "x"));
        assert_eq!(e.code(), ErrorCode::FileReadError);
        assert_eq!(e.to_error_info().details, Some(s(context)));
        assert_eq!(e.message(), "IO Error: x");
    }
}

#[test]
fn texts_become_video_processing_errors() {
    assert_eq!(AppError::from("bad frame"), AppError::from(s("bad frame")));
    assert_eq!(
        AppError::from(s("bad frame")),
        AppError::VideoProcessingError {
            message: s("bad frame"),
            code: ErrorCode::VideoProcessingFailed,
            context: Some(s("Error during video processing operation")),
        }
    );
}

#[test]
fn video_errors_map_to_app_errors() {
    let cases = vec![
        (
            VideoError::Io(io(IoErrorKind::NotFound, "gone")),
            AppError::IoError {
                source: io(IoErrorKind::NotFound, "gone"),
                code: ErrorCode::FileReadError,
                context: Some(s("Video file access error")),
            },
        ),
        (
            VideoError::ffmpeg(s("init")),
            AppError::FFmpegError {
                message: s("init"),
                code: ErrorCode::FFmpegInitError,
                context: Some(s("FFmpeg operation failed")),
            },
        ),
        (
            VideoError::task_not_found(s("t9")),
            AppError::OtherError {
                message: s("Task not found: t9"),
                code: ErrorCode::TaskNotFound,
                context: Some(s("Video processing task lookup failed")),
            },
        ),
        (
            VideoError::NoVideoStream(s("/a/b.mp4")),
            AppError::VideoProcessingError {
                message: s("No video stream found in \"/a/b.mp4\""),
                code: ErrorCode::InvalidVideoFormat,
                context: Some(s("File does not contain a valid video stream: \"/a/b.mp4\"")),
            },
        ),
        (
            VideoError::codec(s("c")),
            AppError::VideoProcessingError {
                message: s("c"),
                code: ErrorCode::CodecNotSupported,
                context: Some(s("Video codec not supported or not found")),
            },
        ),
        (
            VideoError::encoder(s("e")),
            AppError::VideoProcessingError {
                message: s("e"),
                code: ErrorCode::EncodingError,
                context: Some(s("Video encoding operation failed")),
            },
        ),
        (
            VideoError::decoder(s("d")),
            AppError::VideoProcessingError {
                message: s("d"),
                code: ErrorCode::DecodingError,
                context: Some(s("Video decoding operation failed")),
            },
        ),
        (
            VideoError::invalid_param(s("p")),
            AppError::ValidationError {
                message: s("p"),
                code: ErrorCode::InvalidArgument,
                context: Some(s("Invalid parameter for video processing")),
            },
        ),
        (
            VideoError::ThreadPool(s("t")),
            AppError::VideoProcessingError {
                message: s("t"),
                code: ErrorCode::VideoProcessingFailed,
                context: Some(s("Thread pool error during video processing")),
            },
        ),
        (
            VideoError::State(StateError::other(s("st"))),
            AppError::DomainStateError(StateError::Other(s("st"))),
        ),
        (
            VideoError::other(s("o")),
            AppError::OtherError {
                message: s("o"),
                code: ErrorCode::VideoProcessingFailed,
                context: Some(s("Unexpected error during video processing")),
            },
        ),
    ];
    for (video, app) in cases {
        assert_eq!(AppError::from(video), app);
    }
}

#[test]
fn video_errors_have_their_texts() {
    assert_eq!(VideoError::Io(io(IoErrorKind::Other, "x")).message(), "I/O error: x");
    assert_eq!(VideoError::ffmpeg(s("x")).message(), "FFmpeg error: x");
    assert_eq!(VideoError::task_not_found(s("x")).message(), "Task x not found");
    assert_eq!(VideoError::NoVideoStream(s("f.mp4")).message(), "Video stream not found in f.mp4");
    assert_eq!(VideoError::codec(s("x")).message(), "Codec error: x");
    assert_eq!(VideoError::encoder(s("x")).message(), "Encoder error: x");
    assert_eq!(VideoError::decoder(s("x")).message(), "Decoder error: x");
    assert_eq!(VideoError::invalid_param(s("x")).message(), "Invalid parameter: x");
    assert_eq!(VideoError::ThreadPool(s("x")).message(), "Thread pool error: x");
    assert_eq!(
        VideoError::State(StateError::task_not_found(s("u1"))).message(),
        "State error: Task u1 not found"
    );
    assert_eq!(VideoError::other(s("x")).message(), "x");
    assert_eq!(VideoError::ffmpeg(s("x")), VideoError::Ffmpeg(s("x")));
    assert_eq!(VideoError::codec(s("x")), VideoError::Codec(s("x")));
    assert_eq!(VideoError::encoder(s("x")), VideoError::Encoder(s("x")));
    assert_eq!(VideoError::decoder(s("x")), VideoError::Decoder(s("x")));
    assert_eq!(VideoError::invalid_param(s("x")), VideoError::InvalidParam(s("x")));
    assert_eq!(VideoError::task_not_found(s("x")), VideoError::TaskNotFound(s("x")));
    assert_eq!(VideoError::other(s("x")), VideoError::Other(s("x")));
}

#[test]
fn state_errors_have_their_texts() {
    assert_eq!(StateError::task_not_found(s("a-b")).message(), "Task a-b not found");
    assert_eq!(StateError::file_not_found(s("a-b")).message(), "File a-b not found");
    assert_eq!(StateError::invalid_gpu_index(7).message(), "Invalid GPU index 7");
    assert_eq!(
        StateError::invalid_gpu_index(i32::MIN).message(),
        "Invalid GPU index -2147483648"
    );
    assert_eq!(
        StateError::emit_error(s("closed")).message(),
        "Failed to emit state change event: closed"
    );
    assert_eq!(
        StateError::SerializationError(s("x")).message(),
        "Failed to serialize state: x"
    );
    assert_eq!(
        StateError::DeserializationError(s("x")).message(),
        "Failed to deserialize state: x"
    );
    assert_eq!(StateError::Io(io(IoErrorKind::Other, "x")).message(), "IO error: x");
    assert_eq!(StateError::Tauri(s("x")).message(), "Tauri error: x");
    assert_eq!(StateError::other(s("x")).message(), "x");
    assert_eq!(
        AppError::from(StateError::other(s("x"))),
        AppError::DomainStateError(StateError::Other(s("x")))
    );
}

#[test]
fn task_errors_map_to_app_errors() {
    let other = |message: &str, code: ErrorCode, context: &str| AppError::OtherError {
        message: s(message),
        code,
        context: Some(s(context)),
    };
    let cases = vec![
        (
            TaskError::TaskNotFound(s("t1")),
            other("Task t1 not found", ErrorCode::TaskNotFound, "Task not found in task manager"),
        ),
        (
            TaskError::InvalidStatus(s("Task t1 is not in pending state")),
            other(
                "Invalid task status: Task t1 is not in pending state",
                ErrorCode::InvalidArgument,
                "Cannot change task to the requested state",
            ),
        ),
        (
            TaskError::ProcessingFailed(s("x")),
            other(
                "Task processing failed: x",
                ErrorCode::VideoProcessingFailed,
                "Error processing video",
            ),
        ),
        (
            TaskError::UnsupportedTaskType(s("zip")),
            other(
                "Unsupported task type: zip",
                ErrorCode::InvalidArgument,
                "The specified task type is not supported",
            ),
        ),
        (
            TaskError::StoreSaveError(s("x")),
            other(
                "Failed to save task state: x",
                ErrorCode::FileWriteError,
                "Error saving task state to store",
            ),
        ),
        (
            TaskError::StoreLoadError(s("x")),
            other(
                "Failed to load task state: x",
                ErrorCode::FileReadError,
                "Error loading task state from store",
            ),
        ),
        (
            TaskError::Canceled,
            other(
                "Task was canceled",
                ErrorCode::TaskCanceled,
                "The task was canceled by the user",
            ),
        ),
        (
            TaskError::Other(s("x")),
            other("x", ErrorCode::UnknownError, "Unexpected error in task manager"),
        ),
    ];
    for (task, app) in cases {
        assert_eq!(AppError::from(task), app);
    }
}

#[test]
fn any_error_becomes_an_error_info() {
    assert_eq!(
        to_error_info(TaskError::TaskNotFound(s("t1"))),
        ErrorInfo {
            code: ErrorCode::TaskNotFound,
            message: s("Task t1 not found"),
            details: Some(s("Task not found in task manager")),
        }
    );
    assert_eq!(
        to_error_info(s("plain")),
        ErrorInfo {
            code: ErrorCode::VideoProcessingFailed,
            message: s("Video Processing Error: plain"),
            details: Some(s("Error during video processing operation")),
        }
    );
    assert_eq!(
        to_error_info(VideoError::codec(s("vp9"))),
        ErrorInfo {
            code: ErrorCode::CodecNotSupported,
            message: s("Video Processing Error: vp9"),
            details: Some(s("Video codec not supported or not found")),
        }
    );
}

#[test]
fn string_errors_are_unknown_errors() {
    assert_eq!(
        string_to_error_info(s("oops")),
        ErrorInfo {
            code: ErrorCode::UnknownError,
            message: s("oops"),
            details: Some(s("String error: oops")),
        }
    );
}

#[test]
fn results_are_handled_by_their_side() {
    let ok: Result<u8, TaskError> = Ok(7);
    assert_eq!(handle_error(ok), Ok(7));
    let err: Result<u8, TaskError> = Err(TaskError::Canceled);
    assert_eq!(
        handle_error(err),
        Err(ErrorInfo {
            code: ErrorCode::TaskCanceled,
            message: s("Task was canceled"),
            details: Some(s("The task was canceled by the user")),
        })
    );
    let ok: Result<u8, String> = Ok(7);
    assert_eq!(handle_error_string(ok), Ok(7));
    let err: Result<u8, String> = Err(s("x"));
    assert_eq!(handle_error_string(err), Err(s("Video Processing Error: x")));
    let err: Result<u8, StateError> = Err(StateError::invalid_gpu_index(4));
    assert_eq!(handle_error_string(err), Err(s("State error: Invalid GPU index 4")));
}

#[test]
fn logged_errors_carry_their_context() {
    assert_eq!(log_error("boom", "While saving"), "While saving: boom");
    assert_eq!(log_error(42, "Count"), "Count: 42");
    let r: Result<(), String> = log_and_return_error("boom", "ctx");
    assert_eq!(r, Err(s("ctx: boom")));
}

#[test]
fn decimal_writes_every_number() {
    assert_eq!(decimal(0), "0");
    assert_eq!(decimal(7), "7");
    assert_eq!(decimal(10), "10");
    assert_eq!(decimal(-1), "-1");
    assert_eq!(decimal(1234567890), "1234567890");
    assert_eq!(decimal(i32::MAX), "2147483647");
    assert_eq!(decimal(i32::MIN), "-2147483648");
    for n in [-1000, -999, -101, -10, -9, 9, 99, 100, 101, 1000, 65535, -65536] {
        assert_eq!(decimal(n), n.to_string());
    }
}

#[test]
fn texts_are_joined_in_order() {
    assert_eq!(prefixed("a", "b"), "ab");
    assert_eq!(prefixed("", ""), "");
    assert_eq!(wrapped("<", "x", ">"), "<x>");
}
