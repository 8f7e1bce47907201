//! Turning errors into what a command hands back to the frontend.

use crate::utils::error::{AppError, ErrorCode, ErrorInfo, ErrorInfoView};
use crate::utils::text::prefixed;
use vstd::prelude::*;
use vstd::string::*;

verus! {

/// Convert any error to an error info for frontend consumption: the error
/// becomes an `AppError` by its own conversion, and the info is that of the
/// `AppError`.
pub fn to_error_info<E: Into<AppError>>(error: E) -> (info: ErrorInfo)
    ensures
        exists|app: AppError|
            call_ensures(E::into, (error,), app) && info@ == app@.to_error_info(),
{
    let app_error: AppError = error.into();
    app_error.to_error_info()
}

/// What the frontend is told of an error that is only a text.
pub open spec fn info_of_text(error: Seq<char>) -> ErrorInfoView {
    ErrorInfoView {
        code: ErrorCode::UnknownError,
        message: error,
        details: Some("String error: "@ + error),
    }
}

/// Convert a string error to `ErrorInfo`.
pub fn string_to_error_info(error: String) -> (info: ErrorInfo)
    ensures
        info@ == info_of_text(error@),
{
    let details = prefixed("String error: ", error.as_str());
    ErrorInfo { code: ErrorCode::UnknownError, message: error, details: Some(details) }
}

/// Convert a result with any error into one with an `ErrorInfo`: a value
/// passes through, an error becomes the info of its `AppError`.
pub fn handle_error<T, E: Into<AppError>>(result: Result<T, E>) -> (r: Result<T, ErrorInfo>)
    ensures
        result is Ok ==> r is Ok && r->Ok_0 == result->Ok_0,
        result is Err ==> r is Err && exists|app: AppError|
            call_ensures(E::into, (result->Err_0,), app) && r->Err_0@ == app@.to_error_info(),
{
    match result {
        Ok(value) => Ok(value),
        Err(error) => Err(to_error_info(error)),
    }
}

/// Convert a result with any error into one with the error's text: a value
/// passes through, an error becomes the text of its `AppError`.
pub fn handle_error_string<T, E: Into<AppError>>(result: Result<T, E>) -> (r: Result<T, String>)
    ensures
        result is Ok ==> r is Ok && r->Ok_0 == result->Ok_0,
        result is Err ==> r is Err && exists|app: AppError|
            call_ensures(E::into, (result->Err_0,), app) && r->Err_0@ == app@.message(),
{
    match result {
        Ok(value) => Ok(value),
        Err(error) => {
            let app_error: AppError = error.into();
            Err(app_error.message())
        },
    }
}

} // verus!
