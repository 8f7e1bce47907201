//! Helpers for reporting errors of state management.

use std::fmt::Display;
use std::string::ToString;
use vstd::prelude::*;
use vstd::string::*;

verus! {

/// The text reported for an error in a context: the context, a colon and
/// the error as its `Display` impl writes it.
pub fn log_error<E: Display>(error: E, context: &str) -> (message: String)
    ensures
        exists|text: String|
            to_string_from_display_ensures::<E>(&error, text) && message@ == context@ + ": "@
                + text@,
{
    let text = error.to_string();
    let mut message = String::from_str(context);
    message.append(": ");
    message.append(text.as_str());
    message
}

/// The same text as an error result.
pub fn log_and_return_error<T, E: Display>(error: E, context: &str) -> (r: Result<T, String>)
    ensures
        r is Err,
        exists|text: String|
            to_string_from_display_ensures::<E>(&error, text) && r->Err_0@ == context@ + ": "@
                + text@,
{
    Err(log_error(error, context))
}

} // verus!
