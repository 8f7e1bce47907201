//! Where task ids and timestamps come from.

use vstd::prelude::*;

verus! {

/// A new task id: `uuid::Uuid::new_v4()` written with its `Display` impl.
///
/// Trusted: the text has 36 characters, the hyphenated form that `Display`
/// writes for every `Uuid`. Nothing is claimed of which id comes back; that
/// it differs from earlier ids is likely and not promised. `new_v4` relies
/// on the system's source of random numbers.
#[verifier::external_body]
pub(crate) fn fresh_task_id() -> (id: String)
    ensures
        id@.len() == 36,
{
    uuid::Uuid::new_v4().to_string()
}

/// The current time: `chrono::Utc::now()` written with
/// `DateTime::to_rfc3339`.
///
/// Trusted: nothing is claimed of the text. `Utc::now` relies on the system
/// clock standing at or after the Unix epoch.
#[verifier::external_body]
pub(crate) fn current_timestamp() -> String {
    chrono::Utc::now().to_rfc3339()
}

} // verus!
