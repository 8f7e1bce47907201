//! Notifications for the frontend.

use crate::utils::text::{clone_opt, opt_chars};
use vstd::prelude::*;
use vstd::string::*;

verus! {

/// A notification event for the frontend.
#[derive(Debug, PartialEq, Eq)]
pub struct NotificationEvent {
    pub level: String,
    pub message: String,
    pub details: Option<String>,
}

/// A `NotificationEvent` with its strings read as characters.
pub struct NotificationView {
    pub level: Seq<char>,
    pub message: Seq<char>,
    pub details: Option<Seq<char>>,
}

impl View for NotificationEvent {
    type V = NotificationView;

    open spec fn view(&self) -> NotificationView {
        NotificationView {
            level: self.level@,
            message: self.message@,
            details: opt_chars(self.details),
        }
    }
}

impl Clone for NotificationEvent {
    fn clone(&self) -> (copy: NotificationEvent)
        ensures
            copy@ == self@,
    {
        NotificationEvent {
            level: self.level.clone(),
            message: self.message.clone(),
            details: clone_opt(&self.details),
        }
    }
}

/// The notification with the given level, message and details.
pub open spec fn notification(
    level: Seq<char>,
    message: Seq<char>,
    details: Option<String>,
) -> NotificationView {
    NotificationView {
        level,
        message,
        details: opt_chars(details),
    }
}

impl NotificationEvent {
    /// A notification of any level.
    pub fn new(level: &str, message: &str, details: Option<String>) -> (event: NotificationEvent)
        ensures
            event@ == notification(level@, message@, details),
    {
        NotificationEvent {
            level: String::from_str(level),
            message: String::from_str(message),
            details,
        }
    }

    /// An info notification: level `info`.
    pub fn info(message: &str, details: Option<String>) -> (event: NotificationEvent)
        ensures
            event@ == notification("info"@, message@, details),
    {
        Self::new("info", message, details)
    }

    /// A success notification: level `success`.
    pub fn success(message: &str, details: Option<String>) -> (event: NotificationEvent)
        ensures
            event@ == notification("success"@, message@, details),
    {
        Self::new("success", message, details)
    }

    /// A warning notification: level `warn`.
    pub fn warning(message: &str, details: Option<String>) -> (event: NotificationEvent)
        ensures
            event@ == notification("warn"@, message@, details),
    {
        Self::new("warn", message, details)
    }
}

} // verus!
