//! The library's error type and the message each error reads as.
use vstd::prelude::*;

use crate::text::{copy_str, join2};

verus! {

/// What can go wrong; each variant carries the detail it reports.
#[derive(Debug, Clone, PartialEq, Eq)]
pub enum AppError {
    Io(String),
    Json(String),
    Windows(String),
    Config(String),
    ProfileNotFound(String),
    AppNotFound(String),
    MonitorNotFound,
    InvalidWindowHandle(String),
    InvalidExecutablePath(String),
    RestoreInProgress,
}

/// The text an error reads as.
pub open spec fn error_message(e: AppError) -> Seq<char> {
    match e {
        AppError::Io(d) => "I/O error: "@ + d@,
        AppError::Json(d) => "JSON error: "@ + d@,
        AppError::Windows(d) => "Windows API error: "@ + d@,
        AppError::Config(d) => "Config error: "@ + d@,
        AppError::ProfileNotFound(d) => "Profile not found: "@ + d@,
        AppError::AppNotFound(d) => "App not found: "@ + d@,
        AppError::MonitorNotFound => "Monitor not found"@,
        AppError::InvalidWindowHandle(d) => "Invalid window handle: "@ + d@,
        AppError::InvalidExecutablePath(d) => "Invalid executable path: "@ + d@,
        AppError::RestoreInProgress => "A restore is already in progress"@,
    }
}

impl AppError {
    /// The error's message, as shown to the user and written to the log.
    pub fn message(&self) -> (r: String)
        ensures
            r@ == error_message(*self),
    {
        match self {
            AppError::Io(d) => join2("I/O error: ", d.as_str()),
            AppError::Json(d) => join2("JSON error: ", d.as_str()),
            AppError::Windows(d) => join2("Windows API error: ", d.as_str()),
            AppError::Config(d) => join2("Config error: ", d.as_str()),
            AppError::ProfileNotFound(d) => join2("Profile not found: ", d.as_str()),
            AppError::AppNotFound(d) => join2("App not found: ", d.as_str()),
            AppError::MonitorNotFound => copy_str("Monitor not found"),
            AppError::InvalidWindowHandle(d) => join2("Invalid window handle: ", d.as_str()),
            AppError::InvalidExecutablePath(d) => join2("Invalid executable path: ", d.as_str()),
            AppError::RestoreInProgress => copy_str("A restore is already in progress"),
        }
    }
}

} // verus!
