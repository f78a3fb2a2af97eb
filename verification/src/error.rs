//! The error type shared by every part of the library, and the text each
//! error is reported with.
use vstd::prelude::*;
use crate::text::{join2, join3, join4};

verus! {

/// Everything that can go wrong. Paths and the messages of lower-level
/// failures are carried as the text they are displayed with.
#[derive(Debug)]
pub enum AppError {
    Message(String),
    ConfigMissing { path: String, hint: String },
    ConfigHomeMissing(String),
    ConfigDirCreate { path: String, source: String },
    ConfigAlreadyExists(String),
    ConfigIo { path: String, source: String },
    ConfigParse { path: String, source: String },
    ConfigValidation(String),
    ClipboardUnavailable(String),
    ClipboardRead(String),
    ClipboardWrite(String),
    DeviceNotFound(String),
    Transport(String),
    TransportAuth(String),
    TransportTimeout(String),
    TransportUnreachable(String),
    RemoteFailure(String),
    DaemonStartup(String),
    DaemonRuntime(String),
}

pub type AppResult<T> = Result<T, AppError>;

/// The text an error is reported with.
pub open spec fn message_of(e: &AppError) -> Seq<char> {
    match e {
        AppError::Message(m) => m@,
        AppError::ConfigMissing { path, hint } => "config file not found at '"@ + path@ + "': "@
            + hint@,
        AppError::ConfigHomeMissing(r) => "unable to determine config directory: "@ + r@,
        AppError::ConfigDirCreate { path, source } => "failed to create config directory '"@
            + path@ + "': "@ + source@,
        AppError::ConfigAlreadyExists(path) => "config file already exists at '"@ + path@ + "'"@,
        AppError::ConfigIo { path, source } => "failed to access config file '"@ + path@ + "': "@
            + source@,
        AppError::ConfigParse { path, source } => "failed to parse config file '"@ + path@ + "': "@
            + source@,
        AppError::ConfigValidation(m) => "invalid config: "@ + m@,
        AppError::ClipboardUnavailable(r) => "clipboard unavailable: "@ + r@,
        AppError::ClipboardRead(r) => "failed to read clipboard: "@ + r@,
        AppError::ClipboardWrite(r) => "failed to write clipboard: "@ + r@,
        AppError::DeviceNotFound(alias) => "unknown device alias '"@ + alias@ + "'"@,
        AppError::Transport(r) => "transport error: "@ + r@,
        AppError::TransportAuth(r) => "authentication failed: "@ + r@,
        AppError::TransportTimeout(r) => "transport timed out: "@ + r@,
        AppError::TransportUnreachable(r) => "remote device unreachable: "@ + r@,
        AppError::RemoteFailure(r) => "remote operation failed: "@ + r@,
        AppError::DaemonStartup(r) => "failed to start daemon: "@ + r@,
        AppError::DaemonRuntime(r) => "daemon runtime error: "@ + r@,
    }
}

impl AppError {
    /// The text this error is reported with (what the program prints after
    /// its name when a command fails).
    pub fn message(&self) -> (r: String)
        ensures
            r@ == message_of(self),
    {
        match self {
            AppError::Message(m) => m.clone(),
            AppError::ConfigMissing { path, hint } => join4(
                "config file not found at '",
                path.as_str(),
                "': ",
                hint.as_str(),
            ),
            AppError::ConfigHomeMissing(r) => join2(
                "unable to determine config directory: ",
                r.as_str(),
            ),
            AppError::ConfigDirCreate { path, source } => join4(
                "failed to create config directory '",
                path.as_str(),
                "': ",
                source.as_str(),
            ),
            AppError::ConfigAlreadyExists(path) => {
                join3("config file already exists at '", path.as_str(), "'")
            },
            AppError::ConfigIo { path, source } => join4(
                "failed to access config file '",
                path.as_str(),
                "': ",
                source.as_str(),
            ),
            AppError::ConfigParse { path, source } => join4(
                "failed to parse config file '",
                path.as_str(),
                "': ",
                source.as_str(),
            ),
            AppError::ConfigValidation(m) => join2("invalid config: ", m.as_str()),
            AppError::ClipboardUnavailable(r) => join2("clipboard unavailable: ", r.as_str()),
            AppError::ClipboardRead(r) => join2("failed to read clipboard: ", r.as_str()),
            AppError::ClipboardWrite(r) => join2("failed to write clipboard: ", r.as_str()),
            AppError::DeviceNotFound(alias) => {
                join3("unknown device alias '", alias.as_str(), "'")
            },
            AppError::Transport(r) => join2("transport error: ", r.as_str()),
            AppError::TransportAuth(r) => join2("authentication failed: ", r.as_str()),
            AppError::TransportTimeout(r) => join2("transport timed out: ", r.as_str()),
            AppError::TransportUnreachable(r) => join2("remote device unreachable: ", r.as_str()),
            AppError::RemoteFailure(r) => join2("remote operation failed: ", r.as_str()),
            AppError::DaemonStartup(r) => join2("failed to start daemon: ", r.as_str()),
            AppError::DaemonRuntime(r) => join2("daemon runtime error: ", r.as_str()),
        }
    }
}

} // verus!
