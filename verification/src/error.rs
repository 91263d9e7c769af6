//! The errors that the library's decisions give back.

use vstd::prelude::*;

verus! {

/// Why a Terracotta operation was refused or failed.
#[derive(Debug, Clone)]
pub enum TerracottaError {
    /// The helper binary is not installed.
    NotInstalled,
    /// A download was asked for while the helper process runs.
    AlreadyRunning,
    /// A request needs the helper's port, and none is known.
    NotRunning,
    /// No helper build exists for this operating system and architecture.
    UnsupportedPlatform,
    /// The room code is not of the form `U/XXXX-XXXX-XXXX-XXXX`.
    InvalidRoomCode,
    /// The downloaded archive holds no helper executable.
    BinaryNotFound,
    /// The helper did not announce its port in time, or exited first.
    StartupTimedOut,
    /// The helper process could not be spawned; the system's reason.
    SpawnFailed(String),
    /// A request to the helper answered with a failure status.
    RequestFailed { status: String, url: String, body: String },
    /// Closing the room answered with a failure status.
    RoomCloseFailed { status: String, body: String },
}

/// The text that `error.message()` gives for each error.
pub open spec fn error_message(e: TerracottaError) -> Seq<char> {
    match e {
        TerracottaError::NotInstalled => "Terracotta is not installed"@,
        TerracottaError::AlreadyRunning => "Terracotta is running"@,
        TerracottaError::NotRunning => "Terracotta is not running"@,
        TerracottaError::UnsupportedPlatform => "Unsupported platform"@,
        TerracottaError::InvalidRoomCode => "Invalid room code. Expected format: U/XXXX-XXXX-XXXX-XXXX"@,
        TerracottaError::BinaryNotFound => "Terracotta binary not found in archive"@,
        TerracottaError::StartupTimedOut => "Terracotta startup timed out"@,
        TerracottaError::SpawnFailed(reason) => reason@,
        TerracottaError::RequestFailed { status, url, body } => "HTTP status "@ + status@
            + " for Terracotta request "@ + url@ + ": "@ + body@,
        TerracottaError::RoomCloseFailed { status, body } => "HTTP status "@ + status@
            + " for Terracotta room close: "@ + body@,
    }
}

impl TerracottaError {
    /// The message shown to the user.
    pub fn message(&self) -> (m: String)
        ensures
            m@ == error_message(*self),
    {
        match self {
            TerracottaError::NotInstalled => String::from_str("Terracotta is not installed"),
            TerracottaError::AlreadyRunning => String::from_str("Terracotta is running"),
            TerracottaError::NotRunning => String::from_str("Terracotta is not running"),
            TerracottaError::UnsupportedPlatform => String::from_str("Unsupported platform"),
            TerracottaError::InvalidRoomCode => String::from_str(
                "Invalid room code. Expected format: U/XXXX-XXXX-XXXX-XXXX",
            ),
            TerracottaError::BinaryNotFound => String::from_str(
                "Terracotta binary not found in archive",
            ),
            TerracottaError::StartupTimedOut => String::from_str("Terracotta startup timed out"),
            TerracottaError::SpawnFailed(reason) => reason.clone(),
            TerracottaError::RequestFailed { status, url, body } => {
                let mut m = String::from_str("HTTP status ");
                m.append(status.as_str());
                m.append(" for Terracotta request ");
                m.append(url.as_str());
                m.append(": ");
                m.append(body.as_str());
                m
            },
            TerracottaError::RoomCloseFailed { status, body } => {
                let mut m = String::from_str("HTTP status ");
                m.append(status.as_str());
                m.append(" for Terracotta room close: ");
                m.append(body.as_str());
                m
            },
        }
    }
}

} // verus!
