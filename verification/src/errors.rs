//! The error kinds of the updater.

use vstd::prelude::*;

verus! {

/// Everything that can go wrong in the updater, by kind.
///
/// Synchronous command handlers turn any of these into an `Error` reply;
/// the background worker stores one as text for the next status poll.
#[derive(Clone, Copy, Debug, PartialEq, Eq, Structural)]
pub enum UpdaterError {
    /// The active bank cannot be determined from the mount table.
    Detection,
    /// The external formatting tool failed.
    Format,
    /// Mounting or unmounting the inactive bank failed.
    Mount,
    /// A file could not be read, written or copied.
    Io,
    /// The download failed: connection, timeout or HTTP status.
    Network,
    /// The compressed or archive stream is malformed.
    Decode,
    /// The boot-loader accessor tool failed or returned malformed output.
    BootLoader,
    /// An incoming command was malformed.
    Protocol,
    /// An update was requested while one is running, or the credentials
    /// were incomplete.
    StateConflict,
}

impl UpdaterError {
    /// A short human-readable description of the error kind.
    pub fn message(&self) -> (r: &'static str)
        ensures
            r@ == self.spec_message(),
    {
        match self {
            UpdaterError::Detection => "could not identify bank",
            UpdaterError::Format => "formatting tool failed",
            UpdaterError::Mount => "mount failed",
            UpdaterError::Io => "file read or write failed",
            UpdaterError::Network => "download failed",
            UpdaterError::Decode => "malformed archive stream",
            UpdaterError::BootLoader => "boot-loader accessor failed",
            UpdaterError::Protocol => "malformed command",
            UpdaterError::StateConflict => "conflicting command state",
        }
    }

    /// What `message` returns for each kind.
    pub open spec fn spec_message(self) -> Seq<char> {
        match self {
            UpdaterError::Detection => "could not identify bank"@,
            UpdaterError::Format => "formatting tool failed"@,
            UpdaterError::Mount => "mount failed"@,
            UpdaterError::Io => "file read or write failed"@,
            UpdaterError::Network => "download failed"@,
            UpdaterError::Decode => "malformed archive stream"@,
            UpdaterError::BootLoader => "boot-loader accessor failed"@,
            UpdaterError::Protocol => "malformed command"@,
            UpdaterError::StateConflict => "conflicting command state"@,
        }
    }
}

} // verus!
