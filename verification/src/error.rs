//! The ways in which one exchange can fail.

use vstd::prelude::*;
use vstd::string::*;

verus! {

/// Why an exchange ended without a decoded reply. Every failure ends the
/// exchange it occurs in and nothing else; the host may issue the request
/// again.
#[derive(Clone, Copy, Debug, PartialEq, Eq, Structural)]
pub enum TransportError {
    /// The endpoint's path does not exist; the device was never touched.
    PortNotFound,
    /// The endpoint exists but the open call was rejected.
    OpenFailed,
    /// The endpoint was opened but could not be set to the required line
    /// parameters.
    ConfigurationFailed,
    /// The command could not be written in one piece.
    WriteFailed,
    /// The reply is not text.
    DecodeFailed,
}

impl TransportError {
    /// A short description for display.
    pub open spec fn message_text(self) -> Seq<char> {
        match self {
            TransportError::PortNotFound => "Port path does not exist"@,
            TransportError::OpenFailed => "Failed to open port"@,
            TransportError::ConfigurationFailed => "Configuring the port failed"@,
            TransportError::WriteFailed => "Write failed"@,
            TransportError::DecodeFailed => "Reply is not text"@,
        }
    }

    /// A short description for display.
    pub fn message(self) -> (text: String)
        ensures
            text@ == self.message_text(),
    {
        match self {
            TransportError::PortNotFound => String::from_str("Port path does not exist"),
            TransportError::OpenFailed => String::from_str("Failed to open port"),
            TransportError::ConfigurationFailed => String::from_str("Configuring the port failed"),
            TransportError::WriteFailed => String::from_str("Write failed"),
            TransportError::DecodeFailed => String::from_str("Reply is not text"),
        }
    }
}

} // verus!
