//! The error taxonomy of the bridge: fatal setup failures, per-record
//! transient failures, and persistent capture faults, each carrying a
//! human-readable chain of causes.

use vstd::prelude::*;
use vstd::string::StringExecFns;

verus! {

/// Every failure the bridge can report. Setup failures
/// (`InterfaceNotFound`, `OpenFailed`, `InvalidFilter`,
/// `ProducerCreateFailed`, `InvalidOption`) abort startup; `CaptureError`
/// is a persistent capture fault that the caller should treat as fatal.
#[derive(Debug, Clone, PartialEq, Eq)]
pub enum BridgeError {
    /// The requested interface name matched no system-visible device.
    InterfaceNotFound,
    /// The OS or driver refused to open the device; carries its message.
    OpenFailed(String),
    /// The capture filter expression was rejected; carries the cause.
    InvalidFilter(String),
    /// A capture read failed for a reason other than "no packet ready".
    CaptureError(String),
    /// The queue client rejected the producer configuration.
    ProducerCreateFailed(String),
    /// A queue-client option string held no `=` separator; carries the
    /// offending input.
    InvalidOption(String),
}

impl BridgeError {
    /// The operator-facing message of this error: a fixed context string,
    /// followed by the underlying cause where one was captured.
    pub open spec fn spec_message(self) -> Seq<char> {
        match self {
            BridgeError::InterfaceNotFound => "interface not found"@,
            BridgeError::OpenFailed(m) => "failed to open interface: "@ + m@,
            BridgeError::InvalidFilter(m) => "invalid filter: "@ + m@,
            BridgeError::CaptureError(m) => "failed to capture packet: "@ + m@,
            BridgeError::ProducerCreateFailed(m) => "failed to create kafka producer: "@ + m@,
            BridgeError::InvalidOption(m) => "invalid format for kafka option: "@ + m@,
        }
    }

    /// Renders the chained cause message for logging and process exit.
    pub fn message(&self) -> (out: String)
        ensures
            out@ == self.spec_message(),
    {
        match self {
            BridgeError::InterfaceNotFound => "interface not found".to_owned(),
            BridgeError::OpenFailed(m) => {
                let mut s = "failed to open interface: ".to_owned();
                s.append(m.as_str());
                s
            },
            BridgeError::InvalidFilter(m) => {
                let mut s = "invalid filter: ".to_owned();
                s.append(m.as_str());
                s
            },
            BridgeError::CaptureError(m) => {
                let mut s = "failed to capture packet: ".to_owned();
                s.append(m.as_str());
                s
            },
            BridgeError::ProducerCreateFailed(m) => {
                let mut s = "failed to create kafka producer: ".to_owned();
                s.append(m.as_str());
                s
            },
            BridgeError::InvalidOption(m) => {
                let mut s = "invalid format for kafka option: ".to_owned();
                s.append(m.as_str());
                s
            },
        }
    }
}

} // verus!
