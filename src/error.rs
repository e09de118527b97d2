//! The failures that the library reports.

use vstd::prelude::*;

verus! {

#[derive(Clone, Copy, Debug, PartialEq, Eq, Structural)]
pub enum InputError {
    /// Neither the native nor the portal backend could be built for a device class.
    BackendUnavailable,
    /// The portal answered a session request with a non-zero status, most often
    /// because the user declined the consent dialog.
    SessionRejected,
    /// None of the requested device classes is offered by the portal.
    NoSupportedDevices,
    /// The capture stream never reached the streaming state.
    CaptureNegotiationFailed,
    /// A portal answer lacked what the protocol promises in it.
    MalformedResponse,
}

impl InputError {
    /// A sentence for the user.
    pub fn message(&self) -> &'static str {
        match self {
            InputError::BackendUnavailable => "virtual device unavailable",
            InputError::SessionRejected => "remote desktop session start was rejected by the system",
            InputError::NoSupportedDevices => "the remote desktop portal offers none of the requested devices",
            InputError::CaptureNegotiationFailed => "the screen capture stream could not be negotiated",
            InputError::MalformedResponse => "the portal sent a malformed response",
        }
    }
}

} // verus!
