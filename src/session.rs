//! Negotiation of a remote-control session with the desktop portal.
//!
//! The negotiation is linear and never retries: create the session, select the
//! devices, optionally select screen-capture sources, start. Each step waits for
//! one portal response; the caller performs the requests and hands the responses
//! back.

use vstd::prelude::*;
use crate::error::InputError;

verus! {

/// Device-type bit of the keyboard in the portal's bitfields.
pub const DEVICE_KEYBOARD: u32 = 1;

/// Device-type bit of the pointer in the portal's bitfields.
pub const DEVICE_POINTER: u32 = 2;

/// Capture-source bit of a whole monitor.
pub const SOURCE_MONITOR: u32 = 1;

/// A character allowed in an element of a D-Bus object path.
pub open spec fn is_path_char(c: char) -> bool {
    ('A' <= c && c <= 'Z') || ('a' <= c && c <= 'z') || ('0' <= c && c <= '9') || c == '_'
}

/// A D-Bus object path: `/` alone, or `/` followed by non-empty elements of path
/// characters separated by single `/`.
pub open spec fn is_object_path(s: Seq<char>) -> bool {
    &&& s.len() >= 1
    &&& s[0] == '/'
    &&& forall|i: int| 0 <= i < s.len() ==> #[trigger] s[i] == '/' || is_path_char(s[i])
    &&& forall|i: int| 0 <= i < s.len() - 1 ==> !(#[trigger] s[i] == '/' && s[i + 1] == '/')
    &&& s.len() > 1 ==> s.last() != '/'
}

/// Relies on zvariant's `ObjectPath::try_from(&str)`, which accepts exactly the
/// D-Bus object paths: a `/`, then elements of ASCII letters, digits and `_`, each
/// non-empty and separated by single `/`, with no `/` at the end but for `/` itself.
#[verifier::external_body]
fn is_valid_object_path(s: &str) -> (r: bool)
    ensures
        r == is_object_path(s@),
{
    zbus::zvariant::ObjectPath::try_from(s).is_ok()
}

/// Which device classes, and whether screen capture, a session is asked for.
#[derive(Clone, Copy, Debug, PartialEq, Eq, Structural)]
pub struct RemoteDesktopBuilder {
    pub enable_keyboard: bool,
    pub enable_pointer: bool,
    pub enable_screencast: bool,
}

/// The device classes that a builder asks for, as a device-type bitfield.
pub open spec fn requested_devices(b: RemoteDesktopBuilder) -> u32 {
    (if b.enable_keyboard { DEVICE_KEYBOARD } else { 0u32 }) | (if b.enable_pointer {
        DEVICE_POINTER
    } else {
        0u32
    })
}

/// The devices to select: the requested classes that the portal offers.
pub open spec fn selected_mask(b: RemoteDesktopBuilder, available: u32) -> u32 {
    requested_devices(b) & available
}

impl RemoteDesktopBuilder {
    /// Asks for nothing yet.
    pub fn new() -> (r: Self)
        ensures
            !r.enable_keyboard,
            !r.enable_pointer,
            !r.enable_screencast,
    {
        RemoteDesktopBuilder { enable_keyboard: false, enable_pointer: false, enable_screencast: false }
    }

    pub fn keyboard(self, enable: bool) -> (r: Self)
        ensures
            r == (RemoteDesktopBuilder { enable_keyboard: enable, ..self }),
    {
        RemoteDesktopBuilder { enable_keyboard: enable, ..self }
    }

    pub fn pointer(self, enable: bool) -> (r: Self)
        ensures
            r == (RemoteDesktopBuilder { enable_pointer: enable, ..self }),
    {
        RemoteDesktopBuilder { enable_pointer: enable, ..self }
    }

    pub fn screencast(self, enable: bool) -> (r: Self)
        ensures
            r == (RemoteDesktopBuilder { enable_screencast: enable, ..self }),
    {
        RemoteDesktopBuilder { enable_screencast: enable, ..self }
    }

    /// The device bitfield to select, given the portal's available device types.
    pub fn device_mask(&self, available: u32) -> (r: u32)
        ensures
            r == selected_mask(*self, available),
    {
        let keyboard: u32 = if self.enable_keyboard { DEVICE_KEYBOARD } else { 0 };
        let pointer: u32 = if self.enable_pointer { DEVICE_POINTER } else { 0 };
        (keyboard | pointer) & available
    }
}

impl Default for RemoteDesktopBuilder {
    fn default() -> (r: Self)
        ensures
            !r.enable_keyboard,
            !r.enable_pointer,
            !r.enable_screencast,
    {
        RemoteDesktopBuilder::new()
    }
}

/// A request that the caller sends to the portal.
#[derive(Debug)]
pub enum PortalRequest {
    /// `SelectDevices` with the `types` option.
    SelectDevices { session_handle: String, types: u32 },
    /// The screen-cast `SelectSources` with the `types` and `multiple` options.
    SelectSources { session_handle: String, types: u32, multiple: bool },
    /// `Start` with an empty parent-window hint and the `devices` option.
    Start { session_handle: String, devices: u32 },
}

/// The `Response` signal of a portal request: its status and what the caller read
/// from its results.
#[derive(Debug)]
pub struct PortalResponse {
    pub code: u32,
    pub session_handle: Option<String>,
    pub streams: Vec<u32>,
}

/// A started session.
#[derive(Debug)]
pub struct RemoteSession {
    pub session_handle: String,
    pub device_mask: u32,
    pub screencast: bool,
    /// The node identifiers of the capture streams that `Start` reported.
    pub streams: Vec<u32>,
}

/// What the caller does next.
#[derive(Debug)]
pub enum SessionStep {
    Send(PortalRequest),
    Ready(RemoteSession),
    Failed(InputError),
    /// The negotiation is over; nothing is sent any more.
    Finished,
}

#[derive(Clone, Copy, Debug, PartialEq, Eq, Structural)]
pub enum Phase {
    AwaitingSession,
    AwaitingDevices,
    AwaitingSources,
    AwaitingStart,
    Ready,
    Failed,
}

/// The state of one negotiation.
pub struct SessionNegotiation {
    pub builder: RemoteDesktopBuilder,
    pub available: u32,
    pub phase: Phase,
    pub session_handle: String,
}

impl SessionNegotiation {
    /// A negotiation whose `CreateSession` request has been sent; `available` is
    /// the portal's `AvailableDeviceTypes`.
    pub fn begin(builder: RemoteDesktopBuilder, available: u32) -> (r: SessionNegotiation)
        ensures
            r.builder == builder,
            r.available == available,
            r.phase == Phase::AwaitingSession,
    {
        SessionNegotiation { builder, available, phase: Phase::AwaitingSession, session_handle: String::new() }
    }

    pub open spec fn mask(&self) -> u32 {
        selected_mask(self.builder, self.available)
    }

    /// Takes the response to the request last sent and says what comes next. Any
    /// non-zero status ends the negotiation with `SessionRejected`; after the end
    /// nothing more is sent.
    pub fn on_response(&mut self, resp: PortalResponse) -> (r: SessionStep)
        ensures
            final(self).builder == old(self).builder,
            final(self).available == old(self).available,
            match old(self).phase {
                Phase::Ready | Phase::Failed => r is Finished && final(self).phase == old(self).phase,
                _ => if resp.code != 0 {
                    r == SessionStep::Failed(InputError::SessionRejected) && final(self).phase == Phase::Failed
                } else {
                    match old(self).phase {
                        Phase::AwaitingSession => match resp.session_handle {
                            None => r == SessionStep::Failed(InputError::MalformedResponse)
                                && final(self).phase == Phase::Failed,
                            Some(h) => if !is_object_path(h@) {
                                r == SessionStep::Failed(InputError::MalformedResponse)
                                    && final(self).phase == Phase::Failed
                            } else if old(self).mask() == 0 {
                                r == SessionStep::Failed(InputError::NoSupportedDevices)
                                    && final(self).phase == Phase::Failed
                            } else {
                                final(self).phase == Phase::AwaitingDevices
                                    && final(self).session_handle == h
                                    && r == SessionStep::Send(PortalRequest::SelectDevices {
                                        session_handle: h,
                                        types: old(self).mask(),
                                    })
                            },
                        },
                        Phase::AwaitingDevices => final(self).session_handle == old(self).session_handle && if old(self).builder.enable_screencast {
                            final(self).phase == Phase::AwaitingSources
                                && r == SessionStep::Send(PortalRequest::SelectSources {
                                    session_handle: old(self).session_handle,
                                    types: SOURCE_MONITOR,
                                    multiple: true,
                                })
                        } else {
                            final(self).phase == Phase::AwaitingStart
                                && r == SessionStep::Send(PortalRequest::Start {
                                    session_handle: old(self).session_handle,
                                    devices: old(self).mask(),
                                })
                        },
                        Phase::AwaitingSources => final(self).session_handle == old(self).session_handle
                            && final(self).phase == Phase::AwaitingStart
                            && r == SessionStep::Send(PortalRequest::Start {
                                session_handle: old(self).session_handle,
                                devices: old(self).mask(),
                            }),
                        _ => final(self).phase == Phase::Ready && r == SessionStep::Ready(RemoteSession {
                            session_handle: old(self).session_handle,
                            device_mask: old(self).mask(),
                            screencast: old(self).builder.enable_screencast,
                            streams: resp.streams,
                        }),
                    }
                },
            },
    {
        match self.phase {
            Phase::Ready | Phase::Failed => {
                return SessionStep::Finished;
            },
            _ => {},
        }
        if resp.code != 0 {
            self.phase = Phase::Failed;
            return SessionStep::Failed(InputError::SessionRejected);
        }
        let mask = self.builder.device_mask(self.available);
        match self.phase {
            Phase::AwaitingSession => match resp.session_handle {
                None => {
                    self.phase = Phase::Failed;
                    SessionStep::Failed(InputError::MalformedResponse)
                },
                Some(h) => {
                    if !is_valid_object_path(h.as_str()) {
                        self.phase = Phase::Failed;
                        SessionStep::Failed(InputError::MalformedResponse)
                    } else if mask == 0 {
                        self.phase = Phase::Failed;
                        SessionStep::Failed(InputError::NoSupportedDevices)
                    } else {
                        self.phase = Phase::AwaitingDevices;
                        self.session_handle = h.clone();
                        SessionStep::Send(PortalRequest::SelectDevices { session_handle: h, types: mask })
                    }
                },
            },
            Phase::AwaitingDevices => {
                if self.builder.enable_screencast {
                    self.phase = Phase::AwaitingSources;
                    SessionStep::Send(PortalRequest::SelectSources {
                        session_handle: self.session_handle.clone(),
                        types: SOURCE_MONITOR,
                        multiple: true,
                    })
                } else {
                    self.phase = Phase::AwaitingStart;
                    SessionStep::Send(PortalRequest::Start {
                        session_handle: self.session_handle.clone(),
                        devices: mask,
                    })
                }
            },
            Phase::AwaitingSources => {
                self.phase = Phase::AwaitingStart;
                SessionStep::Send(PortalRequest::Start {
                    session_handle: self.session_handle.clone(),
                    devices: mask,
                })
            },
            _ => {
                self.phase = Phase::Ready;
                SessionStep::Ready(RemoteSession {
                    session_handle: self.session_handle.clone(),
                    device_mask: mask,
                    screencast: self.builder.enable_screencast,
                    streams: resp.streams,
                })
            },
        }
    }
}

} // verus!
