//! Choice between the native compositor backend and the portal backend, and the
//! requests that each backend sends for a keyboard or pointer operation.

use vstd::prelude::*;
use crate::error::InputError;
use crate::keyboard::{
    lookup_from, KeyDirection, KeyTable, ModifierSnapshot, KEYCODE_OFFSET,
};
use crate::output::{extent_x, extent_y, Outputs};

verus! {

#[derive(Clone, Copy, Debug, PartialEq, Eq, Structural)]
pub enum Backend {
    /// The compositor's own virtual-input extension.
    Native,
    /// The desktop portal's remote-control session.
    Portal,
}

/// What the selector does after one attempt.
#[derive(Clone, Copy, Debug, PartialEq, Eq, Structural)]
pub enum Attempt {
    Try(Backend),
    Use(Backend),
    Unavailable,
}

/// The backend that the selector ends with, given whether each construction
/// succeeds; `None` when neither does.
pub open spec fn selected(force_portal: bool, native_ok: bool, portal_ok: bool) -> Option<Backend> {
    if !force_portal && native_ok {
        Some(Backend::Native)
    } else if portal_ok {
        Some(Backend::Portal)
    } else {
        None
    }
}

/// The first backend to try: the native one unless the portal is forced.
pub fn first_attempt(force_portal: bool) -> (r: Backend)
    ensures
        r == (if force_portal { Backend::Portal } else { Backend::Native }),
{
    if force_portal {
        Backend::Portal
    } else {
        Backend::Native
    }
}

/// The next step after trying `tried`: use it when it was built, fall back from
/// native to portal once, and give up after the portal.
pub fn after_attempt(tried: Backend, succeeded: bool) -> (r: Attempt)
    ensures
        succeeded ==> r == Attempt::Use(tried),
        !succeeded && tried == Backend::Native ==> r == Attempt::Try(Backend::Portal),
        !succeeded && tried == Backend::Portal ==> r == Attempt::Unavailable,
{
    if succeeded {
        Attempt::Use(tried)
    } else {
        match tried {
            Backend::Native => Attempt::Try(Backend::Portal),
            Backend::Portal => Attempt::Unavailable,
        }
    }
}

/// The whole selection for one device class, given whether the native and the
/// portal construction succeed.
pub fn select_backend(force_portal: bool, native_ok: bool, portal_ok: bool) -> (r: Result<Backend, InputError>)
    ensures
        r == (match selected(force_portal, native_ok, portal_ok) {
            Some(b) => Ok::<Backend, InputError>(b),
            None => Err(InputError::BackendUnavailable),
        }),
{
    let first = first_attempt(force_portal);
    let ok = match first {
        Backend::Native => native_ok,
        Backend::Portal => portal_ok,
    };
    match after_attempt(first, ok) {
        Attempt::Use(b) => Ok(b),
        Attempt::Try(b) => {
            let ok2 = match b {
                Backend::Native => native_ok,
                Backend::Portal => portal_ok,
            };
            match after_attempt(b, ok2) {
                Attempt::Use(c) => Ok(c),
                _ => Err(InputError::BackendUnavailable),
            }
        },
        Attempt::Unavailable => Err(InputError::BackendUnavailable),
    }
}

/// The same environment always gives the same choice, and a forced portal is
/// chosen whenever the portal can be built, whatever the compositor offers.
pub proof fn lemma_selection_determined(
    force_portal: bool,
    native_ok: bool,
    portal_ok: bool,
    force_portal2: bool,
    native_ok2: bool,
    portal_ok2: bool,
)
    requires
        force_portal == force_portal2,
        native_ok == native_ok2,
        portal_ok == portal_ok2,
    ensures
        selected(force_portal, native_ok, portal_ok) == selected(force_portal2, native_ok2, portal_ok2),
        force_portal && portal_ok ==> selected(force_portal, native_ok, portal_ok) == Some(Backend::Portal),
        selected(force_portal, native_ok, portal_ok) is None <==> (force_portal || !native_ok) && !portal_ok,
{
}

/// What a keyboard backend sends for one key event.
#[derive(Clone, Copy, Debug, PartialEq, Eq, Structural)]
pub enum KeyboardMessage {
    /// The extension's `key(0, key, state)`, then `modifiers(..)` with the snapshot.
    Native { key: u32, state: u32, modifiers: ModifierSnapshot },
    /// The portal's `NotifyKeyboardKeycode(keycode, state)`.
    Portal { keycode: i32, state: u32 },
}

/// A virtual keyboard: its backend and its character table.
pub struct VirtualKeyboard {
    pub backend: Backend,
    pub table: KeyTable,
}

/// The direction that a raw key state means: 1 presses, anything else releases.
pub open spec fn direction_of(state: u32) -> KeyDirection {
    if state == 1 { KeyDirection::Down } else { KeyDirection::Up }
}

impl VirtualKeyboard {
    pub fn from_wayland(table: KeyTable) -> (r: VirtualKeyboard)
        ensures
            r.backend == Backend::Native,
            r.table == table,
    {
        VirtualKeyboard { backend: Backend::Native, table }
    }

    pub fn from_portal(table: KeyTable) -> (r: VirtualKeyboard)
        ensures
            r.backend == Backend::Portal,
            r.table == table,
    {
        VirtualKeyboard { backend: Backend::Portal, table }
    }

    /// The lowest 0-based key code that types `c`, and whether it needs Shift.
    pub fn keycode_from_char(&self, c: char) -> (r: Option<(u32, bool)>)
        ensures
            r == lookup_from(self.table@, c, 0),
    {
        self.table.reverse_lookup(c)
    }

    /// The update that the modifier state takes for the key with 0-based code
    /// `key` and raw state `state`: the keymap's (8-based) code and the direction.
    /// A code too large for the offset gives none.
    pub fn state_update(&self, key: u32, state: u32) -> (r: Option<(u32, KeyDirection)>)
        ensures
            r == (if key <= u32::MAX - KEYCODE_OFFSET {
                Some(((key + KEYCODE_OFFSET) as u32, direction_of(state)))
            } else {
                None
            }),
    {
        if key <= u32::MAX - KEYCODE_OFFSET {
            let direction = if state == 1 {
                KeyDirection::Down
            } else {
                KeyDirection::Up
            };
            Some((key + KEYCODE_OFFSET, direction))
        } else {
            None
        }
    }

    /// What the backend sends for the key with 0-based code `key`, pressed when
    /// `state` is 1 and released otherwise, once the modifier state has taken
    /// `state_update` and serialized to `modifiers`. The key code goes out as it
    /// came; the portal derives modifiers itself and gets none.
    pub fn key(&self, key: u32, state: u32, modifiers: ModifierSnapshot) -> (r: KeyboardMessage)
        ensures
            r == (match self.backend {
                Backend::Native => KeyboardMessage::Native {
                    key,
                    state: if state == 1 { 1u32 } else { 0u32 },
                    modifiers,
                },
                Backend::Portal => KeyboardMessage::Portal {
                    keycode: key as i32,
                    state: if state == 1 { 1u32 } else { 0u32 },
                },
            }),
    {
        let raw_state: u32 = if state == 1 { 1 } else { 0 };
        match self.backend {
            Backend::Native => KeyboardMessage::Native { key, state: raw_state, modifiers },
            Backend::Portal => KeyboardMessage::Portal { keycode: key as i32, state: raw_state },
        }
    }
}

/// What a pointer backend sends for one operation.
#[derive(Clone, Copy, Debug, PartialEq, Eq, Structural)]
pub enum PointerMessage {
    /// The extension's `button(0, button, state)`, then `frame`.
    NativeButton { button: u32, pressed: bool },
    /// The extension's `motion_absolute(0, x, y, x_extent, y_extent)`, then `frame`.
    NativeMotionAbsolute { x: u32, y: u32, x_extent: u32, y_extent: u32 },
    /// The portal's `NotifyPointerButton(button, state)`.
    PortalButton { code: i32, state: u32 },
    /// The portal's `NotifyPointerMotionAbsolute(stream, x, y)`.
    PortalMotionAbsolute { stream: u32, x: u32, y: u32 },
    /// The portal needs a capture stream first: negotiate one, hand its node
    /// identifier to `stream_ready`, and ask again.
    NegotiateStream,
}

/// The native pointer: absolute positions are scaled against all displays together.
pub struct WaylandPointer {
    pub outputs: Outputs,
}

impl WaylandPointer {
    pub fn new(outputs: Outputs) -> (r: WaylandPointer)
        ensures
            r.outputs == outputs,
    {
        WaylandPointer { outputs }
    }

    pub fn button(&self, button: u32, pressed: bool) -> (r: PointerMessage)
        ensures
            r == (PointerMessage::NativeButton { button, pressed }),
    {
        PointerMessage::NativeButton { button, pressed }
    }

    /// Absolute motion to (x, y), with the bounding extent of all displays as the
    /// extent, never that of one display.
    pub fn motion_absolute(&self, x: u32, y: u32) -> (r: PointerMessage)
        ensures
            r == (PointerMessage::NativeMotionAbsolute {
                x,
                y,
                x_extent: extent_x(self.outputs@) as u32,
                y_extent: extent_y(self.outputs@) as u32,
            }),
    {
        let (w, h) = self.outputs.dimensions();
        PointerMessage::NativeMotionAbsolute { x, y, x_extent: w, y_extent: h }
    }
}

/// The portal pointer: absolute motion needs the node identifier of a capture
/// stream, obtained once and then reused.
pub struct PortalPointer {
    pub stream: Option<u32>,
}

impl PortalPointer {
    pub fn new() -> (r: PortalPointer)
        ensures
            r.stream is None,
    {
        PortalPointer { stream: None }
    }

    pub fn button(&self, button: u32, pressed: bool) -> (r: PointerMessage)
        ensures
            r == (PointerMessage::PortalButton {
                code: button as i32,
                state: if pressed { 1u32 } else { 0u32 },
            }),
    {
        PointerMessage::PortalButton { code: button as i32, state: if pressed { 1 } else { 0 } }
    }

    pub fn motion_absolute(&self, x: u32, y: u32) -> (r: PointerMessage)
        ensures
            r == (match self.stream {
                Some(s) => PointerMessage::PortalMotionAbsolute { stream: s, x, y },
                None => PointerMessage::NegotiateStream,
            }),
    {
        match self.stream {
            Some(s) => PointerMessage::PortalMotionAbsolute { stream: s, x, y },
            None => PointerMessage::NegotiateStream,
        }
    }

    /// Records the node identifier of the negotiated capture stream.
    pub fn stream_ready(&mut self, node_id: u32)
        ensures
            final(self).stream == Some(node_id),
    {
        self.stream = Some(node_id);
    }
}

/// A virtual pointer on one of the two backends.
pub enum VirtualPointer {
    Wayland(WaylandPointer),
    Portal(PortalPointer),
}

impl VirtualPointer {
    /// A native pointer that scales absolute positions against `outputs`.
    pub fn from_wayland(outputs: Outputs) -> (r: VirtualPointer)
        ensures
            r == VirtualPointer::Wayland(WaylandPointer { outputs }),
    {
        VirtualPointer::Wayland(WaylandPointer::new(outputs))
    }

    /// A portal pointer with no capture stream yet.
    pub fn from_portal() -> (r: VirtualPointer)
        ensures
            r == VirtualPointer::Portal(PortalPointer { stream: None }),
    {
        VirtualPointer::Portal(PortalPointer::new())
    }

    pub fn backend(&self) -> (r: Backend)
        ensures
            r == (match self {
                VirtualPointer::Wayland(_) => Backend::Native,
                VirtualPointer::Portal(_) => Backend::Portal,
            }),
    {
        match self {
            VirtualPointer::Wayland(_) => Backend::Native,
            VirtualPointer::Portal(_) => Backend::Portal,
        }
    }

    pub fn button(&self, button: u32, pressed: bool) -> (r: PointerMessage)
        ensures
            r == (match self {
                VirtualPointer::Wayland(_) => PointerMessage::NativeButton { button, pressed },
                VirtualPointer::Portal(_) => PointerMessage::PortalButton {
                    code: button as i32,
                    state: if pressed { 1u32 } else { 0u32 },
                },
            }),
    {
        match self {
            VirtualPointer::Wayland(p) => p.button(button, pressed),
            VirtualPointer::Portal(p) => p.button(button, pressed),
        }
    }

    pub fn motion_absolute(&self, x: u32, y: u32) -> (r: PointerMessage)
        ensures
            r == (match self {
                VirtualPointer::Wayland(p) => PointerMessage::NativeMotionAbsolute {
                    x,
                    y,
                    x_extent: extent_x(p.outputs@) as u32,
                    y_extent: extent_y(p.outputs@) as u32,
                },
                VirtualPointer::Portal(p) => match p.stream {
                    Some(s) => PointerMessage::PortalMotionAbsolute { stream: s, x, y },
                    None => PointerMessage::NegotiateStream,
                },
            }),
    {
        match self {
            VirtualPointer::Wayland(p) => p.motion_absolute(x, y),
            VirtualPointer::Portal(p) => p.motion_absolute(x, y),
        }
    }
}

} // verus!
