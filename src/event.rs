use vstd::prelude::*;

verus! {

/// The message id that the shell uses to report input on the tray icon.
pub const TRAY_CALLBACK_MSG: u32 = 1025;

pub const WM_LBUTTONDOWN: u32 = 0x0201;
pub const WM_LBUTTONUP: u32 = 0x0202;
pub const WM_RBUTTONDOWN: u32 = 0x0204;
pub const WM_RBUTTONUP: u32 = 0x0205;
pub const WM_MBUTTONDOWN: u32 = 0x0207;
pub const WM_MBUTTONUP: u32 = 0x0208;
pub const WM_XBUTTONDOWN: u32 = 0x020B;
pub const WM_XBUTTONUP: u32 = 0x020C;

#[derive(Clone, Copy, Debug, PartialEq, Eq, Structural)]
pub enum MouseButton {
    Left,
    Right,
    Middle,
    Other(u16),
}

#[derive(Clone, Copy, Debug, PartialEq, Eq, Structural)]
pub enum ElementState {
    Pressed,
    Released,
}

/// Identity of the native window behind a tray icon.
#[derive(Clone, Copy, Debug, PartialEq, Eq, Structural)]
pub struct WindowId(pub isize);

/// A position on the screen, in physical pixels.
#[derive(Clone, Copy, Debug, PartialEq, Eq, Structural)]
pub struct Point {
    pub x: i32,
    pub y: i32,
}

/// Tray input comes from no distinct device: every event carries this one.
#[derive(Clone, Copy, Debug, PartialEq, Eq, Structural)]
pub struct DeviceId;

#[derive(Clone, Copy, Debug, PartialEq, Eq, Structural)]
pub enum WindowEvent {
    CursorMoved { device_id: DeviceId, position: Point },
    MouseInput { device_id: DeviceId, state: ElementState, button: MouseButton },
}

#[derive(Clone, Copy, Debug, PartialEq, Eq, Structural)]
pub struct TrayEvent {
    pub window_id: WindowId,
    pub event: WindowEvent,
}

/// The button and transition that a raw mouse message stands for, if it is one
/// of the recognized ones.
pub open spec fn mouse_transition(raw: u32) -> Option<(MouseButton, ElementState)> {
    if raw == WM_LBUTTONUP {
        Some((MouseButton::Left, ElementState::Released))
    } else if raw == WM_RBUTTONUP {
        Some((MouseButton::Right, ElementState::Released))
    } else if raw == WM_MBUTTONUP {
        Some((MouseButton::Middle, ElementState::Released))
    } else if raw == WM_XBUTTONUP {
        Some((MouseButton::Other(0), ElementState::Released))
    } else if raw == WM_LBUTTONDOWN {
        Some((MouseButton::Left, ElementState::Pressed))
    } else if raw == WM_RBUTTONDOWN {
        Some((MouseButton::Right, ElementState::Pressed))
    } else if raw == WM_MBUTTONDOWN {
        Some((MouseButton::Middle, ElementState::Pressed))
    } else if raw == WM_XBUTTONDOWN {
        Some((MouseButton::Other(0), ElementState::Pressed))
    } else {
        None
    }
}

/// The shell passes the raw mouse message in the low 32 bits of `l_param`.
pub open spec fn raw_mouse_message(l_param: isize) -> u32 {
    l_param as u32
}

/// Maps the `l_param` of a tray callback message to a button transition.
pub fn classify_mouse(l_param: isize) -> (r: Option<(MouseButton, ElementState)>)
    ensures
        r == mouse_transition(raw_mouse_message(l_param)),
{
    let raw = l_param as u32;
    if raw == WM_LBUTTONUP {
        Some((MouseButton::Left, ElementState::Released))
    } else if raw == WM_RBUTTONUP {
        Some((MouseButton::Right, ElementState::Released))
    } else if raw == WM_MBUTTONUP {
        Some((MouseButton::Middle, ElementState::Released))
    } else if raw == WM_XBUTTONUP {
        Some((MouseButton::Other(0), ElementState::Released))
    } else if raw == WM_LBUTTONDOWN {
        Some((MouseButton::Left, ElementState::Pressed))
    } else if raw == WM_RBUTTONDOWN {
        Some((MouseButton::Right, ElementState::Pressed))
    } else if raw == WM_MBUTTONDOWN {
        Some((MouseButton::Middle, ElementState::Pressed))
    } else if raw == WM_XBUTTONDOWN {
        Some((MouseButton::Other(0), ElementState::Pressed))
    } else {
        None
    }
}

/// The events that one button transition at `position` produces: the cursor
/// move first, then the button state change, both for `window`.
pub open spec fn transition_events(
    window: isize,
    button: MouseButton,
    state: ElementState,
    position: Point,
) -> Seq<TrayEvent> {
    seq![
        TrayEvent {
            window_id: WindowId(window),
            event: WindowEvent::CursorMoved { device_id: DeviceId, position },
        },
        TrayEvent {
            window_id: WindowId(window),
            event: WindowEvent::MouseInput { device_id: DeviceId, state, button },
        },
    ]
}

/// What the dispatcher returns for a recognized button message: the events to
/// deliver and the value the window procedure reports as handled.
pub struct MouseOutcome {
    pub events: Vec<TrayEvent>,
    pub result: isize,
}

/// Translates a button transition, given the outcome of the cursor query.
/// Without a cursor position the message is consumed with no event at all.
pub fn mouse_events(
    window: isize,
    button: MouseButton,
    state: ElementState,
    cursor: Option<Point>,
) -> (r: MouseOutcome)
    ensures
        match cursor {
            None => r.events@ == Seq::<TrayEvent>::empty() && r.result == 1,
            Some(p) => r.events@ == transition_events(window, button, state, p) && r.result == 0,
        },
{
    match cursor {
        None => MouseOutcome { events: Vec::new(), result: 1 },
        Some(position) => {
            let mut events: Vec<TrayEvent> = Vec::new();
            events.push(
                TrayEvent {
                    window_id: WindowId(window),
                    event: WindowEvent::CursorMoved { device_id: DeviceId, position },
                },
            );
            events.push(
                TrayEvent {
                    window_id: WindowId(window),
                    event: WindowEvent::MouseInput { device_id: DeviceId, state, button },
                },
            );
            MouseOutcome { events, result: 0 }
        },
    }
}

} // verus!
