//! The normalized event catalog: the closed set of platform-independent
//! events that the translator produces, each tagged with the identity of the
//! window it concerns.
//!
//! Coordinates and deltas are integers. Pixel coordinates of `MouseMoved` are
//! whole pixels; scroll deltas and touchpad pressure are fixed-point values in
//! thousandths of a unit ("milli-units").

use vstd::prelude::*;

verus! {

/// Stable identity of a window, as reported by the native windowing system.
/// Events originating from no window carry the reserved identity `0`.
#[derive(Clone, Copy, PartialEq, Eq, Debug)]
pub struct WindowId(pub u64);

/// Whether a key or button went down or up.
#[derive(Clone, Copy, PartialEq, Eq, Debug)]
pub enum ElementState {
    Pressed,
    Released,
}

/// Identity of a mouse button.
#[derive(Clone, Copy, PartialEq, Eq, Debug)]
pub enum MouseButton {
    Left,
    Right,
    Middle,
}

/// Scroll amount, in milli-units per axis. `LineDelta` counts lines,
/// `PixelDelta` counts pixels (reported when the device gives precise deltas).
#[derive(Clone, Copy, PartialEq, Eq, Debug)]
pub enum MouseScrollDelta {
    LineDelta(i64, i64),
    PixelDelta(i64, i64),
}

/// Phase of a continuous scroll gesture.
#[derive(Clone, Copy, PartialEq, Eq, Debug)]
pub enum TouchPhase {
    Started,
    Moved,
    Ended,
}

/// Symbolic identity of a key, resolved from the hardware scan code.
#[derive(Clone, Copy, PartialEq, Eq, Debug)]
pub enum VirtualKeyCode {
    Key0,
    Key1,
    Key2,
    Key3,
    Key4,
    Key5,
    Key6,
    Key7,
    Key8,
    Key9,
    A,
    B,
    C,
    D,
    E,
    F,
    G,
    H,
    I,
    J,
    K,
    L,
    M,
    N,
    O,
    P,
    Q,
    R,
    S,
    T,
    U,
    V,
    W,
    X,
    Y,
    Z,
    F1,
    F2,
    F3,
    F4,
    F5,
    F6,
    F7,
    F8,
    F9,
    F10,
    F11,
    F12,
    F13,
    F14,
    F15,
    Escape,
    Return,
    Tab,
    Space,
    Back,
    Insert,
    Home,
    Delete,
    End,
    PageDown,
    PageUp,
    Left,
    Right,
    Down,
    Up,
    Apostrophe,
    Backslash,
    Comma,
    Decimal,
    Divide,
    Equals,
    Grave,
    LBracket,
    RBracket,
    LControl,
    RControl,
    LShift,
    RShift,
    LWin,
    RWin,
    LAlt,
    Minus,
    Multiply,
    Add,
    Subtract,
    Numlock,
    Numpad0,
    Numpad1,
    Numpad2,
    Numpad3,
    Numpad4,
    Numpad5,
    Numpad6,
    Numpad7,
    Numpad8,
    Numpad9,
    NumpadEnter,
    NumpadEquals,
    Period,
    Semicolon,
    Slash,
    VolumeDown,
    VolumeUp,
}

/// An event concerning one window.
#[derive(Clone, Copy, PartialEq, Eq, Debug)]
pub enum WindowEvent {
    /// One Unicode scalar decoded from the printable text of a key press.
    ReceivedCharacter(char),
    /// A key went down or up; carries the raw scan code and the symbolic key
    /// resolved from it, `None` when the code is unmapped.
    KeyboardInput(ElementState, u8, Option<VirtualKeyCode>),
    /// A mouse button went down or up.
    MouseInput(ElementState, MouseButton),
    /// The pointer entered the tracked region.
    MouseEntered,
    /// The pointer left the tracked region.
    MouseLeft,
    /// The pointer moved to these window-relative, DPI-scaled pixel
    /// coordinates (origin top-left).
    MouseMoved(i64, i64),
    /// The scroll wheel moved.
    MouseWheel(MouseScrollDelta, TouchPhase),
    /// Pressure-sensitive input: raw pressure in milli-units and stage.
    TouchpadPressure(i64, i64),
    /// A blocked wait was woken without any input arriving.
    Awakened,
}

/// A normalized event: a window event tagged with the owning window.
#[derive(Clone, Copy, PartialEq, Eq, Debug)]
pub enum Event {
    WindowEvent { window_id: WindowId, event: WindowEvent },
}

/// Tags a window event with the identity of the window it concerns.
pub open spec fn spec_into_event(window_id: u64, event: WindowEvent) -> Event {
    Event::WindowEvent { window_id: WindowId(window_id), event }
}

/// Executable counterpart of [`spec_into_event`].
pub fn into_event(window_id: u64, event: WindowEvent) -> (r: Event)
    ensures
        r == spec_into_event(window_id, event),
{
    Event::WindowEvent { window_id: WindowId(window_id), event }
}

} // verus!
