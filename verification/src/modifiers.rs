//! The modifier state tracker: four tracked booleans, one per modifier key,
//! converting the level-triggered native modifier flags into edge-triggered
//! press/release events. Applied in a fixed order — shift, control, meta
//! (command), alt — each native flags notification produces at most one event
//! per modifier.

use vstd::prelude::*;

use crate::events::{ElementState, VirtualKeyCode, WindowEvent};
use crate::native::ModifierFlags;

verus! {

/// The tracked state of the four modifier keys: whether each was last seen
/// pressed.
#[derive(Clone, Copy, PartialEq, Eq, Structural, Debug)]
pub struct Modifiers {
    pub shift_pressed: bool,
    pub ctrl_pressed: bool,
    pub win_pressed: bool,
    pub alt_pressed: bool,
}

impl Modifiers {
    /// The initial state: nothing pressed.
    pub fn new() -> (r: Self)
        ensures
            r == (Modifiers {
                shift_pressed: false,
                ctrl_pressed: false,
                win_pressed: false,
                alt_pressed: false,
            }),
    {
        Modifiers { shift_pressed: false, ctrl_pressed: false, win_pressed: false, alt_pressed: false }
    }
}

/// The raw scan code a synthesized modifier key event carries: the native
/// code truncated to a byte.
pub open spec fn code_byte(code: u16) -> u8 {
    (code % 256) as u8
}

/// Executable counterpart of [`code_byte`].
pub fn code_byte_exec(code: u16) -> (r: u8)
    ensures
        r == code_byte(code),
{
    let byte: u8 = #[verifier::truncate] (code as u8);
    proof {
        assert(byte == (code % 256) as u8) by (bit_vector)
            requires
                byte == code as u8,
        ;
    }
    byte
}

/// The edge decision for one modifier: a press event when the native level
/// says pressed but the tracked state says not, a release event in the
/// opposite case, nothing when the two agree. On emission the tracked bit
/// flips, so the new tracked state always equals the native level.
pub open spec fn spec_modifier_event(
    level: bool,
    was_pressed: bool,
    key: VirtualKeyCode,
    code: u16,
) -> Option<WindowEvent> {
    if !was_pressed && level {
        Some(WindowEvent::KeyboardInput(ElementState::Pressed, code_byte(code), Some(key)))
    } else if was_pressed && !level {
        Some(WindowEvent::KeyboardInput(ElementState::Released, code_byte(code), Some(key)))
    } else {
        None
    }
}

/// Executable counterpart of [`spec_modifier_event`].
pub fn modifier_event(level: bool, was_pressed: bool, key: VirtualKeyCode, code: u16) -> (r: Option<
    WindowEvent,
>)
    ensures
        r == spec_modifier_event(level, was_pressed, key, code),
{
    let byte: u8 = code_byte_exec(code);
    if !was_pressed && level {
        Some(WindowEvent::KeyboardInput(ElementState::Pressed, byte, Some(key)))
    } else if was_pressed && !level {
        Some(WindowEvent::KeyboardInput(ElementState::Released, byte, Some(key)))
    } else {
        None
    }
}

/// The tracked state after a flags-changed notification: each tracked bit
/// flips exactly when an edge was emitted for it, so it ends equal to the
/// native level.
pub open spec fn spec_mods_after_flags(m: Modifiers, f: ModifierFlags) -> Modifiers {
    Modifiers {
        shift_pressed: f.shift,
        ctrl_pressed: f.control,
        win_pressed: f.command,
        alt_pressed: f.alternate,
    }
}

/// The native levels a tracked state corresponds to.
pub open spec fn levels_of(m: Modifiers) -> ModifierFlags {
    ModifierFlags {
        shift: m.shift_pressed,
        control: m.ctrl_pressed,
        command: m.win_pressed,
        alternate: m.alt_pressed,
    }
}

} // verus!
