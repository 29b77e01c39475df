//! The virtual key code table: a pure, total lookup from a native hardware
//! scan code to the normalized symbolic key, `None` for unmapped codes.

use vstd::prelude::*;

use crate::events::VirtualKeyCode;

verus! {

/// The key table as a mathematical function: total over all scan codes and
/// deterministic by construction. Codes without a normalized key map to
/// `None`; the translator still emits a keyboard event for them, carrying the
/// raw code, so callers can fall back to raw-code handling.
///
/// Opaque: callers reason through [`to_virtual_key_code`]'s contract; proofs
/// about particular codes reveal the table.
#[verifier::opaque]
pub open spec fn key_for(code: u16) -> Option<VirtualKeyCode> {
    match code {
        0x00u16 => Some(VirtualKeyCode::A),
        0x01u16 => Some(VirtualKeyCode::S),
        0x02u16 => Some(VirtualKeyCode::D),
        0x03u16 => Some(VirtualKeyCode::F),
        0x04u16 => Some(VirtualKeyCode::H),
        0x05u16 => Some(VirtualKeyCode::G),
        0x06u16 => Some(VirtualKeyCode::Z),
        0x07u16 => Some(VirtualKeyCode::X),
        0x08u16 => Some(VirtualKeyCode::C),
        0x09u16 => Some(VirtualKeyCode::V),
        0x0bu16 => Some(VirtualKeyCode::B),
        0x0cu16 => Some(VirtualKeyCode::Q),
        0x0du16 => Some(VirtualKeyCode::W),
        0x0eu16 => Some(VirtualKeyCode::E),
        0x0fu16 => Some(VirtualKeyCode::R),
        0x10u16 => Some(VirtualKeyCode::Y),
        0x11u16 => Some(VirtualKeyCode::T),
        0x12u16 => Some(VirtualKeyCode::Key1),
        0x13u16 => Some(VirtualKeyCode::Key2),
        0x14u16 => Some(VirtualKeyCode::Key3),
        0x15u16 => Some(VirtualKeyCode::Key4),
        0x16u16 => Some(VirtualKeyCode::Key6),
        0x17u16 => Some(VirtualKeyCode::Key5),
        0x18u16 => Some(VirtualKeyCode::Equals),
        0x19u16 => Some(VirtualKeyCode::Key9),
        0x1au16 => Some(VirtualKeyCode::Key7),
        0x1bu16 => Some(VirtualKeyCode::Minus),
        0x1cu16 => Some(VirtualKeyCode::Key8),
        0x1du16 => Some(VirtualKeyCode::Key0),
        0x1eu16 => Some(VirtualKeyCode::RBracket),
        0x1fu16 => Some(VirtualKeyCode::O),
        0x20u16 => Some(VirtualKeyCode::U),
        0x21u16 => Some(VirtualKeyCode::LBracket),
        0x22u16 => Some(VirtualKeyCode::I),
        0x23u16 => Some(VirtualKeyCode::P),
        0x24u16 => Some(VirtualKeyCode::Return),
        0x25u16 => Some(VirtualKeyCode::L),
        0x26u16 => Some(VirtualKeyCode::J),
        0x27u16 => Some(VirtualKeyCode::Apostrophe),
        0x28u16 => Some(VirtualKeyCode::K),
        0x29u16 => Some(VirtualKeyCode::Semicolon),
        0x2au16 => Some(VirtualKeyCode::Backslash),
        0x2bu16 => Some(VirtualKeyCode::Comma),
        0x2cu16 => Some(VirtualKeyCode::Slash),
        0x2du16 => Some(VirtualKeyCode::N),
        0x2eu16 => Some(VirtualKeyCode::M),
        0x2fu16 => Some(VirtualKeyCode::Period),
        0x30u16 => Some(VirtualKeyCode::Tab),
        0x31u16 => Some(VirtualKeyCode::Space),
        0x32u16 => Some(VirtualKeyCode::Grave),
        0x33u16 => Some(VirtualKeyCode::Back),
        0x35u16 => Some(VirtualKeyCode::Escape),
        0x36u16 => Some(VirtualKeyCode::RWin),
        0x37u16 => Some(VirtualKeyCode::LWin),
        0x38u16 => Some(VirtualKeyCode::LShift),
        0x3bu16 => Some(VirtualKeyCode::LControl),
        0x3cu16 => Some(VirtualKeyCode::RShift),
        0x3eu16 => Some(VirtualKeyCode::RControl),
        0x41u16 => Some(VirtualKeyCode::Decimal),
        0x43u16 => Some(VirtualKeyCode::Multiply),
        0x45u16 => Some(VirtualKeyCode::Add),
        0x47u16 => Some(VirtualKeyCode::Numlock),
        0x49u16 => Some(VirtualKeyCode::VolumeUp),
        0x4au16 => Some(VirtualKeyCode::VolumeDown),
        0x4bu16 => Some(VirtualKeyCode::Divide),
        0x4cu16 => Some(VirtualKeyCode::NumpadEnter),
        0x4eu16 => Some(VirtualKeyCode::Subtract),
        0x51u16 => Some(VirtualKeyCode::NumpadEquals),
        0x52u16 => Some(VirtualKeyCode::Numpad0),
        0x53u16 => Some(VirtualKeyCode::Numpad1),
        0x54u16 => Some(VirtualKeyCode::Numpad2),
        0x55u16 => Some(VirtualKeyCode::Numpad3),
        0x56u16 => Some(VirtualKeyCode::Numpad4),
        0x57u16 => Some(VirtualKeyCode::Numpad5),
        0x58u16 => Some(VirtualKeyCode::Numpad6),
        0x59u16 => Some(VirtualKeyCode::Numpad7),
        0x5bu16 => Some(VirtualKeyCode::Numpad8),
        0x5cu16 => Some(VirtualKeyCode::Numpad9),
        0x60u16 => Some(VirtualKeyCode::F5),
        0x61u16 => Some(VirtualKeyCode::F6),
        0x62u16 => Some(VirtualKeyCode::F7),
        0x63u16 => Some(VirtualKeyCode::F3),
        0x64u16 => Some(VirtualKeyCode::F8),
        0x65u16 => Some(VirtualKeyCode::F9),
        0x67u16 => Some(VirtualKeyCode::F11),
        0x69u16 => Some(VirtualKeyCode::F13),
        0x6bu16 => Some(VirtualKeyCode::F14),
        0x6du16 => Some(VirtualKeyCode::F10),
        0x6fu16 => Some(VirtualKeyCode::F12),
        0x71u16 => Some(VirtualKeyCode::F15),
        0x72u16 => Some(VirtualKeyCode::Insert),
        0x73u16 => Some(VirtualKeyCode::Home),
        0x74u16 => Some(VirtualKeyCode::PageUp),
        0x75u16 => Some(VirtualKeyCode::Delete),
        0x76u16 => Some(VirtualKeyCode::F4),
        0x77u16 => Some(VirtualKeyCode::End),
        0x78u16 => Some(VirtualKeyCode::F2),
        0x79u16 => Some(VirtualKeyCode::PageDown),
        0x7au16 => Some(VirtualKeyCode::F1),
        0x7bu16 => Some(VirtualKeyCode::Left),
        0x7cu16 => Some(VirtualKeyCode::Right),
        0x7du16 => Some(VirtualKeyCode::Down),
        0x7eu16 => Some(VirtualKeyCode::Up),
        _ => None,
    }
}

/// Looks up the symbolic key for a native hardware scan code. A pure function
/// of the code alone: total over the whole code space and deterministic.
#[verifier::rlimit(60)]
pub fn to_virtual_key_code(code: u16) -> (r: Option<VirtualKeyCode>)
    ensures
        r == key_for(code),
{
    proof {
        reveal(key_for);
    }
    match code {
        0x00u16 => Some(VirtualKeyCode::A),
        0x01u16 => Some(VirtualKeyCode::S),
        0x02u16 => Some(VirtualKeyCode::D),
        0x03u16 => Some(VirtualKeyCode::F),
        0x04u16 => Some(VirtualKeyCode::H),
        0x05u16 => Some(VirtualKeyCode::G),
        0x06u16 => Some(VirtualKeyCode::Z),
        0x07u16 => Some(VirtualKeyCode::X),
        0x08u16 => Some(VirtualKeyCode::C),
        0x09u16 => Some(VirtualKeyCode::V),
        0x0bu16 => Some(VirtualKeyCode::B),
        0x0cu16 => Some(VirtualKeyCode::Q),
        0x0du16 => Some(VirtualKeyCode::W),
        0x0eu16 => Some(VirtualKeyCode::E),
        0x0fu16 => Some(VirtualKeyCode::R),
        0x10u16 => Some(VirtualKeyCode::Y),
        0x11u16 => Some(VirtualKeyCode::T),
        0x12u16 => Some(VirtualKeyCode::Key1),
        0x13u16 => Some(VirtualKeyCode::Key2),
        0x14u16 => Some(VirtualKeyCode::Key3),
        0x15u16 => Some(VirtualKeyCode::Key4),
        0x16u16 => Some(VirtualKeyCode::Key6),
        0x17u16 => Some(VirtualKeyCode::Key5),
        0x18u16 => Some(VirtualKeyCode::Equals),
        0x19u16 => Some(VirtualKeyCode::Key9),
        0x1au16 => Some(VirtualKeyCode::Key7),
        0x1bu16 => Some(VirtualKeyCode::Minus),
        0x1cu16 => Some(VirtualKeyCode::Key8),
        0x1du16 => Some(VirtualKeyCode::Key0),
        0x1eu16 => Some(VirtualKeyCode::RBracket),
        0x1fu16 => Some(VirtualKeyCode::O),
        0x20u16 => Some(VirtualKeyCode::U),
        0x21u16 => Some(VirtualKeyCode::LBracket),
        0x22u16 => Some(VirtualKeyCode::I),
        0x23u16 => Some(VirtualKeyCode::P),
        0x24u16 => Some(VirtualKeyCode::Return),
        0x25u16 => Some(VirtualKeyCode::L),
        0x26u16 => Some(VirtualKeyCode::J),
        0x27u16 => Some(VirtualKeyCode::Apostrophe),
        0x28u16 => Some(VirtualKeyCode::K),
        0x29u16 => Some(VirtualKeyCode::Semicolon),
        0x2au16 => Some(VirtualKeyCode::Backslash),
        0x2bu16 => Some(VirtualKeyCode::Comma),
        0x2cu16 => Some(VirtualKeyCode::Slash),
        0x2du16 => Some(VirtualKeyCode::N),
        0x2eu16 => Some(VirtualKeyCode::M),
        0x2fu16 => Some(VirtualKeyCode::Period),
        0x30u16 => Some(VirtualKeyCode::Tab),
        0x31u16 => Some(VirtualKeyCode::Space),
        0x32u16 => Some(VirtualKeyCode::Grave),
        0x33u16 => Some(VirtualKeyCode::Back),
        0x35u16 => Some(VirtualKeyCode::Escape),
        0x36u16 => Some(VirtualKeyCode::RWin),
        0x37u16 => Some(VirtualKeyCode::LWin),
        0x38u16 => Some(VirtualKeyCode::LShift),
        0x3bu16 => Some(VirtualKeyCode::LControl),
        0x3cu16 => Some(VirtualKeyCode::RShift),
        0x3eu16 => Some(VirtualKeyCode::RControl),
        0x41u16 => Some(VirtualKeyCode::Decimal),
        0x43u16 => Some(VirtualKeyCode::Multiply),
        0x45u16 => Some(VirtualKeyCode::Add),
        0x47u16 => Some(VirtualKeyCode::Numlock),
        0x49u16 => Some(VirtualKeyCode::VolumeUp),
        0x4au16 => Some(VirtualKeyCode::VolumeDown),
        0x4bu16 => Some(VirtualKeyCode::Divide),
        0x4cu16 => Some(VirtualKeyCode::NumpadEnter),
        0x4eu16 => Some(VirtualKeyCode::Subtract),
        0x51u16 => Some(VirtualKeyCode::NumpadEquals),
        0x52u16 => Some(VirtualKeyCode::Numpad0),
        0x53u16 => Some(VirtualKeyCode::Numpad1),
        0x54u16 => Some(VirtualKeyCode::Numpad2),
        0x55u16 => Some(VirtualKeyCode::Numpad3),
        0x56u16 => Some(VirtualKeyCode::Numpad4),
        0x57u16 => Some(VirtualKeyCode::Numpad5),
        0x58u16 => Some(VirtualKeyCode::Numpad6),
        0x59u16 => Some(VirtualKeyCode::Numpad7),
        0x5bu16 => Some(VirtualKeyCode::Numpad8),
        0x5cu16 => Some(VirtualKeyCode::Numpad9),
        0x60u16 => Some(VirtualKeyCode::F5),
        0x61u16 => Some(VirtualKeyCode::F6),
        0x62u16 => Some(VirtualKeyCode::F7),
        0x63u16 => Some(VirtualKeyCode::F3),
        0x64u16 => Some(VirtualKeyCode::F8),
        0x65u16 => Some(VirtualKeyCode::F9),
        0x67u16 => Some(VirtualKeyCode::F11),
        0x69u16 => Some(VirtualKeyCode::F13),
        0x6bu16 => Some(VirtualKeyCode::F14),
        0x6du16 => Some(VirtualKeyCode::F10),
        0x6fu16 => Some(VirtualKeyCode::F12),
        0x71u16 => Some(VirtualKeyCode::F15),
        0x72u16 => Some(VirtualKeyCode::Insert),
        0x73u16 => Some(VirtualKeyCode::Home),
        0x74u16 => Some(VirtualKeyCode::PageUp),
        0x75u16 => Some(VirtualKeyCode::Delete),
        0x76u16 => Some(VirtualKeyCode::F4),
        0x77u16 => Some(VirtualKeyCode::End),
        0x78u16 => Some(VirtualKeyCode::F2),
        0x79u16 => Some(VirtualKeyCode::PageDown),
        0x7au16 => Some(VirtualKeyCode::F1),
        0x7bu16 => Some(VirtualKeyCode::Left),
        0x7cu16 => Some(VirtualKeyCode::Right),
        0x7du16 => Some(VirtualKeyCode::Down),
        0x7eu16 => Some(VirtualKeyCode::Up),
        _ => None,
    }
}

/// Every scan code beyond the highest mapped one resolves to no symbolic key.
pub proof fn lemma_key_for_high_codes(code: u16)
    requires
        code > 0x7e,
    ensures
        key_for(code) is None,
{
    reveal(key_for);
}

} // verus!
