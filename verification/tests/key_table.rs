use events_loop::events::VirtualKeyCode;
use events_loop::keycodes::to_virtual_key_code;

#[test]
fn key_table_total_and_deterministic_0_127() {
    for code in 0u16..=127u16 {
        let first = to_virtual_key_code(code);
        let second = to_virtual_key_code(code);
        assert_eq!(first, second);
    }
}

#[test]
fn key_table_known_codes() {
    assert_eq!(to_virtual_key_code(0x00), Some(VirtualKeyCode::A));
    assert_eq!(to_virtual_key_code(0x06), Some(VirtualKeyCode::Z));
    assert_eq!(to_virtual_key_code(0x12), Some(VirtualKeyCode::Key1));
    assert_eq!(to_virtual_key_code(0x24), Some(VirtualKeyCode::Return));
    assert_eq!(to_virtual_key_code(0x31), Some(VirtualKeyCode::Space));
    assert_eq!(to_virtual_key_code(0x38), Some(VirtualKeyCode::LShift));
    assert_eq!(to_virtual_key_code(0x7a), Some(VirtualKeyCode::F1));
    assert_eq!(to_virtual_key_code(0x7e), Some(VirtualKeyCode::Up));
}

#[test]
fn key_table_unmapped_codes_give_none() {
    assert_eq!(to_virtual_key_code(0x0a), None);
    assert_eq!(to_virtual_key_code(0x34), None);
    assert_eq!(to_virtual_key_code(0x39), None);
    assert_eq!(to_virtual_key_code(0x7f), None);
    assert_eq!(to_virtual_key_code(0x100), None);
    assert_eq!(to_virtual_key_code(u16::MAX), None);
}
