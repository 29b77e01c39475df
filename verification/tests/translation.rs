use events_loop::driver::EventsLoop;
use events_loop::events::{
    ElementState, Event, MouseButton, MouseScrollDelta, TouchPhase, VirtualKeyCode, WindowEvent,
    WindowId,
};
use events_loop::native::{
    ModifierFlags, NativeButton, NativeEvent, NativeEventKind, NativePhase, NativeSource,
    NativeSubtype, Window, RESERVED_EVENT_TYPE,
};

fn tagged(window_id: u64, event: WindowEvent) -> Event {
    Event::WindowEvent { window_id: WindowId(window_id), event }
}

fn test_window(id: u64, scale_milli: i64, is_key: bool) -> Window {
    Window {
        id,
        scale_milli,
        view_origin_x_milli: 0,
        view_origin_y_milli: 0,
        view_height_milli: 500_000,
        screen_origin_x_milli: 0,
        screen_origin_y_milli: 0,
        is_key,
    }
}

fn no_flags() -> ModifierFlags {
    ModifierFlags { shift: false, control: false, command: false, alternate: false }
}

#[test]
fn key_down_text_ab_enqueues_in_order() {
    let mut el = EventsLoop::new();
    let mut src = NativeSource::new();
    let ev = NativeEvent {
        window: Some(7),
        kind: NativeEventKind::KeyDown { key_code: 0x00, text: vec!['a', 'b'] },
    };
    let r = el.ns_event_to_event(&mut src, ev);
    assert_eq!(r, Some(tagged(7, WindowEvent::ReceivedCharacter('a'))));
    assert_eq!(
        el.pending_events.pop_front(),
        Some(tagged(7, WindowEvent::ReceivedCharacter('b')))
    );
    assert_eq!(
        el.pending_events.pop_front(),
        Some(tagged(
            7,
            WindowEvent::KeyboardInput(ElementState::Pressed, 0x00, Some(VirtualKeyCode::A))
        ))
    );
    assert_eq!(el.pending_events.pop_front(), None);
}

#[test]
fn key_down_unmapped_code_keeps_raw_code() {
    let mut el = EventsLoop::new();
    let mut src = NativeSource::new();
    let ev = NativeEvent {
        window: Some(1),
        kind: NativeEventKind::KeyDown { key_code: 0x0a, text: vec![] },
    };
    let r = el.ns_event_to_event(&mut src, ev);
    assert_eq!(
        r,
        Some(tagged(1, WindowEvent::KeyboardInput(ElementState::Pressed, 0x0a, None)))
    );
    assert_eq!(el.pending_events.pop_front(), None);
}

#[test]
fn key_up_releases() {
    let mut el = EventsLoop::new();
    let mut src = NativeSource::new();
    let ev = NativeEvent { window: Some(3), kind: NativeEventKind::KeyUp { key_code: 0x06 } };
    let r = el.ns_event_to_event(&mut src, ev);
    assert_eq!(
        r,
        Some(tagged(
            3,
            WindowEvent::KeyboardInput(ElementState::Released, 0x06, Some(VirtualKeyCode::Z))
        ))
    );
}

#[test]
fn modifier_toggle_twice_press_then_release() {
    let mut el = EventsLoop::new();
    let mut src = NativeSource::new();
    let shift_on = ModifierFlags { shift: true, ..no_flags() };
    let ev_on = NativeEvent {
        window: None,
        kind: NativeEventKind::FlagsChanged { key_code: 0x38, flags: shift_on },
    };
    let r = el.ns_event_to_event(&mut src, ev_on);
    assert_eq!(
        r,
        Some(tagged(
            0,
            WindowEvent::KeyboardInput(ElementState::Pressed, 0x38, Some(VirtualKeyCode::LShift))
        ))
    );
    assert_eq!(el.pending_events.pop_front(), None);

    let ev_off = NativeEvent {
        window: None,
        kind: NativeEventKind::FlagsChanged { key_code: 0x38, flags: no_flags() },
    };
    let r = el.ns_event_to_event(&mut src, ev_off);
    assert_eq!(
        r,
        Some(tagged(
            0,
            WindowEvent::KeyboardInput(ElementState::Released, 0x38, Some(VirtualKeyCode::LShift))
        ))
    );

    // back at the original state: the same levels produce nothing
    let ev_same = NativeEvent {
        window: None,
        kind: NativeEventKind::FlagsChanged { key_code: 0x38, flags: no_flags() },
    };
    assert_eq!(el.ns_event_to_event(&mut src, ev_same), None);
}

#[test]
fn two_modifiers_in_one_notification_keep_fixed_order() {
    let mut el = EventsLoop::new();
    let mut src = NativeSource::new();
    let both = ModifierFlags { shift: true, control: true, command: false, alternate: false };
    let ev = NativeEvent {
        window: None,
        kind: NativeEventKind::FlagsChanged { key_code: 0x38, flags: both },
    };
    let r = el.ns_event_to_event(&mut src, ev);
    assert_eq!(
        r,
        Some(tagged(
            0,
            WindowEvent::KeyboardInput(ElementState::Pressed, 0x38, Some(VirtualKeyCode::LShift))
        ))
    );
    assert_eq!(
        el.pending_events.pop_front(),
        Some(tagged(
            0,
            WindowEvent::KeyboardInput(ElementState::Pressed, 0x38, Some(VirtualKeyCode::LControl))
        ))
    );
    assert_eq!(el.pending_events.pop_front(), None);
}

#[test]
fn mouse_buttons_normalize() {
    let mut el = EventsLoop::new();
    let mut src = NativeSource::new();
    let down = NativeEvent {
        window: Some(2),
        kind: NativeEventKind::MouseDown { button: NativeButton::Left },
    };
    assert_eq!(
        el.ns_event_to_event(&mut src, down),
        Some(tagged(2, WindowEvent::MouseInput(ElementState::Pressed, MouseButton::Left)))
    );
    let up = NativeEvent {
        window: Some(2),
        kind: NativeEventKind::MouseUp { button: NativeButton::Other },
    };
    assert_eq!(
        el.ns_event_to_event(&mut src, up),
        Some(tagged(2, WindowEvent::MouseInput(ElementState::Released, MouseButton::Middle)))
    );
}

#[test]
fn mouse_entered_and_left() {
    let mut el = EventsLoop::new();
    let mut src = NativeSource::new();
    let entered = NativeEvent { window: Some(4), kind: NativeEventKind::MouseEntered };
    assert_eq!(
        el.ns_event_to_event(&mut src, entered),
        Some(tagged(4, WindowEvent::MouseEntered))
    );
    let exited = NativeEvent { window: Some(4), kind: NativeEventKind::MouseExited };
    assert_eq!(el.ns_event_to_event(&mut src, exited), Some(tagged(4, WindowEvent::MouseLeft)));
}

#[test]
fn mouse_moved_scales_and_flips_y() {
    let mut el = EventsLoop::new();
    let mut src = NativeSource::new();
    el.register_window(test_window(1, 2000, false));
    // window-space point (100.0, 200.0) in a 500.0-high view at scale 2.0:
    // x = 2.0 * 100.0 = 200 px, y = 2.0 * (500.0 - 200.0) = 600 px
    let ev = NativeEvent {
        window: Some(1),
        kind: NativeEventKind::MouseMoved { x_milli: 100_000, y_milli: 200_000 },
    };
    assert_eq!(
        el.ns_event_to_event(&mut src, ev),
        Some(tagged(1, WindowEvent::MouseMoved(200, 600)))
    );
}

#[test]
fn mouse_dragged_behaves_like_move() {
    let mut el = EventsLoop::new();
    let mut src = NativeSource::new();
    el.register_window(test_window(1, 1000, false));
    let ev = NativeEvent {
        window: Some(1),
        kind: NativeEventKind::MouseDragged {
            button: NativeButton::Left,
            x_milli: 10_000,
            y_milli: 20_000,
        },
    };
    assert_eq!(
        el.ns_event_to_event(&mut src, ev),
        Some(tagged(1, WindowEvent::MouseMoved(10, 480)))
    );
}

#[test]
fn mouse_pixels_truncate_toward_zero() {
    let mut el = EventsLoop::new();
    let mut src = NativeSource::new();
    let mut w = test_window(1, 1500, false);
    w.view_height_milli = 0;
    el.register_window(w);
    // 1.5 * -0.5 = -0.75 points: truncation toward zero gives 0, not -1
    let ev = NativeEvent {
        window: Some(1),
        kind: NativeEventKind::MouseMoved { x_milli: -500, y_milli: 0 },
    };
    assert_eq!(
        el.ns_event_to_event(&mut src, ev),
        Some(tagged(1, WindowEvent::MouseMoved(0, 0)))
    );
}

#[test]
fn mouse_moved_without_window_goes_through_screen_to_focused_window() {
    let mut el = EventsLoop::new();
    let mut src = NativeSource::new();
    let mut w = test_window(5, 1000, true);
    w.screen_origin_x_milli = 50_000;
    w.screen_origin_y_milli = 30_000;
    el.register_window(w);
    // screen point (150.0, 230.0), window at (50.0, 30.0): view point (100.0, 200.0);
    // scale 1.0, view height 500.0: pixels (100, 300), tagged with the focused window
    let ev = NativeEvent {
        window: None,
        kind: NativeEventKind::MouseMoved { x_milli: 150_000, y_milli: 230_000 },
    };
    assert_eq!(
        el.ns_event_to_event(&mut src, ev),
        Some(tagged(5, WindowEvent::MouseMoved(100, 300)))
    );
}

#[test]
fn mouse_moved_unresolved_is_a_noop_repeatedly() {
    let mut el = EventsLoop::new();
    let mut src = NativeSource::new();
    el.register_window(test_window(1, 1000, false));  // registered, but not focused
    let ev = NativeEvent {
        window: Some(99),
        kind: NativeEventKind::MouseMoved { x_milli: 1000, y_milli: 1000 },
    };
    assert_eq!(el.ns_event_to_event(&mut src, ev.clone()), None);
    assert_eq!(el.ns_event_to_event(&mut src, ev.clone()), None);
    assert_eq!(el.ns_event_to_event(&mut src, ev), None);
    assert!(el.pending_events.pop_front().is_none());
}

#[test]
fn scroll_precise_gives_scaled_pixel_delta() {
    let mut el = EventsLoop::new();
    let mut src = NativeSource::new();
    el.register_window(test_window(1, 2000, false));
    // dx = 2.0, dy = -3.0 at scale 2.0: pixel delta (4.0, -6.0)
    let ev = NativeEvent {
        window: Some(1),
        kind: NativeEventKind::ScrollWheel {
            dx_milli: 2000,
            dy_milli: -3000,
            precise: true,
            phase: NativePhase::NoPhase,
        },
    };
    assert_eq!(
        el.ns_event_to_event(&mut src, ev),
        Some(tagged(
            1,
            WindowEvent::MouseWheel(MouseScrollDelta::PixelDelta(4000, -6000), TouchPhase::Moved)
        ))
    );
}

#[test]
fn scroll_imprecise_gives_scaled_line_delta() {
    let mut el = EventsLoop::new();
    let mut src = NativeSource::new();
    el.register_window(test_window(1, 2000, false));
    let ev = NativeEvent {
        window: Some(1),
        kind: NativeEventKind::ScrollWheel {
            dx_milli: 2000,
            dy_milli: -3000,
            precise: false,
            phase: NativePhase::NoPhase,
        },
    };
    assert_eq!(
        el.ns_event_to_event(&mut src, ev),
        Some(tagged(
            1,
            WindowEvent::MouseWheel(MouseScrollDelta::LineDelta(4000, -6000), TouchPhase::Moved)
        ))
    );
}

#[test]
fn scroll_phases_normalize() {
    let mut el = EventsLoop::new();
    let mut src = NativeSource::new();
    el.register_window(test_window(1, 1000, false));
    for (native, normalized) in [
        (NativePhase::MayBegin, TouchPhase::Started),
        (NativePhase::Began, TouchPhase::Started),
        (NativePhase::Ended, TouchPhase::Ended),
        (NativePhase::Changed, TouchPhase::Moved),
        (NativePhase::Stationary, TouchPhase::Moved),
        (NativePhase::Cancelled, TouchPhase::Moved),
        (NativePhase::NoPhase, TouchPhase::Moved),
    ] {
        let ev = NativeEvent {
            window: Some(1),
            kind: NativeEventKind::ScrollWheel {
                dx_milli: 1000,
                dy_milli: 0,
                precise: true,
                phase: native,
            },
        };
        assert_eq!(
            el.ns_event_to_event(&mut src, ev),
            Some(tagged(
                1,
                WindowEvent::MouseWheel(MouseScrollDelta::PixelDelta(1000, 0), normalized)
            ))
        );
    }
}

#[test]
fn scroll_without_owning_window_is_dropped_even_with_focus() {
    let mut el = EventsLoop::new();
    let mut src = NativeSource::new();
    el.register_window(test_window(1, 1000, true));  // focused, but not the origin
    let ev = NativeEvent {
        window: None,
        kind: NativeEventKind::ScrollWheel {
            dx_milli: 1000,
            dy_milli: 1000,
            precise: true,
            phase: NativePhase::NoPhase,
        },
    };
    assert_eq!(el.ns_event_to_event(&mut src, ev), None);
}

#[test]
fn pressure_passes_through_unconverted() {
    let mut el = EventsLoop::new();
    let mut src = NativeSource::new();
    let ev = NativeEvent {
        window: Some(6),
        kind: NativeEventKind::Pressure { pressure_milli: 750, stage: 2 },
    };
    assert_eq!(
        el.ns_event_to_event(&mut src, ev),
        Some(tagged(6, WindowEvent::TouchpadPressure(750, 2)))
    );
}

#[test]
fn app_defined_wake_subtype_awakens() {
    let mut el = EventsLoop::new();
    let mut src = NativeSource::new();
    let ev = NativeEvent {
        window: None,
        kind: NativeEventKind::AppDefined { subtype: NativeSubtype::ApplicationActivated },
    };
    assert_eq!(el.ns_event_to_event(&mut src, ev), Some(tagged(0, WindowEvent::Awakened)));
    let other = NativeEvent {
        window: None,
        kind: NativeEventKind::AppDefined { subtype: NativeSubtype::OtherSubtype },
    };
    assert_eq!(el.ns_event_to_event(&mut src, other), None);
}

#[test]
fn reserved_event_type_is_dropped_and_not_forwarded() {
    let mut el = EventsLoop::new();
    let mut src = NativeSource::new();
    let bogus = NativeEvent {
        window: None,
        kind: NativeEventKind::Unclassified { raw_type: RESERVED_EVENT_TYPE },
    };
    assert_eq!(el.ns_event_to_event(&mut src, bogus), None);
    assert_eq!(src.forwarded.len(), 0);
}

#[test]
fn forwarding_covers_everything_but_key_down_and_reserved() {
    let mut el = EventsLoop::new();
    let mut src = NativeSource::new();
    let key_down = NativeEvent {
        window: None,
        kind: NativeEventKind::KeyDown { key_code: 0, text: vec![] },
    };
    let _ = el.ns_event_to_event(&mut src, key_down);
    assert_eq!(src.forwarded.len(), 0);

    let unknown = NativeEvent { window: None, kind: NativeEventKind::Unclassified { raw_type: 99 } };
    assert_eq!(el.ns_event_to_event(&mut src, unknown.clone()), None);
    assert_eq!(src.forwarded.len(), 1);
    assert_eq!(src.forwarded[0], unknown);

    let down = NativeEvent {
        window: Some(1),
        kind: NativeEventKind::MouseDown { button: NativeButton::Right },
    };
    let _ = el.ns_event_to_event(&mut src, down.clone());
    assert_eq!(src.forwarded.len(), 2);
    assert_eq!(src.forwarded[1], down);
}
