use events_loop::callback::{EventSink, StoppingSink, UserCallback};
use events_loop::driver::{EventsLoop, RunOutcome};
use events_loop::events::{
    ElementState, Event, MouseButton, VirtualKeyCode, WindowEvent, WindowId,
};
use events_loop::native::{NativeButton, NativeEvent, NativeEventKind, NativeSource};

fn tagged(window_id: u64, event: WindowEvent) -> Event {
    Event::WindowEvent { window_id: WindowId(window_id), event }
}

fn key_down_ab() -> NativeEvent {
    NativeEvent {
        window: Some(7),
        kind: NativeEventKind::KeyDown { key_code: 0x00, text: vec!['a', 'b'] },
    }
}

fn left_down() -> NativeEvent {
    NativeEvent { window: Some(7), kind: NativeEventKind::MouseDown { button: NativeButton::Left } }
}

#[test]
fn poll_with_nothing_pending_invokes_nothing() {
    let mut el = EventsLoop::new();
    let mut src = NativeSource::new();
    let mut sink = EventSink::new();
    el.poll_events(&mut src, &mut sink);
    assert_eq!(sink.events.len(), 0);
    assert!(!el.user_callback.installed);
    assert!(el.pending_events.is_empty());
}

#[test]
fn poll_dispatches_one_native_event_in_full_order() {
    let mut el = EventsLoop::new();
    let mut src = NativeSource::new();
    src.enqueue(key_down_ab());
    let mut sink = EventSink::new();
    el.poll_events(&mut src, &mut sink);
    assert_eq!(
        sink.events,
        vec![
            tagged(7, WindowEvent::ReceivedCharacter('a')),
            tagged(7, WindowEvent::ReceivedCharacter('b')),
            tagged(
                7,
                WindowEvent::KeyboardInput(ElementState::Pressed, 0x00, Some(VirtualKeyCode::A))
            ),
        ]
    );
    assert!(el.pending_events.is_empty());
    assert!(src.queue.is_empty());
}

#[test]
fn poll_drains_overflow_before_the_next_native_event() {
    let mut el = EventsLoop::new();
    let mut src = NativeSource::new();
    src.enqueue(key_down_ab());
    src.enqueue(left_down());
    let mut sink = EventSink::new();
    el.poll_events(&mut src, &mut sink);
    assert_eq!(
        sink.events,
        vec![
            tagged(7, WindowEvent::ReceivedCharacter('a')),
            tagged(7, WindowEvent::ReceivedCharacter('b')),
            tagged(
                7,
                WindowEvent::KeyboardInput(ElementState::Pressed, 0x00, Some(VirtualKeyCode::A))
            ),
            tagged(7, WindowEvent::MouseInput(ElementState::Pressed, MouseButton::Left)),
        ]
    );
}

#[test]
fn poll_continues_past_untranslated_events() {
    let mut el = EventsLoop::new();
    let mut src = NativeSource::new();
    src.enqueue(NativeEvent { window: None, kind: NativeEventKind::Unclassified { raw_type: 99 } });
    src.enqueue(left_down());
    let mut sink = EventSink::new();
    el.poll_events(&mut src, &mut sink);
    // the untranslated event dispatches nothing but does not end the poll:
    // both events are consumed (and forwarded), the second one dispatched
    assert_eq!(
        sink.events,
        vec![tagged(7, WindowEvent::MouseInput(ElementState::Pressed, MouseButton::Left))]
    );
    assert!(src.queue.is_empty());
    assert_eq!(src.forwarded.len(), 2);
}

#[test]
fn poll_returns_only_when_the_fetch_reports_empty() {
    let mut el = EventsLoop::new();
    let mut src = NativeSource::new();
    // an unresolved mouse move translates to nothing; the key-up behind it
    // must still be fetched and dispatched in the same poll
    src.enqueue(NativeEvent {
        window: Some(9),
        kind: NativeEventKind::MouseMoved { x_milli: 0, y_milli: 0 },
    });
    src.enqueue(NativeEvent { window: Some(9), kind: NativeEventKind::KeyUp { key_code: 0x06 } });
    let mut sink = EventSink::new();
    el.poll_events(&mut src, &mut sink);
    assert_eq!(
        sink.events,
        vec![tagged(
            9,
            WindowEvent::KeyboardInput(ElementState::Released, 0x06, Some(VirtualKeyCode::Z))
        )]
    );
    assert!(src.queue.is_empty());
}

#[test]
fn run_forever_consumes_everything_then_would_block() {
    let mut el = EventsLoop::new();
    let mut src = NativeSource::new();
    src.enqueue(left_down());
    src.enqueue(NativeEvent {
        window: Some(7),
        kind: NativeEventKind::MouseUp { button: NativeButton::Left },
    });
    let mut sink = EventSink::new();
    let (outcome, _consumed) = el.run_forever(&mut src, &mut sink);
    assert_eq!(outcome, RunOutcome::WouldBlock);
    assert_eq!(
        sink.events,
        vec![
            tagged(7, WindowEvent::MouseInput(ElementState::Pressed, MouseButton::Left)),
            tagged(7, WindowEvent::MouseInput(ElementState::Released, MouseButton::Left)),
        ]
    );
    assert!(src.queue.is_empty());
    assert!(!el.interrupted);
    assert!(!el.user_callback.installed);
}

#[test]
fn run_forever_interrupt_from_callback_returns_without_losing_events() {
    let mut el = EventsLoop::new();
    let mut src = NativeSource::new();
    src.enqueue(key_down_ab());
    src.enqueue(left_down());
    // ask for an interrupt after the very first invocation
    let mut sink = StoppingSink::new(1);
    let (outcome, _consumed) = el.run_forever(&mut src, &mut sink);
    assert_eq!(outcome, RunOutcome::Interrupted);
    assert_eq!(sink.events, vec![tagged(7, WindowEvent::ReceivedCharacter('a'))]);
    assert!(!el.interrupted);
    // nothing is lost: the rest of the key press is still owed, the second
    // native event and the posted wake are still queued
    assert_eq!(el.pending_events.len(), 2);
    assert_eq!(src.queue.len(), 2);

    // a later poll picks up exactly where the run left off
    let mut rest = EventSink::new();
    el.poll_events(&mut src, &mut rest);
    assert_eq!(
        rest.events,
        vec![
            tagged(7, WindowEvent::ReceivedCharacter('b')),
            tagged(
                7,
                WindowEvent::KeyboardInput(ElementState::Pressed, 0x00, Some(VirtualKeyCode::A))
            ),
            tagged(7, WindowEvent::MouseInput(ElementState::Pressed, MouseButton::Left)),
            tagged(0, WindowEvent::Awakened),
        ]
    );
    assert!(src.queue.is_empty());
}

#[test]
fn interrupt_posts_wake_and_a_fresh_run_clears_the_flag() {
    let mut el = EventsLoop::new();
    let mut src = NativeSource::new();
    el.interrupt(&mut src);
    assert!(el.interrupted);
    assert_eq!(src.queue.len(), 1);

    // the run clears the stale flag on entry, dispatches the wake as a
    // harmless awakened notification, and keeps going until the queue is dry
    let mut sink = EventSink::new();
    let (outcome, _consumed) = el.run_forever(&mut src, &mut sink);
    assert_eq!(outcome, RunOutcome::WouldBlock);
    assert_eq!(sink.events, vec![tagged(0, WindowEvent::Awakened)]);
    assert!(!el.interrupted);
}

#[test]
fn interrupt_is_idempotent_in_effect() {
    let mut el = EventsLoop::new();
    let mut src = NativeSource::new();
    el.interrupt(&mut src);
    el.interrupt(&mut src);
    assert!(el.interrupted);
    assert_eq!(src.queue.len(), 2);
    let mut sink = EventSink::new();
    let (outcome, _consumed) = el.run_forever(&mut src, &mut sink);
    assert_eq!(outcome, RunOutcome::WouldBlock);
    // each extra wake only produces one extra harmless notification
    assert_eq!(
        sink.events,
        vec![tagged(0, WindowEvent::Awakened), tagged(0, WindowEvent::Awakened)]
    );
}

#[test]
fn callback_guard_is_occupied_only_around_an_invocation() {
    let mut guard = UserCallback::new();
    assert!(!guard.installed);
    guard.store();
    assert!(guard.installed);
    let mut sink = EventSink::new();
    let stop = guard.call_with_event(&mut sink, tagged(1, WindowEvent::MouseEntered));
    assert!(!stop);
    assert!(guard.installed);
    assert_eq!(sink.events, vec![tagged(1, WindowEvent::MouseEntered)]);
    guard.uninstall();
    assert!(!guard.installed);
}

#[test]
fn sink_requests_stop_at_its_threshold() {
    let mut guard = UserCallback::new();
    guard.store();
    let mut sink = StoppingSink::new(2);
    assert!(!guard.call_with_event(&mut sink, tagged(1, WindowEvent::MouseEntered)));
    assert!(guard.call_with_event(&mut sink, tagged(1, WindowEvent::MouseLeft)));
    guard.uninstall();
}

#[test]
fn windows_register_append_only() {
    let mut el = EventsLoop::new();
    assert_eq!(el.windows.len(), 0);
    el.register_window(events_loop::native::Window {
        id: 1,
        scale_milli: 1000,
        view_origin_x_milli: 0,
        view_origin_y_milli: 0,
        view_height_milli: 100_000,
        screen_origin_x_milli: 0,
        screen_origin_y_milli: 0,
        is_key: false,
    });
    assert_eq!(el.windows.len(), 1);
    assert_eq!(el.windows[0].id, 1);
}
