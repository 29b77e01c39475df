//! The event translator: inspects one native event and produces zero, one or
//! many normalized events. The mathematical translation is given first as
//! spec functions; the executable routine is proved to emit exactly that.

use vstd::prelude::*;

use crate::events::{
    ElementState, Event, MouseButton, MouseScrollDelta, TouchPhase, WindowEvent,
    spec_into_event,
};
use crate::keycodes::key_for;
use crate::modifiers::{
    Modifiers, code_byte, spec_modifier_event, spec_mods_after_flags,
};
use crate::native::{
    ModifierFlags, NativeButton, NativeEvent, NativeEventKind, NativePhase, NativeSource,
    NativeSubtype, RESERVED_EVENT_TYPE, Window,
};

verus! {

/// The window identity a native event is tagged with: the originating
/// window's, or the reserved identity `0` when it has none.
pub open spec fn origin_id(e: NativeEvent) -> u64 {
    match e.window {
        Some(i) => i,
        None => 0u64,
    }
}

/// An optional window event, tagged, as a sequence of zero or one events.
pub open spec fn opt_event(wid: u64, o: Option<WindowEvent>) -> Seq<Event> {
    match o {
        Some(we) => seq![spec_into_event(wid, we)],
        None => Seq::empty(),
    }
}

/// One "character received" event per Unicode scalar of the decoded text, in
/// arrival order.
pub open spec fn char_events(wid: u64, text: Seq<char>) -> Seq<Event>
    decreases text.len(),
{
    if text.len() == 0 {
        Seq::empty()
    } else {
        char_events(wid, text.drop_last()).push(
            spec_into_event(wid, WindowEvent::ReceivedCharacter(text.last())),
        )
    }
}

/// What a key press produces: the character events for its text, then one
/// "keyboard input: pressed" event carrying the raw code and the symbolic key
/// the table resolves it to.
pub open spec fn key_down_events(wid: u64, code: u16, text: Seq<char>) -> Seq<Event> {
    char_events(wid, text).push(
        spec_into_event(
            wid,
            WindowEvent::KeyboardInput(ElementState::Pressed, code_byte(code), key_for(code)),
        ),
    )
}

/// What a flags-changed notification produces: at most one edge event per
/// modifier, in the fixed order shift, control, meta, alt.
pub open spec fn flags_events(wid: u64, m: Modifiers, f: ModifierFlags, code: u16) -> Seq<Event> {
    opt_event(wid, spec_modifier_event(f.shift, m.shift_pressed, crate::events::VirtualKeyCode::LShift, code))
        + opt_event(wid, spec_modifier_event(f.control, m.ctrl_pressed, crate::events::VirtualKeyCode::LControl, code))
        + opt_event(wid, spec_modifier_event(f.command, m.win_pressed, crate::events::VirtualKeyCode::LWin, code))
        + opt_event(wid, spec_modifier_event(f.alternate, m.alt_pressed, crate::events::VirtualKeyCode::LAlt, code))
}

/// The first registered window with this native identity.
pub open spec fn find_window(ws: Seq<Window>, id: u64) -> Option<Window>
    decreases ws.len(),
{
    if ws.len() == 0 {
        None
    } else if ws[0].id == id {
        Some(ws[0])
    } else {
        find_window(ws.skip(1), id)
    }
}

/// The first registered window that currently holds input focus.
pub open spec fn find_key_window(ws: Seq<Window>) -> Option<Window>
    decreases ws.len(),
{
    if ws.len() == 0 {
        None
    } else if ws[0].is_key {
        Some(ws[0])
    } else {
        find_key_window(ws.skip(1))
    }
}

/// The window a mouse move is routed to: the originating native window if it
/// is registered, else whichever registered window holds focus, else none.
pub open spec fn resolve_mouse_window(ws: Seq<Window>, origin: Option<u64>) -> Option<Window> {
    let direct = match origin {
        Some(i) => find_window(ws, i),
        None => None,
    };
    if direct is Some {
        direct
    } else {
        find_key_window(ws)
    }
}

/// Truncating division of the product `s * v` by `d`: the integer the
/// platform's real-valued scaling rounds toward zero to. `s` and `d` are
/// nonnegative.
pub open spec fn trunc_scale(s: int, v: int, d: int) -> int {
    if v >= 0 {
        (s * v) / d
    } else {
        -((s * -v) / d)
    }
}

/// A point carried by a native event, moved into a window's content-view
/// coordinate space: points of window-less events are in screen space and go
/// through the window's screen origin first; then the view origin is taken
/// off. A point owned by some window is read in `w`'s window space — exact
/// when `w` is the owner; when the owner is unregistered and the move fell
/// back to the focused window, the owner's geometry is unknown, so the glue
/// must pre-convert such points to screen space and drop the owner (see
/// [`NativeEvent`](crate::native::NativeEvent)).
pub open spec fn view_point_x(w: Window, origin: Option<u64>, x: int) -> int {
    (if origin is None {
        x - w.screen_origin_x_milli
    } else {
        x
    }) - w.view_origin_x_milli
}

/// See [`view_point_x`].
pub open spec fn view_point_y(w: Window, origin: Option<u64>, y: int) -> int {
    (if origin is None {
        y - w.screen_origin_y_milli
    } else {
        y
    }) - w.view_origin_y_milli
}

/// The DPI-scaled pixel position of a mouse move within its resolved window.
/// The Y axis is flipped: view space has its origin at the bottom left, the
/// normalized event reports from the top left.
pub open spec fn mouse_pixels(w: Window, origin: Option<u64>, x: int, y: int) -> (int, int) {
    (
        trunc_scale(w.scale_milli as int, view_point_x(w, origin, x), 1_000_000),
        trunc_scale(
            w.scale_milli as int,
            w.view_height_milli - view_point_y(w, origin, y),
            1_000_000,
        ),
    )
}

/// What a mouse move or drag produces: one "mouse moved" event tied to the
/// resolved window's identity, or nothing when no window resolves.
pub open spec fn mouse_moved_events(ws: Seq<Window>, origin: Option<u64>, x: int, y: int) -> Seq<
    Event,
> {
    match resolve_mouse_window(ws, origin) {
        None => Seq::empty(),
        Some(w) => {
            let (px, py) = mouse_pixels(w, origin, x, y);
            seq![spec_into_event(w.id, WindowEvent::MouseMoved(px as i64, py as i64))]
        },
    }
}

/// The normalized scroll phase: begin-like native phases start a gesture, the
/// end phase ends it, everything else continues it.
pub open spec fn phase_of(p: NativePhase) -> TouchPhase {
    match p {
        NativePhase::MayBegin => TouchPhase::Started,
        NativePhase::Began => TouchPhase::Started,
        NativePhase::Ended => TouchPhase::Ended,
        _ => TouchPhase::Moved,
    }
}

/// What a scroll produces: routed strictly by originating window (no focus
/// fallback); both axes DPI-scaled; pixel deltas when the device reports
/// precise ones, line deltas otherwise.
pub open spec fn scroll_events(
    ws: Seq<Window>,
    origin: Option<u64>,
    dx: int,
    dy: int,
    precise: bool,
    phase: NativePhase,
) -> Seq<Event> {
    let target = match origin {
        Some(i) => find_window(ws, i),
        None => None,
    };
    match target {
        None => Seq::empty(),
        Some(w) => {
            let sdx = trunc_scale(w.scale_milli as int, dx, 1000) as i64;
            let sdy = trunc_scale(w.scale_milli as int, dy, 1000) as i64;
            let delta = if precise {
                MouseScrollDelta::PixelDelta(sdx, sdy)
            } else {
                MouseScrollDelta::LineDelta(sdx, sdy)
            };
            seq![spec_into_event(w.id, WindowEvent::MouseWheel(delta, phase_of(phase)))]
        },
    }
}

/// The normalized identity of a native mouse button; buttons other than the
/// two primary ones are reported as the middle button.
pub open spec fn button_of(b: NativeButton) -> MouseButton {
    match b {
        NativeButton::Left => MouseButton::Left,
        NativeButton::Right => MouseButton::Right,
        NativeButton::Other => MouseButton::Middle,
    }
}

/// Whether this is the undocumented native event type that is filtered out
/// defensively: treated as no event and not forwarded.
pub open spec fn is_reserved(e: NativeEvent) -> bool {
    match e.kind {
        NativeEventKind::Unclassified { raw_type } => raw_type == RESERVED_EVENT_TYPE,
        _ => false,
    }
}

/// Whether the native event is also handed to the native default dispatcher:
/// everything except a key press — which the translator fully owns, to avoid
/// double handling — and the defensively filtered reserved type.
pub open spec fn forwards(e: NativeEvent) -> bool {
    !(e.kind is KeyDown) && !is_reserved(e)
}

/// The full ordered sequence of normalized events one native event produces,
/// given the tracked modifier state and the window registry.
pub open spec fn step_events(m: Modifiers, ws: Seq<Window>, e: NativeEvent) -> Seq<Event> {
    let wid = origin_id(e);
    match e.kind {
        NativeEventKind::KeyDown { key_code, text } => key_down_events(wid, key_code, text@),
        NativeEventKind::KeyUp { key_code } => seq![
            spec_into_event(
                wid,
                WindowEvent::KeyboardInput(
                    ElementState::Released,
                    code_byte(key_code),
                    key_for(key_code),
                ),
            ),
        ],
        NativeEventKind::FlagsChanged { key_code, flags } => flags_events(wid, m, flags, key_code),
        NativeEventKind::MouseDown { button } => seq![
            spec_into_event(wid, WindowEvent::MouseInput(ElementState::Pressed, button_of(button))),
        ],
        NativeEventKind::MouseUp { button } => seq![
            spec_into_event(
                wid,
                WindowEvent::MouseInput(ElementState::Released, button_of(button)),
            ),
        ],
        NativeEventKind::MouseEntered => seq![spec_into_event(wid, WindowEvent::MouseEntered)],
        NativeEventKind::MouseExited => seq![spec_into_event(wid, WindowEvent::MouseLeft)],
        NativeEventKind::MouseMoved { x_milli, y_milli } => mouse_moved_events(
            ws,
            e.window,
            x_milli as int,
            y_milli as int,
        ),
        NativeEventKind::MouseDragged { x_milli, y_milli, .. } => mouse_moved_events(
            ws,
            e.window,
            x_milli as int,
            y_milli as int,
        ),
        NativeEventKind::ScrollWheel { dx_milli, dy_milli, precise, phase } => scroll_events(
            ws,
            e.window,
            dx_milli as int,
            dy_milli as int,
            precise,
            phase,
        ),
        NativeEventKind::Pressure { pressure_milli, stage } => seq![
            spec_into_event(wid, WindowEvent::TouchpadPressure(pressure_milli, stage)),
        ],
        NativeEventKind::AppDefined { subtype } => match subtype {
            NativeSubtype::ApplicationActivated => seq![
                spec_into_event(wid, WindowEvent::Awakened),
            ],
            NativeSubtype::OtherSubtype => Seq::empty(),
        },
        NativeEventKind::Unclassified { .. } => Seq::empty(),
    }
}

/// The tracked modifier state after one native event: only a flags-changed
/// notification moves it, and it moves to the native levels.
pub open spec fn step_mods(m: Modifiers, e: NativeEvent) -> Modifiers {
    match e.kind {
        NativeEventKind::FlagsChanged { flags, .. } => spec_mods_after_flags(m, flags),
        _ => m,
    }
}

/// Finds the first registered window with this native identity.
pub fn find_window_by_id(ws: &Vec<Window>, id: u64) -> (r: Option<Window>)
    ensures
        r == find_window(ws@, id),
{
    proof {
        assert(ws@.skip(0) =~= ws@);
    }
    let mut i: usize = 0;
    while i < ws.len()
        invariant
            0 <= i <= ws@.len(),
            find_window(ws@, id) == find_window(ws@.skip(i as int), id),
        decreases ws@.len() - i,
    {
        if ws[i].id == id {
            assert(ws@.skip(i as int)[0] == ws@[i as int]);
            return Some(ws[i]);
        }
        assert(ws@.skip(i as int).skip(1) =~= ws@.skip(i as int + 1));
        i += 1;
    }
    None
}

/// Finds the first registered window that currently holds input focus.
pub fn find_focused_window(ws: &Vec<Window>) -> (r: Option<Window>)
    ensures
        r == find_key_window(ws@),
{
    proof {
        assert(ws@.skip(0) =~= ws@);
    }
    let mut i: usize = 0;
    while i < ws.len()
        invariant
            0 <= i <= ws@.len(),
            find_key_window(ws@) == find_key_window(ws@.skip(i as int)),
        decreases ws@.len() - i,
    {
        if ws[i].is_key {
            assert(ws@.skip(i as int)[0] == ws@[i as int]);
            return Some(ws[i]);
        }
        assert(ws@.skip(i as int).skip(1) =~= ws@.skip(i as int + 1));
        i += 1;
    }
    None
}

/// Scales a fixed-point value by a nonnegative fixed-point factor and divides
/// out `d`, truncating toward zero — the integer the platform's real-valued
/// scaling truncates to.
pub fn scale_div(s: i64, v: i64, d: u64) -> (r: i64)
    requires
        0 <= s <= crate::native::COORD_BOUND,
        -(4 * crate::native::COORD_BOUND as int) <= v <= 4 * crate::native::COORD_BOUND as int,
        1 <= d,
    ensures
        r == trunc_scale(s as int, v as int, d as int),
{
    if v >= 0 {
        proof {
            assert(0 <= (s as int) * (v as int) <= 0x2000_0000 * 0x8000_0000) by (nonlinear_arith)
                requires
                    0 <= s as int <= 0x2000_0000,
                    0 <= v as int <= 0x8000_0000,
            ;
        }
        let p: i64 = s * v;
        proof {
            assert((p as u64) as int / (d as int) <= p);
        }
        ((p as u64) / d) as i64
    } else {
        let nv: i64 = -v;
        proof {
            assert(0 <= (s as int) * (nv as int) <= 0x2000_0000 * 0x8000_0000) by (nonlinear_arith)
                requires
                    0 <= s as int <= 0x2000_0000,
                    0 <= nv as int <= 0x8000_0000,
            ;
        }
        let p: i64 = s * nv;
        proof {
            assert((p as u64) as int / (d as int) <= p);
        }
        -(((p as u64) / d) as i64)
    }
}

/// A window found by identity is one of the registered windows.
pub proof fn lemma_find_window_in(ws: Seq<Window>, id: u64)
    ensures
        find_window(ws, id) matches Some(w) ==> exists|i: int|
            0 <= i < ws.len() && ws[i] == w,
    decreases ws.len(),
{
    if ws.len() > 0 && ws[0].id != id {
        lemma_find_window_in(ws.skip(1), id);
        if find_window(ws, id) is Some {
            let w = find_window(ws, id)->Some_0;
            let i = choose|i: int| 0 <= i < ws.skip(1).len() && ws.skip(1)[i] == w;
            assert(ws[i + 1] == w);
        }
    }
}

/// A window found by focus is one of the registered windows.
pub proof fn lemma_find_key_window_in(ws: Seq<Window>)
    ensures
        find_key_window(ws) matches Some(w) ==> exists|i: int|
            0 <= i < ws.len() && ws[i] == w,
    decreases ws.len(),
{
    if ws.len() > 0 && !ws[0].is_key {
        lemma_find_key_window_in(ws.skip(1));
        if find_key_window(ws) is Some {
            let w = find_key_window(ws)->Some_0;
            let i = choose|i: int| 0 <= i < ws.skip(1).len() && ws.skip(1)[i] == w;
            assert(ws[i + 1] == w);
        }
    }
}

/// Builds the normalized events of a key press: one character event per
/// Unicode scalar of the decoded text, then the keyboard event.
fn build_key_down(wid: u64, key_code: u16, text: &Vec<char>) -> (evs: Vec<Event>)
    ensures
        evs@ == key_down_events(wid, key_code, text@),
{
    let mut evs: Vec<Event> = Vec::new();
    let mut j: usize = 0;
    while j < text.len()
        invariant
            0 <= j <= text@.len(),
            evs@ == char_events(wid, text@.take(j as int)),
        decreases text@.len() - j,
    {
        evs.push(crate::events::into_event(wid, WindowEvent::ReceivedCharacter(text[j])));
        proof {
            assert(text@.take(j as int + 1).drop_last() =~= text@.take(j as int));
            assert(text@.take(j as int + 1).last() == text@[j as int]);
        }
        j += 1;
    }
    proof {
        assert(text@.take(text@.len() as int) =~= text@);
    }
    let vkey = crate::keycodes::to_virtual_key_code(key_code);
    let byte = crate::modifiers::code_byte_exec(key_code);
    evs.push(
        crate::events::into_event(
            wid,
            WindowEvent::KeyboardInput(ElementState::Pressed, byte, vkey),
        ),
    );
    evs
}

/// Applies a flags-changed notification to the tracked modifier state,
/// building the edge events it produces in the fixed order.
fn apply_flags(m: &mut Modifiers, wid: u64, key_code: u16, flags: ModifierFlags) -> (evs: Vec<
    Event,
>)
    ensures
        evs@ == flags_events(wid, *old(m), flags, key_code),
        *final(m) == spec_mods_after_flags(*old(m), flags),
{
    let mut evs: Vec<Event> = Vec::new();
    if let Some(we) = crate::modifiers::modifier_event(
        flags.shift,
        m.shift_pressed,
        crate::events::VirtualKeyCode::LShift,
        key_code,
    ) {
        m.shift_pressed = !m.shift_pressed;
        evs.push(crate::events::into_event(wid, we));
    }
    if let Some(we) = crate::modifiers::modifier_event(
        flags.control,
        m.ctrl_pressed,
        crate::events::VirtualKeyCode::LControl,
        key_code,
    ) {
        m.ctrl_pressed = !m.ctrl_pressed;
        evs.push(crate::events::into_event(wid, we));
    }
    if let Some(we) = crate::modifiers::modifier_event(
        flags.command,
        m.win_pressed,
        crate::events::VirtualKeyCode::LWin,
        key_code,
    ) {
        m.win_pressed = !m.win_pressed;
        evs.push(crate::events::into_event(wid, we));
    }
    if let Some(we) = crate::modifiers::modifier_event(
        flags.alternate,
        m.alt_pressed,
        crate::events::VirtualKeyCode::LAlt,
        key_code,
    ) {
        m.alt_pressed = !m.alt_pressed;
        evs.push(crate::events::into_event(wid, we));
    }
    proof {
        assert(evs@ =~= flags_events(wid, *old(m), flags, key_code));
    }
    evs
}

/// Resolves and converts a mouse move or drag: the originating window if
/// registered, else the focused window, else nothing; the point moved into
/// the resolved window's content view, DPI-scaled and Y-flipped.
fn build_mouse_moved(ws: &Vec<Window>, origin: Option<u64>, x: i64, y: i64) -> (evs: Vec<Event>)
    requires
        forall|i: int| 0 <= i < ws@.len() ==> #[trigger] ws@[i].wf(),
        -crate::native::COORD_BOUND <= x <= crate::native::COORD_BOUND,
        -crate::native::COORD_BOUND <= y <= crate::native::COORD_BOUND,
    ensures
        evs@ == mouse_moved_events(ws@, origin, x as int, y as int),
{
    let mut evs: Vec<Event> = Vec::new();
    let direct = match origin {
        Some(i) => find_window_by_id(ws, i),
        None => None,
    };
    let target = match direct {
        Some(w) => Some(w),
        None => find_focused_window(ws),
    };
    if let Some(w) = target {
        proof {
            if origin is Some {
                lemma_find_window_in(ws@, origin->Some_0);
            }
            lemma_find_key_window_in(ws@);
            assert(w.wf());
        }
        let sx: i64 = if origin.is_none() {
            x - w.screen_origin_x_milli
        } else {
            x
        };
        let vx: i64 = sx - w.view_origin_x_milli;
        let sy: i64 = if origin.is_none() {
            y - w.screen_origin_y_milli
        } else {
            y
        };
        let vy: i64 = sy - w.view_origin_y_milli;
        let px: i64 = scale_div(w.scale_milli, vx, 1_000_000);
        let py: i64 = scale_div(w.scale_milli, w.view_height_milli - vy, 1_000_000);
        evs.push(crate::events::into_event(w.id, WindowEvent::MouseMoved(px, py)));
        proof {
            assert(evs@ =~= mouse_moved_events(ws@, origin, x as int, y as int));
        }
    }
    evs
}

/// Resolves and converts a scroll: strictly by originating window, both axes
/// DPI-scaled, pixel or line deltas by the device's precision, phase
/// normalized.
fn build_scroll(
    ws: &Vec<Window>,
    origin: Option<u64>,
    dx: i64,
    dy: i64,
    precise: bool,
    phase: NativePhase,
) -> (evs: Vec<Event>)
    requires
        forall|i: int| 0 <= i < ws@.len() ==> #[trigger] ws@[i].wf(),
        -crate::native::COORD_BOUND <= dx <= crate::native::COORD_BOUND,
        -crate::native::COORD_BOUND <= dy <= crate::native::COORD_BOUND,
    ensures
        evs@ == scroll_events(ws@, origin, dx as int, dy as int, precise, phase),
{
    let mut evs: Vec<Event> = Vec::new();
    let target = match origin {
        Some(i) => find_window_by_id(ws, i),
        None => None,
    };
    if let Some(w) = target {
        proof {
            if origin is Some {
                lemma_find_window_in(ws@, origin->Some_0);
            }
            assert(w.wf());
        }
        let sdx: i64 = scale_div(w.scale_milli, dx, 1000);
        let sdy: i64 = scale_div(w.scale_milli, dy, 1000);
        let delta = if precise {
            MouseScrollDelta::PixelDelta(sdx, sdy)
        } else {
            MouseScrollDelta::LineDelta(sdx, sdy)
        };
        let ph = match phase {
            NativePhase::MayBegin => TouchPhase::Started,
            NativePhase::Began => TouchPhase::Started,
            NativePhase::Ended => TouchPhase::Ended,
            _ => TouchPhase::Moved,
        };
        evs.push(crate::events::into_event(w.id, WindowEvent::MouseWheel(delta, ph)));
        proof {
            assert(evs@ =~= scroll_events(ws@, origin, dx as int, dy as int, precise, phase));
        }
    }
    evs
}

impl crate::driver::EventsLoop {
    /// Returns the first of the given events and pushes the rest, in order,
    /// onto the pending queue — the ordered overflow of a multi-event native
    /// event; `None` when there are none.
    fn emit_first(&mut self, evs: &Vec<Event>) -> (r: Option<Event>)
        ensures
            r == (if evs@.len() == 0 {
                None::<Event>
            } else {
                Some(evs@[0])
            }),
            final(self).pending_events@ == (if evs@.len() == 0 {
                old(self).pending_events@
            } else {
                old(self).pending_events@ + evs@.skip(1)
            }),
            final(self).windows@ == old(self).windows@,
            final(self).modifiers == old(self).modifiers,
            final(self).interrupted == old(self).interrupted,
            final(self).user_callback == old(self).user_callback,
    {
        if evs.len() == 0 {
            return None;
        }
        let mut j: usize = 1;
        proof {
            assert(self.pending_events@ + evs@.subrange(1, 1) =~= self.pending_events@);
        }
        while j < evs.len()
            invariant
                1 <= j <= evs@.len(),
                self.pending_events@ == old(self).pending_events@ + evs@.subrange(1, j as int),
                self.windows@ == old(self).windows@,
                self.modifiers == old(self).modifiers,
                self.interrupted == old(self).interrupted,
                self.user_callback == old(self).user_callback,
            decreases evs@.len() - j,
        {
            self.pending_events.push_back(evs[j]);
            proof {
                assert(evs@.subrange(1, j as int).push(evs@[j as int]) =~= evs@.subrange(
                    1,
                    j as int + 1,
                ));
            }
            j += 1;
        }
        proof {
            assert(evs@.subrange(1, evs@.len() as int) =~= evs@.skip(1));
        }
        Some(evs[0])
    }

    /// Translates one fetched native event into its normalized events: the
    /// first is returned, the rest go to the pending queue in order, the
    /// tracked modifier state moves, and — except for a key press and the
    /// defensively filtered reserved type — the event is handed on to the
    /// native default dispatcher.
    #[verifier::spinoff_prover]
    #[verifier::rlimit(100)]
    pub fn ns_event_to_event(&mut self, source: &mut NativeSource, ns_event: NativeEvent) -> (r:
        Option<Event>)
        requires
            old(self).wf(),
            ns_event.wf(),
            old(source).wf(),
        ensures
            ({
                let evs = step_events(old(self).modifiers, old(self).windows@, ns_event);
                &&& r == (if evs.len() == 0 {
                    None::<Event>
                } else {
                    Some(evs[0])
                })
                &&& final(self).pending_events@ == (if evs.len() == 0 {
                    old(self).pending_events@
                } else {
                    old(self).pending_events@ + evs.skip(1)
                })
                &&& final(self).modifiers == step_mods(old(self).modifiers, ns_event)
                &&& final(self).windows@ == old(self).windows@
                &&& final(self).interrupted == old(self).interrupted
                &&& final(self).user_callback == old(self).user_callback
                &&& final(self).wf()
                &&& final(source).queue@ == old(source).queue@
                &&& final(source).forwarded@ == (if forwards(ns_event) {
                    old(source).forwarded@.push(ns_event)
                } else {
                    old(source).forwarded@
                })
                &&& final(source).wf()
            }),
    {
        let ghost m0 = self.modifiers;
        let ghost ws0 = self.windows@;
        let wid: u64 = match ns_event.window {
            Some(i) => i,
            None => 0,
        };
        let reserved: bool = match &ns_event.kind {
            NativeEventKind::Unclassified { raw_type } => *raw_type == RESERVED_EVENT_TYPE,
            _ => false,
        };
        let fwd: bool = match &ns_event.kind {
            NativeEventKind::KeyDown { .. } => false,
            _ => !reserved,
        };
        let evs: Vec<Event> = match &ns_event.kind {
            NativeEventKind::KeyDown { key_code, text } => build_key_down(wid, *key_code, text),
            NativeEventKind::KeyUp { key_code } => {
                let vkey = crate::keycodes::to_virtual_key_code(*key_code);
                let byte = crate::modifiers::code_byte_exec(*key_code);
                let mut evs: Vec<Event> = Vec::new();
                evs.push(
                    crate::events::into_event(
                        wid,
                        WindowEvent::KeyboardInput(ElementState::Released, byte, vkey),
                    ),
                );
                evs
            },
            NativeEventKind::FlagsChanged { key_code, flags } => apply_flags(
                &mut self.modifiers,
                wid,
                *key_code,
                *flags,
            ),
            NativeEventKind::MouseDown { button } => {
                let b = match button {
                    NativeButton::Left => MouseButton::Left,
                    NativeButton::Right => MouseButton::Right,
                    NativeButton::Other => MouseButton::Middle,
                };
                let mut evs: Vec<Event> = Vec::new();
                evs.push(
                    crate::events::into_event(
                        wid,
                        WindowEvent::MouseInput(ElementState::Pressed, b),
                    ),
                );
                evs
            },
            NativeEventKind::MouseUp { button } => {
                let b = match button {
                    NativeButton::Left => MouseButton::Left,
                    NativeButton::Right => MouseButton::Right,
                    NativeButton::Other => MouseButton::Middle,
                };
                let mut evs: Vec<Event> = Vec::new();
                evs.push(
                    crate::events::into_event(
                        wid,
                        WindowEvent::MouseInput(ElementState::Released, b),
                    ),
                );
                evs
            },
            NativeEventKind::MouseEntered => {
                let mut evs: Vec<Event> = Vec::new();
                evs.push(crate::events::into_event(wid, WindowEvent::MouseEntered));
                evs
            },
            NativeEventKind::MouseExited => {
                let mut evs: Vec<Event> = Vec::new();
                evs.push(crate::events::into_event(wid, WindowEvent::MouseLeft));
                evs
            },
            NativeEventKind::MouseMoved { x_milli, y_milli } => build_mouse_moved(
                &self.windows,
                ns_event.window,
                *x_milli,
                *y_milli,
            ),
            NativeEventKind::MouseDragged { x_milli, y_milli, .. } => build_mouse_moved(
                &self.windows,
                ns_event.window,
                *x_milli,
                *y_milli,
            ),
            NativeEventKind::ScrollWheel { dx_milli, dy_milli, precise, phase } => build_scroll(
                &self.windows,
                ns_event.window,
                *dx_milli,
                *dy_milli,
                *precise,
                *phase,
            ),
            NativeEventKind::Pressure { pressure_milli, stage } => {
                let mut evs: Vec<Event> = Vec::new();
                evs.push(
                    crate::events::into_event(
                        wid,
                        WindowEvent::TouchpadPressure(*pressure_milli, *stage),
                    ),
                );
                evs
            },
            NativeEventKind::AppDefined { subtype } => {
                let mut evs: Vec<Event> = Vec::new();
                match subtype {
                    NativeSubtype::ApplicationActivated => {
                        evs.push(crate::events::into_event(wid, WindowEvent::Awakened));
                    },
                    NativeSubtype::OtherSubtype => {},
                }
                evs
            },
            NativeEventKind::Unclassified { .. } => Vec::new(),
        };
        proof {
            assert(evs@ =~= step_events(m0, ws0, ns_event));
            assert(self.modifiers == step_mods(m0, ns_event));
        }
        let r = self.emit_first(&evs);
        if fwd {
            source.forward(ns_event);
        }
        r
    }
}

/// Toggling one modifier twice — the native levels flip one bit and flip it
/// back — returns the tracked state to the original and emits exactly a press
/// followed by a release, each carrying the notification's scan code. Stated
/// for the shift key; the tracker treats the four modifiers identically, each
/// through [`spec_modifier_event`] on its own bit.
pub proof fn lemma_modifier_toggle_twice(
    window: Option<u64>,
    ws: Seq<Window>,
    m: Modifiers,
    code: u16,
)
    requires
        !m.shift_pressed,
    ensures
        ({
            let f_on = ModifierFlags { shift: true, ..crate::modifiers::levels_of(m) };
            let f_off = ModifierFlags { shift: false, ..crate::modifiers::levels_of(m) };
            let e_on = NativeEvent {
                window,
                kind: NativeEventKind::FlagsChanged { key_code: code, flags: f_on },
            };
            let e_off = NativeEvent {
                window,
                kind: NativeEventKind::FlagsChanged { key_code: code, flags: f_off },
            };
            let m1 = step_mods(m, e_on);
            let wid = origin_id(e_on);
            &&& step_events(m, ws, e_on) == seq![
                spec_into_event(
                    wid,
                    WindowEvent::KeyboardInput(
                        ElementState::Pressed,
                        code_byte(code),
                        Some(crate::events::VirtualKeyCode::LShift),
                    ),
                ),
            ]
            &&& m1.shift_pressed
            &&& step_events(m1, ws, e_off) == seq![
                spec_into_event(
                    wid,
                    WindowEvent::KeyboardInput(
                        ElementState::Released,
                        code_byte(code),
                        Some(crate::events::VirtualKeyCode::LShift),
                    ),
                ),
            ]
            &&& step_mods(m1, e_off) == m
        }),
{
    let f_on = ModifierFlags { shift: true, ..crate::modifiers::levels_of(m) };
    let f_off = ModifierFlags { shift: false, ..crate::modifiers::levels_of(m) };
    let e_on = NativeEvent {
        window,
        kind: NativeEventKind::FlagsChanged { key_code: code, flags: f_on },
    };
    let e_off = NativeEvent {
        window,
        kind: NativeEventKind::FlagsChanged { key_code: code, flags: f_off },
    };
    let m1 = step_mods(m, e_on);
    let wid = origin_id(e_on);
    let press = spec_into_event(
        wid,
        WindowEvent::KeyboardInput(
            ElementState::Pressed,
            code_byte(code),
            Some(crate::events::VirtualKeyCode::LShift),
        ),
    );
    let release = spec_into_event(
        wid,
        WindowEvent::KeyboardInput(
            ElementState::Released,
            code_byte(code),
            Some(crate::events::VirtualKeyCode::LShift),
        ),
    );
    assert(step_events(m, ws, e_on) =~= seq![press]);
    assert(step_events(m1, ws, e_off) =~= seq![release]);
}

/// A mouse move that resolves to no window — no registered originating
/// window and no focused window — is a defined no-op: it produces nothing and
/// leaves the tracked state untouched, so repeating it changes nothing.
pub proof fn lemma_mouse_move_unresolved(m: Modifiers, ws: Seq<Window>, e: NativeEvent)
    requires
        e.kind matches NativeEventKind::MouseMoved { .. }
            || e.kind matches NativeEventKind::MouseDragged { .. },
        resolve_mouse_window(ws, e.window) is None,
    ensures
        step_events(m, ws, e) == Seq::<Event>::empty(),
        step_mods(m, e) == m,
{
}

} // verus!
