//! A plain-data model of the native side: the native event, the window
//! registry entry, and the native application object (its event queue and its
//! default dispatcher). The platform glue fills these from the real windowing
//! system; everything the translator reads from a native event or a window is
//! carried here as an integer, a boolean or a string of decoded characters.
//!
//! Real-valued quantities are fixed-point integers in thousandths
//! ("milli-units"), bounded by [`COORD_BOUND`] so that the coordinate
//! arithmetic provably stays within machine integers.

use vstd::prelude::*;

verus! {

/// Magnitude bound on every fixed-point coordinate, size, delta and scale
/// factor, in milli-units. Generous for real screens, and small enough that
/// products of two such values (plus small sums) fit comfortably in `i64`.
pub const COORD_BOUND: i64 = 0x2000_0000;

/// The undocumented native event type that the platform produces for an
/// internal system feature. No semantic mapping exists for it; it is filtered
/// out defensively: treated as no event and not handed to the native
/// dispatcher.
pub const RESERVED_EVENT_TYPE: u64 = 21;

/// Level state of the four modifier keys, as the native flags report them.
#[derive(Clone, Copy, PartialEq, Eq, Structural, Debug)]
pub struct ModifierFlags {
    pub shift: bool,
    pub control: bool,
    pub command: bool,
    pub alternate: bool,
}

/// Which physical mouse button a native button event concerns.
#[derive(Clone, Copy, PartialEq, Eq, Debug)]
pub enum NativeButton {
    Left,
    Right,
    Other,
}

/// The native scroll gesture phase.
#[derive(Clone, Copy, PartialEq, Eq, Debug)]
pub enum NativePhase {
    MayBegin,
    Began,
    Changed,
    Stationary,
    Ended,
    Cancelled,
    NoPhase,
}

/// Subtype of an application-defined native event. Only
/// `ApplicationActivated` is meaningful to this core: it is the reserved
/// subtype used to wake a blocking fetch.
#[derive(Clone, Copy, PartialEq, Eq, Debug)]
pub enum NativeSubtype {
    ApplicationActivated,
    OtherSubtype,
}

/// What kind of native event arrived, with the data the translator reads
/// from it. Window-space coordinates, scroll deltas and pressure are in
/// milli-units.
#[derive(Clone, PartialEq, Eq, Debug)]
pub enum NativeEventKind {
    /// A key went down; carries the decoded printable text and the scan code.
    KeyDown { key_code: u16, text: Vec<char> },
    /// A key went up.
    KeyUp { key_code: u16 },
    /// The level state of the modifier keys changed.
    FlagsChanged { key_code: u16, flags: ModifierFlags },
    /// A mouse button went down.
    MouseDown { button: NativeButton },
    /// A mouse button went up.
    MouseUp { button: NativeButton },
    /// The pointer entered the tracked region.
    MouseEntered,
    /// The pointer left the tracked region.
    MouseExited,
    /// The pointer moved; the point is in window space, or in screen space
    /// when the event has no originating window.
    MouseMoved { x_milli: i64, y_milli: i64 },
    /// The pointer moved with a button held; treated exactly as a move.
    MouseDragged { button: NativeButton, x_milli: i64, y_milli: i64 },
    /// The scroll wheel moved; `precise` says whether the device reports
    /// high-precision (pixel) deltas.
    ScrollWheel { dx_milli: i64, dy_milli: i64, precise: bool, phase: NativePhase },
    /// Pressure-sensitive input with its stage.
    Pressure { pressure_milli: i64, stage: i64 },
    /// An application-defined event.
    AppDefined { subtype: NativeSubtype },
    /// Any other native event type, carried by its raw type value.
    Unclassified { raw_type: u64 },
}

/// One event fetched from the native queue: its kind and the identity of the
/// native window it originated from, `None` when it has none.
///
/// For a mouse move or drag, `window` also fixes the coordinate space of the
/// carried point: window space when `window` is `Some`, screen space when it
/// is `None`. A move owned by a window that is not in the registry falls back
/// to the focused window, whose geometry is the only one available — its
/// point is then read in the target's window space. Platform glue that can
/// receive moves owned by foreign, unregistered windows must therefore hand
/// them over with the point pre-converted to screen space and `window: None`,
/// which the translator converts through the target's screen origin.
#[derive(Clone, PartialEq, Eq, Debug)]
pub struct NativeEvent {
    pub window: Option<u64>,
    pub kind: NativeEventKind,
}

impl NativeEvent {
    /// Every fixed-point quantity carried by the event is within
    /// [`COORD_BOUND`], so coordinate arithmetic on it cannot overflow.
    pub open spec fn wf(self) -> bool {
        match self.kind {
            NativeEventKind::MouseMoved { x_milli, y_milli } => {
                &&& -COORD_BOUND <= x_milli <= COORD_BOUND
                &&& -COORD_BOUND <= y_milli <= COORD_BOUND
            },
            NativeEventKind::MouseDragged { x_milli, y_milli, .. } => {
                &&& -COORD_BOUND <= x_milli <= COORD_BOUND
                &&& -COORD_BOUND <= y_milli <= COORD_BOUND
            },
            NativeEventKind::ScrollWheel { dx_milli, dy_milli, .. } => {
                &&& -COORD_BOUND <= dx_milli <= COORD_BOUND
                &&& -COORD_BOUND <= dy_milli <= COORD_BOUND
            },
            _ => true,
        }
    }
}

/// The synthetic native event used solely to unblock a blocking fetch: an
/// application-defined event with the reserved subtype and no window.
pub open spec fn spec_wake_event() -> NativeEvent {
    NativeEvent {
        window: None,
        kind: NativeEventKind::AppDefined { subtype: NativeSubtype::ApplicationActivated },
    }
}

/// Executable counterpart of [`spec_wake_event`].
pub fn wake_event() -> (r: NativeEvent)
    ensures
        r == spec_wake_event(),
        r.wf(),
{
    NativeEvent {
        window: None,
        kind: NativeEventKind::AppDefined { subtype: NativeSubtype::ApplicationActivated },
    }
}

/// One registered window: its stable identity, DPI scale factor, content-view
/// geometry and whether it currently holds input focus. All geometry is in
/// milli-units; the content view's origin is given in window coordinates and
/// the window's origin in screen coordinates, which is all the point
/// conversion the translator performs needs.
#[derive(Clone, Copy, PartialEq, Eq, Debug)]
pub struct Window {
    pub id: u64,
    /// DPI scale factor in milli-units (1000 is scale 1.0). Nonnegative.
    pub scale_milli: i64,
    /// Content-view origin within the window.
    pub view_origin_x_milli: i64,
    pub view_origin_y_milli: i64,
    /// Content-view height; the Y axis is flipped against it.
    pub view_height_milli: i64,
    /// Window origin in screen coordinates.
    pub screen_origin_x_milli: i64,
    pub screen_origin_y_milli: i64,
    /// Whether this window is the native "key" (focused) window.
    pub is_key: bool,
}

impl Window {
    /// All geometry within [`COORD_BOUND`] and a nonnegative scale factor.
    pub open spec fn wf(self) -> bool {
        &&& 0 <= self.scale_milli <= COORD_BOUND
        &&& -COORD_BOUND <= self.view_origin_x_milli <= COORD_BOUND
        &&& -COORD_BOUND <= self.view_origin_y_milli <= COORD_BOUND
        &&& 0 <= self.view_height_milli <= COORD_BOUND
        &&& -COORD_BOUND <= self.screen_origin_x_milli <= COORD_BOUND
        &&& -COORD_BOUND <= self.screen_origin_y_milli <= COORD_BOUND
    }
}

/// The native application object, as the loop sees it: the queue of pending
/// native events and the default dispatcher that most events are handed to in
/// addition to being translated. The platform glue feeds the queue and
/// performs the recorded dispatches.
pub struct NativeSource {
    /// Pending native events, oldest first.
    pub queue: std::collections::VecDeque<NativeEvent>,
    /// Events handed to the native default dispatcher, in dispatch order.
    pub forwarded: Vec<NativeEvent>,
}

impl NativeSource {
    /// Every queued event is well formed.
    pub open spec fn wf(self) -> bool {
        forall|i: int| 0 <= i < self.queue@.len() ==> #[trigger] self.queue@[i].wf()
    }

    /// An empty source: nothing queued, nothing dispatched.
    pub fn new() -> (r: Self)
        ensures
            r.queue@.len() == 0,
            r.forwarded@.len() == 0,
            r.wf(),
    {
        NativeSource { queue: std::collections::VecDeque::new(), forwarded: Vec::new() }
    }

    /// Appends a native event to the queue, as the platform glue does when
    /// one arrives.
    pub fn enqueue(&mut self, event: NativeEvent)
        requires
            event.wf(),
            old(self).wf(),
        ensures
            final(self).queue@ == old(self).queue@.push(event),
            final(self).forwarded@ == old(self).forwarded@,
            final(self).wf(),
    {
        self.queue.push_back(event);
    }

    /// Takes the oldest pending native event, `None` when the queue is empty.
    /// This is the non-blocking fetch; a blocking fetch differs only in that
    /// an empty queue means the caller would wait.
    pub fn fetch_next(&mut self) -> (r: Option<NativeEvent>)
        requires
            old(self).wf(),
        ensures
            match r {
                Some(e) => {
                    &&& old(self).queue@.len() > 0
                    &&& e == old(self).queue@[0]
                    &&& final(self).queue@ == old(self).queue@.subrange(
                        1,
                        old(self).queue@.len() as int,
                    )
                    &&& e.wf()
                },
                None => {
                    &&& old(self).queue@.len() == 0
                    &&& final(self).queue@ == old(self).queue@
                },
            },
            final(self).forwarded@ == old(self).forwarded@,
            final(self).wf(),
    {
        self.queue.pop_front()
    }

    /// Posts the synthetic wake event at the back of the queue, as
    /// `interrupt` does to unblock a blocking fetch.
    pub fn post_wake(&mut self)
        requires
            old(self).wf(),
        ensures
            final(self).queue@ == old(self).queue@.push(spec_wake_event()),
            final(self).forwarded@ == old(self).forwarded@,
            final(self).wf(),
    {
        let e = wake_event();
        self.queue.push_back(e);
    }

    /// Hands a native event to the native default dispatcher (recorded here;
    /// the platform glue performs the real dispatch).
    pub fn forward(&mut self, event: NativeEvent)
        requires
            old(self).wf(),
        ensures
            final(self).queue@ == old(self).queue@,
            final(self).forwarded@ == old(self).forwarded@.push(event),
            final(self).wf(),
    {
        self.forwarded.push(event);
    }
}

} // verus!
