//! The callback guard: a two-state machine — empty and occupied — protecting
//! the caller-supplied callback for the duration of one loop invocation.
//!
//! Platform bindings keep a borrowed callback behind such a slot so that
//! re-entrant native callbacks can reach it; here the borrow itself travels
//! as an ordinary `&mut` argument, and the guard is the protocol token: it is
//! occupied exactly for the dynamic extent of one loop invocation, the slot is
//! taken (emptied) around each invocation so a re-entrant installation cannot
//! alias it, and invoking while empty is a precondition violation that
//! verified callers can never reach — not a recoverable error.

use vstd::prelude::*;

use crate::events::Event;

verus! {

/// What the loop drivers dispatch events through: a caller-supplied handler.
/// `received` is the ghost sequence of events the handler has been given, in
/// order; `handle_event` appends to it and answers whether the caller wants
/// the loop interrupted (the safe rendering of a callback that calls
/// `interrupt` on the loop it runs under).
pub trait EventHandler {
    /// The events this handler has received so far, oldest first.
    spec fn received(&self) -> Seq<Event>;

    /// Whether the handler, in its current state, wants the blocking loop
    /// interrupted. `handle_event` answers exactly this of the state it
    /// leaves behind, so the loop driver's interrupt outcome is pinned to the
    /// handler's own specification.
    spec fn wants_stop(&self) -> bool;

    /// Receives one normalized event; the result asks the driving loop to
    /// interrupt itself.
    fn handle_event(&mut self, event: Event) -> (stop: bool)
        ensures
            final(self).received() == old(self).received().push(event),
            stop == final(self).wants_stop(),
    ;
}

/// Some invocation during the run asked for an interrupt: a handler state
/// that wants a stop and whose received events are a prefix of what the
/// handler has received by the end. The blocking loop returns `Interrupted`
/// only under this predicate, so a body that interrupts on its own, without
/// any invocation asking for it, is ruled out.
///
/// The witness ranges over states of the handler type, not only the states a
/// run actually traversed. A caller whose handler type never wants a stop —
/// `wants_stop` is false of every value of the type, as for [`EventSink`]
/// (see [`lemma_sink_never_stops`]) — concludes from the negation that a run
/// of it was not interrupted, hence consumed and dispatched the whole
/// backlog. For a type like [`StoppingSink`], which carries its stop
/// threshold as data, the predicate does not separate its stopping from its
/// non-stopping values.
pub open spec fn stop_requested<F: EventHandler>(after: F) -> bool {
    exists|h: F| #[trigger] h.wants_stop() && h.received().is_prefix_of(after.received())
}

/// The guard slot. It is occupied exactly between `store` at loop entry and
/// `uninstall` at loop exit, and temporarily emptied around each invocation.
#[derive(Clone, Copy, PartialEq, Eq, Structural, Debug)]
pub struct UserCallback {
    /// Whether a callback is currently installed.
    pub installed: bool,
}

impl UserCallback {
    /// An empty guard: no loop invocation is in progress.
    pub fn new() -> (r: Self)
        ensures
            !r.installed,
    {
        UserCallback { installed: false }
    }

    /// Installs the callback for one loop invocation: empty to occupied.
    /// Installing over a live callback would alias it, so it is ruled out.
    pub fn store(&mut self)
        requires
            !old(self).installed,
        ensures
            final(self).installed,
    {
        self.installed = true;
    }

    /// Emits one event via the installed callback. The slot is emptied for
    /// the duration of the call — a re-entrant installation from inside the
    /// callback then finds it free — and restored afterwards. Calling this
    /// with the slot empty would mean the loop driver itself is broken, so it
    /// is excluded by precondition rather than handled.
    pub fn call_with_event<F: EventHandler>(&mut self, handler: &mut F, event: Event) -> (stop:
        bool)
        requires
            old(self).installed,
        ensures
            final(self).installed,
            final(handler).received() == old(handler).received().push(event),
            stop == final(handler).wants_stop(),
    {
        self.installed = false;
        let stop = handler.handle_event(event);
        self.installed = true;
        stop
    }

    /// Clears the slot at the end of a loop invocation: occupied to empty,
    /// unconditionally.
    pub fn uninstall(&mut self)
        ensures
            !final(self).installed,
    {
        self.installed = false;
    }
}

/// A handler that collects every event it receives and never asks for an
/// interrupt: no state of this type wants a stop, so
/// [`lemma_sink_never_stops`] lets a caller of the blocking loop conclude
/// that a run driven by it was not interrupted and consumed the whole
/// backlog. The simplest useful `EventHandler`; callers with richer needs
/// implement the trait themselves.
pub struct EventSink {
    /// Every event received, oldest first.
    pub events: Vec<Event>,
}

impl EventSink {
    /// An empty sink.
    pub fn new() -> (r: Self)
        ensures
            r.events@.len() == 0,
    {
        EventSink { events: Vec::new() }
    }
}

impl EventHandler for EventSink {
    open spec fn received(&self) -> Seq<Event> {
        self.events@
    }

    open spec fn wants_stop(&self) -> bool {
        false
    }

    fn handle_event(&mut self, event: Event) -> (stop: bool) {
        self.events.push(event);
        false
    }
}

/// No state of [`EventSink`] wants a stop, so no run driven by one can have
/// been interrupted: with the blocking loop's contract this gives its callers
/// that the outcome was `WouldBlock` and the whole backlog was dispatched.
pub proof fn lemma_sink_never_stops(after: EventSink)
    ensures
        !stop_requested(after),
{
}

/// A handler that collects every event it receives and asks for an interrupt
/// once it has received a given number of them.
pub struct StoppingSink {
    /// Every event received, oldest first.
    pub events: Vec<Event>,
    /// Ask the loop to interrupt once this many events have been received.
    pub stop_after: usize,
}

impl StoppingSink {
    /// An empty sink that asks for an interrupt once it has received `n`
    /// events.
    pub fn new(n: usize) -> (r: Self)
        ensures
            r.events@.len() == 0,
            r.stop_after == n,
    {
        StoppingSink { events: Vec::new(), stop_after: n }
    }
}

impl EventHandler for StoppingSink {
    open spec fn received(&self) -> Seq<Event> {
        self.events@
    }

    open spec fn wants_stop(&self) -> bool {
        self.events@.len() >= self.stop_after
    }

    fn handle_event(&mut self, event: Event) -> (stop: bool) {
        self.events.push(event);
        self.events.len() >= self.stop_after
    }
}

} // verus!
