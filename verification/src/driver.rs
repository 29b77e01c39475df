//! The loop driver: the event loop's state, its two public entry points —
//! drain available events without waiting, or keep consuming until
//! interrupted — and the interrupt signal.

use vstd::prelude::*;

use crate::callback::{EventHandler, UserCallback};
use crate::events::Event;
use crate::modifiers::Modifiers;
use crate::native::{NativeEvent, NativeSource, Window, spec_wake_event};
use crate::translate::{forwards, step_events, step_mods};

verus! {

/// The event loop: the window registry, the queue of normalized events still
/// owed from earlier native events, the tracked modifier state, the interrupt
/// flag and the callback guard.
pub struct EventsLoop {
    /// The registered windows, in registration order (append-only).
    pub windows: Vec<Window>,
    /// Normalized events produced but not yet dispatched: the second and
    /// later events of a multi-event native event. Drained, oldest first,
    /// before any new native event is fetched.
    pub pending_events: std::collections::VecDeque<Event>,
    /// The tracked modifier state.
    pub modifiers: Modifiers,
    /// Set by `interrupt`, read and cleared by `run_forever`.
    pub interrupted: bool,
    /// The callback guard; occupied exactly while a loop invocation runs.
    pub user_callback: UserCallback,
}

/// The normalized events that draining a whole sequence of native events
/// dispatches, in order: each native event's translations, under the modifier
/// state the earlier ones left behind.
pub open spec fn drive_events(m: Modifiers, ws: Seq<Window>, q: Seq<NativeEvent>) -> Seq<Event>
    decreases q.len(),
{
    if q.len() == 0 {
        Seq::empty()
    } else {
        step_events(m, ws, q[0]) + drive_events(step_mods(m, q[0]), ws, q.skip(1))
    }
}

/// The tracked modifier state after a whole sequence of native events.
pub open spec fn drive_mods(m: Modifiers, q: Seq<NativeEvent>) -> Modifiers
    decreases q.len(),
{
    if q.len() == 0 {
        m
    } else {
        drive_mods(step_mods(m, q[0]), q.skip(1))
    }
}

/// The native events of a sequence that are handed to the native default
/// dispatcher, in order.
pub open spec fn drive_forwards(q: Seq<NativeEvent>) -> Seq<NativeEvent>
    decreases q.len(),
{
    if q.len() == 0 {
        Seq::empty()
    } else {
        (if forwards(q[0]) {
            seq![q[0]]
        } else {
            Seq::empty()
        }) + drive_forwards(q.skip(1))
    }
}

/// Why `run_forever` returned: an interrupt was observed, or the modeled
/// native queue ran dry — the point at which the real blocking fetch would
/// sit waiting for more input.
#[derive(Clone, Copy, PartialEq, Eq, Structural, Debug)]
pub enum RunOutcome {
    Interrupted,
    WouldBlock,
}

/// `n` copies of the synthetic wake event.
pub open spec fn wake_seq(n: nat) -> Seq<NativeEvent> {
    Seq::new(n, |i: int| spec_wake_event())
}

/// Consuming one more native event extends the dispatched sequence by exactly
/// that event's translations, moves the folded modifier state by its step,
/// and appends it to the forwarded events exactly when it is forwarded.
pub proof fn lemma_drive_push(m: Modifiers, ws: Seq<Window>, q: Seq<NativeEvent>, e: NativeEvent)
    ensures
        drive_events(m, ws, q.push(e)) == drive_events(m, ws, q) + step_events(
            drive_mods(m, q),
            ws,
            e,
        ),
        drive_mods(m, q.push(e)) == step_mods(drive_mods(m, q), e),
        drive_forwards(q.push(e)) == drive_forwards(q) + (if forwards(e) {
            seq![e]
        } else {
            Seq::<NativeEvent>::empty()
        }),
    decreases q.len(),
{
    if q.len() == 0 {
        assert(q.push(e)[0] == e);
        assert(q.push(e).skip(1) =~= Seq::<NativeEvent>::empty());
        assert(drive_events(step_mods(m, e), ws, Seq::<NativeEvent>::empty())
            == Seq::<Event>::empty());
        assert(drive_forwards(Seq::<NativeEvent>::empty()) == Seq::<NativeEvent>::empty());
        assert(drive_mods(step_mods(m, e), Seq::<NativeEvent>::empty()) == step_mods(m, e));
        assert(drive_events(m, ws, q.push(e)) =~= drive_events(m, ws, q) + step_events(
            drive_mods(m, q),
            ws,
            e,
        ));
        assert(drive_forwards(q.push(e)) =~= drive_forwards(q) + (if forwards(e) {
            seq![e]
        } else {
            Seq::<NativeEvent>::empty()
        }));
    } else {
        lemma_drive_push(step_mods(m, q[0]), ws, q.skip(1), e);
        assert(q.push(e)[0] == q[0]);
        assert(q.push(e).skip(1) =~= q.skip(1).push(e));
        assert(drive_events(m, ws, q.push(e)) =~= drive_events(m, ws, q) + step_events(
            drive_mods(m, q),
            ws,
            e,
        ));
        assert(drive_forwards(q.push(e)) =~= drive_forwards(q) + (if forwards(e) {
            seq![e]
        } else {
            Seq::<NativeEvent>::empty()
        }));
    }
}

/// No event is lost across an interruption: draining a queue with more
/// arrivals appended dispatches everything the unextended queue dispatches,
/// followed by exactly the translations of the appended part. In particular,
/// with one wake event appended — what `interrupt` posts — the whole backlog
/// is dispatched and exactly one "awakened" notification follows it.
pub proof fn lemma_drive_events_concat(
    m: Modifiers,
    ws: Seq<Window>,
    q1: Seq<NativeEvent>,
    q2: Seq<NativeEvent>,
)
    ensures
        drive_events(m, ws, q1 + q2) == drive_events(m, ws, q1) + drive_events(
            drive_mods(m, q1),
            ws,
            q2,
        ),
        drive_mods(m, q1 + q2) == drive_mods(drive_mods(m, q1), q2),
    decreases q2.len(),
{
    if q2.len() == 0 {
        assert(q1 + q2 =~= q1);
        assert(drive_events(m, ws, q1) + drive_events(drive_mods(m, q1), ws, q2) =~= drive_events(
            m,
            ws,
            q1,
        ));
    } else {
        let q2dl = q2.drop_last();
        lemma_drive_events_concat(m, ws, q1, q2dl);
        assert(q1 + q2 =~= (q1 + q2dl).push(q2.last()));
        assert(q2dl.push(q2.last()) =~= q2);
        lemma_drive_push(m, ws, q1 + q2dl, q2.last());
        lemma_drive_push(drive_mods(m, q1), ws, q2dl, q2.last());
        assert(drive_events(m, ws, q1 + q2) =~= drive_events(m, ws, q1) + drive_events(
            drive_mods(m, q1),
            ws,
            q2,
        ));
    }
}

/// The synthetic wake event translates to exactly one "awakened"
/// notification, tagged with the reserved no-window identity, whatever the
/// tracked state; it is also handed to the native dispatcher and leaves the
/// modifier state alone. With [`lemma_drive_events_concat`] this is the
/// interruption guarantee: posting the wake behind a backlog adds exactly one
/// notification after the backlog's own events.
pub proof fn lemma_wake_translates(m: Modifiers, ws: Seq<Window>)
    ensures
        step_events(m, ws, spec_wake_event()) == seq![
            crate::events::spec_into_event(0, crate::events::WindowEvent::Awakened),
        ],
        step_mods(m, spec_wake_event()) == m,
        forwards(spec_wake_event()),
{
}

/// The interruption guarantee over the queue model: `interrupt` posts one
/// wake event behind whatever is queued, and draining the extended queue
/// dispatches every event of the backlog, in order, followed by exactly one
/// "awakened" notification — no event is lost to an interruption — while the
/// tracked modifier state ends as the backlog alone would leave it.
pub proof fn lemma_interrupt_no_loss(m: Modifiers, ws: Seq<Window>, q: Seq<NativeEvent>)
    ensures
        drive_events(m, ws, q.push(spec_wake_event())) == drive_events(m, ws, q).push(
            crate::events::spec_into_event(0, crate::events::WindowEvent::Awakened),
        ),
        drive_mods(m, q.push(spec_wake_event())) == drive_mods(m, q),
{
    lemma_drive_push(m, ws, q, spec_wake_event());
    lemma_wake_translates(drive_mods(m, q), ws);
    assert(drive_events(m, ws, q) + seq![
        crate::events::spec_into_event(0, crate::events::WindowEvent::Awakened),
    ] =~= drive_events(m, ws, q).push(
        crate::events::spec_into_event(0, crate::events::WindowEvent::Awakened),
    ));
}

/// Every sequence is a prefix of itself.
pub proof fn lemma_prefix_refl(s: Seq<Event>)
    ensures
        s.is_prefix_of(s),
{
    assert(s =~= s.subrange(0, s.len() as int));
}

/// Being a prefix is transitive.
pub proof fn lemma_prefix_trans(p: Seq<Event>, q: Seq<Event>, r: Seq<Event>)
    requires
        p.is_prefix_of(q),
        q.is_prefix_of(r),
    ensures
        p.is_prefix_of(r),
{
    assert forall|i: int| 0 <= i < p.len() implies p[i] == r[i] by {
        assert(p[i] == q.subrange(0, p.len() as int)[i]);
        assert(q[i] == r.subrange(0, q.len() as int)[i]);
    }
    assert(p =~= r.subrange(0, p.len() as int));
}

/// A requested stop stays requested as the handler receives more events.
pub proof fn lemma_stop_requested_extends<F: EventHandler>(before: F, after: F)
    requires
        crate::callback::stop_requested(before),
        before.received().is_prefix_of(after.received()),
    ensures
        crate::callback::stop_requested(after),
{
    let h = choose|h: F| #[trigger] h.wants_stop() && h.received().is_prefix_of(
        before.received(),
    );
    lemma_prefix_trans(h.received(), before.received(), after.received());
    assert(h.wants_stop() && h.received().is_prefix_of(after.received()));
}

/// A prefix stays a prefix when the sequence grows at the end.
pub proof fn lemma_prefix_extend(p: Seq<Event>, s: Seq<Event>, t: Seq<Event>)
    requires
        p.is_prefix_of(s),
    ensures
        p.is_prefix_of(s + t),
{
    assert((s + t).take(p.len() as int) =~= s.take(p.len() as int));
}

/// A prefix stays a prefix when one element is pushed.
pub proof fn lemma_prefix_push(p: Seq<Event>, s: Seq<Event>, e: Event)
    requires
        p.is_prefix_of(s),
    ensures
        p.is_prefix_of(s.push(e)),
{
    assert(s.push(e).take(p.len() as int) =~= s.take(p.len() as int));
}

/// Draining an empty backlog dispatches nothing: a poll that finds no pending
/// native events and no owed normalized events invokes the callback zero
/// times.
pub proof fn lemma_drive_events_empty(m: Modifiers, ws: Seq<Window>)
    ensures
        drive_events(m, ws, Seq::<NativeEvent>::empty()) == Seq::<Event>::empty(),
{
}

impl EventsLoop {
    /// Every registered window is well formed.
    pub open spec fn wf(self) -> bool {
        forall|i: int| 0 <= i < self.windows@.len() ==> #[trigger] self.windows@[i].wf()
    }

    /// A fresh loop: no windows, nothing pending, no modifier tracked as
    /// pressed, not interrupted, callback slot empty.
    pub fn new() -> (r: Self)
        ensures
            r.windows@.len() == 0,
            r.pending_events@.len() == 0,
            r.modifiers == (Modifiers {
                shift_pressed: false,
                ctrl_pressed: false,
                win_pressed: false,
                alt_pressed: false,
            }),
            !r.interrupted,
            !r.user_callback.installed,
            r.wf(),
    {
        EventsLoop {
            windows: Vec::new(),
            pending_events: std::collections::VecDeque::new(),
            modifiers: Modifiers::new(),
            interrupted: false,
            user_callback: UserCallback::new(),
        }
    }

    /// Adds a window to the registry. The registry is append-only: windows
    /// are registered as they are created and never removed while the loop
    /// lives.
    pub fn register_window(&mut self, w: Window)
        requires
            w.wf(),
            old(self).wf(),
        ensures
            final(self).windows@ == old(self).windows@.push(w),
            final(self).pending_events@ == old(self).pending_events@,
            final(self).modifiers == old(self).modifiers,
            final(self).interrupted == old(self).interrupted,
            final(self).user_callback == old(self).user_callback,
            final(self).wf(),
    {
        self.windows.push(w);
    }

    /// Dispatches every normalized event still owed from earlier native
    /// events, oldest first, through the callback guard. Used by both entry
    /// points before any new native event is fetched.
    fn drain_pending<F: EventHandler>(&mut self, handler: &mut F)
        requires
            old(self).user_callback.installed,
        ensures
            final(self).pending_events@.len() == 0,
            final(handler).received() == old(handler).received() + old(self).pending_events@,
            final(self).windows@ == old(self).windows@,
            final(self).modifiers == old(self).modifiers,
            final(self).interrupted == old(self).interrupted,
            final(self).user_callback == old(self).user_callback,
    {
        let ghost r0 = handler.received();
        let ghost p0 = self.pending_events@;
        proof {
            assert(r0 + p0.take(0) =~= r0);
        }
        let ghost mut j: int = 0;
        while self.pending_events.len() > 0
            invariant
                0 <= j <= p0.len(),
                self.pending_events@ == p0.skip(j),
                handler.received() == r0 + p0.take(j),
                self.windows@ == old(self).windows@,
                self.modifiers == old(self).modifiers,
                self.interrupted == old(self).interrupted,
                self.user_callback == old(self).user_callback,
                old(self).user_callback.installed,
            decreases self.pending_events@.len(),
        {
            let ev = self.pending_events.pop_front().unwrap();
            let _ = self.user_callback.call_with_event(handler, ev);
            proof {
                assert(p0.skip(j)[0] == p0[j]);
                assert(p0.skip(j).subrange(1, p0.skip(j).len() as int) =~= p0.skip(j + 1));
                assert((r0 + p0.take(j)).push(p0[j]) =~= r0 + p0.take(j + 1));
                j = j + 1;
            }
        }
        proof {
            assert(p0.take(p0.len() as int) =~= p0);
        }
    }

    /// Drains available events without waiting, dispatching each through the
    /// callback: first everything still owed from earlier native events, then
    /// one native event at a time — each translated, its overflow queued and
    /// drained before the next fetch, an event that translates to nothing
    /// dispatching nothing — until a fetch finds the queue empty. The
    /// callback is installed for exactly the duration of the call; its stop
    /// answer is `run_forever`'s cooperative escape and is not consulted
    /// here, as a poll returns on its own.
    pub fn poll_events<F: EventHandler>(&mut self, source: &mut NativeSource, handler: &mut F)
        requires
            old(self).wf(),
            old(source).wf(),
            !old(self).user_callback.installed,
        ensures
            ({
                let m0 = old(self).modifiers;
                let ws0 = old(self).windows@;
                let q0 = old(source).queue@;
                &&& final(handler).received() == old(handler).received() + old(
                    self,
                ).pending_events@ + drive_events(m0, ws0, q0)
                &&& final(source).queue@.len() == 0
                &&& final(self).pending_events@.len() == 0
                &&& final(self).modifiers == drive_mods(m0, q0)
                &&& final(source).forwarded@ == old(source).forwarded@ + drive_forwards(q0)
                &&& final(self).windows@ == old(self).windows@
                &&& final(self).interrupted == old(self).interrupted
                &&& !final(self).user_callback.installed
                &&& final(self).wf()
                &&& final(source).wf()
            }),
    {
        let ghost m0 = self.modifiers;
        let ghost ws0 = self.windows@;
        let ghost q0 = source.queue@;
        let ghost p0 = self.pending_events@;
        let ghost r0 = handler.received();
        let ghost f0 = source.forwarded@;
        self.user_callback.store();
        let ghost mut k: int = 0;
        proof {
            assert(q0.take(0) =~= Seq::<NativeEvent>::empty());
            assert(q0.skip(0) =~= q0);
            assert(drive_events(m0, ws0, q0.take(0)) == Seq::<Event>::empty());
            assert(drive_mods(m0, q0.take(0)) == m0);
            assert(drive_forwards(q0.take(0)) == Seq::<NativeEvent>::empty());
            assert(r0 + p0 + drive_events(m0, ws0, q0.take(0)) =~= r0 + p0);
            assert(f0 + drive_forwards(q0.take(0)) =~= f0);
        }
        loop
            invariant
                0 <= k <= q0.len(),
                self.wf(),
                source.wf(),
                self.windows@ == ws0,
                self.interrupted == old(self).interrupted,
                self.user_callback.installed,
                source.queue@ == q0.skip(k),
                handler.received() + self.pending_events@ == r0 + p0 + drive_events(
                    m0,
                    ws0,
                    q0.take(k),
                ),
                self.modifiers == drive_mods(m0, q0.take(k)),
                source.forwarded@ == f0 + drive_forwards(q0.take(k)),
            ensures
                k == q0.len(),
                self.pending_events@.len() == 0,
                self.wf(),
                source.wf(),
                self.windows@ == ws0,
                self.interrupted == old(self).interrupted,
                self.user_callback.installed,
                source.queue@ == q0.skip(k),
                handler.received() == r0 + p0 + drive_events(m0, ws0, q0.take(k)),
                self.modifiers == drive_mods(m0, q0.take(k)),
                source.forwarded@ == f0 + drive_forwards(q0.take(k)),
            decreases q0.len() - k,
        {
            self.drain_pending(handler);
            proof {
                assert(handler.received() + self.pending_events@ =~= handler.received());
            }
            let fetched = source.fetch_next();
            match fetched {
                None => {
                    proof {
                        assert(q0.skip(k).len() == 0);
                        assert(k == q0.len());
                    }
                    break ;
                },
                Some(ns) => {
                    proof {
                        assert(ns == q0.skip(k)[0]);
                        assert(ns == q0[k]);
                        assert(source.queue@ =~= q0.skip(k + 1));
                    }
                    let ghost m_before = self.modifiers;
                    let ghost evs = step_events(m_before, ws0, ns);
                    let ghost rec_before = handler.received();
                    let r = self.ns_event_to_event(source, ns);
                    proof {
                        lemma_drive_push(m0, ws0, q0.take(k), ns);
                        assert(q0.take(k).push(q0[k]) =~= q0.take(k + 1));
                        assert(q0.skip(k).skip(1) =~= q0.skip(k + 1));
                        if forwards(ns) {
                            assert((f0 + drive_forwards(q0.take(k))).push(ns) =~= f0
                                + drive_forwards(q0.take(k + 1)));
                        } else {
                            assert(f0 + drive_forwards(q0.take(k)) =~= f0 + drive_forwards(
                                q0.take(k + 1),
                            ));
                        }
                    }
                    match r {
                        Some(ev) => {
                            let _ = self.user_callback.call_with_event(handler, ev);
                            proof {
                                assert(ev == evs[0]);
                                assert(self.pending_events@ =~= evs.skip(1));
                                assert(handler.received() + self.pending_events@
                                    =~= rec_before.push(evs[0]) + evs.skip(1));
                                assert(rec_before.push(evs[0]) + evs.skip(1) =~= rec_before + evs);
                                assert(rec_before + evs =~= r0 + p0 + drive_events(
                                    m0,
                                    ws0,
                                    q0.take(k + 1),
                                ));
                            }
                        },
                        None => {
                            proof {
                                assert(evs.len() == 0);
                                assert(handler.received() + self.pending_events@ =~= r0 + p0
                                    + drive_events(m0, ws0, q0.take(k + 1)));
                            }
                        },
                    }
                    proof {
                        k = k + 1;
                    }
                },
            }
        }
        proof {
            assert(q0.take(q0.len() as int) =~= q0);
        }
        self.user_callback.uninstall();
    }

    /// Like `drain_pending`, but for the blocking loop: when the callback
    /// answers an invocation by asking for an interrupt, the interrupt is
    /// raised on its behalf — the flag is set and one wake event is posted —
    /// the safe rendering of a callback calling `interrupt` on the loop it
    /// runs under.
    fn drain_pending_interruptibly<F: EventHandler>(
        &mut self,
        source: &mut NativeSource,
        handler: &mut F,
    )
        requires
            old(self).user_callback.installed,
            old(source).wf(),
        ensures
            final(self).pending_events@.len() == 0,
            final(handler).received() == old(handler).received() + old(self).pending_events@,
            final(self).windows@ == old(self).windows@,
            final(self).modifiers == old(self).modifiers,
            final(self).user_callback == old(self).user_callback,
            final(source).forwarded@ == old(source).forwarded@,
            final(source).wf(),
            exists|n: nat|
                final(source).queue@ == old(source).queue@ + wake_seq(n)
                    && (final(self).interrupted <==> (old(self).interrupted || n > 0)),
            (final(self).interrupted && !old(self).interrupted)
                ==> crate::callback::stop_requested::<F>(*final(handler)),
    {
        let ghost r0 = handler.received();
        let ghost p0 = self.pending_events@;
        let ghost sq0 = source.queue@;
        let ghost mut n: int = 0;
        proof {
            assert(r0 + p0.take(0) =~= r0);
            assert(sq0 + wake_seq(0) =~= sq0);
        }
        let ghost mut j: int = 0;
        while self.pending_events.len() > 0
            invariant
                0 <= j <= p0.len(),
                0 <= n,
                self.pending_events@ == p0.skip(j),
                handler.received() == r0 + p0.take(j),
                self.windows@ == old(self).windows@,
                self.modifiers == old(self).modifiers,
                self.user_callback == old(self).user_callback,
                old(self).user_callback.installed,
                source.forwarded@ == old(source).forwarded@,
                source.wf(),
                source.queue@ == sq0 + wake_seq(n as nat),
                self.interrupted <==> (old(self).interrupted || n > 0),
                (self.interrupted && !old(self).interrupted)
                    ==> crate::callback::stop_requested::<F>(*handler),
            decreases self.pending_events@.len(),
        {
            let ev = self.pending_events.pop_front().unwrap();
            let ghost h_pre = *handler;
            let stop = self.user_callback.call_with_event(handler, ev);
            proof {
                assert(p0.skip(j)[0] == p0[j]);
                assert(p0.skip(j).subrange(1, p0.skip(j).len() as int) =~= p0.skip(j + 1));
                assert((r0 + p0.take(j)).push(p0[j]) =~= r0 + p0.take(j + 1));
                j = j + 1;
                if self.interrupted && !old(self).interrupted {
                    // an earlier invocation asked for the stop; its witness
                    // survives this push of the received sequence
                    lemma_prefix_refl(h_pre.received());
                    lemma_prefix_push(h_pre.received(), h_pre.received(), p0[j - 1]);
                    lemma_stop_requested_extends(h_pre, *handler);
                }
            }
            if stop {
                self.interrupted = true;
                source.post_wake();
                proof {
                    assert((sq0 + wake_seq(n as nat)).push(spec_wake_event()) =~= sq0 + wake_seq(
                        (n + 1) as nat,
                    ));
                    n = n + 1;
                    lemma_prefix_refl((*handler).received());
                    assert((*handler).wants_stop() && (*handler).received().is_prefix_of(
                        (*handler).received(),
                    ));
                    assert(crate::callback::stop_requested::<F>(*handler));
                }
            }
        }
        proof {
            assert(p0.take(p0.len() as int) =~= p0);
        }
    }

    /// Keeps consuming native events, blocking for each — here: taking them
    /// from the modeled queue — and dispatching their translations, until the
    /// interrupt flag is observed at the end of an iteration; the flag is
    /// cleared on entry and on exit. In this model the only way the flag
    /// rises during the run is the callback asking for an interrupt, upon
    /// which the flag is set and a wake event posted, so a blocked fetch
    /// returns promptly; the call then returns within that same iteration.
    /// When the modeled queue runs dry — where the real loop would sit
    /// blocked in the fetch — the call returns `WouldBlock` instead, with
    /// everything fetched so far dispatched and no interrupt outstanding.
    ///
    /// The ghost result is the sequence of native events consumed: a prefix
    /// of the queue as it stood at entry, followed only by posted wake
    /// events; the handler receives exactly its translations, after the
    /// backlog owed from earlier native events. An `Interrupted` outcome is
    /// owed to the handler: it is returned only when some invocation
    /// requested the stop (see
    /// [`stop_requested`](crate::callback::stop_requested)).
    pub fn run_forever<F: EventHandler>(&mut self, source: &mut NativeSource, handler: &mut F) -> (r:
        (RunOutcome, Ghost<Seq<NativeEvent>>))
        requires
            old(self).wf(),
            old(source).wf(),
            !old(self).user_callback.installed,
        ensures
            ({
                let consumed = r.1@;
                let m0 = old(self).modifiers;
                let ws0 = old(self).windows@;
                let q0 = old(source).queue@;
                &&& exists|k: int, c: nat|
                    0 <= k <= q0.len() && consumed == #[trigger] (q0.take(k) + wake_seq(c))
                &&& final(handler).received() + final(self).pending_events@
                    == old(handler).received() + old(self).pending_events@
                    + drive_events(m0, ws0, consumed)
                &&& old(handler).received().is_prefix_of(final(handler).received())
                &&& final(self).modifiers == drive_mods(m0, consumed)
                &&& final(source).forwarded@ == old(source).forwarded@ + drive_forwards(consumed)
                &&& (r.0 == RunOutcome::WouldBlock ==> final(source).queue@.len() == 0
                    && final(self).pending_events@.len() == 0 && consumed == q0)
                &&& (r.0 == RunOutcome::Interrupted ==> crate::callback::stop_requested::<F>(
                    *final(handler),
                ))
                &&& !final(self).interrupted
                &&& final(self).windows@ == old(self).windows@
                &&& !final(self).user_callback.installed
                &&& final(self).wf()
                &&& final(source).wf()
            }),
    {
        let ghost m0 = self.modifiers;
        let ghost ws0 = self.windows@;
        let ghost q0 = source.queue@;
        let ghost p0 = self.pending_events@;
        let ghost r0 = handler.received();
        let ghost f0 = source.forwarded@;
        self.interrupted = false;
        self.user_callback.store();
        let ghost mut consumed: Seq<NativeEvent> = Seq::empty();
        let ghost mut k: int = 0;
        let mut outcome = RunOutcome::WouldBlock;
        proof {
            assert(q0.take(0) =~= Seq::<NativeEvent>::empty());
            assert(q0.skip(0) =~= q0);
            assert(q0.take(0) + wake_seq(0) =~= consumed);
            assert(drive_events(m0, ws0, consumed) == Seq::<Event>::empty());
            assert(drive_mods(m0, consumed) == m0);
            assert(drive_forwards(consumed) == Seq::<NativeEvent>::empty());
            assert(r0 + p0 + drive_events(m0, ws0, consumed) =~= r0 + p0);
            assert(f0 + drive_forwards(consumed) =~= f0);
            assert(r0.is_prefix_of(r0));
        }
        loop
            invariant_except_break
                consumed == q0.take(k),
                source.queue@ == q0.skip(k),
                !self.interrupted,
            invariant
                0 <= k <= q0.len(),
                self.wf(),
                source.wf(),
                self.windows@ == ws0,
                self.user_callback.installed,
                handler.received() + self.pending_events@ == r0 + p0 + drive_events(
                    m0,
                    ws0,
                    consumed,
                ),
                r0.is_prefix_of(handler.received()),
                self.modifiers == drive_mods(m0, consumed),
                source.forwarded@ == f0 + drive_forwards(consumed),
            ensures
                exists|kk: int, cc: nat|
                    0 <= kk <= q0.len() && consumed == #[trigger] (q0.take(kk) + wake_seq(cc)),
                handler.received() + self.pending_events@ == r0 + p0 + drive_events(
                    m0,
                    ws0,
                    consumed,
                ),
                r0.is_prefix_of(handler.received()),
                self.modifiers == drive_mods(m0, consumed),
                source.forwarded@ == f0 + drive_forwards(consumed),
                outcome == RunOutcome::WouldBlock ==> source.queue@.len() == 0
                    && self.pending_events@.len() == 0 && consumed == q0,
                outcome == RunOutcome::Interrupted ==> crate::callback::stop_requested::<F>(
                    *handler,
                ),
                !self.interrupted,
                self.windows@ == ws0,
                self.user_callback.installed,
                self.wf(),
                source.wf(),
            decreases q0.len() - k,
        {
            let ghost rec0 = handler.received();
            let ghost p_d = self.pending_events@;
            self.drain_pending_interruptibly(source, handler);
            let ghost fl_d = self.interrupted;
            let ghost q_d = source.queue@;
            proof {
                assert(handler.received() + self.pending_events@ =~= handler.received());
                lemma_prefix_extend(r0, rec0, p_d);
            }
            let fetched = source.fetch_next();
            match fetched {
                None => {
                    proof {
                        let n = choose|n: nat|
                            q_d == q0.skip(k) + wake_seq(n) && (fl_d <==> n > 0);
                        assert(q_d.len() == 0);
                        assert(q0.skip(k).len() == 0 && wake_seq(n).len() == 0);
                        assert(n == 0 && !fl_d);
                        assert(k == q0.len());
                        assert(consumed =~= q0.take(k) + wake_seq(0));
                        assert(0 <= k <= q0.len() && consumed == (q0.take(k) + wake_seq(0nat)));
                    }
                    outcome = RunOutcome::WouldBlock;
                    break ;
                },
                Some(ns) => {
                    let ghost m_before = self.modifiers;
                    let ghost evs = step_events(m_before, ws0, ns);
                    let ghost rec_before = handler.received();
                    let r = self.ns_event_to_event(source, ns);
                    proof {
                        lemma_drive_push(m0, ws0, consumed, ns);
                        if forwards(ns) {
                            assert((f0 + drive_forwards(consumed)).push(ns) =~= f0
                                + drive_forwards(consumed.push(ns)));
                        } else {
                            assert(f0 + drive_forwards(consumed) =~= f0 + drive_forwards(
                                consumed.push(ns),
                            ));
                        }
                    }
                    match r {
                        Some(ev) => {
                            let ghost h_pre = *handler;
                            let stop = self.user_callback.call_with_event(handler, ev);
                            proof {
                                assert(ev == evs[0]);
                                assert(self.pending_events@ =~= evs.skip(1));
                                assert(handler.received() + self.pending_events@
                                    =~= rec_before.push(evs[0]) + evs.skip(1));
                                assert(rec_before.push(evs[0]) + evs.skip(1) =~= rec_before + evs);
                                assert(rec_before + evs =~= r0 + p0 + drive_events(
                                    m0,
                                    ws0,
                                    consumed.push(ns),
                                ));
                                lemma_prefix_push(r0, rec_before, evs[0]);
                                if self.interrupted {
                                    // the stop was requested during the drain;
                                    // its witness survives this dispatch
                                    lemma_prefix_refl(h_pre.received());
                                    lemma_prefix_push(h_pre.received(), h_pre.received(), ev);
                                    lemma_stop_requested_extends(h_pre, *handler);
                                }
                            }
                            if stop {
                                self.interrupted = true;
                                source.post_wake();
                                proof {
                                    lemma_prefix_refl((*handler).received());
                                    assert((*handler).wants_stop()
                                        && (*handler).received().is_prefix_of(
                                        (*handler).received(),
                                    ));
                                    assert(crate::callback::stop_requested::<F>(*handler));
                                }
                            }
                        },
                        None => {
                            proof {
                                assert(evs.len() == 0);
                                assert(handler.received() + self.pending_events@ =~= r0 + p0
                                    + drive_events(m0, ws0, consumed.push(ns)));
                            }
                        },
                    }
                    proof {
                        consumed = consumed.push(ns);
                        let n = choose|n: nat|
                            q_d == q0.skip(k) + wake_seq(n) && (fl_d <==> n > 0);
                        if k < q0.len() {
                            assert(ns == q_d[0]);
                            assert(q_d[0] == q0.skip(k)[0]);
                            assert(ns == q0[k]);
                            assert(consumed =~= q0.take(k + 1) + wake_seq(0));
                        } else {
                            assert(q0.skip(k).len() == 0);
                            assert(ns == q_d[0]);
                            assert(q_d[0] == wake_seq(n)[0]);
                            assert(ns == spec_wake_event());
                            assert(consumed =~= q0.take(k) + wake_seq(1));
                        }
                    }
                },
            }
            if self.interrupted {
                self.interrupted = false;
                outcome = RunOutcome::Interrupted;
                proof {
                    if k < q0.len() {
                        assert(0 <= k + 1 <= q0.len() && consumed == (q0.take(k + 1) + wake_seq(
                            0nat,
                        )));
                    } else {
                        assert(0 <= k <= q0.len() && consumed == (q0.take(k) + wake_seq(1nat)));
                    }
                }
                break ;
            }
            proof {
                // a continuing iteration saw no interrupt, so nothing was
                // posted: the fetch took the next event of the entry queue
                let n = choose|n: nat| q_d == q0.skip(k) + wake_seq(n) && (fl_d <==> n > 0);
                assert(!fl_d);
                assert(n == 0);
                assert(q_d =~= q0.skip(k));
                assert(k < q0.len());
                assert(consumed =~= q0.take(k + 1));
                assert(source.queue@ =~= q0.skip(k + 1));
                k = k + 1;
            }
        }
        self.user_callback.uninstall();
        (outcome, Ghost(consumed))
    }

    /// Requests that a running `run_forever` return: sets the interrupt flag
    /// and posts the synthetic wake event into the native queue, so a blocked
    /// fetch returns promptly instead of waiting for real input. Idempotent
    /// in effect: each call adds one wake event, and extra wake events only
    /// produce extra harmless "awakened" notifications.
    pub fn interrupt(&mut self, source: &mut NativeSource)
        requires
            old(source).wf(),
        ensures
            final(self).interrupted,
            final(self).windows@ == old(self).windows@,
            final(self).pending_events@ == old(self).pending_events@,
            final(self).modifiers == old(self).modifiers,
            final(self).user_callback == old(self).user_callback,
            final(source).queue@ == old(source).queue@.push(spec_wake_event()),
            final(source).forwarded@ == old(source).forwarded@,
            final(source).wf(),
    {
        self.interrupted = true;
        source.post_wake();
    }
}

} // verus!
