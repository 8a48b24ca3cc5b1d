use vstd::prelude::*;
use crate::envelope::{add_envelope, remove_envelope, Envelope, EnvelopeView};
use crate::gate::ReadinessGate;
use crate::record::{MissingField, RawObject, TranslationError};
use crate::translate::{translate, translation_of};

verus! {

/// Where the bridge stands in its one lifetime.
///
/// `Created`: not connected yet. `Connecting`: connected, acquiring the
/// registry and installing the listener. `AwaitingReadiness`: subscribed,
/// holding back what arrives until the UI is ready. `Running`: inside the
/// graph service's loop, delivering each notification as it comes.
/// `Stopped`: torn down, for good.
#[derive(Clone, Copy, Debug, PartialEq, Eq, Structural)]
pub enum BridgeState {
    Created,
    Connecting,
    AwaitingReadiness,
    Running,
    Stopped,
}

/// A startup step that failed; the bridge cannot go on after any of them.
#[derive(Clone, Copy, Debug, PartialEq, Eq, Structural)]
pub enum StartupError {
    Connection,
    Registry,
    Listener,
}

/// What happened outside the bridge: the outcome of the work it asked for,
/// the UI's readiness signal, or a registry notification.
pub enum BridgeEvent {
    Connected,
    ConnectFailed,
    Subscribed,
    RegistryFailed,
    ListenerFailed,
    Ready,
    Added(RawObject),
    Removed(u32),
    EmitFailed,
    LoopEnded,
}

/// What the bridge asks its host to do next.
pub enum BridgeAction {
    /// Acquire the registry and install the add/remove listener.
    Subscribe,
    /// Block until the UI signals readiness.
    AwaitReady,
    /// Emit these, in order, then enter the graph service's loop.
    RunLoop(Vec<Envelope>),
    /// Emit this one event.
    Deliver(Envelope),
    /// The notification is kept until readiness; emit nothing now.
    Hold,
    /// A malformed notification was dropped; report it, emit nothing.
    Discard(TranslationError),
    /// Startup failed; tell the host and stop.
    Fail(StartupError),
    /// Leave the loop and tear the bridge down.
    Shutdown,
    Nothing,
}

pub enum ActionView {
    Subscribe,
    AwaitReady,
    RunLoop(Seq<EnvelopeView>),
    Deliver(EnvelopeView),
    Hold,
    Discard(MissingField),
    Fail(StartupError),
    Shutdown,
    Nothing,
}

pub open spec fn envelopes_view(v: Seq<Envelope>) -> Seq<EnvelopeView> {
    v.map_values(|e: Envelope| e@)
}

impl View for BridgeAction {
    type V = ActionView;

    open spec fn view(&self) -> ActionView {
        match self {
            BridgeAction::Subscribe => ActionView::Subscribe,
            BridgeAction::AwaitReady => ActionView::AwaitReady,
            BridgeAction::RunLoop(v) => ActionView::RunLoop(envelopes_view(v@)),
            BridgeAction::Deliver(e) => ActionView::Deliver(e@),
            BridgeAction::Hold => ActionView::Hold,
            BridgeAction::Discard(err) => ActionView::Discard(err@),
            BridgeAction::Fail(f) => ActionView::Fail(*f),
            BridgeAction::Shutdown => ActionView::Shutdown,
            BridgeAction::Nothing => ActionView::Nothing,
        }
    }
}

pub struct BridgeView {
    pub state: BridgeState,
    /// Whether the readiness gate has fired.
    pub ready: bool,
    /// Events held back until readiness, oldest first.
    pub pending: Seq<EnvelopeView>,
}

pub open spec fn with_state(m: BridgeView, state: BridgeState) -> BridgeView {
    BridgeView { state, ready: m.ready, pending: m.pending }
}

pub open spec fn stopped(m: BridgeView) -> BridgeView {
    BridgeView { state: BridgeState::Stopped, ready: m.ready, pending: Seq::empty() }
}

/// Enters the loop, releasing what was held back.
pub open spec fn released(m: BridgeView) -> (BridgeView, ActionView) {
    (BridgeView { state: BridgeState::Running, ready: true, pending: Seq::empty() }, ActionView::RunLoop(m.pending))
}

/// A new event while subscribed: emitted at once when running, else held.
pub open spec fn accept(m: BridgeView, e: EnvelopeView) -> (BridgeView, ActionView) {
    if m.state == BridgeState::Running {
        (m, ActionView::Deliver(e))
    } else {
        (BridgeView { state: m.state, ready: m.ready, pending: m.pending.push(e) }, ActionView::Hold)
    }
}

pub open spec fn listening(s: BridgeState) -> bool {
    s == BridgeState::AwaitingReadiness || s == BridgeState::Running
}

/// The bridge's decision on one event: its next state and what it asks for.
pub open spec fn step_of(m: BridgeView, e: BridgeEvent) -> (BridgeView, ActionView) {
    match e {
        BridgeEvent::Connected => if m.state == BridgeState::Created {
            (with_state(m, BridgeState::Connecting), ActionView::Subscribe)
        } else {
            (m, ActionView::Nothing)
        },
        BridgeEvent::ConnectFailed => if m.state == BridgeState::Created {
            (stopped(m), ActionView::Fail(StartupError::Connection))
        } else {
            (m, ActionView::Nothing)
        },
        BridgeEvent::Subscribed => if m.state != BridgeState::Connecting {
            (m, ActionView::Nothing)
        } else if m.ready {
            released(m)
        } else {
            (with_state(m, BridgeState::AwaitingReadiness), ActionView::AwaitReady)
        },
        BridgeEvent::RegistryFailed => if m.state == BridgeState::Connecting {
            (stopped(m), ActionView::Fail(StartupError::Registry))
        } else {
            (m, ActionView::Nothing)
        },
        BridgeEvent::ListenerFailed => if m.state == BridgeState::Connecting {
            (stopped(m), ActionView::Fail(StartupError::Listener))
        } else {
            (m, ActionView::Nothing)
        },
        BridgeEvent::Ready => if m.state == BridgeState::AwaitingReadiness {
            released(m)
        } else {
            (BridgeView { state: m.state, ready: true, pending: m.pending }, ActionView::Nothing)
        },
        BridgeEvent::Added(raw) => if !listening(m.state) {
            (m, ActionView::Nothing)
        } else {
            match translation_of(&raw) {
                Err(f) => (m, ActionView::Discard(f)),
                Ok(None) => (m, ActionView::Nothing),
                Ok(Some(p)) => accept(m, add_envelope(p)),
            }
        },
        BridgeEvent::Removed(id) => if !listening(m.state) {
            (m, ActionView::Nothing)
        } else {
            accept(m, remove_envelope(id))
        },
        BridgeEvent::EmitFailed | BridgeEvent::LoopEnded => if m.state == BridgeState::Stopped {
            (m, ActionView::Nothing)
        } else {
            (stopped(m), ActionView::Shutdown)
        },
    }
}

/// Running, the readiness gate is open and nothing is held back; waiting, it is shut.
pub open spec fn well_formed(m: BridgeView) -> bool {
    &&& m.state == BridgeState::Running ==> m.ready && m.pending.len() == 0
    &&& m.state == BridgeState::AwaitingReadiness ==> !m.ready
}

pub open spec fn is_notification(e: BridgeEvent) -> bool {
    e is Added || e is Removed
}

pub open spec fn all_notifications(events: Seq<BridgeEvent>) -> bool {
    forall|i: int| 0 <= i < events.len() ==> is_notification(#[trigger] events[i])
}

/// The events that one notification stands for: one for an object that
/// translates or a removal, none for an untranslated kind or a malformed one.
pub open spec fn notice_envelopes(e: BridgeEvent) -> Seq<EnvelopeView> {
    match e {
        BridgeEvent::Added(raw) => match translation_of(&raw) {
            Ok(Some(p)) => seq![add_envelope(p)],
            _ => Seq::empty(),
        },
        BridgeEvent::Removed(id) => seq![remove_envelope(id)],
        _ => Seq::empty(),
    }
}

/// The events that a run of notifications stands for, in the order they came.
pub open spec fn envelopes_of(events: Seq<BridgeEvent>) -> Seq<EnvelopeView>
    decreases events.len(),
{
    if events.len() == 0 {
        Seq::empty()
    } else {
        notice_envelopes(events[0]) + envelopes_of(events.drop_first())
    }
}

/// The bridge after a run of events, with the action it asked for on each.
pub open spec fn run(m: BridgeView, events: Seq<BridgeEvent>) -> (BridgeView, Seq<ActionView>)
    decreases events.len(),
{
    if events.len() == 0 {
        (m, Seq::empty())
    } else {
        let first = step_of(m, events[0]);
        let rest = run(first.0, events.drop_first());
        (rest.0, seq![first.1] + rest.1)
    }
}

/// What an action puts on the UI-facing channel.
pub open spec fn emitted(a: ActionView) -> Seq<EnvelopeView> {
    match a {
        ActionView::RunLoop(s) => s,
        ActionView::Deliver(e) => seq![e],
        _ => Seq::empty(),
    }
}

/// What a run of actions puts on the UI-facing channel, in order.
pub open spec fn delivered(actions: Seq<ActionView>) -> Seq<EnvelopeView>
    decreases actions.len(),
{
    if actions.len() == 0 {
        Seq::empty()
    } else {
        emitted(actions[0]) + delivered(actions.drop_first())
    }
}

proof fn lemma_delivered_cons(a: ActionView, r: Seq<ActionView>)
    ensures
        delivered(seq![a] + r) == emitted(a) + delivered(r),
{
    let s = seq![a] + r;
    assert(s.drop_first() =~= r);
    assert(s[0] == a);
}

proof fn lemma_delivered_append(a: Seq<ActionView>, b: Seq<ActionView>)
    ensures
        delivered(a + b) == delivered(a) + delivered(b),
    decreases a.len(),
{
    if a.len() == 0 {
        assert(a + b =~= b);
        assert(delivered(a) + delivered(b) =~= delivered(b));
    } else {
        lemma_delivered_append(a.drop_first(), b);
        assert((a + b).drop_first() =~= a.drop_first() + b);
        assert(delivered(a) + delivered(b) =~= emitted(a[0]) + (delivered(a.drop_first()) + delivered(b)));
    }
}

proof fn lemma_run_append(m: BridgeView, a: Seq<BridgeEvent>, b: Seq<BridgeEvent>)
    ensures
        run(m, a + b) == (run(run(m, a).0, b).0, run(m, a).1 + run(run(m, a).0, b).1),
    decreases a.len(),
{
    if a.len() == 0 {
        assert(a + b =~= b);
        assert(run(m, a).1 + run(m, b).1 =~= run(m, b).1);
    } else {
        let first = step_of(m, a[0]);
        lemma_run_append(first.0, a.drop_first(), b);
        assert((a + b).drop_first() =~= a.drop_first() + b);
        assert((a + b)[0] == a[0]);
        let r = run(first.0, a.drop_first());
        assert(seq![first.1] + (r.1 + run(r.0, b).1) =~= (seq![first.1] + r.1) + run(r.0, b).1);
    }
}

/// The events of two runs of notifications, one after the other, are those
/// of the first followed by those of the second.
pub proof fn lemma_envelopes_of_append(a: Seq<BridgeEvent>, b: Seq<BridgeEvent>)
    ensures
        envelopes_of(a + b) == envelopes_of(a) + envelopes_of(b),
    decreases a.len(),
{
    if a.len() == 0 {
        assert(a + b =~= b);
        assert(envelopes_of(a) + envelopes_of(b) =~= envelopes_of(b));
    } else {
        lemma_envelopes_of_append(a.drop_first(), b);
        assert((a + b).drop_first() =~= a.drop_first() + b);
        assert((a + b)[0] == a[0]);
        assert(envelopes_of(a) + envelopes_of(b) =~= notice_envelopes(a[0]) + (envelopes_of(a.drop_first())
            + envelopes_of(b)));
    }
}

/// Until the UI is ready, notifications reach nobody: each event they stand
/// for is held back, in order, and the bridge keeps waiting.
pub proof fn lemma_held_until_ready(m: BridgeView, events: Seq<BridgeEvent>)
    requires
        m.state == BridgeState::AwaitingReadiness,
        all_notifications(events),
    ensures
        run(m, events).0 == (BridgeView {
            state: BridgeState::AwaitingReadiness,
            ready: m.ready,
            pending: m.pending + envelopes_of(events),
        }),
        delivered(run(m, events).1) == Seq::<EnvelopeView>::empty(),
    decreases events.len(),
{
    if events.len() == 0 {
        assert(m.pending + envelopes_of(events) =~= m.pending);
    } else {
        let e = events[0];
        assert(is_notification(e));
        let first = step_of(m, e);
        assert(first.0.pending == m.pending + notice_envelopes(e)) by {
            if notice_envelopes(e).len() == 0 {
                assert(m.pending + notice_envelopes(e) =~= m.pending);
            } else {
                assert(m.pending.push(notice_envelopes(e)[0]) =~= m.pending + notice_envelopes(e));
            }
        }
        assert(emitted(first.1) == Seq::<EnvelopeView>::empty());
        assert(all_notifications(events.drop_first())) by {
            assert forall|i: int| 0 <= i < events.drop_first().len() implies is_notification(
                #[trigger] events.drop_first()[i],
            ) by {
                assert(events.drop_first()[i] == events[i + 1]);
            }
        }
        lemma_held_until_ready(first.0, events.drop_first());
        assert(m.pending + notice_envelopes(e) + envelopes_of(events.drop_first()) =~= m.pending
            + envelopes_of(events));
        lemma_delivered_cons(first.1, run(first.0, events.drop_first()).1);
    }
}

/// A running bridge hands on each notification as it comes: the UI receives
/// exactly the events they stand for, in the order they came.
pub proof fn lemma_running_in_order(m: BridgeView, events: Seq<BridgeEvent>)
    requires
        m.state == BridgeState::Running,
        all_notifications(events),
    ensures
        run(m, events).0 == m,
        delivered(run(m, events).1) == envelopes_of(events),
    decreases events.len(),
{
    if events.len() > 0 {
        let e = events[0];
        assert(is_notification(e));
        let first = step_of(m, e);
        assert(first.0 == m);
        assert(emitted(first.1) =~= notice_envelopes(e));
        assert(all_notifications(events.drop_first())) by {
            assert forall|i: int| 0 <= i < events.drop_first().len() implies is_notification(
                #[trigger] events.drop_first()[i],
            ) by {
                assert(events.drop_first()[i] == events[i + 1]);
            }
        }
        lemma_running_in_order(m, events.drop_first());
        lemma_delivered_cons(first.1, run(m, events.drop_first()).1);
    }
}

/// Nothing reaches the UI before readiness is signalled, however many
/// notifications come first; at the signal the held ones go out, in order,
/// and after it each goes out as it comes.
pub proof fn lemma_readiness_ordering(m: BridgeView, before: Seq<BridgeEvent>, after: Seq<BridgeEvent>)
    requires
        m.state == BridgeState::AwaitingReadiness,
        all_notifications(before),
        all_notifications(after),
    ensures
        delivered(run(m, before).1) == Seq::<EnvelopeView>::empty(),
        delivered(run(m, before.push(BridgeEvent::Ready) + after).1) == m.pending + envelopes_of(before)
            + envelopes_of(after),
{
    lemma_held_until_ready(m, before);
    let waiting = run(m, before).0;
    let opened = step_of(waiting, BridgeEvent::Ready);
    let ready = seq![BridgeEvent::Ready];
    assert(run(waiting, ready) == (opened.0, seq![opened.1])) by {
        assert(ready.drop_first() =~= Seq::<BridgeEvent>::empty());
        assert(run(opened.0, Seq::<BridgeEvent>::empty()).1 =~= Seq::<ActionView>::empty());
        assert(seq![opened.1] + Seq::<ActionView>::empty() =~= seq![opened.1]);
    }
    lemma_running_in_order(opened.0, after);
    lemma_run_append(m, before, ready);
    assert(before.push(BridgeEvent::Ready) =~= before + ready);
    lemma_run_append(m, before + ready, after);
    let first = run(m, before + ready);
    lemma_delivered_append(first.1, run(first.0, after).1);
    lemma_delivered_append(run(m, before).1, seq![opened.1]);
    assert(delivered(seq![opened.1]) =~= emitted(opened.1)) by {
        lemma_delivered_cons(opened.1, Seq::<ActionView>::empty());
        assert(seq![opened.1] + Seq::<ActionView>::empty() =~= seq![opened.1]);
        assert(emitted(opened.1) + Seq::<EnvelopeView>::empty() =~= emitted(opened.1));
    }
}

/// A removal goes out as `remove_id` with the id alone, whatever kind of
/// object held the id and whatever came before.
pub proof fn lemma_removal_ignores_kind(m: BridgeView, history: Seq<BridgeEvent>, id: u32)
    requires
        m.state == BridgeState::Running,
        all_notifications(history),
    ensures
        step_of(run(m, history).0, BridgeEvent::Removed(id)) == (m, ActionView::Deliver(remove_envelope(id))),
        delivered(run(m, history.push(BridgeEvent::Removed(id))).1) == envelopes_of(history).push(
            remove_envelope(id),
        ),
{
    let h = history.push(BridgeEvent::Removed(id));
    assert(all_notifications(h)) by {
        assert forall|i: int| 0 <= i < h.len() implies is_notification(#[trigger] h[i]) by {
            if i < history.len() {
                assert(h[i] == history[i]);
            }
        }
    }
    lemma_running_in_order(m, history);
    lemma_running_in_order(m, h);
    let last = seq![BridgeEvent::Removed(id)];
    assert(h =~= history + last);
    lemma_envelopes_of_append(history, last);
    assert(envelopes_of(last) =~= seq![remove_envelope(id)]) by {
        assert(last.drop_first() =~= Seq::<BridgeEvent>::empty());
        assert(envelopes_of(Seq::<BridgeEvent>::empty()) =~= Seq::<EnvelopeView>::empty());
        assert(seq![remove_envelope(id)] + Seq::<EnvelopeView>::empty() =~= seq![remove_envelope(id)]);
    }
}

/// A notification that fails to translate is dropped: the bridge stays as it
/// was and nothing reaches the UI.
pub proof fn lemma_malformed_dropped(m: BridgeView, raw: RawObject)
    requires
        translation_of(&raw) is Err,
    ensures
        step_of(m, BridgeEvent::Added(raw)).0 == m,
        emitted(step_of(m, BridgeEvent::Added(raw)).1) == Seq::<EnvelopeView>::empty(),
{
}

/// Signalling readiness twice does what signalling it once does: the second
/// signal changes nothing and asks for nothing.
pub proof fn lemma_ready_idempotent(m: BridgeView)
    ensures
        step_of(m, BridgeEvent::Ready).0.ready,
        step_of(step_of(m, BridgeEvent::Ready).0, BridgeEvent::Ready) == (step_of(m, BridgeEvent::Ready).0, ActionView::Nothing),
{
}

/// Every step keeps the bridge well formed.
pub proof fn lemma_step_well_formed(m: BridgeView, e: BridgeEvent)
    requires
        well_formed(m),
    ensures
        well_formed(step_of(m, e).0),
{
}

/// The registry listener's end of the bridge, with the readiness gate and
/// the events held back until it fires.
pub struct Bridge {
    state: BridgeState,
    gate: ReadinessGate,
    pending: Vec<Envelope>,
}

impl View for Bridge {
    type V = BridgeView;

    closed spec fn view(&self) -> BridgeView {
        BridgeView { state: self.state, ready: self.gate@, pending: envelopes_view(self.pending@) }
    }
}

impl Bridge {
    pub fn new() -> (b: Bridge)
        ensures
            b@ == (BridgeView { state: BridgeState::Created, ready: false, pending: Seq::empty() }),
    {
        let b = Bridge { state: BridgeState::Created, gate: ReadinessGate::new(), pending: Vec::new() };
        assert(envelopes_view(b.pending@) =~= Seq::<EnvelopeView>::empty());
        b
    }

    pub fn state(&self) -> (s: BridgeState)
        ensures
            s == self@.state,
    {
        self.state
    }

    pub fn is_ready(&self) -> (r: bool)
        ensures
            r == self@.ready,
    {
        self.gate.wait()
    }

    pub fn pending_len(&self) -> (n: usize)
        ensures
            n == self@.pending.len(),
    {
        self.pending.len()
    }

    fn stop(&mut self)
        ensures
            final(self)@ == stopped(old(self)@),
    {
        self.state = BridgeState::Stopped;
        self.pending = Vec::new();
        assert(envelopes_view(self.pending@) =~= Seq::<EnvelopeView>::empty());
    }

    fn release(&mut self) -> (a: BridgeAction)
        ensures
            (final(self)@, a@) == released(old(self)@),
    {
        let mut held: Vec<Envelope> = Vec::new();
        std::mem::swap(&mut held, &mut self.pending);
        self.state = BridgeState::Running;
        self.gate.signal_ready();
        assert(envelopes_view(self.pending@) =~= Seq::<EnvelopeView>::empty());
        BridgeAction::RunLoop(held)
    }

    fn accept(&mut self, e: Envelope) -> (a: BridgeAction)
        requires
            listening(old(self)@.state),
        ensures
            (final(self)@, a@) == accept(old(self)@, e@),
    {
        if self.state == BridgeState::Running {
            BridgeAction::Deliver(e)
        } else {
            let ghost before = self.pending@;
            self.pending.push(e);
            assert(envelopes_view(self.pending@) =~= envelopes_view(before).push(e@));
            BridgeAction::Hold
        }
    }

    /// Decides what one event means for the bridge.
    pub fn step(&mut self, event: BridgeEvent) -> (a: BridgeAction)
        ensures
            (final(self)@, a@) == step_of(old(self)@, event),
    {
        match event {
            BridgeEvent::Connected => {
                if self.state == BridgeState::Created {
                    self.state = BridgeState::Connecting;
                    BridgeAction::Subscribe
                } else {
                    BridgeAction::Nothing
                }
            },
            BridgeEvent::ConnectFailed => {
                if self.state == BridgeState::Created {
                    self.stop();
                    BridgeAction::Fail(StartupError::Connection)
                } else {
                    BridgeAction::Nothing
                }
            },
            BridgeEvent::Subscribed => {
                if self.state != BridgeState::Connecting {
                    BridgeAction::Nothing
                } else if self.gate.wait() {
                    self.release()
                } else {
                    self.state = BridgeState::AwaitingReadiness;
                    BridgeAction::AwaitReady
                }
            },
            BridgeEvent::RegistryFailed => {
                if self.state == BridgeState::Connecting {
                    self.stop();
                    BridgeAction::Fail(StartupError::Registry)
                } else {
                    BridgeAction::Nothing
                }
            },
            BridgeEvent::ListenerFailed => {
                if self.state == BridgeState::Connecting {
                    self.stop();
                    BridgeAction::Fail(StartupError::Listener)
                } else {
                    BridgeAction::Nothing
                }
            },
            BridgeEvent::Ready => {
                if self.state == BridgeState::AwaitingReadiness {
                    self.release()
                } else {
                    self.gate.signal_ready();
                    BridgeAction::Nothing
                }
            },
            BridgeEvent::Added(raw) => {
                if self.state != BridgeState::AwaitingReadiness && self.state != BridgeState::Running {
                    BridgeAction::Nothing
                } else {
                    match translate(&raw) {
                        Err(f) => BridgeAction::Discard(f),
                        Ok(None) => BridgeAction::Nothing,
                        Ok(Some(p)) => self.accept(Envelope::add(p)),
                    }
                }
            },
            BridgeEvent::Removed(id) => {
                if self.state != BridgeState::AwaitingReadiness && self.state != BridgeState::Running {
                    BridgeAction::Nothing
                } else {
                    self.accept(Envelope::remove(id))
                }
            },
            BridgeEvent::EmitFailed | BridgeEvent::LoopEnded => {
                if self.state == BridgeState::Stopped {
                    BridgeAction::Nothing
                } else {
                    self.stop();
                    BridgeAction::Shutdown
                }
            },
        }
    }
}

} // verus!
