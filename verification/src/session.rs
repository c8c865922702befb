//! The per-client session: a state machine `Connecting -> Streaming ->
//! Closed` driven by the events one streaming loop iteration observes —
//! handshake outcome, provider query outcome, push outcome. The machine
//! decides the next state and what the connection registry must do; the
//! surrounding runtime performs the network work and hands the outcomes in.

use vstd::prelude::*;
use crate::classify::is_disconnect_error;
use crate::classify::is_disconnect_message;
use crate::registry::RegistryOp;
use crate::registry::op_delta;
use vstd::arithmetic::div_mod::lemma_basic_div;
use vstd::arithmetic::div_mod::lemma_div_by_self;
use vstd::arithmetic::div_mod::lemma_div_of0;
use vstd::arithmetic::div_mod::lemma_div_plus_one;

verus! {

/// The states a session passes through, in order; `Closed` is terminal.
#[derive(Clone, Copy, PartialEq, Eq, Structural, Debug)]
pub enum SessionState {
    /// The network handshake is in progress; the session is not counted.
    Connecting,
    /// Snapshots are being pushed once per interval; the session is counted.
    Streaming,
    /// The client is gone; the session is no longer counted.
    Closed,
}

/// What one loop iteration of a session observes.
#[derive(Debug)]
pub enum SessionEvent {
    /// The handshake completed and streaming may begin.
    HandshakeSucceeded,
    /// The handshake failed; the session ends without ever being counted.
    HandshakeFailed,
    /// The provider reported an error instead of a snapshot: transient,
    /// logged by the caller, never the end of the session.
    QueryFailed,
    /// A snapshot was pushed to the client; the payload is the message text.
    SendSucceeded(String),
    /// The push failed; the payload is the error text, to be classified.
    SendFailed(String),
}

/// The state after one event. Events that cannot occur in a state (a
/// handshake outcome while streaming, anything after `Closed`) change
/// nothing.
pub open spec fn next_state(s: SessionState, e: SessionEvent) -> SessionState {
    match (s, e) {
        (SessionState::Connecting, SessionEvent::HandshakeSucceeded) => SessionState::Streaming,
        (SessionState::Connecting, SessionEvent::HandshakeFailed) => SessionState::Closed,
        (SessionState::Streaming, SessionEvent::SendFailed(m)) => if is_disconnect_message(m@) {
            SessionState::Closed
        } else {
            SessionState::Streaming
        },
        _ => s,
    }
}

/// What the registry must do for one event: count the session when its
/// handshake succeeds, uncount it when a disconnect-class send failure
/// closes it, nothing otherwise.
pub open spec fn step_op(s: SessionState, e: SessionEvent) -> RegistryOp {
    match (s, e) {
        (SessionState::Connecting, SessionEvent::HandshakeSucceeded) => RegistryOp::Join,
        (SessionState::Streaming, SessionEvent::SendFailed(m)) => if is_disconnect_message(m@) {
            RegistryOp::Leave
        } else {
            RegistryOp::Stay
        },
        _ => RegistryOp::Stay,
    }
}

/// What one event delivers to the client: the pushed snapshot, if any.
pub open spec fn emitted(s: SessionState, e: SessionEvent) -> Seq<Seq<char>> {
    match (s, e) {
        (SessionState::Streaming, SessionEvent::SendSucceeded(m)) => seq![m@],
        _ => Seq::<Seq<char>>::empty(),
    }
}

/// The state a trace of events drives the machine to.
pub open spec fn run_state(s: SessionState, t: Seq<SessionEvent>) -> SessionState
    decreases t.len(),
{
    if t.len() == 0 {
        s
    } else {
        run_state(next_state(s, t[0]), t.drop_first())
    }
}

/// Everything a trace of events delivers to the client, in send order.
pub open spec fn sent_in(s: SessionState, t: Seq<SessionEvent>) -> Seq<Seq<char>>
    decreases t.len(),
{
    if t.len() == 0 {
        Seq::<Seq<char>>::empty()
    } else {
        emitted(s, t[0]) + sent_in(next_state(s, t[0]), t.drop_first())
    }
}

/// The net change a trace of events makes to the connection count.
pub open spec fn delta_in(s: SessionState, t: Seq<SessionEvent>) -> int
    decreases t.len(),
{
    if t.len() == 0 {
        0
    } else {
        op_delta(step_op(s, t[0])) + delta_in(next_state(s, t[0]), t.drop_first())
    }
}

/// Running a trace split in two parts: the second part starts where the
/// first left off, delivered messages concatenate in order, and registry
/// changes add up.
pub proof fn lemma_run_concat(s: SessionState, t1: Seq<SessionEvent>, t2: Seq<SessionEvent>)
    ensures
        run_state(s, t1 + t2) == run_state(run_state(s, t1), t2),
        sent_in(s, t1 + t2) =~= sent_in(s, t1) + sent_in(run_state(s, t1), t2),
        delta_in(s, t1 + t2) == delta_in(s, t1) + delta_in(run_state(s, t1), t2),
    decreases t1.len(),
{
    if t1.len() == 0 {
        assert(t1 + t2 =~= t2);
        assert(sent_in(s, t1) + sent_in(s, t2) =~= sent_in(s, t2));
    } else {
        assert((t1 + t2)[0] == t1[0]);
        assert((t1 + t2).drop_first() =~= t1.drop_first() + t2);
        lemma_run_concat(next_state(s, t1[0]), t1.drop_first(), t2);
    }
}

/// Running one more event from the end of a trace.
pub proof fn lemma_run_push(s: SessionState, t: Seq<SessionEvent>, e: SessionEvent)
    ensures
        run_state(s, t.push(e)) == next_state(run_state(s, t), e),
        sent_in(s, t.push(e)) =~= sent_in(s, t) + emitted(run_state(s, t), e),
        delta_in(s, t.push(e)) == delta_in(s, t) + op_delta(step_op(run_state(s, t), e)),
{
    let single = seq![e];
    assert(t.push(e) =~= t + single);
    lemma_run_concat(s, t, single);
    let mid = run_state(s, t);
    reveal_with_fuel(run_state, 2);
    reveal_with_fuel(sent_in, 2);
    reveal_with_fuel(delta_in, 2);
    assert(single.len() == 1);
    assert(single[0] == e);
    assert(single.drop_first() =~= Seq::<SessionEvent>::empty());
    assert(run_state(mid, single) == next_state(mid, e));
    assert(sent_in(mid, single) =~= emitted(mid, e));
    assert(delta_in(mid, single) == op_delta(step_op(mid, e)));
}

/// How much a state contributes to the connection count: a session is
/// counted exactly while it is streaming.
pub open spec fn streaming_weight(s: SessionState) -> int {
    if s == SessionState::Streaming {
        1
    } else {
        0
    }
}

/// Session accounting: whatever events arrive, a session's net effect on
/// the connection count is exactly whether it is currently streaming. So it
/// is never negative, never above one, the count is incremented exactly
/// once per session that reaches `Streaming`, and decremented exactly once
/// per such session that then reaches `Closed`.
pub proof fn lemma_session_accounting(s: SessionState, t: Seq<SessionEvent>)
    ensures
        delta_in(s, t) == streaming_weight(run_state(s, t)) - streaming_weight(s),
    decreases t.len(),
{
    if t.len() > 0 {
        lemma_session_accounting(next_state(s, t[0]), t.drop_first());
    }
}

/// Disconnect classification: from `Streaming`, a send failure of the
/// connection-reset / broken-pipe class closes the session and releases its
/// registry slot; any other send failure is an anomaly that leaves the
/// session streaming with no registry change; a provider query failure
/// likewise changes nothing.
pub proof fn lemma_disconnect_classification(msg: String)
    ensures
        is_disconnect_message(msg@) ==> next_state(
            SessionState::Streaming,
            SessionEvent::SendFailed(msg),
        ) == SessionState::Closed && step_op(SessionState::Streaming, SessionEvent::SendFailed(msg))
            == RegistryOp::Leave,
        !is_disconnect_message(msg@) ==> next_state(
            SessionState::Streaming,
            SessionEvent::SendFailed(msg),
        ) == SessionState::Streaming && step_op(
            SessionState::Streaming,
            SessionEvent::SendFailed(msg),
        ) == RegistryOp::Stay,
        next_state(SessionState::Streaming, SessionEvent::QueryFailed) == SessionState::Streaming,
        step_op(SessionState::Streaming, SessionEvent::QueryFailed) == RegistryOp::Stay,
{
}

/// Every event of the trace is a provider query failure.
pub open spec fn all_query_failures(t: Seq<SessionEvent>) -> bool {
    forall|i: int| 0 <= i < t.len() ==> t[i] is QueryFailed
}

/// Every event of the trace is a successful push.
pub open spec fn all_sends_succeed(t: Seq<SessionEvent>) -> bool {
    forall|i: int| 0 <= i < t.len() ==> t[i] is SendSucceeded
}

/// The snapshot payloads a trace carries, in order.
pub open spec fn payloads_of(t: Seq<SessionEvent>) -> Seq<Seq<char>>
    decreases t.len(),
{
    if t.len() == 0 {
        Seq::<Seq<char>>::empty()
    } else {
        (match t[0] {
            SessionEvent::SendSucceeded(m) => seq![m@],
            _ => Seq::<Seq<char>>::empty(),
        }) + payloads_of(t.drop_first())
    }
}

/// Message ordering: over iterations in which every push succeeds, a
/// streaming session stays streaming and the client receives exactly the
/// pushed snapshots, one each, in iteration order (FIFO per connection).
pub proof fn lemma_streaming_fifo(t: Seq<SessionEvent>)
    requires
        all_sends_succeed(t),
    ensures
        run_state(SessionState::Streaming, t) == SessionState::Streaming,
        sent_in(SessionState::Streaming, t) =~= payloads_of(t),
    decreases t.len(),
{
    if t.len() > 0 {
        assert(t[0] is SendSucceeded);
        assert forall|i: int| 0 <= i < t.drop_first().len() implies t.drop_first()[i]
            is SendSucceeded by {
            assert(t.drop_first()[i] == t[i + 1]);
        }
        lemma_streaming_fifo(t.drop_first());
    }
}

/// Delivery is first-in-first-out: however the trace continues, the
/// messages already delivered stay an unchanged prefix of everything ever
/// delivered, in their original order.
pub proof fn lemma_message_order(s: SessionState, t1: Seq<SessionEvent>, t2: Seq<SessionEvent>)
    ensures
        sent_in(s, t1 + t2).take(sent_in(s, t1).len() as int) =~= sent_in(s, t1),
{
    lemma_run_concat(s, t1, t2);
}

/// Provider failure isolation: however many consecutive iterations the
/// provider fails, a streaming session neither closes nor touches the
/// registry and delivers nothing — and on the next successful push it
/// resumes normal streaming, delivering exactly that snapshot.
pub proof fn lemma_provider_failure_isolation(t: Seq<SessionEvent>, m: String)
    requires
        all_query_failures(t),
    ensures
        run_state(SessionState::Streaming, t) == SessionState::Streaming,
        sent_in(SessionState::Streaming, t) =~= Seq::<Seq<char>>::empty(),
        delta_in(SessionState::Streaming, t) == 0,
        run_state(SessionState::Streaming, t.push(SessionEvent::SendSucceeded(m)))
            == SessionState::Streaming,
        sent_in(SessionState::Streaming, t.push(SessionEvent::SendSucceeded(m))) =~= seq![m@],
    decreases t.len(),
{
    if t.len() == 0 {
        lemma_run_push(SessionState::Streaming, t, SessionEvent::SendSucceeded(m));
    } else {
        assert(t[0] is QueryFailed);
        assert forall|i: int| 0 <= i < t.drop_first().len() implies t.drop_first()[i]
            is QueryFailed by {
            assert(t.drop_first()[i] == t[i + 1]);
        }
        lemma_provider_failure_isolation(t.drop_first(), m);
        lemma_run_push(SessionState::Streaming, t, SessionEvent::SendSucceeded(m));
    }
}

/// One per-client session, with the (ghost) history of events it has
/// observed; its state is always what that history produces.
pub struct Session {
    /// Where the session stands now.
    pub state: SessionState,
    /// Every event the session has observed, oldest first.
    pub history: Ghost<Seq<SessionEvent>>,
}

impl Session {
    /// The state is what the recorded history drives the machine to.
    pub open spec fn wf(&self) -> bool {
        self.state == run_state(SessionState::Connecting, self.history@)
    }

    /// Everything this session has delivered to its client, in send order.
    pub open spec fn delivered(&self) -> Seq<Seq<char>> {
        sent_in(SessionState::Connecting, self.history@)
    }

    /// A session starts connecting, with nothing observed or delivered.
    pub fn new() -> (r: Session)
        ensures
            r.wf(),
            r.state == SessionState::Connecting,
            r.history@ =~= Seq::<SessionEvent>::empty(),
    {
        Session { state: SessionState::Connecting, history: Ghost(Seq::<SessionEvent>::empty()) }
    }

    /// Advance by one observed event and say what the registry must do.
    pub fn step(&mut self, event: SessionEvent) -> (op: RegistryOp)
        requires
            old(self).wf(),
        ensures
            final(self).wf(),
            final(self).history@ == old(self).history@.push(event),
            final(self).state == next_state(old(self).state, event),
            final(self).delivered() =~= old(self).delivered() + emitted(old(self).state, event),
            op == step_op(old(self).state, event),
    {
        let ghost prev = self.history@;
        let op: RegistryOp;
        match self.state {
            SessionState::Connecting => {
                match &event {
                    SessionEvent::HandshakeSucceeded => {
                        self.state = SessionState::Streaming;
                        op = RegistryOp::Join;
                    },
                    SessionEvent::HandshakeFailed => {
                        self.state = SessionState::Closed;
                        op = RegistryOp::Stay;
                    },
                    _ => {
                        op = RegistryOp::Stay;
                    },
                }
            },
            SessionState::Streaming => {
                match &event {
                    SessionEvent::SendFailed(m) => {
                        if is_disconnect_error(m.as_str()) {
                            self.state = SessionState::Closed;
                            op = RegistryOp::Leave;
                        } else {
                            op = RegistryOp::Stay;
                        }
                    },
                    _ => {
                        op = RegistryOp::Stay;
                    },
                }
            },
            SessionState::Closed => {
                op = RegistryOp::Stay;
            },
        }
        self.history = Ghost(prev.push(event));
        proof {
            lemma_run_push(SessionState::Connecting, prev, event);
        }
        op
    }
}

/// Replay a trace of events from the `Streaming` state and hand back what
/// it delivers to the client, in send order.
pub fn replay_delivered(events: &Vec<SessionEvent>) -> (r: Vec<String>)
    ensures
        r.deep_view() == sent_in(SessionState::Streaming, events@),
{
    let mut out: Vec<String> = Vec::new();
    let mut st = SessionState::Streaming;
    let mut i: usize = 0;
    while i < events.len()
        invariant
            i <= events.len(),
            st == run_state(SessionState::Streaming, events@.take(i as int)),
            out.deep_view() =~= sent_in(SessionState::Streaming, events@.take(i as int)),
        decreases events.len() - i,
    {
        let ghost prefix = events@.take(i as int);
        proof {
            assert(events@.take(i + 1) =~= prefix.push(events@[i as int]));
            lemma_run_push(SessionState::Streaming, prefix, events@[i as int]);
        }
        match (st, &events[i]) {
            (SessionState::Streaming, SessionEvent::SendSucceeded(m)) => {
                out.push(m.clone());
                proof {
                    assert(out.deep_view() =~= sent_in(
                        SessionState::Streaming,
                        events@.take(i + 1),
                    ));
                }
            },
            (SessionState::Connecting, SessionEvent::HandshakeSucceeded) => {
                st = SessionState::Streaming;
            },
            (SessionState::Connecting, SessionEvent::HandshakeFailed) => {
                st = SessionState::Closed;
            },
            (SessionState::Streaming, SessionEvent::SendFailed(m)) => {
                if is_disconnect_error(m.as_str()) {
                    st = SessionState::Closed;
                }
            },
            _ => {},
        }
        i += 1;
    }
    proof {
        assert(events@.take(events@.len() as int) =~= events@);
    }
    out
}

/// How many snapshot pushes a session makes during a connected window of
/// `window` time units: each loop iteration pushes once and then sleeps
/// `interval` units, so pushes fall at times 0, `interval`, 2 × `interval`,
/// ... while the window lasts.
pub open spec fn pushes_within(window: nat, interval: nat) -> nat
    recommends
        interval > 0,
    decreases window,
{
    if interval == 0 {
        0
    } else if window == 0 {
        0
    } else if window <= interval {
        1
    } else {
        1 + pushes_within((window - interval) as nat, interval)
    }
}

/// Count the pushes a session makes during a connected window: one per
/// loop iteration, each iteration sleeping `interval` after its push.
pub fn push_count(window: u64, interval: u64) -> (r: u64)
    requires
        interval > 0,
    ensures
        r == pushes_within(window as nat, interval as nat),
{
    let mut count: u64 = 0;
    let mut left: u64 = window;
    while left > 0
        invariant
            interval > 0,
            count + pushes_within(left as nat, interval as nat) == pushes_within(
                window as nat,
                interval as nat,
            ),
            count <= window - left,
        decreases left,
    {
        count = count + 1;
        if left <= interval {
            left = 0;
        } else {
            left = left - interval;
        }
    }
    count
}

/// Cadence: a client connected for a window `T` with fixed push interval
/// `I` receives within one of `T / I` messages: at least `T / I`, at most
/// `T / I + 1`.
pub proof fn lemma_cadence(window: nat, interval: nat)
    requires
        interval > 0,
    ensures
        window / interval <= pushes_within(window, interval) <= window / interval + 1,
    decreases window,
{
    if window == 0 {
        lemma_div_of0(interval as int);
    } else if window < interval {
        lemma_basic_div(window as int, interval as int);
    } else if window == interval {
        lemma_div_by_self(interval as int);
    } else {
        lemma_cadence((window - interval) as nat, interval);
        lemma_div_plus_one(window - interval, interval as int);
    }
}

} // verus!
