//! Per-connection session logic: what the inbound loop records for each
//! frame read from the client socket, what the outbound loop writes for each
//! bus event, and the strictly forward, one-shot session lifecycle.
//!
//! The loops themselves suspend on sockets and timers and so run outside the
//! library; each of their iterations hands its observation to a function
//! here, which makes every decision.

use crate::bus::{pending_events, Bus, BusEvent, EventView, RecvOutcome, Subscription};
use crate::ledger::Ledger;
use vstd::prelude::*;

verus! {

/// One frame read from the client socket, as the inbound loop sees it.
pub enum InFrame {
    /// A text frame and its payload.
    Text(String),
    /// A protocol ping from the client; its payload is not recorded.
    Ping(Vec<u8>),
    /// A protocol pong from the client; its payload is not recorded.
    Pong(Vec<u8>),
    /// A binary frame: not supported, recorded nowhere.
    Binary(Vec<u8>),
    /// The peer closed the connection.
    Close,
}

/// One read attempt of the inbound loop.
pub enum ReadEvent {
    /// A well-formed frame arrived.
    Frame(InFrame),
    /// The read yielded a malformed frame: transient, logged by the caller,
    /// the loop continues.
    Malformed,
    /// The socket itself failed: fatal for the session.
    SocketError,
    /// Nothing was available within this attempt: the caller backs off and
    /// polls again.
    Idle,
}

/// What the ledger records for one read attempt, if anything: a text payload
/// verbatim, the literal tag `"ping"` or `"pong"` for a protocol ping or
/// pong -- recording both keeps them observable and symmetric -- and nothing
/// for anything else.
pub open spec fn spec_inbound_record(ev: ReadEvent) -> Option<Seq<char>> {
    match ev {
        ReadEvent::Frame(f) => match f {
            InFrame::Text(t) => Some(t@),
            InFrame::Ping(_) => Some("ping"@),
            InFrame::Pong(_) => Some("pong"@),
            InFrame::Binary(_) => None,
            InFrame::Close => None,
        },
        _ => None,
    }
}

/// Whether one read attempt ends the session: the peer's close frame does,
/// and so does a socket-level failure; nothing else.
pub open spec fn spec_inbound_stop(ev: ReadEvent) -> bool {
    match ev {
        ReadEvent::Frame(f) => f is Close,
        ReadEvent::SocketError => true,
        ReadEvent::Malformed => false,
        ReadEvent::Idle => false,
    }
}

/// One iteration of the inbound loop, after the socket read: record what the
/// attempt prescribes and say whether the session must close.
///
/// * a text frame is recorded verbatim;
/// * a protocol pong is recorded as the literal tag `"pong"`, a ping as
///   `"ping"`;
/// * a binary or malformed frame is skipped and the loop goes on;
/// * a close frame or a socket-level failure records nothing and ends the
///   session;
/// * an idle attempt records nothing; the caller sleeps and polls again.
pub fn inbound_step(ledger: &mut Ledger, ev: ReadEvent) -> (stop: bool)
    ensures
        stop == spec_inbound_stop(ev),
        final(ledger)@ == (match spec_inbound_record(ev) {
            Some(s) => old(ledger)@.push(s),
            None => old(ledger)@,
        }),
{
    match ev {
        ReadEvent::Frame(f) => match f {
            InFrame::Text(t) => {
                ledger.append(t);
                false
            },
            InFrame::Ping(_) => {
                ledger.append("ping".to_owned());
                false
            },
            InFrame::Pong(_) => {
                ledger.append("pong".to_owned());
                false
            },
            InFrame::Binary(_) => false,
            InFrame::Close => true,
        },
        ReadEvent::Malformed => false,
        ReadEvent::SocketError => true,
        ReadEvent::Idle => false,
    }
}

/// One frame to write to the client socket.
#[derive(Debug, PartialEq, Eq)]
pub enum OutFrame {
    /// A protocol ping; the relay always sends it with an empty payload.
    Ping(Vec<u8>),
    /// A protocol pong; the relay always sends it with an empty payload.
    Pong(Vec<u8>),
    /// A text frame and its payload.
    Text(String),
}

/// The abstract value of an [`OutFrame`].
pub enum FrameView {
    Ping(Seq<u8>),
    Pong(Seq<u8>),
    Text(Seq<char>),
}

impl View for OutFrame {
    type V = FrameView;

    open spec fn view(&self) -> FrameView {
        match self {
            OutFrame::Ping(p) => FrameView::Ping(p@),
            OutFrame::Pong(p) => FrameView::Pong(p@),
            OutFrame::Text(t) => FrameView::Text(t@),
        }
    }
}

impl DeepView for OutFrame {
    type V = FrameView;

    open spec fn deep_view(&self) -> FrameView {
        self@
    }
}

/// The wire frame owed for one bus event: `Ping` and `Pong` become protocol
/// frames with an empty payload, `Text` a text frame carrying the payload
/// verbatim.
pub open spec fn spec_frame_for(ev: EventView) -> FrameView {
    match ev {
        EventView::Ping => FrameView::Ping(Seq::<u8>::empty()),
        EventView::Pong => FrameView::Pong(Seq::<u8>::empty()),
        EventView::Text(s) => FrameView::Text(s),
    }
}

/// Translate one bus event into the frame the client is owed.
pub fn frame_for_event(ev: BusEvent) -> (f: OutFrame)
    ensures
        f@ == spec_frame_for(ev@),
{
    match ev {
        BusEvent::Ping => {
            let p: Vec<u8> = Vec::new();
            proof {
                assert(p@ =~= Seq::<u8>::empty());
            }
            OutFrame::Ping(p)
        },
        BusEvent::Pong => {
            let p: Vec<u8> = Vec::new();
            proof {
                assert(p@ =~= Seq::<u8>::empty());
            }
            OutFrame::Pong(p)
        },
        BusEvent::Text(t) => OutFrame::Text(t),
    }
}

/// What the outbound loop does after one receive attempt on its
/// subscription.
#[derive(Debug, PartialEq, Eq)]
pub enum OutboundStep {
    /// Forward this frame to the client socket. (If the write then fails,
    /// the peer is gone and the session ends; that verdict lies with the
    /// socket, not here.)
    Send(OutFrame),
    /// The subscriber lagged: not fatal, keep receiving.
    Continue,
    /// Nothing pending: back off, then poll again.
    Wait,
    /// The bus is closed and drained: the loop ends.
    Stop,
}

/// The outbound loop's decision for one receive outcome: every event is
/// forwarded as exactly the frame `spec_frame_for` prescribes, lag is
/// skipped and never kills a slow session, an empty window waits, and only a
/// closed, drained bus ends the loop.
pub fn outbound_step(r: RecvOutcome) -> (s: OutboundStep)
    ensures
        (match r {
            RecvOutcome::Event(e) => s matches OutboundStep::Send(f) && f@ == spec_frame_for(
                e@,
            ),
            RecvOutcome::Lagged => s is Continue,
            RecvOutcome::Pending => s is Wait,
            RecvOutcome::Closed => s is Stop,
        }),
{
    match r {
        RecvOutcome::Event(e) => OutboundStep::Send(frame_for_event(e)),
        RecvOutcome::Lagged => OutboundStep::Continue,
        RecvOutcome::Pending => OutboundStep::Wait,
        RecvOutcome::Closed => OutboundStep::Stop,
    }
}

/// The frames owed for a run of events, in order.
pub open spec fn frames_for(events: Seq<EventView>) -> Seq<FrameView> {
    events.map_values(|e: EventView| spec_frame_for(e))
}

/// Everything the outbound loop owes its client right now: the frame for
/// every pending event of `sub`, in publish order. The cursor ends at the
/// end of the history; events the window already dropped are skipped, as a
/// lagging loop skips them. Every subscriber is owed the frame of every
/// event published after it subscribed and still within the window --
/// fan-out at the wire level.
pub fn pending_frames(bus: &Bus, sub: &mut Subscription) -> (frames: Vec<OutFrame>)
    requires
        bus.wf(),
        old(sub).wf(bus),
    ensures
        final(sub).wf(bus),
        final(sub).pos() == bus.published().len(),
        frames.deep_view() == frames_for(pending_events(bus, old(sub).pos())),
{
    let events = bus.drain(sub);
    let ghost evs = events.deep_view();
    let mut frames: Vec<OutFrame> = Vec::new();
    let mut i: usize = 0;
    while i < events.len()
        invariant
            i <= events.len(),
            evs == events.deep_view(),
            evs.len() == events@.len(),
            frames.deep_view() =~= frames_for(evs.subrange(0, i as int)),
        decreases events.len() - i,
    {
        let f = frame_for_event(events[i].duplicate());
        let ghost pre = frames.deep_view();
        frames.push(f);
        proof {
            assert(pre.len() == i as int);
            assert(frames.deep_view().len() == pre.len() + 1);
            assert forall|j: int| 0 <= j < i + 1 implies frames.deep_view()[j] == frames_for(
                evs.subrange(0, i + 1 as int),
            )[j] by {
                assert(evs.subrange(0, i + 1 as int)[j] == evs[j]);
                if j < i {
                    assert(frames.deep_view()[j] == pre[j]);
                    assert(pre[j] == spec_frame_for(evs.subrange(0, i as int)[j]));
                    assert(evs.subrange(0, i as int)[j] == evs[j]);
                } else {
                    assert(frames.deep_view()[j] == f@);
                    assert(f@ == spec_frame_for(evs[i as int]));
                }
            }
            assert(frames.deep_view() =~= frames_for(evs.subrange(0, i + 1 as int)));
        }
        i = i + 1;
    }
    proof {
        assert(evs.subrange(0, evs.len() as int) =~= evs);
    }
    frames
}

/// Lifecycle of one connection: strictly forward, one-shot.
#[derive(Clone, Copy, PartialEq, Eq, Structural, Debug)]
pub enum SessionState {
    /// The upgrade was accepted; the loops do not exist yet.
    Upgrading,
    /// Both loops run, sharing one socket and one bus subscription.
    Active,
    /// One loop observed a terminal condition and exited; the other still
    /// runs and will notice on its own.
    Closing,
    /// Both loops exited; socket and subscription are released.
    Closed,
}

/// Which of a session's two loops is reporting.
pub enum LoopHalf {
    Inbound,
    Outbound,
}

/// One client connection's lifecycle and the liveness of its two loops.
pub struct Session {
    state: SessionState,
    inbound_running: bool,
    outbound_running: bool,
}

impl Session {
    /// The lifecycle state.
    pub closed spec fn spec_state(&self) -> SessionState {
        self.state
    }

    /// Whether the inbound loop still runs.
    pub closed spec fn inbound_live(&self) -> bool {
        self.inbound_running
    }

    /// Whether the outbound loop still runs.
    pub closed spec fn outbound_live(&self) -> bool {
        self.outbound_running
    }

    /// The state names exactly which loops run: none before activation and
    /// after closure, both while active, exactly one while closing.
    pub open spec fn wf(&self) -> bool {
        match self.spec_state() {
            SessionState::Upgrading => !self.inbound_live() && !self.outbound_live(),
            SessionState::Active => self.inbound_live() && self.outbound_live(),
            SessionState::Closing => self.inbound_live() != self.outbound_live(),
            SessionState::Closed => !self.inbound_live() && !self.outbound_live(),
        }
    }

    /// A session begins when the upgrade is accepted, before its loops
    /// exist.
    pub fn new() -> (s: Session)
        ensures
            s.wf(),
            s.spec_state() is Upgrading,
    {
        Session { state: SessionState::Upgrading, inbound_running: false, outbound_running: false }
    }

    /// The upgrade completed: both loops are spawned, atomically with one
    /// bus subscription for the outbound loop.
    pub fn activate(&mut self)
        requires
            old(self).wf(),
            old(self).spec_state() is Upgrading,
        ensures
            final(self).wf(),
            final(self).spec_state() is Active,
            lifecycle_step(old(self).spec_state(), final(self).spec_state()),
    {
        self.state = SessionState::Active;
        self.inbound_running = true;
        self.outbound_running = true;
    }

    /// One loop observed its terminal condition and exited. The first exit
    /// moves the session to `Closing`; the second completes it: `Closed`,
    /// when socket and subscription are released.
    pub fn loop_exited(&mut self, half: LoopHalf)
        requires
            old(self).wf(),
            (match half {
                LoopHalf::Inbound => old(self).inbound_live(),
                LoopHalf::Outbound => old(self).outbound_live(),
            }),
        ensures
            final(self).wf(),
            (match half {
                LoopHalf::Inbound => !final(self).inbound_live() && final(self).outbound_live()
                    == old(self).outbound_live(),
                LoopHalf::Outbound => !final(self).outbound_live() && final(self).inbound_live()
                    == old(self).inbound_live(),
            }),
            old(self).spec_state() is Active ==> final(self).spec_state() is Closing,
            old(self).spec_state() is Closing ==> final(self).spec_state() is Closed,
            lifecycle_step(old(self).spec_state(), final(self).spec_state()),
    {
        match half {
            LoopHalf::Inbound => self.inbound_running = false,
            LoopHalf::Outbound => self.outbound_running = false,
        }
        if self.inbound_running || self.outbound_running {
            self.state = SessionState::Closing;
        } else {
            self.state = SessionState::Closed;
        }
    }

    /// The lifecycle state, for callers outside the proof.
    pub fn current_state(&self) -> (s: SessionState)
        ensures
            s == self.spec_state(),
    {
        self.state
    }

    /// Whether the inbound loop still runs, for callers outside the proof.
    pub fn is_inbound_live(&self) -> (b: bool)
        ensures
            b == self.inbound_live(),
    {
        self.inbound_running
    }

    /// Whether the outbound loop still runs, for callers outside the proof.
    pub fn is_outbound_live(&self) -> (b: bool)
        ensures
            b == self.outbound_live(),
    {
        self.outbound_running
    }
}

/// The transitions the lifecycle allows.
pub open spec fn lifecycle_step(pre: SessionState, post: SessionState) -> bool {
    ||| (pre is Upgrading && post is Active)
    ||| (pre is Active && post is Closing)
    ||| (pre is Closing && post is Closed)
}

/// Position of a state in the one-shot lifecycle order.
pub open spec fn lifecycle_rank(s: SessionState) -> int {
    match s {
        SessionState::Upgrading => 0,
        SessionState::Active => 1,
        SessionState::Closing => 2,
        SessionState::Closed => 3,
    }
}

/// No state ever reverts: every allowed transition moves strictly forward in
/// the lifecycle order, so each session passes each state at most once.
pub proof fn lemma_lifecycle_forward(pre: SessionState, post: SessionState)
    requires
        lifecycle_step(pre, post),
    ensures
        lifecycle_rank(pre) < lifecycle_rank(post),
{
}

} // verus!
