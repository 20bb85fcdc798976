//! The event bus: one shared broadcast channel carrying control-plane events
//! to every connected session's outbound loop.
//!
//! The bus keeps a bounded window of the most recently published events and
//! drops the oldest when the window is full. Each subscription holds a cursor
//! into the full publish history; a subscriber that falls behind the window
//! observes a lag signal and skips ahead rather than being disconnected, and
//! a subscriber never observes an event published before it subscribed.

use vstd::prelude::*;

verus! {

/// One control-plane event. Immutable once published; logically cloned to
/// every current subscriber.
#[derive(Debug, PartialEq, Eq)]
pub enum BusEvent {
    /// Ask every connected client for a protocol ping.
    Ping,
    /// Ask every connected client for a protocol pong.
    Pong,
    /// A text frame to forward verbatim.
    Text(String),
}

/// The abstract value of a [`BusEvent`]: a text payload is its character
/// sequence.
pub enum EventView {
    Ping,
    Pong,
    Text(Seq<char>),
}

impl View for BusEvent {
    type V = EventView;

    open spec fn view(&self) -> EventView {
        match self {
            BusEvent::Ping => EventView::Ping,
            BusEvent::Pong => EventView::Pong,
            BusEvent::Text(s) => EventView::Text(s@),
        }
    }
}

impl DeepView for BusEvent {
    type V = EventView;

    open spec fn deep_view(&self) -> EventView {
        self@
    }
}

impl BusEvent {
    /// An explicit copy with the same abstract value; a text payload is
    /// copied character for character.
    pub fn duplicate(&self) -> (e: BusEvent)
        ensures
            e@ == self@,
    {
        match self {
            BusEvent::Ping => BusEvent::Ping,
            BusEvent::Pong => BusEvent::Pong,
            BusEvent::Text(s) => BusEvent::Text(s.clone()),
        }
    }
}

/// `publish` failed to hand the event to anyone: the bus is closed, or no
/// subscriber is live. The event was not recorded.
pub struct BusClosed;

/// What one receive attempt yields.
pub enum RecvOutcome {
    /// The next event in publish order.
    Event(BusEvent),
    /// The subscriber fell behind by more than the capacity; the dropped
    /// events are skipped and its cursor moves to the oldest retained one.
    Lagged,
    /// Nothing is published beyond the cursor yet; the caller should wait
    /// and poll again.
    Pending,
    /// The bus is closed and this subscriber has drained it.
    Closed,
}

/// The shared broadcast channel.
pub struct Bus {
    /// The retained window: the most recently published events.
    buf: Vec<BusEvent>,
    /// How many published events were dropped from the front of the window.
    base: usize,
    /// Bound on the window length; positive.
    cap: usize,
    /// Number of live subscriptions.
    subs: usize,
    /// Whether the publish side has shut down.
    shut: bool,
    /// The full publish history; the fields above retain only its tail.
    hist: Ghost<Seq<EventView>>,
}

/// A subscriber's handle into the bus.
pub struct Subscription {
    cursor: usize,
}

impl Subscription {
    /// Index into the publish history of the next event this subscriber
    /// observes.
    pub closed spec fn pos(&self) -> int {
        self.cursor as int
    }

    /// The subscription's cursor does not run ahead of the bus's history.
    pub open spec fn wf(&self, bus: &Bus) -> bool {
        0 <= self.pos() <= bus.published().len()
    }

    /// The cursor, for callers outside the proof.
    pub fn position(&self) -> (n: usize)
        ensures
            n == self.pos(),
    {
        self.cursor
    }
}

/// Where a subscriber at `pos` actually resumes: at its own cursor, or at
/// the start of the retained window if the bus has already dropped events
/// the subscriber never saw.
pub open spec fn start_for(bus: &Bus, pos: int) -> int {
    if pos >= bus.window_start() {
        pos
    } else {
        bus.window_start()
    }
}

/// The events a subscriber at `pos` can still observe, in publish order:
/// the published suffix from its cursor, clipped to the retained window.
pub open spec fn pending_events(bus: &Bus, pos: int) -> Seq<EventView> {
    bus.published().subrange(start_for(bus, pos), bus.published().len() as int)
}

impl Bus {
    /// Everything ever published on this bus, in publish order.
    pub closed spec fn published(&self) -> Seq<EventView> {
        self.hist@
    }

    /// The bound on how far a subscriber may fall behind.
    pub closed spec fn capacity(&self) -> int {
        self.cap as int
    }

    /// Number of live subscriptions.
    pub closed spec fn subscribers(&self) -> int {
        self.subs as int
    }

    /// Whether the publish side has shut down.
    pub closed spec fn is_closed(&self) -> bool {
        self.shut
    }

    /// Index of the oldest event the bus still retains; everything published
    /// before it is gone and can only surface as a lag signal.
    pub closed spec fn window_start(&self) -> int {
        self.base as int
    }

    /// The retained window is the tail of the history and never longer than
    /// the capacity.
    pub closed spec fn wf(&self) -> bool {
        &&& self.cap > 0
        &&& self.buf@.len() <= self.cap
        &&& self.base + self.buf@.len() <= usize::MAX
        &&& self.hist@.len() == self.base + self.buf@.len()
        &&& forall|i: int|
            0 <= i < self.buf@.len() ==> self.buf@[i]@ == self.hist@[self.base + i]
    }

    /// A fresh bus: nothing published, nobody subscribed, open.
    pub fn new(capacity: usize) -> (b: Bus)
        requires
            capacity > 0,
        ensures
            b.wf(),
            b.published() == Seq::<EventView>::empty(),
            b.capacity() == capacity,
            b.subscribers() == 0,
            !b.is_closed(),
            b.window_start() == 0,
    {
        Bus {
            buf: Vec::new(),
            base: 0,
            cap: capacity,
            subs: 0,
            shut: false,
            hist: Ghost(Seq::empty()),
        }
    }

    /// How many events were ever published; the machine bound on it is the
    /// only limit a caller must watch before publishing.
    pub fn published_count(&self) -> (n: usize)
        requires
            self.wf(),
        ensures
            n == self.published().len(),
    {
        self.base + self.buf.len()
    }

    /// Number of live subscriptions.
    pub fn subscriber_count(&self) -> (n: usize)
        ensures
            n == self.subscribers(),
    {
        self.subs
    }

    /// Publish one event. On an open bus with at least one live subscriber
    /// the event joins the history (dropping the oldest retained event when
    /// the window is full) and the subscriber count is returned. On a closed
    /// bus, or with nobody subscribed, nothing is recorded and the error is
    /// returned: "no one is listening" leaves the bus unchanged.
    pub fn publish(&mut self, event: BusEvent) -> (r: Result<usize, BusClosed>)
        requires
            old(self).wf(),
            old(self).published().len() < usize::MAX,
        ensures
            final(self).wf(),
            final(self).capacity() == old(self).capacity(),
            final(self).subscribers() == old(self).subscribers(),
            final(self).is_closed() == old(self).is_closed(),
            r is Err <==> (old(self).is_closed() || old(self).subscribers() == 0),
            r is Err ==> final(self).published() == old(self).published()
                && final(self).window_start() == old(self).window_start(),
            r matches Ok(n) ==> n == old(self).subscribers()
                && final(self).published() == old(self).published().push(event@)
                && final(self).window_start() == (
                if old(self).published().len() - old(self).window_start() == old(self).capacity() {
                    old(self).window_start() + 1
                } else {
                    old(self).window_start()
                }),
    {
        if self.shut || self.subs == 0 {
            return Err(BusClosed);
        }
        if self.buf.len() == self.cap {
            let ghost pre = self.buf@;
            self.buf.remove(0);
            self.base = self.base + 1;
            proof {
                assert(forall|i: int|
                    0 <= i < self.buf@.len() ==> self.buf@[i] == pre[i + 1]);
            }
        }
        self.buf.push(event);
        proof {
            self.hist@ = self.hist@.push(event@);
        }
        Ok(self.subs)
    }

    /// Begin observing the bus. The new subscription starts at the current
    /// end of the history: it observes only events published after this
    /// call, never prior history.
    pub fn subscribe(&mut self) -> (s: Subscription)
        requires
            old(self).wf(),
            old(self).subscribers() < usize::MAX,
        ensures
            final(self).wf(),
            final(self).published() == old(self).published(),
            final(self).window_start() == old(self).window_start(),
            final(self).capacity() == old(self).capacity(),
            final(self).is_closed() == old(self).is_closed(),
            final(self).subscribers() == old(self).subscribers() + 1,
            s.pos() == old(self).published().len(),
            s.wf(final(self)),
    {
        self.subs = self.subs + 1;
        Subscription { cursor: self.base + self.buf.len() }
    }

    /// End one subscription: the session's outbound loop exited and its
    /// handle is gone; the publisher-visible subscriber count drops by one.
    pub fn unsubscribe(&mut self, sub: Subscription)
        requires
            old(self).wf(),
            old(self).subscribers() > 0,
        ensures
            final(self).wf(),
            final(self).published() == old(self).published(),
            final(self).window_start() == old(self).window_start(),
            final(self).capacity() == old(self).capacity(),
            final(self).is_closed() == old(self).is_closed(),
            final(self).subscribers() == old(self).subscribers() - 1,
    {
        let _ = sub;
        self.subs = self.subs - 1;
    }

    /// Shut the publish side down: later publishes fail; subscribers still
    /// drain what was already published, then observe closure.
    pub fn close(&mut self)
        requires
            old(self).wf(),
        ensures
            final(self).wf(),
            final(self).published() == old(self).published(),
            final(self).window_start() == old(self).window_start(),
            final(self).capacity() == old(self).capacity(),
            final(self).subscribers() == old(self).subscribers(),
            final(self).is_closed(),
    {
        self.shut = true;
    }

    /// One receive attempt for `sub`: the event at its cursor if the bus
    /// still retains it, a lag signal (skipping to the oldest retained
    /// event) if the window moved past the cursor, and otherwise pending or
    /// closed, depending on the publish side.
    pub fn receive(&self, sub: &mut Subscription) -> (r: RecvOutcome)
        requires
            self.wf(),
            old(sub).wf(self),
        ensures
            final(sub).wf(self),
            final(sub).pos() >= old(sub).pos(),
            (match r {
                RecvOutcome::Event(e) => {
                    &&& self.window_start() <= old(sub).pos() < self.published().len()
                    &&& e@ == self.published()[old(sub).pos()]
                    &&& final(sub).pos() == old(sub).pos() + 1
                },
                RecvOutcome::Lagged => {
                    &&& old(sub).pos() < self.window_start()
                    &&& final(sub).pos() == self.window_start()
                },
                RecvOutcome::Pending => {
                    &&& old(sub).pos() == self.published().len()
                    &&& !self.is_closed()
                    &&& final(sub).pos() == old(sub).pos()
                },
                RecvOutcome::Closed => {
                    &&& old(sub).pos() == self.published().len()
                    &&& self.is_closed()
                    &&& final(sub).pos() == old(sub).pos()
                },
            }),
    {
        if sub.cursor < self.base {
            sub.cursor = self.base;
            RecvOutcome::Lagged
        } else if sub.cursor - self.base < self.buf.len() {
            let e = self.buf[sub.cursor - self.base].duplicate();
            sub.cursor = sub.cursor + 1;
            RecvOutcome::Event(e)
        } else if self.shut {
            RecvOutcome::Closed
        } else {
            RecvOutcome::Pending
        }
    }

    /// Receive until nothing more is immediately available: yields every
    /// pending event of `sub`, in publish order, and leaves its cursor at
    /// the end of the history. A lag on the way is skipped, as the outbound
    /// loop does.
    pub fn drain(&self, sub: &mut Subscription) -> (out: Vec<BusEvent>)
        requires
            self.wf(),
            old(sub).wf(self),
        ensures
            final(sub).wf(self),
            final(sub).pos() == self.published().len(),
            out.deep_view() == pending_events(self, old(sub).pos()),
    {
        let ghost p0 = sub.pos();
        let ghost start = start_for(self, p0);
        let mut out: Vec<BusEvent> = Vec::new();
        loop
            invariant
                self.wf(),
                sub.wf(self),
                start == start_for(self, p0),
                0 <= p0 <= self.published().len(),
                sub.pos() >= p0,
                sub.pos() >= start ==> out.deep_view() =~= self.published().subrange(
                    start,
                    sub.pos(),
                ),
                sub.pos() < start ==> sub.pos() == p0 && out@.len() == 0,
            ensures
                sub.wf(self),
                sub.pos() == self.published().len(),
                out.deep_view() =~= self.published().subrange(start, self.published().len() as int),
            decreases self.published().len() - sub.pos(),
        {
            let ghost pre_pos = sub.pos();
            let ghost pre_out = out.deep_view();
            match self.receive(sub) {
                RecvOutcome::Event(e) => {
                    out.push(e);
                    proof {
                        assert(out.deep_view() =~= pre_out.push(e@));
                        assert(out.deep_view() =~= self.published().subrange(start, sub.pos()));
                    }
                },
                RecvOutcome::Lagged => {
                    proof {
                        assert(sub.pos() == start);
                        assert(out.deep_view() =~= self.published().subrange(start, start));
                    }
                },
                RecvOutcome::Pending => {
                    break;
                },
                RecvOutcome::Closed => {
                    break;
                },
            }
        }
        out
    }
}

/// No replay: every event still observable by a subscriber at `pos` sits at
/// or after `pos` in the publish history. Since a fresh subscription's
/// cursor equals the publish count at subscribe time and never moves back,
/// an event published before the subscription is never delivered to it.
pub proof fn lemma_no_replay(bus: &Bus, pos: int, k: int)
    requires
        bus.wf(),
        0 <= pos <= bus.published().len(),
        0 <= k < pending_events(bus, pos).len(),
    ensures
        pending_events(bus, pos)[k] == bus.published()[start_for(bus, pos) + k],
        start_for(bus, pos) + k >= pos,
{
}

/// Fan-out: right after an event is published, it is pending for every
/// subscriber, whatever its cursor -- the last of each subscriber's pending
/// sequence. (`publish` guarantees the premises: the new history is the old
/// one extended by the event, and the window still reaches the old end.)
pub proof fn lemma_fan_out(pre: &Bus, post: &Bus, ev: EventView, pos: int)
    requires
        post.wf(),
        post.published() == pre.published().push(ev),
        post.window_start() <= pre.published().len(),
        0 <= pos <= pre.published().len(),
    ensures
        pending_events(post, pos).len() > 0,
        pending_events(post, pos).last() == ev,
{
    assert(post.published().len() == pre.published().len() + 1);
    assert(start_for(post, pos) <= pre.published().len());
}

} // verus!
