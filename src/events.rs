use vstd::prelude::*;

use crate::json::{JsonValue, JsonView};
use crate::session::{SessionId, SessionModelConfig};

verus! {

/// A normalised event of some session, as the bus carries it.
#[derive(Debug, Clone)]
pub enum OrchestratorEvent {
    SessionCreated { session_id: SessionId, agent_name: String, model_config: Option<SessionModelConfig> },
    ContentDelta { session_id: SessionId, content: String },
    ToolCall { session_id: SessionId, tool_name: String, args: JsonValue },
    FileChange {
        session_id: SessionId,
        path: String,
        action: String,
        content: Option<String>,
        diff: Option<String>,
    },
    TokenUsage { session_id: SessionId, usage: JsonValue },
    Thinking { session_id: SessionId, content: String },
    SessionError { session_id: SessionId, error: String },
    SessionClosed { session_id: SessionId },
}

/// The content of an event.
pub enum EventView {
    SessionCreated { session_id: SessionId, agent_name: Seq<char>, model_config: Option<SessionModelConfig> },
    ContentDelta { session_id: SessionId, content: Seq<char> },
    ToolCall { session_id: SessionId, tool_name: Seq<char>, args: JsonView },
    FileChange {
        session_id: SessionId,
        path: Seq<char>,
        action: Seq<char>,
        content: Option<Seq<char>>,
        diff: Option<Seq<char>>,
    },
    TokenUsage { session_id: SessionId, usage: JsonView },
    Thinking { session_id: SessionId, content: Seq<char> },
    SessionError { session_id: SessionId, error: Seq<char> },
    SessionClosed { session_id: SessionId },
}

/// The text of an optional string.
pub open spec fn opt_text(s: Option<String>) -> Option<Seq<char>> {
    match s {
        Some(t) => Some(t@),
        None => None,
    }
}

impl View for OrchestratorEvent {
    type V = EventView;

    open spec fn view(&self) -> EventView {
        match *self {
            OrchestratorEvent::SessionCreated { session_id, agent_name, model_config } =>
                EventView::SessionCreated { session_id, agent_name: agent_name@, model_config },
            OrchestratorEvent::ContentDelta { session_id, content } =>
                EventView::ContentDelta { session_id, content: content@ },
            OrchestratorEvent::ToolCall { session_id, tool_name, args } =>
                EventView::ToolCall { session_id, tool_name: tool_name@, args: args@ },
            OrchestratorEvent::FileChange { session_id, path, action, content, diff } =>
                EventView::FileChange {
                    session_id,
                    path: path@,
                    action: action@,
                    content: opt_text(content),
                    diff: opt_text(diff),
                },
            OrchestratorEvent::TokenUsage { session_id, usage } =>
                EventView::TokenUsage { session_id, usage: usage@ },
            OrchestratorEvent::Thinking { session_id, content } =>
                EventView::Thinking { session_id, content: content@ },
            OrchestratorEvent::SessionError { session_id, error } =>
                EventView::SessionError { session_id, error: error@ },
            OrchestratorEvent::SessionClosed { session_id } => EventView::SessionClosed { session_id },
        }
    }
}

/// The contents of a list of events.
pub open spec fn views(s: Seq<OrchestratorEvent>) -> Seq<EventView> {
    s.map_values(|e: OrchestratorEvent| e@)
}

/// A content delta, or nothing for empty text.
pub open spec fn delta_of(sid: SessionId, text: Seq<char>) -> Seq<EventView> {
    if text.len() == 0 {
        Seq::empty()
    } else {
        seq![EventView::ContentDelta { session_id: sid, content: text }]
    }
}

/// Appends a content delta unless the text is empty.
pub fn push_delta(out: &mut Vec<OrchestratorEvent>, sid: SessionId, text: String)
    ensures
        views(final(out)@) == views(old(out)@) + delta_of(sid, text@),
{
    let ghost before = out@;
    if text.as_str().unicode_len() == 0 {
        assert(views(out@) =~= views(before) + delta_of(sid, text@));
        return;
    }
    out.push(OrchestratorEvent::ContentDelta { session_id: sid, content: text });
    assert(views(out@) =~= views(before) + delta_of(sid, text@));
}

/// Appends one event.
pub fn push_event(out: &mut Vec<OrchestratorEvent>, e: OrchestratorEvent)
    ensures
        views(final(out)@) == views(old(out)@).push(e@),
{
    let ghost before = out@;
    out.push(e);
    assert(views(out@) =~= views(before).push(e@));
}

impl OrchestratorEvent {
    /// The session that produced this event.
    pub open spec fn origin(self) -> SessionId {
        match self {
            OrchestratorEvent::SessionCreated { session_id, .. } => session_id,
            OrchestratorEvent::ContentDelta { session_id, .. } => session_id,
            OrchestratorEvent::ToolCall { session_id, .. } => session_id,
            OrchestratorEvent::FileChange { session_id, .. } => session_id,
            OrchestratorEvent::TokenUsage { session_id, .. } => session_id,
            OrchestratorEvent::Thinking { session_id, .. } => session_id,
            OrchestratorEvent::SessionError { session_id, .. } => session_id,
            OrchestratorEvent::SessionClosed { session_id } => session_id,
        }
    }

    pub fn session_id(&self) -> (r: SessionId)
        ensures
            r == self.origin(),
    {
        match self {
            OrchestratorEvent::SessionCreated { session_id, .. } => *session_id,
            OrchestratorEvent::ContentDelta { session_id, .. } => *session_id,
            OrchestratorEvent::ToolCall { session_id, .. } => *session_id,
            OrchestratorEvent::FileChange { session_id, .. } => *session_id,
            OrchestratorEvent::TokenUsage { session_id, .. } => *session_id,
            OrchestratorEvent::Thinking { session_id, .. } => *session_id,
            OrchestratorEvent::SessionError { session_id, .. } => *session_id,
            OrchestratorEvent::SessionClosed { session_id } => *session_id,
        }
    }
}

/// Why a subscriber received no event.
#[derive(Debug, Clone, Copy, PartialEq, Eq, Structural)]
pub enum RecvError {
    /// Nothing is waiting for this subscriber.
    Empty,
    /// This many events were dropped before the subscriber read them; it now
    /// reads from the oldest event still held.
    Lagged(u64),
    /// The bus was closed and everything sent was read.
    Closed,
}

/// A subscriber of a bus: which of its read positions is this one's.
#[derive(Debug, Clone, Copy, PartialEq, Eq)]
pub struct EventStream {
    index: usize,
}

impl EventStream {
    pub closed spec fn slot(self) -> int {
        self.index as int
    }

    /// Reads the next event for this subscriber without waiting.
    pub fn try_recv<'a>(&self, bus: &'a mut EventBroadcaster) -> (r: Result<&'a OrchestratorEvent, RecvError>)
        requires
            old(bus).wf(),
            old(bus).has(*self),
        ensures
            final(bus).wf(),
            final(bus).log() == old(bus).log(),
            final(bus).first() == old(bus).first(),
            final(bus).is_closed() == old(bus).is_closed(),
            final(bus).capacity() == old(bus).capacity(),
            final(bus).subscriber_count() == old(bus).subscriber_count(),
            forall|o: EventStream| old(bus).has(o) && o.slot() != self.slot() ==> final(bus).cursor(o) == old(bus).cursor(o),
            old(bus).missed(*self) > 0 ==> r == Err::<&OrchestratorEvent, RecvError>(RecvError::Lagged(old(bus).missed(*self) as u64))
                && final(bus).cursor(*self) == old(bus).first(),
            old(bus).missed(*self) == 0 && old(bus).pending(*self).len() == 0 ==> final(bus).cursor(*self) == old(bus).cursor(*self)
                && r == Err::<&OrchestratorEvent, RecvError>(if old(bus).is_closed() { RecvError::Closed } else { RecvError::Empty }),
            old(bus).missed(*self) == 0 && old(bus).pending(*self).len() > 0 ==> r is Ok
                && *r->Ok_0 == old(bus).pending(*self)[0]
                && final(bus).cursor(*self) == old(bus).cursor(*self) + 1,
    {
        bus.receive(self.index)
    }
}

/// A bounded fan-out bus of events.
///
/// The bus holds the last `capacity` events; each subscriber reads them in
/// the order they were sent, from the moment it subscribed. A subscriber that
/// falls more than `capacity` events behind is told how many it missed. Sending
/// never waits for a subscriber.
#[derive(Debug)]
pub struct EventBroadcaster {
    capacity: usize,
    /// The events still held, oldest first.
    events: Vec<OrchestratorEvent>,
    /// Sequence number of `events[0]`.
    first_seq: u64,
    /// Next sequence number to read, per subscriber.
    cursors: Vec<u64>,
    closed: bool,
}

impl EventBroadcaster {
    pub closed spec fn capacity(&self) -> nat {
        self.capacity as nat
    }

    /// The events still held, oldest first.
    pub closed spec fn log(&self) -> Seq<OrchestratorEvent> {
        self.events@
    }

    /// Sequence number of the oldest event held.
    pub closed spec fn first(&self) -> int {
        self.first_seq as int
    }

    /// Sequence number that the next event sent will get.
    pub open spec fn next(&self) -> int {
        self.first() + self.log().len()
    }

    pub closed spec fn is_closed(&self) -> bool {
        self.closed
    }

    pub closed spec fn subscriber_count(&self) -> nat {
        self.cursors@.len()
    }

    pub open spec fn has(&self, s: EventStream) -> bool {
        0 <= s.slot() < self.subscriber_count()
    }

    /// Sequence number of the next event that `s` reads.
    pub closed spec fn cursor(&self, s: EventStream) -> int {
        self.cursors@[s.slot()] as int
    }

    /// How many events `s` missed because the bus dropped them unread.
    pub open spec fn missed(&self, s: EventStream) -> int {
        if self.cursor(s) < self.first() { self.first() - self.cursor(s) } else { 0 }
    }

    /// The events waiting for `s`, oldest first.
    pub open spec fn pending(&self, s: EventStream) -> Seq<OrchestratorEvent> {
        if self.cursor(s) < self.first() {
            self.log()
        } else {
            self.log().subrange(self.cursor(s) - self.first(), self.log().len() as int)
        }
    }

    /// `after` is this bus once `event` was sent on it.
    pub open spec fn sends(self, event: OrchestratorEvent, after: EventBroadcaster) -> bool {
        &&& after.capacity() == self.capacity()
        &&& after.is_closed() == self.is_closed()
        &&& after.subscriber_count() == self.subscriber_count()
        &&& forall|o: EventStream| self.has(o) ==> after.cursor(o) == self.cursor(o)
        &&& (self.subscriber_count() == 0 || self.next() >= u64::MAX) ==> after.log() == self.log()
            && after.first() == self.first()
        &&& (self.subscriber_count() > 0 && self.next() < u64::MAX) ==> {
            &&& self.log().len() < self.capacity() ==> after.log() == self.log().push(event)
                && after.first() == self.first()
            &&& self.log().len() >= self.capacity() ==> after.log() == self.log().push(event).drop_first()
                && after.first() == self.first() + 1
        }
    }

    /// Whether `s` is a subscriber of this bus.
    pub fn has_stream(&self, s: &EventStream) -> (r: bool)
        ensures
            r == self.has(*s),
    {
        s.index < self.cursors.len()
    }

    pub closed spec fn wf(&self) -> bool {
        &&& self.capacity >= 1
        &&& self.events@.len() <= self.capacity
        &&& self.first_seq + self.events@.len() <= u64::MAX
        &&& forall|i: int| 0 <= i < self.cursors@.len() ==> self.cursors@[i] <= self.first_seq + self.events@.len()
    }

    /// A bus that holds up to `capacity` events (at least one).
    pub fn new(capacity: usize) -> (r: Self)
        ensures
            r.wf(),
            r.capacity() == if capacity == 0 { 1 } else { capacity as nat },
            r.log().len() == 0,
            r.first() == 0,
            r.subscriber_count() == 0,
            !r.is_closed(),
    {
        let capacity = if capacity == 0 { 1 } else { capacity };
        EventBroadcaster { capacity, events: Vec::new(), first_seq: 0, cursors: Vec::new(), closed: false }
    }

    /// A new subscriber, which reads the events sent from now on.
    pub fn subscribe(&mut self) -> (r: EventStream)
        requires
            old(self).wf(),
        ensures
            final(self).wf(),
            final(self).has(r),
            r.slot() == old(self).subscriber_count(),
            final(self).subscriber_count() == old(self).subscriber_count() + 1,
            final(self).cursor(r) == old(self).next(),
            final(self).pending(r).len() == 0,
            final(self).missed(r) == 0,
            final(self).log() == old(self).log(),
            final(self).first() == old(self).first(),
            final(self).capacity() == old(self).capacity(),
            final(self).is_closed() == old(self).is_closed(),
            forall|o: EventStream| old(self).has(o) ==> final(self).cursor(o) == old(self).cursor(o),
    {
        let index = self.cursors.len();
        self.cursors.push(self.first_seq + self.events.len() as u64);
        let r = EventStream { index };
        assert(r.slot() == index as int);
        assert(self.log().subrange(self.cursor(r) - self.first(), self.log().len() as int).len() == 0);
        r
    }

    /// Sends `event` to every current subscriber; with none it is dropped.
    /// (So is an event past the last sequence number, 2^64 - 1.)
    pub fn emit(&mut self, event: OrchestratorEvent)
        requires
            old(self).wf(),
        ensures
            final(self).wf(),
            final(self).capacity() == old(self).capacity(),
            final(self).is_closed() == old(self).is_closed(),
            final(self).subscriber_count() == old(self).subscriber_count(),
            old(self).sends(event, *final(self)),
    {
        if self.cursors.len() == 0 || self.first_seq >= u64::MAX - self.events.len() as u64 {
            return;
        }
        let ghost before = self.events@;
        self.events.push(event);
        if self.events.len() > self.capacity {
            self.events.remove(0);
            self.first_seq = self.first_seq + 1;
            assert(self.events@ =~= before.push(event).drop_first());
        }
    }

    /// A subscriber that has not fallen behind, with room left in the bus,
    /// finds a sent event after everything it was already waiting for.
    pub proof fn lemma_send_reaches_subscriber(before: EventBroadcaster, event: OrchestratorEvent, after: EventBroadcaster, s: EventStream)
        requires
            before.wf(),
            before.has(s),
            before.sends(event, after),
            before.next() < u64::MAX,
            before.missed(s) == 0,
            before.pending(s).len() < before.capacity(),
        ensures
            after.missed(s) == 0,
            after.pending(s) == before.pending(s).push(event),
    {
        let c = before.cursor(s) - before.first();
        if before.log().len() < before.capacity() {
            assert(after.pending(s) =~= before.pending(s).push(event));
        } else {
            assert(c >= 1);
            assert(after.pending(s) =~= before.pending(s).push(event));
        }
    }

    /// Every subscriber, however many there are, that has not fallen behind
    /// and has room left finds a sent event after everything it was already
    /// waiting for.
    pub proof fn lemma_send_reaches_all(before: EventBroadcaster, event: OrchestratorEvent, after: EventBroadcaster)
        requires
            before.wf(),
            before.sends(event, after),
            before.next() < u64::MAX,
        ensures
            forall|s: EventStream| #[trigger] before.has(s) && before.missed(s) == 0 && before.pending(s).len() < before.capacity()
                ==> after.pending(s) == before.pending(s).push(event) && after.missed(s) == 0,
    {
        assert forall|s: EventStream| #[trigger] before.has(s) && before.missed(s) == 0 && before.pending(s).len() < before.capacity()
            implies after.pending(s) == before.pending(s).push(event) && after.missed(s) == 0 by {
            EventBroadcaster::lemma_send_reaches_subscriber(before, event, after, s);
        }
    }

    /// Every subscriber present when two events are sent, one after the
    /// other, finds them in the order they were sent.
    pub proof fn lemma_sends_keep_order(
        b0: EventBroadcaster,
        e1: OrchestratorEvent,
        b1: EventBroadcaster,
        e2: OrchestratorEvent,
        b2: EventBroadcaster,
        s: EventStream,
    )
        requires
            b0.wf(),
            b1.wf(),
            b0.has(s),
            b0.sends(e1, b1),
            b1.sends(e2, b2),
            b1.next() < u64::MAX,
            b0.missed(s) == 0,
            b0.pending(s).len() + 2 <= b0.capacity(),
        ensures
            b2.pending(s) == b0.pending(s).push(e1).push(e2),
            b2.missed(s) == 0,
    {
        EventBroadcaster::lemma_send_reaches_subscriber(b0, e1, b1, s);
        EventBroadcaster::lemma_send_reaches_subscriber(b1, e2, b2, s);
    }

    /// A subscriber that joined after some events were sent never reads them:
    /// what it waits for is exactly what was sent after it joined.
    pub proof fn lemma_late_subscriber_sees_only_later(before: EventBroadcaster, event: OrchestratorEvent, after: EventBroadcaster, s: EventStream)
        requires
            before.wf(),
            before.has(s),
            before.cursor(s) == before.next(),
            before.sends(event, after),
            before.next() < u64::MAX,
        ensures
            after.pending(s) == seq![event],
    {
        assert(before.pending(s) =~= Seq::<OrchestratorEvent>::empty());
        EventBroadcaster::lemma_send_reaches_subscriber(before, event, after, s);
        assert(seq![event] =~= Seq::<OrchestratorEvent>::empty().push(event));
    }

    /// Marks the bus closed: subscribers read what is left, then `Closed`.
    pub fn close(&mut self)
        requires
            old(self).wf(),
        ensures
            final(self).wf(),
            final(self).is_closed(),
            final(self).log() == old(self).log(),
            final(self).first() == old(self).first(),
            final(self).capacity() == old(self).capacity(),
            final(self).subscriber_count() == old(self).subscriber_count(),
            forall|o: EventStream| old(self).has(o) ==> final(self).cursor(o) == old(self).cursor(o),
    {
        self.closed = true;
    }

    fn receive(&mut self, index: usize) -> (r: Result<&OrchestratorEvent, RecvError>)
        requires
            old(self).wf(),
            index < old(self).cursors@.len(),
        ensures
            final(self).wf(),
            final(self).events@ == old(self).events@,
            final(self).first_seq == old(self).first_seq,
            final(self).closed == old(self).closed,
            final(self).capacity == old(self).capacity,
            final(self).cursors@.len() == old(self).cursors@.len(),
            forall|i: int| 0 <= i < old(self).cursors@.len() && i != index ==> final(self).cursors@[i] == old(self).cursors@[i],
            old(self).cursors@[index as int] < old(self).first_seq ==> r == Err::<&OrchestratorEvent, RecvError>(
                RecvError::Lagged((old(self).first_seq - old(self).cursors@[index as int]) as u64))
                && final(self).cursors@[index as int] == old(self).first_seq,
            old(self).cursors@[index as int] == old(self).first_seq + old(self).events@.len() ==>
                final(self).cursors@[index as int] == old(self).cursors@[index as int]
                && r == Err::<&OrchestratorEvent, RecvError>(if old(self).closed { RecvError::Closed } else { RecvError::Empty }),
            old(self).first_seq <= old(self).cursors@[index as int] < old(self).first_seq + old(self).events@.len() ==>
                r is Ok && *r->Ok_0 == old(self).events@[old(self).cursors@[index as int] - old(self).first_seq]
                && final(self).cursors@[index as int] == old(self).cursors@[index as int] + 1,
    {
        let c = self.cursors[index];
        if c < self.first_seq {
            let missed = self.first_seq - c;
            self.cursors.set(index, self.first_seq);
            return Err(RecvError::Lagged(missed));
        }
        let next = self.first_seq + self.events.len() as u64;
        if c == next {
            return Err(if self.closed { RecvError::Closed } else { RecvError::Empty });
        }
        self.cursors.set(index, c + 1);
        Ok(&self.events[(c - self.first_seq) as usize])
    }
}

} // verus!
