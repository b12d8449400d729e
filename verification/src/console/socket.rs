//! What a dashboard connection is sent, and when it ends.
use vstd::prelude::*;
use crate::console::config::ActorStatsView;
use crate::text::same_text;

verus! {

/// The kinds of frames that a connection is sent.
#[derive(Debug, Clone, Copy, PartialEq, Eq, Structural)]
pub enum FrameKind {
    Snapshot,
    Event,
    ActorStats,
}

impl FrameKind {
    /// The `type` of the frame.
    pub open spec fn label(self) -> Seq<char> {
        match self {
            FrameKind::Snapshot => "snapshot"@,
            FrameKind::Event => "event"@,
            FrameKind::ActorStats => "actor_stats"@,
        }
    }

    /// Returns the `type` of the frame.
    pub fn as_str(self) -> (label: &'static str)
        ensures
            label@ == self.label(),
    {
        match self {
            FrameKind::Snapshot => "snapshot",
            FrameKind::Event => "event",
            FrameKind::ActorStats => "actor_stats",
        }
    }
}

/// The text of a frame: an object with the data and the frame's type.
pub open spec fn frame_of(kind: FrameKind, data: Seq<char>) -> Seq<char> {
    "{\"data\":"@ + data + ",\"type\":\""@ + kind.label() + "\"}"@
}

/// Writes the frame of the given kind around its data, which is JSON already.
pub fn frame_message(kind: FrameKind, data: &str) -> (frame: String)
    ensures
        frame@ == frame_of(kind, data@),
{
    let mut frame = "{\"data\":".to_owned();
    frame.append(data);
    frame.append(",\"type\":\"");
    frame.append(kind.as_str());
    frame.append("\"}");
    frame
}

/// The numbers and the name of one actor's statistics.
pub struct StatsView {
    pub actor_id: Seq<char>,
    pub messages_received: u64,
    pub messages_accepted: u64,
    pub messages_conflated: u64,
    pub message_bytes_accepted: Option<u64>,
    pub sends_rejected: u64,
    pub mailbox_depth: usize,
    pub mailbox_capacity: usize,
}

impl View for ActorStatsView {
    type V = StatsView;

    open spec fn view(&self) -> StatsView {
        StatsView {
            actor_id: self.actor_id@,
            messages_received: self.messages_received,
            messages_accepted: self.messages_accepted,
            messages_conflated: self.messages_conflated,
            message_bytes_accepted: self.message_bytes_accepted,
            sends_rejected: self.sends_rejected,
            mailbox_depth: self.mailbox_depth,
            mailbox_capacity: self.mailbox_capacity,
        }
    }
}

/// The views of a sample, in order.
pub open spec fn sample_view(sample: Seq<ActorStatsView>) -> Seq<StatsView> {
    sample.map_values(|stats: ActorStatsView| stats@)
}

fn same_count(a: &Option<u64>, b: &Option<u64>) -> (same: bool)
    ensures
        same == (*a == *b),
{
    match (a, b) {
        (Some(a), Some(b)) => *a == *b,
        (None, None) => true,
        _ => false,
    }
}

fn same_stats(a: &ActorStatsView, b: &ActorStatsView) -> (same: bool)
    ensures
        same == (a@ == b@),
{
    same_text(a.actor_id.as_str(), b.actor_id.as_str()) && a.messages_received
        == b.messages_received && a.messages_accepted == b.messages_accepted && a.messages_conflated
        == b.messages_conflated && same_count(&a.message_bytes_accepted, &b.message_bytes_accepted)
        && a.sends_rejected == b.sends_rejected && a.mailbox_depth == b.mailbox_depth
        && a.mailbox_capacity == b.mailbox_capacity
}

fn same_sample(a: &Vec<ActorStatsView>, b: &Vec<ActorStatsView>) -> (same: bool)
    ensures
        same == (sample_view(a@) == sample_view(b@)),
{
    if a.len() != b.len() {
        assert(sample_view(a@).len() != sample_view(b@).len());
        return false;
    }
    for i in 0..a.len()
        invariant
            a@.len() == b@.len(),
            forall|j: int| 0 <= j < i ==> (#[trigger] a@[j])@ == b@[j]@,
    {
        if !same_stats(&a[i], &b[i]) {
            assert(sample_view(a@)[i as int] != sample_view(b@)[i as int]);
            return false;
        }
    }
    assert(sample_view(a@) =~= sample_view(b@));
    true
}

/// Something that happened to a connection.
#[derive(Debug)]
pub enum SocketEvent {
    /// The frame that was asked for last was sent.
    Sent,
    /// The frame that was asked for last could not be sent.
    SendFailed,
    /// There is a new snapshot.
    SnapshotChanged,
    /// No snapshot will follow.
    SnapshotsClosed,
    /// There is an event.
    EventReceived,
    /// This many events were missed.
    EventsLagged(u64),
    /// No event will follow.
    EventsClosed,
    /// The actor statistics were sampled.
    StatsSampled(Vec<ActorStatsView>),
    /// The client sent something that asks for nothing.
    ClientMessage,
    /// The client closed the connection, or it broke.
    ClientGone,
}

/// What is done for a connection next.
#[derive(Debug, Clone, Copy, PartialEq, Eq, Structural)]
pub enum SocketAction {
    /// Send a frame of this kind: the current snapshot, the event that was
    /// received, or the sample that was taken.
    Send(FrameKind),
    /// Sample the actor statistics.
    SampleStats,
    /// Report that this many events were missed, then wait.
    ReportLag(u64),
    /// Wait for what happens next.
    Wait,
    /// End the connection.
    Close,
}

/// Where a connection stands.
#[derive(Debug, Clone, Copy, PartialEq, Eq, Structural)]
pub enum SocketPhase {
    /// The first snapshot is being sent.
    Greeting,
    /// The first statistics are sampled and sent.
    FirstStats,
    /// The client has what it needs to follow changes.
    Open,
    /// The connection has ended.
    Closed,
}

/// One dashboard connection.
#[derive(Debug)]
pub struct SocketSession {
    phase: SocketPhase,
    last_stats: Vec<ActorStatsView>,
}

/// What a [`SocketSession`] knows.
pub struct SocketView {
    pub phase: SocketPhase,
    /// The statistics that the client has, once it has any.
    pub last_stats: Seq<StatsView>,
}

impl View for SocketSession {
    type V = SocketView;

    closed spec fn view(&self) -> SocketView {
        SocketView { phase: self.phase, last_stats: sample_view(self.last_stats@) }
    }
}

/// Whether the event ends every connection that it happens to.
pub open spec fn ends_connection(event: SocketEvent) -> bool {
    ||| event is SendFailed
    ||| event is SnapshotsClosed
    ||| event is EventsClosed
    ||| event is ClientGone
}

/// What a connection becomes, and what is done for it, when an event happens.
/// A client gets the snapshot first, then the statistics, and from then on
/// whatever changes.
pub open spec fn socket_next(socket: SocketView, event: SocketEvent) -> (SocketView, SocketAction) {
    if socket.phase == SocketPhase::Closed || ends_connection(event) {
        (SocketView { phase: SocketPhase::Closed, ..socket }, SocketAction::Close)
    } else {
        match event {
            SocketEvent::Sent => if socket.phase == SocketPhase::Greeting {
                (SocketView { phase: SocketPhase::FirstStats, ..socket }, SocketAction::SampleStats)
            } else {
                (socket, SocketAction::Wait)
            },
            SocketEvent::StatsSampled(sample) => if socket.phase == SocketPhase::Open
                && sample_view(sample@) == socket.last_stats {
                (socket, SocketAction::Wait)
            } else {
                (
                    SocketView { phase: SocketPhase::Open, last_stats: sample_view(sample@) },
                    SocketAction::Send(FrameKind::ActorStats),
                )
            },
            SocketEvent::SnapshotChanged => (socket, SocketAction::Send(FrameKind::Snapshot)),
            SocketEvent::EventReceived => (socket, SocketAction::Send(FrameKind::Event)),
            SocketEvent::EventsLagged(missed) => (socket, SocketAction::ReportLag(missed)),
            _ => (socket, SocketAction::Wait),
        }
    }
}

impl SocketSession {
    /// A connection that has just been made. The first thing to do is to send
    /// the current snapshot.
    pub fn connect() -> (connected: (SocketSession, SocketAction))
        ensures
            connected.0@ == (SocketView { phase: SocketPhase::Greeting, last_stats: Seq::empty() }),
            connected.1 == SocketAction::Send(FrameKind::Snapshot),
    {
        let session = SocketSession { phase: SocketPhase::Greeting, last_stats: Vec::new() };
        assert(session@.last_stats =~= Seq::empty());
        (session, SocketAction::Send(FrameKind::Snapshot))
    }

    /// Returns the statistics that the client has.
    pub fn last_stats(&self) -> (stats: &Vec<ActorStatsView>)
        ensures
            sample_view(stats@) == self@.last_stats,
    {
        &self.last_stats
    }

    /// Takes one event and says what to do next.
    pub fn step(&mut self, event: SocketEvent) -> (action: SocketAction)
        ensures
            (final(self)@, action) == socket_next(old(self)@, event),
    {
        if self.phase == SocketPhase::Closed {
            return SocketAction::Close;
        }
        match event {
            SocketEvent::SendFailed | SocketEvent::SnapshotsClosed | SocketEvent::EventsClosed
            | SocketEvent::ClientGone => {
                self.phase = SocketPhase::Closed;
                SocketAction::Close
            },
            SocketEvent::Sent => {
                if self.phase == SocketPhase::Greeting {
                    self.phase = SocketPhase::FirstStats;
                    SocketAction::SampleStats
                } else {
                    SocketAction::Wait
                }
            },
            SocketEvent::StatsSampled(sample) => {
                if self.phase == SocketPhase::Open && same_sample(&sample, &self.last_stats) {
                    return SocketAction::Wait;
                }
                self.phase = SocketPhase::Open;
                self.last_stats = sample;
                SocketAction::Send(FrameKind::ActorStats)
            },
            SocketEvent::SnapshotChanged => SocketAction::Send(FrameKind::Snapshot),
            SocketEvent::EventReceived => SocketAction::Send(FrameKind::Event),
            SocketEvent::EventsLagged(missed) => SocketAction::ReportLag(missed),
            SocketEvent::ClientMessage => SocketAction::Wait,
        }
    }
}

/// A client is sent statistics right after the first snapshot, empty ones too.
pub proof fn statistics_follow_the_first_snapshot(sample: Seq<StatsView>, event: SocketEvent)
    requires
        event matches SocketEvent::StatsSampled(taken) && sample_view(taken@) == sample,
    ensures
        ({
            let greeting = SocketView {
                phase: SocketPhase::Greeting,
                last_stats: Seq::<StatsView>::empty(),
            };
            let greeted = socket_next(greeting, SocketEvent::Sent);
            &&& greeted.1 == SocketAction::SampleStats
            &&& socket_next(greeted.0, event).1 == SocketAction::Send(FrameKind::ActorStats)
            &&& socket_next(greeted.0, event).0.last_stats == sample
        }),
{
}

/// Once a connection is open, a sample is sent exactly when it differs from
/// the one that the client has.
pub proof fn unchanged_statistics_are_skipped(socket: SocketView, event: SocketEvent)
    requires
        socket.phase == SocketPhase::Open,
        event is StatsSampled,
    ensures
        socket_next(socket, event).1 == SocketAction::Send(FrameKind::ActorStats) <==> sample_view(
            event->StatsSampled_0@,
        ) != socket.last_stats,
        socket_next(socket, event).0.last_stats == sample_view(event->StatsSampled_0@),
{
}

/// A connection that has ended stays ended.
pub proof fn ended_connections_stay_ended(socket: SocketView, event: SocketEvent)
    requires
        socket.phase == SocketPhase::Closed,
    ensures
        socket_next(socket, event) == (socket, SocketAction::Close),
{
}

/// A frame is its data and its type, and frames of different kinds or with
/// different data differ.
pub proof fn frames_hold_data_and_type(kind: FrameKind, data: Seq<char>)
    ensures
        ({
            let frame = frame_of(kind, data);
            let front = "{\"data\":"@;
            let back = ",\"type\":\""@ + kind.label() + "\"}"@;
            &&& frame.len() == front.len() + data.len() + back.len()
            &&& frame.take(front.len() as int) == front
            &&& frame.subrange(front.len() as int, front.len() + data.len() as int) == data
            &&& frame.skip(front.len() + data.len() as int) == back
        }),
        kind.label() == match kind {
            FrameKind::Snapshot => "snapshot"@,
            FrameKind::Event => "event"@,
            FrameKind::ActorStats => "actor_stats"@,
        },
{
    let frame = frame_of(kind, data);
    let front = "{\"data\":"@;
    let back = ",\"type\":\""@ + kind.label() + "\"}"@;
    assert(frame.take(front.len() as int) =~= front);
    assert(frame.subrange(front.len() as int, front.len() + data.len() as int) =~= data);
    assert(frame.skip(front.len() + data.len() as int) =~= back);
}

/// A connection ends exactly when its client is gone, a frame could not be sent
/// or one of its sources has closed.
pub proof fn connections_end_for_a_reason(socket: SocketView, event: SocketEvent)
    requires
        socket.phase != SocketPhase::Closed,
    ensures
        ({
            let (after, action) = socket_next(socket, event);
            &&& action == SocketAction::Close <==> event is SendFailed || event is SnapshotsClosed
                || event is EventsClosed || event is ClientGone
            &&& after.phase == SocketPhase::Closed <==> action == SocketAction::Close
        }),
{
}

/// An open connection passes on what it is told: every snapshot, every event,
/// and how many events were missed. What the client says changes nothing.
pub proof fn connections_pass_on_what_happens(socket: SocketView, missed: u64)
    requires
        socket.phase != SocketPhase::Closed,
    ensures
        socket_next(socket, SocketEvent::SnapshotChanged) == (
            socket,
            SocketAction::Send(FrameKind::Snapshot),
        ),
        socket_next(socket, SocketEvent::EventReceived) == (
            socket,
            SocketAction::Send(FrameKind::Event),
        ),
        socket_next(socket, SocketEvent::EventsLagged(missed)) == (
            socket,
            SocketAction::ReportLag(missed),
        ),
        socket_next(socket, SocketEvent::ClientMessage) == (socket, SocketAction::Wait),
        socket.phase != SocketPhase::Greeting ==> socket_next(socket, SocketEvent::Sent) == (
            socket,
            SocketAction::Wait,
        ),
        socket.phase == SocketPhase::Greeting ==> socket_next(socket, SocketEvent::Sent).1
            == SocketAction::SampleStats && socket_next(socket, SocketEvent::Sent).0.phase
            == SocketPhase::FirstStats,
{
}

/// A sample counts as unchanged exactly where every number and name in it is
/// what the client has.
pub proof fn samples_are_compared_throughout(a: Seq<ActorStatsView>, b: Seq<ActorStatsView>)
    ensures
        sample_view(a) == sample_view(b) <==> a.len() == b.len() && forall|i: int|
            0 <= i < a.len() ==> {
                &&& (#[trigger] a[i]).actor_id@ == b[i].actor_id@
                &&& a[i].messages_received == b[i].messages_received
                &&& a[i].messages_accepted == b[i].messages_accepted
                &&& a[i].messages_conflated == b[i].messages_conflated
                &&& a[i].message_bytes_accepted == b[i].message_bytes_accepted
                &&& a[i].sends_rejected == b[i].sends_rejected
                &&& a[i].mailbox_depth == b[i].mailbox_depth
                &&& a[i].mailbox_capacity == b[i].mailbox_capacity
            },
{
    assert(sample_view(a).len() == a.len());
    assert(sample_view(b).len() == b.len());
    if sample_view(a) == sample_view(b) {
        assert forall|i: int| 0 <= i < a.len() implies (#[trigger] a[i])@ == b[i]@ by {
            assert(sample_view(a)[i] == a[i]@);
            assert(sample_view(b)[i] == b[i]@);
        }
        assert forall|i: int| 0 <= i < a.len() implies (#[trigger] a[i]).actor_id@ == b[i].actor_id@
            && a[i].messages_received == b[i].messages_received && a[i].messages_accepted
            == b[i].messages_accepted && a[i].messages_conflated == b[i].messages_conflated
            && a[i].message_bytes_accepted == b[i].message_bytes_accepted && a[i].sends_rejected
            == b[i].sends_rejected && a[i].mailbox_depth == b[i].mailbox_depth
            && a[i].mailbox_capacity == b[i].mailbox_capacity by {
            assert(a[i]@ == b[i]@);
        }
    }
    if a.len() == b.len() && forall|i: int|
        0 <= i < a.len() ==> {
            &&& (#[trigger] a[i]).actor_id@ == b[i].actor_id@
            &&& a[i].messages_received == b[i].messages_received
            &&& a[i].messages_accepted == b[i].messages_accepted
            &&& a[i].messages_conflated == b[i].messages_conflated
            &&& a[i].message_bytes_accepted == b[i].message_bytes_accepted
            &&& a[i].sends_rejected == b[i].sends_rejected
            &&& a[i].mailbox_depth == b[i].mailbox_depth
            &&& a[i].mailbox_capacity == b[i].mailbox_capacity
        } {
        assert forall|i: int| 0 <= i < a.len() implies sample_view(a)[i] == sample_view(b)[i] by {
            assert(a[i].actor_id@ == b[i].actor_id@);
        }
        assert(sample_view(a) =~= sample_view(b));
    }
}

/// The first sample that a connection gets is always sent, whatever it holds,
/// and later ones are compared with the last one sent.
pub proof fn first_samples_are_sent(
    session: &mut SocketSession,
    sample: Vec<ActorStatsView>,
    action: SocketAction,
)
    requires
        call_ensures(SocketSession::step, (session, SocketEvent::StatsSampled(sample)), action),
        old(session)@.phase != SocketPhase::Closed,
    ensures
        old(session)@.phase != SocketPhase::Open ==> action == SocketAction::Send(
            FrameKind::ActorStats,
        ),
        final(session)@.phase == SocketPhase::Open,
        final(session)@.last_stats == sample_view(sample@),
        old(session)@.phase == SocketPhase::Open ==> (action == SocketAction::Wait
            <==> old(session)@.last_stats == sample_view(sample@)) && (action
            == SocketAction::Wait || action == SocketAction::Send(FrameKind::ActorStats)),
{
}

/// Only a sample changes what the client is known to have.
pub proof fn only_samples_change_the_statistics(
    session: &mut SocketSession,
    event: SocketEvent,
    action: SocketAction,
)
    requires
        call_ensures(SocketSession::step, (session, event), action),
        !(event is StatsSampled),
    ensures
        final(session)@.last_stats == old(session)@.last_stats,
        !(event is Sent) && action != SocketAction::Close ==> final(session)@.phase
            == old(session)@.phase,
{
}

} // verus!
