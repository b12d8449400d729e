//! Mailbox bindings: where the messages for an actor go right now.
//!
//! An actor has one long-lived [`BindingCore`]. Each of its runs binds a fresh
//! mailbox to it; between runs it is unbound, or terminated where no further
//! run is expected.
use tokio::sync::{mpsc, watch};
use vstd::prelude::*;
use crate::context::result_view;
use crate::error::{SendError, SendErrorView};
use crate::observability::{
    Emission, GraphObservability,
};
use crate::sync::{
    mpsc_capacity, mpsc_channel, mpsc_clone, mpsc_max_capacity, mpsc_same_channel, mpsc_try_send,
    watch_channel, watch_held, watch_replace, Inlet, Outlet, Published, RoomReading, SendAttempt,
    TrySend,
};

verus! {

/// Sender for one bound mailbox instance of an actor.
#[verifier::reject_recursive_types(M)]
pub struct MailboxRef<M> {
    actor_id: String,
    outlet: Outlet<M>,
}

/// What a send to the mailbox of `owner` reports for each way that queueing can
/// come out.
pub open spec fn send_result<M>(owner: Seq<char>, outcome: TrySend<M>) -> Result<(), SendErrorView> {
    match outcome {
        TrySend::Sent => Ok(()),
        TrySend::Full(_) => Err(SendErrorView::MailboxFull { actor_id: owner }),
        TrySend::Closed(_) => Err(SendErrorView::MailboxClosed { actor_id: owner }),
    }
}

/// A send to one mailbox: the attempt to queue the message, and what it means.
#[verifier::reject_recursive_types(M)]
pub struct MailboxSend<M> {
    pub attempt: SendAttempt<M>,
    pub result: Result<(), SendError>,
}

impl<M> MailboxRef<M> {
    /// The actor that reads the mailbox.
    pub closed spec fn owner(self) -> Seq<char> {
        self.actor_id@
    }

    /// The channel behind the mailbox.
    pub closed spec fn channel(self) -> mpsc::Sender<M> {
        self.outlet.channel()
    }

    /// How many messages the mailbox can queue.
    pub closed spec fn limit(self) -> int {
        self.outlet.limit()
    }

    /// A sender for the mailbox of `actor_id` behind `outlet`.
    pub fn new(actor_id: String, outlet: Outlet<M>) -> (mailbox: Self)
        ensures
            mailbox.owner() == actor_id@,
            mailbox.channel() == outlet.channel(),
            mailbox.limit() == outlet.limit(),
    {
        MailboxRef { actor_id, outlet }
    }

    /// Returns the handle to the mailbox's channel.
    pub fn outlet(&self) -> (outlet: &Outlet<M>)
        ensures
            outlet.channel() == self.channel(),
            outlet.limit() == self.limit(),
    {
        &self.outlet
    }

    /// Returns the handle that messages are sent through.
    pub fn sender(&self) -> (sender: &mpsc::Sender<M>)
        ensures
            *sender == self.channel(),
    {
        self.outlet.sender()
    }

    /// Queues a message without waiting for room. A failure names the owner of
    /// the mailbox and says whether the mailbox was full or closed.
    pub fn try_send(&self, message: M) -> (sending: MailboxSend<M>)
        ensures
            sending.attempt.channel() == self.channel(),
            sending.attempt.message() == message,
            result_view(sending.result) == send_result(self.owner(), sending.attempt.found()),
    {
        let attempt = mpsc_try_send(&self.outlet, message);
        let result = self.sent(attempt.outcome());
        MailboxSend { attempt, result }
    }

    /// What a send reports for each way that queueing can come out.
    pub fn sent(&self, outcome: &TrySend<M>) -> (result: Result<(), SendError>)
        ensures
            result_view(result) == send_result(self.owner(), *outcome),
    {
        match outcome {
            TrySend::Sent => Ok(()),
            TrySend::Full(_) => Err(SendError::MailboxFull { actor_id: self.actor_id.clone() }),
            TrySend::Closed(_) => Err(SendError::MailboxClosed { actor_id: self.actor_id.clone() }),
        }
    }

    /// Queues a message from a thread that may not wait: the same as
    /// [`try_send`](Self::try_send).
    pub fn blocking_send(&self, message: M) -> (sending: MailboxSend<M>)
        ensures
            sending.attempt.channel() == self.channel(),
            sending.attempt.message() == message,
            result_view(sending.result) == send_result(self.owner(), sending.attempt.found()),
    {
        self.try_send(message)
    }

    /// Whether both lead to the same mailbox instance.
    pub fn same_channel(&self, other: &Self) -> (same: bool)
        ensures
            same == (self.channel() == other.channel()),
    {
        mpsc_same_channel(&self.outlet, &other.outlet)
    }
}

impl<M> Clone for MailboxRef<M> {
    fn clone(&self) -> (clone: Self)
        ensures
            clone.owner() == self.owner(),
            clone.channel() == self.channel(),
            clone.limit() == self.limit(),
    {
        MailboxRef { actor_id: self.actor_id.clone(), outlet: mpsc_clone(&self.outlet) }
    }
}

/// The mailbox that an actor's messages go to, if there is one.
#[verifier::reject_recursive_types(M)]
pub enum BindingState<M> {
    /// The actor is not running, and may be run again.
    Unbound,
    /// The actor reads the given mailbox.
    Bound(MailboxRef<M>),
    /// The actor is not running, and no further run is expected.
    Terminated,
}

/// What a [`BindingState`] says.
#[verifier::reject_recursive_types(M)]
pub enum BindingStateView<M> {
    Unbound,
    Bound {
        owner: Seq<char>,
        channel: mpsc::Sender<M>,
        /// How many messages the mailbox can queue.
        limit: int,
    },
    Terminated,
}

impl<M> View for BindingState<M> {
    type V = BindingStateView<M>;

    open spec fn view(&self) -> BindingStateView<M> {
        match *self {
            BindingState::Unbound => BindingStateView::Unbound,
            BindingState::Bound(mailbox) => BindingStateView::Bound {
                owner: mailbox.owner(),
                channel: mailbox.channel(),
                limit: mailbox.limit(),
            },
            BindingState::Terminated => BindingStateView::Terminated,
        }
    }
}

impl<M> Clone for BindingState<M> {
    fn clone(&self) -> (clone: Self)
        ensures
            clone@ == self@,
    {
        match self {
            BindingState::Unbound => BindingState::Unbound,
            BindingState::Bound(mailbox) => BindingState::Bound(mailbox.clone()),
            BindingState::Terminated => BindingState::Terminated,
        }
    }
}

/// How an actor's binding behaves after a run exits.
#[derive(Debug, Clone, Copy, PartialEq, Eq, Structural)]
pub enum RebindPolicy {
    /// No further run follows.
    Never,
    /// A run that failed is followed by another.
    OnFailure,
    /// Every run is followed by another.
    Always,
}

/// Which of its states a binding is in.
#[derive(Debug, Clone, Copy, PartialEq, Eq, Structural)]
pub enum BindingPhase {
    Unbound,
    Bound,
    Terminated,
}

/// The phase that a binding in this state is in.
pub open spec fn phase_of<M>(state: BindingStateView<M>) -> BindingPhase {
    match state {
        BindingStateView::Unbound => BindingPhase::Unbound,
        BindingStateView::Bound { .. } => BindingPhase::Bound,
        BindingStateView::Terminated => BindingPhase::Terminated,
    }
}

/// The state of a binding that is put in the given phase. A mailbox that is to
/// stay bound is left alone.
pub open spec fn entered<M>(state: BindingStateView<M>, phase: BindingPhase) -> BindingStateView<M> {
    match phase {
        BindingPhase::Unbound => BindingStateView::Unbound,
        BindingPhase::Bound => state,
        BindingPhase::Terminated => BindingStateView::Terminated,
    }
}

/// The state that a binding is left in when a run under `policy` ends.
pub open spec fn released<M>(policy: RebindPolicy) -> BindingStateView<M> {
    if policy == RebindPolicy::Never {
        BindingStateView::Terminated
    } else {
        BindingStateView::Unbound
    }
}

/// Long-lived binding slot for one actor's current mailbox.
///
/// Actor refs subscribe to this slot, so they follow the current mailbox
/// across graph reruns and per-actor restarts.
#[verifier::reject_recursive_types(M)]
pub struct BindingCore<M> {
    actor_id: String,
    current: Published<BindingState<M>>,
}

/// What a [`BindingCore`] holds.
#[verifier::reject_recursive_types(M)]
pub struct BindingCoreView<M> {
    pub actor_id: Seq<char>,
    /// What the readers of the slot read.
    pub binding: watch::Receiver<BindingState<M>>,
    /// The state that was published last, which the readers of the slot find.
    pub state: BindingStateView<M>,
}

impl<M> View for BindingCore<M> {
    type V = BindingCoreView<M>;

    closed spec fn view(&self) -> BindingCoreView<M> {
        BindingCoreView {
            actor_id: self.actor_id@,
            binding: self.current.readers(),
            state: self.current.current()@,
        }
    }
}

impl<M> BindingCore<M> {
    /// A slot for the given actor, which has not run yet.
    pub fn new(actor_id: String) -> (core: Self)
        ensures
            core@.actor_id == actor_id@,
            core@.state == BindingStateView::<M>::Unbound,
    {
        BindingCore { actor_id, current: watch_channel(BindingState::Unbound) }
    }

    /// Returns the id of the actor.
    pub fn actor_id(&self) -> (id: &str)
        ensures
            id@ == self@.actor_id,
    {
        self.actor_id.as_str()
    }

    /// Returns which state the slot is in.
    pub fn phase(&self) -> (phase: BindingPhase)
        ensures
            phase == phase_of(self@.state),
    {
        match watch_held(&self.current) {
            BindingState::Unbound => BindingPhase::Unbound,
            BindingState::Bound(_) => BindingPhase::Bound,
            BindingState::Terminated => BindingPhase::Terminated,
        }
    }

    /// A new reader of the slot, to which the current state is nothing new.
    pub fn subscribe(&self) -> (reader: watch::Receiver<BindingState<M>>)
        ensures
            reader == self@.binding,
    {
        self.current.subscribe()
    }

    fn publish(&mut self, state: BindingState<M>)
        ensures
            final(self)@ == (BindingCoreView { state: state@, ..old(self)@ }),
    {
        watch_replace(&mut self.current, state);
    }

    /// Sends the actor's messages to `mailbox` from now on.
    pub fn bind(&mut self, mailbox: MailboxRef<M>)
        ensures
            final(self)@ == (BindingCoreView {
                state: BindingStateView::Bound {
                    owner: mailbox.owner(),
                    channel: mailbox.channel(),
                    limit: mailbox.limit(),
                },
                ..old(self)@
            }),
    {
        self.publish(BindingState::Bound(mailbox));
    }

    /// Marks the actor as not running, with a further run expected.
    pub fn unbind(&mut self)
        ensures
            final(self)@ == (BindingCoreView { state: BindingStateView::Unbound, ..old(self)@ }),
    {
        self.publish(BindingState::Unbound);
    }

    /// Marks the actor as not running, with no further run expected.
    pub fn terminate(&mut self)
        ensures
            final(self)@ == (BindingCoreView { state: BindingStateView::Terminated, ..old(self)@ }),
    {
        self.publish(BindingState::Terminated);
    }

    /// Starts a run: makes a fresh mailbox of the given capacity, binds it and
    /// reports the binding. The receiving half, which what is sent to the actor
    /// from now on arrives at, is the actor's to read.
    pub fn start_run(
        &mut self,
        mailbox_capacity: usize,
        observability: &GraphObservability,
    ) -> (started: (Inlet<M>, Emission))
        requires
            0 < mailbox_capacity <= crate::sync::max_permits(),
        ensures
            started.0.fed_by() is Some,
            !started.0.is_closed(),
            final(self)@ == (BindingCoreView {
                state: BindingStateView::Bound {
                    owner: old(self)@.actor_id,
                    channel: started.0.fed_by().unwrap(),
                    limit: mailbox_capacity as int,
                },
                ..old(self)@
            }),
            started.1@ == crate::observability::mailbox_bound(
                observability@.graph_name,
                old(self)@.actor_id,
            ),
    {
        let (outlet, mailbox) = mpsc_channel(mailbox_capacity);
        let owner = self.actor_id.clone();
        self.bind(MailboxRef::new(owner, outlet));
        let emission = observability.emit_mailbox_bound(self.actor_id.as_str());
        (mailbox, emission)
    }

    /// Ends a run: clears the binding as `policy` asks and reports that.
    pub fn end_run(&mut self, policy: RebindPolicy, observability: &GraphObservability) -> (emission:
        Emission)
        ensures
            final(self)@ == (BindingCoreView { state: released(policy), ..old(self)@ }),
            emission@ == crate::observability::mailbox_cleared(
                observability@.graph_name,
                old(self)@.actor_id,
            ),
    {
        match policy {
            RebindPolicy::Never => self.terminate(),
            RebindPolicy::OnFailure | RebindPolicy::Always => self.unbind(),
        }
        observability.emit_mailbox_cleared(self.actor_id.as_str())
    }

    /// Puts the slot in the phase that the end of a run asks for. A mailbox that
    /// is to stay bound is left alone.
    pub fn enter(&mut self, phase: BindingPhase)
        ensures
            final(self)@ == (BindingCoreView { state: entered(old(self)@.state, phase), ..old(self)@ }),
    {
        match phase {
            BindingPhase::Unbound => self.unbind(),
            BindingPhase::Terminated => self.terminate(),
            BindingPhase::Bound => {},
        }
    }

    /// The snapshot of the actor, with the traffic that `counters` hold and
    /// the room that the mailbox that is bound was found to have. Without one
    /// there is neither depth nor capacity.
    pub fn stats(&self, counters: &StatsCounters) -> (sample: BindingStats<M>)
        ensures
            sample.stats.actor_id@ == self@.actor_id,
            sample.stats.messages_received == counters.received,
            sample.stats.messages_accepted == counters.accepted,
            sample.stats.sends_rejected == counters.rejected,
            match self@.state {
                BindingStateView::Bound { channel, limit, .. } => {
                    &&& sample.room matches Some(room)
                    &&& room.channel() == channel
                    &&& room.found_free() <= limit
                    &&& sample.stats.mailbox_capacity == limit
                    &&& sample.stats.mailbox_depth == limit - room.found_free()
                },
                _ => {
                    &&& sample.room is None
                    &&& sample.stats.mailbox_capacity == 0
                    &&& sample.stats.mailbox_depth == 0
                },
            },
    {
        match watch_held(&self.current) {
            BindingState::Bound(mailbox) => {
                let capacity = mpsc_max_capacity(&mailbox.outlet);
                let room = mpsc_capacity(&mailbox.outlet);
                let stats = counters.snapshot(self.actor_id.as_str(), capacity, room.free());
                BindingStats { stats, room: Some(room) }
            },
            _ => {
                let stats = counters.snapshot(self.actor_id.as_str(), 0, 0);
                BindingStats { stats, room: None }
            },
        }
    }
}

// ---------------------------------------------------------------------------
// Statistics
// ---------------------------------------------------------------------------

/// A snapshot of an actor, and what was found in its mailbox for it.
#[verifier::reject_recursive_types(M)]
pub struct BindingStats<M> {
    pub stats: ActorStats,
    /// The room in the mailbox that is bound, if one is.
    pub room: Option<RoomReading<M>>,
}

/// A point-in-time snapshot of one actor's mailbox traffic.
#[derive(Debug, Clone, PartialEq, Eq)]
pub struct ActorStats {
    pub actor_id: String,
    /// Messages that the actor took out of its mailboxes.
    pub messages_received: u64,
    /// Messages that its mailboxes accepted.
    pub messages_accepted: u64,
    /// Sends that were turned away.
    pub sends_rejected: u64,
    /// Messages queued in the current mailbox.
    pub mailbox_depth: usize,
    /// Messages that the current mailbox can queue.
    pub mailbox_capacity: usize,
}

/// The traffic of one actor, counted over all of its runs.
#[derive(Debug, Clone, Copy, PartialEq, Eq, Structural)]
pub struct StatsCounters {
    pub received: u64,
    pub accepted: u64,
    pub rejected: u64,
}

impl StatsCounters {
    /// No traffic yet.
    pub fn new() -> (counters: Self)
        ensures
            counters == (StatsCounters { received: 0, accepted: 0, rejected: 0 }),
    {
        StatsCounters { received: 0, accepted: 0, rejected: 0 }
    }

    /// Counts a send as accepted or rejected.
    pub fn record_send(&mut self, accepted: bool)
        ensures
            *final(self) == if accepted {
                StatsCounters { accepted: old(self).accepted.wrapping_add(1), ..*old(self) }
            } else {
                StatsCounters { rejected: old(self).rejected.wrapping_add(1), ..*old(self) }
            },
    {
        if accepted {
            self.accepted = self.accepted.wrapping_add(1);
        } else {
            self.rejected = self.rejected.wrapping_add(1);
        }
    }

    /// Counts a message that the actor took out of its mailbox.
    pub fn record_received(&mut self)
        ensures
            *final(self) == (StatsCounters {
                received: old(self).received.wrapping_add(1),
                ..*old(self)
            }),
    {
        self.received = self.received.wrapping_add(1);
    }

    /// The snapshot of an actor whose current mailbox has room for `free` of
    /// its `capacity` messages.
    pub fn snapshot(&self, actor_id: &str, capacity: usize, free: usize) -> (stats: ActorStats)
        ensures
            stats.actor_id@ == actor_id@,
            stats.messages_received == self.received,
            stats.messages_accepted == self.accepted,
            stats.sends_rejected == self.rejected,
            stats.mailbox_capacity == capacity,
            stats.mailbox_depth == if free <= capacity {
                capacity - free
            } else {
                0
            },
    {
        ActorStats {
            actor_id: actor_id.to_owned(),
            messages_received: self.received,
            messages_accepted: self.accepted,
            sends_rejected: self.rejected,
            mailbox_depth: if free <= capacity {
                capacity - free
            } else {
                0
            },
            mailbox_capacity: capacity,
        }
    }
}

// ---------------------------------------------------------------------------
// What follows
// ---------------------------------------------------------------------------

/// A send succeeds exactly where its message was queued; a full and a closed
/// mailbox are told apart, under the owner's id.
pub proof fn sends_report_what_the_mailbox_did<M>(owner: Seq<char>, outcome: TrySend<M>)
    ensures
        send_result(owner, outcome) is Ok <==> outcome is Sent,
        send_result(owner, outcome) == Err::<(), SendErrorView>(
            SendErrorView::MailboxFull { actor_id: owner },
        ) <==> outcome is Full,
        send_result(owner, outcome) == Err::<(), SendErrorView>(
            SendErrorView::MailboxClosed { actor_id: owner },
        ) <==> outcome is Closed,
{
}

/// A binding that was put in a phase is in that phase, unless the phase is
/// bound: only a mailbox can bind. Leaving it bound changes nothing.
pub proof fn bindings_enter_their_phase<M>(state: BindingStateView<M>)
    ensures
        entered(state, BindingPhase::Unbound) is Unbound,
        entered(state, BindingPhase::Terminated) is Terminated,
        entered(state, BindingPhase::Bound) == state,
        phase_of(state) == BindingPhase::Unbound <==> state is Unbound,
        phase_of(state) == BindingPhase::Bound <==> state is Bound,
        phase_of(state) == BindingPhase::Terminated <==> state is Terminated,
{
}

/// When a run ends, its binding is terminated exactly where the actor is never
/// run again; otherwise it can be bound anew. It is never left bound.
pub proof fn ended_runs_leave_no_mailbox<M>(policy: RebindPolicy)
    ensures
        released::<M>(policy) is Terminated <==> policy == RebindPolicy::Never,
        released::<M>(policy) is Unbound <==> policy == RebindPolicy::OnFailure || policy
            == RebindPolicy::Always,
{
}

/// What a binding shows of a mailbox is that mailbox: its owner, its channel
/// and how much it can queue.
pub proof fn bindings_show_their_mailbox<M>(mailbox: MailboxRef<M>)
    ensures
        BindingState::Bound(mailbox)@ == (BindingStateView::Bound {
            owner: mailbox.owner(),
            channel: mailbox.channel(),
            limit: mailbox.limit(),
        }),
        BindingState::<M>::Unbound@ is Unbound,
        BindingState::<M>::Terminated@ is Terminated,
{
}

/// Each send is counted once, as accepted or as rejected, and each message
/// received once; no count touches another.
pub proof fn each_event_counts_once(
    counters: &mut StatsCounters,
    receiving: &mut StatsCounters,
    accepted: bool,
    sent: (),
    received: (),
)
    requires
        old(counters).accepted < u64::MAX,
        old(counters).rejected < u64::MAX,
        old(counters).received < u64::MAX,
        call_ensures(StatsCounters::record_send, (counters, accepted), sent),
        *old(receiving) == *final(counters),
        call_ensures(StatsCounters::record_received, (receiving,), received),
    ensures
        final(counters).accepted + final(counters).rejected == old(counters).accepted
            + old(counters).rejected + 1,
        final(counters).accepted == old(counters).accepted <==> !accepted,
        final(counters).received == old(counters).received,
        final(receiving).received == old(counters).received + 1,
        final(receiving).accepted == final(counters).accepted,
        final(receiving).rejected == final(counters).rejected,
{
}

/// A snapshot shows the counts under the actor's id, and as the mailbox's depth
/// what of its capacity is not free.
pub proof fn snapshots_show_the_counts(
    counters: &StatsCounters,
    actor_id: &str,
    capacity: usize,
    free: usize,
    stats: ActorStats,
)
    requires
        call_ensures(StatsCounters::snapshot, (counters, actor_id, capacity, free), stats),
    ensures
        stats.actor_id@ == actor_id@,
        stats.messages_received == counters.received,
        stats.messages_accepted == counters.accepted,
        stats.sends_rejected == counters.rejected,
        stats.mailbox_capacity == capacity,
        free <= capacity ==> stats.mailbox_depth + free == capacity,
        free > capacity ==> stats.mailbox_depth == 0,
{
}

/// A run binds a mailbox of its own under the actor's id, with the room that was
/// asked for; when the run ends it is not bound any more, and the actor counts as
/// terminated exactly where it is never to run again.
pub proof fn runs_bind_and_release<M>(
    starting: &mut BindingCore<M>,
    ending: &mut BindingCore<M>,
    mailbox_capacity: usize,
    policy: RebindPolicy,
    observability: &GraphObservability,
    started: (Inlet<M>, Emission),
    ended: Emission,
)
    requires
        call_ensures(
            BindingCore::<M>::start_run,
            (starting, mailbox_capacity, observability),
            started,
        ),
        *old(ending) == *final(starting),
        call_ensures(BindingCore::<M>::end_run, (ending, policy, observability), ended),
    ensures
        final(starting)@.state matches BindingStateView::Bound { owner, channel, limit } && owner
            == old(starting)@.actor_id && Some(channel) == started.0.fed_by() && limit
            == mailbox_capacity,
        !started.0.is_closed(),
        !(final(ending)@.state is Bound),
        final(ending)@.state is Terminated <==> policy == RebindPolicy::Never,
        final(ending)@.actor_id == old(starting)@.actor_id,
        final(ending)@.binding == old(starting)@.binding,
{
    ended_runs_leave_no_mailbox::<M>(policy);
}

/// A sample shows a mailbox's depth and capacity while one is bound, and zero
/// for both otherwise.
pub proof fn samples_show_the_bound_mailbox<M>(
    core: &BindingCore<M>,
    counters: &StatsCounters,
    sample: BindingStats<M>,
)
    requires
        call_ensures(BindingCore::<M>::stats, (core, counters), sample),
    ensures
        sample.room is Some <==> core@.state is Bound,
        core@.state matches BindingStateView::Bound { channel, limit, .. } ==> {
            &&& sample.room.unwrap().channel() == channel
            &&& sample.stats.mailbox_capacity == limit
            &&& sample.stats.mailbox_depth + sample.room.unwrap().found_free() == limit
        },
        !(core@.state is Bound) ==> sample.stats.mailbox_capacity == 0
            && sample.stats.mailbox_depth == 0,
        sample.stats.messages_received == counters.received,
        sample.stats.messages_accepted == counters.accepted,
        sample.stats.sends_rejected == counters.rejected,
        sample.stats.actor_id@ == core@.actor_id,
{
}

/// A mailbox ref gives back the channel that it was made with, and two refs are
/// of one mailbox exactly where they have one channel.
pub proof fn mailbox_refs_hold_their_channel<M>(
    actor_id: String,
    outlet: Outlet<M>,
    mailbox: MailboxRef<M>,
    sender: &mpsc::Sender<M>,
    held: &Outlet<M>,
    other: MailboxRef<M>,
    same: bool,
)
    requires
        call_ensures(MailboxRef::<M>::new, (actor_id, outlet), mailbox),
        call_ensures(MailboxRef::<M>::sender, (&mailbox,), sender),
        call_ensures(MailboxRef::<M>::outlet, (&mailbox,), held),
        call_ensures(MailboxRef::<M>::same_channel, (&mailbox, &other), same),
    ensures
        mailbox.owner() == actor_id@,
        *sender == outlet.channel(),
        held.channel() == outlet.channel(),
        held.limit() == outlet.limit(),
        mailbox.limit() == outlet.limit(),
        same <==> outlet.channel() == other.channel(),
{
}

/// A mailbox gets the message that is sent to it, and the result says what it
/// did: both ways of sending and the judgement of an outcome agree.
pub proof fn mailboxes_get_what_is_sent<M>(
    mailbox: &MailboxRef<M>,
    message: M,
    trying: MailboxSend<M>,
    waiting: MailboxSend<M>,
    outcome: TrySend<M>,
    judged: Result<(), SendError>,
)
    requires
        call_ensures(MailboxRef::<M>::try_send, (mailbox, message), trying),
        call_ensures(MailboxRef::<M>::blocking_send, (mailbox, message), waiting),
        call_ensures(MailboxRef::<M>::sent, (mailbox, &outcome), judged),
    ensures
        trying.attempt.channel() == mailbox.channel() && trying.attempt.message() == message,
        waiting.attempt.channel() == mailbox.channel() && waiting.attempt.message() == message,
        trying.result is Ok <==> trying.attempt.found() is Sent,
        waiting.result is Ok <==> waiting.attempt.found() is Sent,
        judged is Ok <==> outcome is Sent,
        outcome is Full ==> judged->Err_0@ == (SendErrorView::MailboxFull {
            actor_id: mailbox.owner(),
        }),
        outcome is Closed ==> judged->Err_0@ == (SendErrorView::MailboxClosed {
            actor_id: mailbox.owner(),
        }),
{
    sends_report_what_the_mailbox_did(mailbox.owner(), trying.attempt.found());
    sends_report_what_the_mailbox_did(mailbox.owner(), waiting.attempt.found());
    sends_report_what_the_mailbox_did(mailbox.owner(), outcome);
}

/// A binding shows what was done to it last, under the actor that it was made
/// for and to the readers that it had.
pub proof fn bindings_show_what_was_done_last<M>(
    actor_id: String,
    fresh: BindingCore<M>,
    named: &str,
    binding: &mut BindingCore<M>,
    unbinding: &mut BindingCore<M>,
    terminating: &mut BindingCore<M>,
    mailbox: MailboxRef<M>,
    done: ((), (), ()),
    phases: (BindingPhase, BindingPhase, BindingPhase, BindingPhase),
    readers: (watch::Receiver<BindingState<M>>, watch::Receiver<BindingState<M>>),
)
    requires
        call_ensures(BindingCore::<M>::new, (actor_id,), fresh),
        call_ensures(BindingCore::<M>::actor_id, (&fresh,), named),
        call_ensures(BindingCore::<M>::phase, (&fresh,), phases.0),
        call_ensures(BindingCore::<M>::subscribe, (old(binding),), readers.0),
        call_ensures(BindingCore::<M>::bind, (binding, mailbox), done.0),
        call_ensures(BindingCore::<M>::phase, (final(binding),), phases.1),
        *old(unbinding) == *final(binding),
        call_ensures(BindingCore::<M>::unbind, (unbinding,), done.1),
        call_ensures(BindingCore::<M>::phase, (final(unbinding),), phases.2),
        *old(terminating) == *final(unbinding),
        call_ensures(BindingCore::<M>::terminate, (terminating,), done.2),
        call_ensures(BindingCore::<M>::phase, (final(terminating),), phases.3),
        call_ensures(BindingCore::<M>::subscribe, (final(terminating),), readers.1),
    ensures
        named@ == actor_id@,
        phases == (
            BindingPhase::Unbound,
            BindingPhase::Bound,
            BindingPhase::Unbound,
            BindingPhase::Terminated,
        ),
        final(binding)@.state == (BindingStateView::Bound {
            owner: mailbox.owner(),
            channel: mailbox.channel(),
            limit: mailbox.limit(),
        }),
        readers.0 == readers.1,
        final(terminating)@.actor_id == old(binding)@.actor_id,
{
    bindings_enter_their_phase(fresh@.state);
    bindings_enter_their_phase(final(binding)@.state);
    bindings_enter_their_phase(final(unbinding)@.state);
    bindings_enter_their_phase(final(terminating)@.state);
    bindings_show_their_mailbox(mailbox);
}

/// A binding that is told to enter a phase is unbound or terminated afterwards,
/// as told; being told that it is bound changes nothing.
pub proof fn bindings_do_as_they_are_told<M>(
    core: &mut BindingCore<M>,
    phase: BindingPhase,
    done: (),
)
    requires
        call_ensures(BindingCore::<M>::enter, (core, phase), done),
    ensures
        phase is Unbound ==> final(core)@.state is Unbound,
        phase is Terminated ==> final(core)@.state is Terminated,
        phase is Bound ==> final(core)@.state == old(core)@.state,
        final(core)@.actor_id == old(core)@.actor_id,
        final(core)@.binding == old(core)@.binding,
{
    bindings_enter_their_phase(old(core)@.state);
}

/// Counting starts at zero.
pub proof fn counting_starts_at_zero(counters: StatsCounters)
    requires
        call_ensures(StatsCounters::new, (), counters),
    ensures
        counters.received == 0,
        counters.accepted == 0,
        counters.rejected == 0,
{
}

} // verus!
