//! The receive loop of handler-style actors.
use vstd::prelude::*;

verus! {

/// How the provided receive loop treats messages still queued when shutdown is
/// requested.
#[derive(Debug, Clone, Copy, PartialEq, Eq, Structural)]
#[non_exhaustive]
pub enum DrainPolicy {
    /// Stop immediately. Queued messages are dropped.
    Discard,
    /// Close the mailbox to new sends, handle every message already queued,
    /// then stop.
    Drain,
}

impl Default for DrainPolicy {
    fn default() -> (policy: Self)
        ensures
            policy == DrainPolicy::Discard,
    {
        DrainPolicy::Discard
    }
}

/// Where a receive loop stands.
#[derive(Debug, Clone, Copy, PartialEq, Eq, Structural)]
pub enum LoopPhase {
    /// The start hook is running.
    Starting,
    /// The next message, or shutdown, is waited for.
    Receiving,
    /// A message is being handled; others may follow.
    Handling,
    /// The mailbox is closed and its remaining messages are taken.
    Draining,
    /// A remaining message is being handled.
    HandlingDrained,
    /// The stop hook is running.
    Stopping,
    /// The result is known.
    Finished,
}

/// Something that happened to a receive loop.
#[derive(Debug)]
pub enum LoopEvent<M, E> {
    /// The start hook returned.
    Started(Result<(), E>),
    /// Shutdown was requested, and this is the actor's drain policy.
    Shutdown(DrainPolicy),
    /// A message was taken out of the mailbox.
    Message(M),
    /// The mailbox is closed and empty.
    Closed,
    /// The message was handled.
    Handled(Result<(), E>),
    /// The stop hook returned.
    Stopped(Result<(), E>),
}

/// What a receive loop does next.
#[derive(Debug)]
pub enum LoopAction<M, E> {
    /// Wait for the next message or for shutdown, shutdown first.
    Receive,
    /// Close the mailbox, then take its next remaining message.
    CloseAndDrain,
    /// Take the next remaining message.
    Drain,
    /// Report the message as received, then handle it.
    Handle(M),
    /// Run the stop hook.
    Stop,
    /// Nothing: this is the result of the run.
    Finish(Result<(), E>),
}

/// Whether the event can happen in the phase.
pub open spec fn loop_expects<M, E>(phase: LoopPhase, event: LoopEvent<M, E>) -> bool {
    match phase {
        LoopPhase::Starting => event is Started,
        LoopPhase::Receiving => event is Shutdown || event is Message || event is Closed,
        LoopPhase::Handling => event is Handled,
        LoopPhase::Draining => event is Message || event is Closed,
        LoopPhase::HandlingDrained => event is Handled,
        LoopPhase::Stopping => event is Stopped,
        LoopPhase::Finished => false,
    }
}

/// What a receive loop becomes, and does, when an event happens. An error of
/// the start hook or of a handler ends it at once; otherwise the stop hook has
/// the last word.
pub open spec fn loop_next<M, E>(phase: LoopPhase, event: LoopEvent<M, E>) -> (
    LoopPhase,
    LoopAction<M, E>,
) {
    match event {
        LoopEvent::Started(Err(error)) => (LoopPhase::Finished, LoopAction::Finish(Err(error))),
        LoopEvent::Started(Ok(_)) => (LoopPhase::Receiving, LoopAction::Receive),
        LoopEvent::Shutdown(policy) => if policy == DrainPolicy::Drain {
            (LoopPhase::Draining, LoopAction::CloseAndDrain)
        } else {
            (LoopPhase::Stopping, LoopAction::Stop)
        },
        LoopEvent::Message(message) => if phase == LoopPhase::Draining {
            (LoopPhase::HandlingDrained, LoopAction::Handle(message))
        } else {
            (LoopPhase::Handling, LoopAction::Handle(message))
        },
        LoopEvent::Closed => (LoopPhase::Stopping, LoopAction::Stop),
        LoopEvent::Handled(Err(error)) => (LoopPhase::Finished, LoopAction::Finish(Err(error))),
        LoopEvent::Handled(Ok(_)) => if phase == LoopPhase::HandlingDrained {
            (LoopPhase::Draining, LoopAction::Drain)
        } else {
            (LoopPhase::Receiving, LoopAction::Receive)
        },
        LoopEvent::Stopped(result) => (LoopPhase::Finished, LoopAction::Finish(result)),
    }
}

/// The receive loop of one run of a handler-style actor.
#[derive(Debug)]
pub struct ReceiveLoop {
    phase: LoopPhase,
}

impl View for ReceiveLoop {
    type V = LoopPhase;

    closed spec fn view(&self) -> LoopPhase {
        self.phase
    }
}

impl ReceiveLoop {
    /// A loop whose actor is about to run its start hook.
    pub fn new() -> (receive_loop: Self)
        ensures
            receive_loop@ == LoopPhase::Starting,
    {
        ReceiveLoop { phase: LoopPhase::Starting }
    }

    /// Takes one event and says what to do next.
    pub fn step<M, E>(&mut self, event: LoopEvent<M, E>) -> (action: LoopAction<M, E>)
        requires
            loop_expects(old(self)@, event),
        ensures
            (final(self)@, action) == loop_next(old(self)@, event),
    {
        match event {
            LoopEvent::Started(Ok(())) => {
                self.phase = LoopPhase::Receiving;
                LoopAction::Receive
            },
            LoopEvent::Started(Err(error)) => {
                self.phase = LoopPhase::Finished;
                LoopAction::Finish(Err(error))
            },
            LoopEvent::Shutdown(policy) => {
                if policy == DrainPolicy::Drain {
                    self.phase = LoopPhase::Draining;
                    LoopAction::CloseAndDrain
                } else {
                    self.phase = LoopPhase::Stopping;
                    LoopAction::Stop
                }
            },
            LoopEvent::Message(message) => {
                self.phase = if self.phase == LoopPhase::Draining {
                    LoopPhase::HandlingDrained
                } else {
                    LoopPhase::Handling
                };
                LoopAction::Handle(message)
            },
            LoopEvent::Closed => {
                self.phase = LoopPhase::Stopping;
                LoopAction::Stop
            },
            LoopEvent::Handled(Ok(())) => {
                if self.phase == LoopPhase::HandlingDrained {
                    self.phase = LoopPhase::Draining;
                    LoopAction::Drain
                } else {
                    self.phase = LoopPhase::Receiving;
                    LoopAction::Receive
                }
            },
            LoopEvent::Handled(Err(error)) => {
                self.phase = LoopPhase::Finished;
                LoopAction::Finish(Err(error))
            },
            LoopEvent::Stopped(result) => {
                self.phase = LoopPhase::Finished;
                LoopAction::Finish(result)
            },
        }
    }
}

// ---------------------------------------------------------------------------
// What follows for whole runs
// ---------------------------------------------------------------------------

/// The phase after a sequence of events.
pub open spec fn loop_after<M, E>(phase: LoopPhase, events: Seq<LoopEvent<M, E>>) -> LoopPhase
    decreases events.len(),
{
    if events.len() == 0 {
        phase
    } else {
        loop_next(loop_after(phase, events.drop_last()), events.last()).0
    }
}

/// Whether each of the events can happen when its turn comes.
pub open spec fn loop_allows<M, E>(phase: LoopPhase, events: Seq<LoopEvent<M, E>>) -> bool
    decreases events.len(),
{
    if events.len() == 0 {
        true
    } else {
        loop_allows(phase, events.drop_last()) && loop_expects(
            loop_after(phase, events.drop_last()),
            events.last(),
        )
    }
}

/// The messages that were taken out of the mailbox.
pub open spec fn messages_taken<M, E>(events: Seq<LoopEvent<M, E>>) -> Seq<M>
    decreases events.len(),
{
    if events.len() == 0 {
        Seq::empty()
    } else {
        match events.last() {
            LoopEvent::Message(message) => messages_taken(events.drop_last()).push(message),
            _ => messages_taken(events.drop_last()),
        }
    }
}

/// The messages that were handed to the handler.
pub open spec fn messages_handled<M, E>(phase: LoopPhase, events: Seq<LoopEvent<M, E>>) -> Seq<M>
    decreases events.len(),
{
    if events.len() == 0 {
        Seq::empty()
    } else {
        let before = loop_after(phase, events.drop_last());
        match loop_next(before, events.last()).1 {
            LoopAction::Handle(message) => messages_handled(phase, events.drop_last()).push(
                message,
            ),
            _ => messages_handled(phase, events.drop_last()),
        }
    }
}

/// How many times the stop hook was run.
pub open spec fn stop_hooks_run<M, E>(phase: LoopPhase, events: Seq<LoopEvent<M, E>>) -> nat
    decreases events.len(),
{
    if events.len() == 0 {
        0
    } else {
        let before = loop_after(phase, events.drop_last());
        let earlier = stop_hooks_run(phase, events.drop_last());
        if loop_next(before, events.last()).1 is Stop {
            earlier + 1
        } else {
            earlier
        }
    }
}

/// Whether a hook or a handler failed.
pub open spec fn has_failed<M, E>(event: LoopEvent<M, E>) -> bool {
    match event {
        LoopEvent::Started(result) => result is Err,
        LoopEvent::Handled(result) => result is Err,
        _ => false,
    }
}

/// Every message that is taken out of the mailbox is handled, once and in
/// mailbox order, while draining too.
pub proof fn every_message_taken_is_handled<M, E>(phase: LoopPhase, events: Seq<LoopEvent<M, E>>)
    ensures
        messages_handled(phase, events) == messages_taken(events),
    decreases events.len(),
{
    if events.len() > 0 {
        every_message_taken_is_handled(phase, events.drop_last());
    }
}

/// Where the actor drains, shutdown alone never ends the loop: once draining,
/// the stop hook runs only when the mailbox is closed and empty.
pub proof fn draining_empties_the_mailbox<M, E>(phase: LoopPhase, event: LoopEvent<M, E>)
    requires
        phase == LoopPhase::Draining || phase == LoopPhase::HandlingDrained,
        loop_expects(phase, event),
    ensures
        loop_next(phase, event).1 is Stop ==> event is Closed,
        loop_next(phase, event).1 is Finish ==> has_failed(event),
        loop_next(phase, event).0 == LoopPhase::Draining || loop_next(phase, event).0
            == LoopPhase::HandlingDrained || event is Closed || has_failed(event),
{
}

/// The stop hook runs at most once, and not at all where the start hook or a
/// handler failed.
pub proof fn stop_hook_follows_a_clean_loop<M, E>(events: Seq<LoopEvent<M, E>>)
    requires
        loop_allows(LoopPhase::Starting, events),
    ensures
        stop_hooks_run(LoopPhase::Starting, events) == (if loop_after(LoopPhase::Starting, events)
            == LoopPhase::Stopping || (events.len() > 0 && events.last() is Stopped) {
            1nat
        } else {
            0
        }),
        (exists|i: int| 0 <= i < events.len() && has_failed(#[trigger] events[i])) ==> {
            &&& stop_hooks_run(LoopPhase::Starting, events) == 0
            &&& loop_after(LoopPhase::Starting, events) == LoopPhase::Finished
            &&& has_failed(events.last())
        },
        events.len() > 0 && events.last() is Stopped ==> loop_after(LoopPhase::Starting, events)
            == LoopPhase::Finished,
    decreases events.len(),
{
    if events.len() > 0 {
        let rest = events.drop_last();
        stop_hook_follows_a_clean_loop(rest);
        if exists|i: int| 0 <= i < events.len() && has_failed(#[trigger] events[i]) {
            let i = choose|i: int| 0 <= i < events.len() && has_failed(#[trigger] events[i]);
            if i < rest.len() {
                assert(has_failed(rest[i]));
            }
        }
    }
}

/// An error of the start hook or of a handler ends the loop with that error, at
/// once. A clean start waits for messages, and the stop hook's result is the
/// loop's.
pub proof fn errors_end_the_loop<M, E>(phase: LoopPhase, error: E, result: Result<(), E>)
    ensures
        loop_next::<M, E>(phase, LoopEvent::Started(Err(error))) == (
            LoopPhase::Finished,
            LoopAction::<M, E>::Finish(Err(error)),
        ),
        loop_next::<M, E>(phase, LoopEvent::Handled(Err(error))) == (
            LoopPhase::Finished,
            LoopAction::<M, E>::Finish(Err(error)),
        ),
        loop_next::<M, E>(phase, LoopEvent::Stopped(result)) == (
            LoopPhase::Finished,
            LoopAction::<M, E>::Finish(result),
        ),
        loop_next::<M, E>(phase, LoopEvent::Started(Ok(()))) == (
            LoopPhase::Receiving,
            LoopAction::<M, E>::Receive,
        ),
{
}

/// Shutdown stops an actor that discards what is queued at once. One that
/// drains closes its mailbox, takes message by message out of it, and stops
/// when it is empty. A loop that was not asked to shut down goes on receiving
/// after each message.
pub proof fn shutdown_follows_the_drain_policy<M, E>(message: M)
    ensures
        ({
            let receiving = LoopPhase::Receiving;
            let discarded = loop_next::<M, E>(receiving, LoopEvent::Shutdown(DrainPolicy::Discard));
            let drained = loop_next::<M, E>(receiving, LoopEvent::Shutdown(DrainPolicy::Drain));
            let taken = loop_next::<M, E>(drained.0, LoopEvent::Message(message));
            let handled = loop_next::<M, E>(taken.0, LoopEvent::Handled(Ok(())));
            let usual = loop_next::<M, E>(receiving, LoopEvent::Message(message));
            &&& discarded.1 is Stop
            &&& discarded.0 == LoopPhase::Stopping
            &&& drained.1 is CloseAndDrain
            &&& taken.1 == LoopAction::<M, E>::Handle(message)
            &&& handled.1 is Drain
            &&& handled.0 == drained.0
            &&& loop_next::<M, E>(drained.0, LoopEvent::Closed).1 is Stop
            &&& usual.1 == LoopAction::<M, E>::Handle(message)
            &&& loop_next::<M, E>(usual.0, LoopEvent::Handled(Ok(()))) == (
                LoopPhase::Receiving,
                LoopAction::<M, E>::Receive,
            )
            &&& loop_next::<M, E>(receiving, LoopEvent::Closed).1 is Stop
            &&& loop_next::<M, E>(receiving, LoopEvent::Closed).0 == LoopPhase::Stopping
        }),
{
}

/// A loop takes what can happen in its phase: a message or shutdown while it
/// receives, the end of the handler while it handles, the end of a hook while
/// the hook runs.
pub proof fn loops_take_what_can_happen<M, E>(
    message: M,
    policy: DrainPolicy,
    result: Result<(), E>,
)
    ensures
        loop_expects::<M, E>(LoopPhase::Starting, LoopEvent::Started(result)),
        loop_expects::<M, E>(LoopPhase::Receiving, LoopEvent::Message(message)),
        loop_expects::<M, E>(LoopPhase::Receiving, LoopEvent::Shutdown(policy)),
        loop_expects::<M, E>(LoopPhase::Receiving, LoopEvent::Closed),
        loop_expects::<M, E>(LoopPhase::Handling, LoopEvent::Handled(result)),
        loop_expects::<M, E>(LoopPhase::Draining, LoopEvent::Message(message)),
        loop_expects::<M, E>(LoopPhase::Draining, LoopEvent::Closed),
        loop_expects::<M, E>(LoopPhase::HandlingDrained, LoopEvent::Handled(result)),
        loop_expects::<M, E>(LoopPhase::Stopping, LoopEvent::Stopped(result)),
{
}

/// A loop goes through events exactly where each of them can happen in the phase
/// that the earlier ones led to.
pub proof fn loops_go_through_what_can_happen<M, E>(
    phase: LoopPhase,
    events: Seq<LoopEvent<M, E>>,
    event: LoopEvent<M, E>,
)
    ensures
        loop_allows::<M, E>(phase, Seq::empty()),
        loop_allows(phase, events.push(event)) <==> loop_allows(phase, events) && loop_expects(
            loop_after(phase, events),
            event,
        ),
        loop_after::<M, E>(phase, Seq::empty()) == phase,
        loop_after(phase, events.push(event)) == loop_next(loop_after(phase, events), event).0,
{
    assert(events.push(event).drop_last() =~= events);
}

} // verus!
