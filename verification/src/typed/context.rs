//! Actor refs and contexts of typed graphs.
use tokio::sync::{mpsc, watch};
use tokio_util::sync::CancellationToken;
use vstd::prelude::*;
use crate::binding::MailboxRef;
use crate::sync::{
    mpsc_try_send, token_is_cancelled, watch_clone, watch_current, Inlet, Seen, SendAttempt,
    TokenReading, TrySend,
};
use crate::typed::error::{SendError, SendErrorView};
pub use crate::context::Reply;

verus! {

/// Restart-stable, typed sender for an actor mailbox.
///
/// It is bound to a long-lived mailbox binding rather than to a single run of
/// the actor. When the graph is rerun, the ref follows the new mailbox.
#[verifier::reject_recursive_types(M)]
pub struct ActorRef<M> {
    actor_id: String,
    binding: watch::Receiver<Option<MailboxRef<M>>>,
}

impl<M> View for ActorRef<M> {
    type V = Seq<char>;

    closed spec fn view(&self) -> Seq<char> {
        self.actor_id@
    }
}

/// Why there is no mailbox to send to when the binding of `actor_id` shows
/// `bound`, if there is none.
pub open spec fn selection_problem<M>(actor_id: Seq<char>, bound: Option<MailboxRef<M>>) -> Option<
    SendErrorView,
> {
    match bound {
        Some(_) => None,
        None => Some(SendErrorView::ActorNotRunning { actor_id }),
    }
}

/// What a send to `actor_id` reports for each way that queueing can come out.
pub open spec fn send_result<M>(actor_id: Seq<char>, outcome: TrySend<M>) -> Result<
    (),
    SendErrorView,
> {
    match outcome {
        TrySend::Sent => Ok(()),
        TrySend::Full(_) => Err(SendErrorView::MailboxFull { actor_id }),
        TrySend::Closed(_) => Err(SendErrorView::MailboxClosed { actor_id }),
    }
}

/// The result of a send, with its error by what it says.
pub open spec fn result_view(result: Result<(), SendError>) -> Result<(), SendErrorView> {
    match result {
        Ok(_) => Ok(()),
        Err(error) => Err(error@),
    }
}

/// A look at a binding: what it showed, and the mailbox to send to on that
/// account.
#[verifier::reject_recursive_types(M)]
pub struct Lookup<M> {
    pub seen: Seen<Option<MailboxRef<M>>>,
    pub mailbox: Result<MailboxRef<M>, SendError>,
}

/// A send through a ref: what its binding showed, the attempt to queue the
/// message where a mailbox was found, and what all of that means.
#[verifier::reject_recursive_types(M)]
pub struct RefSend<M> {
    pub seen: Seen<Option<MailboxRef<M>>>,
    pub attempt: Option<SendAttempt<M>>,
    pub result: Result<(), SendError>,
}

impl<M> ActorRef<M> {
    /// The binding that the ref reads.
    pub closed spec fn reads(self) -> watch::Receiver<Option<MailboxRef<M>>> {
        self.binding
    }

    /// A ref to the actor whose binding is read by `binding`.
    pub fn new(actor_id: String, binding: watch::Receiver<Option<MailboxRef<M>>>) -> (actor_ref:
        Self)
        ensures
            actor_ref@ == actor_id@,
            actor_ref.reads() == binding,
    {
        ActorRef { actor_id, binding }
    }

    /// Returns the target actor id.
    pub fn id(&self) -> (id: &str)
        ensures
            id@ == self@,
    {
        self.actor_id.as_str()
    }

    /// Returns the reader of the binding, for waiting on its changes.
    pub fn binding(&mut self) -> (binding: &mut watch::Receiver<Option<MailboxRef<M>>>)
        ensures
            final(self)@ == old(self)@,
            *binding == old(self).reads(),
            final(self).reads() == *final(binding),
    {
        &mut self.binding
    }

    /// The mailbox to send to right now.
    pub fn current_mailbox(&self) -> (lookup: Lookup<M>)
        ensures
            lookup.seen.reader() == self.reads(),
            match lookup.seen.content() {
                Some(shown) => {
                    &&& lookup.mailbox matches Ok(mailbox)
                    &&& mailbox.owner() == shown.owner()
                    &&& mailbox.channel() == shown.channel()
                    &&& mailbox.limit() == shown.limit()
                },
                None => lookup.mailbox matches Err(error) && Some(error@) == selection_problem(
                    self@,
                    lookup.seen.content(),
                ),
            },
    {
        let seen = watch_current(&self.binding);
        let bound = match seen.value() {
            Some(mailbox) => Some(mailbox.clone()),
            None => None,
        };
        let mailbox = self.select_mailbox(bound);
        Lookup { seen, mailbox }
    }

    /// The mailbox to send to when the binding reads `bound`.
    pub fn select_mailbox(&self, bound: Option<MailboxRef<M>>) -> (found: Result<
        MailboxRef<M>,
        SendError,
    >)
        ensures
            match bound {
                Some(mailbox) => found == Ok::<MailboxRef<M>, SendError>(mailbox),
                None => found matches Err(error) && Some(error@) == selection_problem(self@, bound),
            },
    {
        match bound {
            Some(mailbox) => Ok(mailbox),
            None => Err(SendError::ActorNotRunning { actor_id: self.actor_id.clone() }),
        }
    }

    /// Attempts to send a message without waiting for mailbox capacity.
    pub fn try_send(&self, message: M) -> (sending: RefSend<M>)
        ensures
            sending.seen.reader() == self.reads(),
            match sending.seen.content() {
                Some(mailbox) => {
                    &&& sending.attempt matches Some(attempt)
                    &&& attempt.channel() == mailbox.channel()
                    &&& attempt.message() == message
                    &&& result_view(sending.result) == send_result(self@, attempt.found())
                },
                None => {
                    &&& sending.attempt is None
                    &&& sending.result matches Err(error)
                    &&& Some(error@) == selection_problem(self@, sending.seen.content())
                },
            },
    {
        let Lookup { seen, mailbox } = self.current_mailbox();
        match mailbox {
            Ok(mailbox) => {
                let attempt = mpsc_try_send(mailbox.outlet(), message);
                let result = self.sent(attempt.outcome());
                RefSend { seen, attempt: Some(attempt), result }
            },
            Err(error) => RefSend { seen, attempt: None, result: Err(error) },
        }
    }

    /// What a send reports for each way that queueing can come out.
    pub fn sent(&self, outcome: &TrySend<M>) -> (result: Result<(), SendError>)
        ensures
            result_view(result) == send_result(self@, *outcome),
    {
        match outcome {
            TrySend::Sent => Ok(()),
            TrySend::Full(_) => Err(SendError::MailboxFull { actor_id: self.actor_id.clone() }),
            TrySend::Closed(_) => Err(SendError::MailboxClosed { actor_id: self.actor_id.clone() }),
        }
    }

    /// Starts a send that retries across restart windows until the actor is
    /// bound again or the binding source is dropped.
    pub fn start_send(&self, message: M) -> (send: ReadySend<M>)
        ensures
            send@ == ready_send_started(self@, message),
    {
        ReadySend {
            actor_id: self.actor_id.clone(),
            phase: ReadyPhase::Seeking(message),
        }
    }
}

impl<M> Clone for ActorRef<M> {
    fn clone(&self) -> (clone: Self)
        ensures
            clone@ == self@,
            clone.reads() == self.reads(),
    {
        ActorRef { actor_id: self.actor_id.clone(), binding: watch_clone(&self.binding) }
    }
}

// ---------------------------------------------------------------------------
// Sends across restarts
// ---------------------------------------------------------------------------

#[verifier::reject_recursive_types(M)]
enum ReadyPhase<M> {
    /// Looking for a bound mailbox for the message.
    Seeking(M),
    /// The message is on its way into this mailbox.
    Delivering(MailboxRef<M>),
    /// This mailbox turned out to be closed: waiting for it to be unbound, with
    /// the message in hand.
    Unbinding(MailboxRef<M>, M),
    /// Waiting for another mailbox to be bound, for the message.
    Rebinding(M),
    /// The result is known.
    Finished,
}

/// A send that is retried across restart windows.
///
/// It is driven by what the binding and the mailbox do: each
/// [`step`](Self::step) takes one event and says what to do next.
#[verifier::reject_recursive_types(M)]
pub struct ReadySend<M> {
    actor_id: String,
    phase: ReadyPhase<M>,
}

/// Where a [`ReadySend`] stands.
#[verifier::reject_recursive_types(M)]
pub enum ReadyPhaseView<M> {
    Seeking,
    Delivering(mpsc::Sender<M>),
    Unbinding(mpsc::Sender<M>),
    Rebinding,
    Finished,
}

/// What a [`ReadySend`] knows.
#[verifier::reject_recursive_types(M)]
pub struct ReadySendView<M> {
    pub actor_id: Seq<char>,
    pub message: Option<M>,
    pub phase: ReadyPhaseView<M>,
}

impl<M> View for ReadySend<M> {
    type V = ReadySendView<M>;

    closed spec fn view(&self) -> ReadySendView<M> {
        ReadySendView {
            actor_id: self.actor_id@,
            message: match self.phase {
                ReadyPhase::Seeking(message) => Some(message),
                ReadyPhase::Unbinding(_, message) => Some(message),
                ReadyPhase::Rebinding(message) => Some(message),
                _ => None,
            },
            phase: match self.phase {
                ReadyPhase::Seeking(_) => ReadyPhaseView::Seeking,
                ReadyPhase::Delivering(mailbox) => ReadyPhaseView::Delivering(mailbox.channel()),
                ReadyPhase::Unbinding(mailbox, _) => ReadyPhaseView::Unbinding(mailbox.channel()),
                ReadyPhase::Rebinding(_) => ReadyPhaseView::Rebinding,
                ReadyPhase::Finished => ReadyPhaseView::Finished,
            },
        }
    }
}

/// Something that happened while a send was pending.
#[verifier::reject_recursive_types(M)]
pub enum ReadyEvent<M> {
    /// The binding was read.
    Binding(Option<MailboxRef<M>>),
    /// The binding can never change again.
    SourceDropped,
    /// The mailbox took the message.
    Delivered,
    /// The mailbox was closed and handed the message back.
    Returned(M),
}

/// What the driver of a send does next.
#[verifier::reject_recursive_types(M)]
pub enum ReadyAction<M> {
    /// Read the binding.
    ReadBinding,
    /// Wait until the binding changes, then read it.
    AwaitChange,
    /// Put the message into the mailbox, waiting for room.
    Deliver { mailbox: MailboxRef<M>, message: M },
    /// Nothing: this is the result.
    Finish(Result<(), SendError>),
}

/// What a [`ReadyAction`] says.
#[verifier::reject_recursive_types(M)]
pub enum ReadyActionView<M> {
    ReadBinding,
    AwaitChange,
    Deliver { channel: mpsc::Sender<M>, message: M },
    Finish(Result<(), SendErrorView>),
}

impl<M> View for ReadyAction<M> {
    type V = ReadyActionView<M>;

    open spec fn view(&self) -> ReadyActionView<M> {
        match *self {
            ReadyAction::ReadBinding => ReadyActionView::ReadBinding,
            ReadyAction::AwaitChange => ReadyActionView::AwaitChange,
            ReadyAction::Deliver { mailbox, message } => ReadyActionView::Deliver {
                channel: mailbox.channel(),
                message,
            },
            ReadyAction::Finish(result) => ReadyActionView::Finish(
                match result {
                    Ok(_) => Ok(()),
                    Err(error) => Err(error@),
                },
            ),
        }
    }
}

/// A send that has just been started.
pub open spec fn ready_send_started<M>(actor_id: Seq<char>, message: M) -> ReadySendView<M> {
    ReadySendView { actor_id, message: Some(message), phase: ReadyPhaseView::Seeking }
}

/// Whether a send holds its message exactly while it is not handed out, and
/// nothing once it is finished.
pub open spec fn ready_send_is_consistent<M>(send: ReadySendView<M>) -> bool {
    match send.phase {
        ReadyPhaseView::Delivering(_) | ReadyPhaseView::Finished => send.message is None,
        _ => send.message is Some,
    }
}

/// Whether the event can happen to a send in this phase.
pub open spec fn ready_send_expects<M>(send: ReadySendView<M>, event: ReadyEvent<M>) -> bool {
    match send.phase {
        ReadyPhaseView::Delivering(_) => event is Delivered || event is Returned,
        ReadyPhaseView::Finished => false,
        _ => event is Binding || event is SourceDropped,
    }
}

/// What a pending send becomes, and what it asks for, when an event happens.
/// Without a source of bindings the send fails: as not running where no
/// mailbox was found yet, as closed where one was.
pub open spec fn ready_send_next<M>(send: ReadySendView<M>, event: ReadyEvent<M>) -> (
    ReadySendView<M>,
    ReadyActionView<M>,
) {
    match event {
        ReadyEvent::Delivered => (
            ReadySendView { phase: ReadyPhaseView::Finished, ..send },
            ReadyActionView::Finish(Ok(())),
        ),
        ReadyEvent::Returned(message) => (
            ReadySendView {
                message: Some(message),
                phase: match send.phase {
                    ReadyPhaseView::Delivering(channel) => ReadyPhaseView::Unbinding(channel),
                    other => other,
                },
                ..send
            },
            ReadyActionView::ReadBinding,
        ),
        ReadyEvent::SourceDropped => (
            ReadySendView { message: None, phase: ReadyPhaseView::Finished, ..send },
            ReadyActionView::Finish(
                Err(
                    if send.phase is Seeking {
                        SendErrorView::ActorNotRunning { actor_id: send.actor_id }
                    } else {
                        SendErrorView::MailboxClosed { actor_id: send.actor_id }
                    },
                ),
            ),
        ),
        ReadyEvent::Binding(None) => (
            ReadySendView {
                phase: match send.phase {
                    ReadyPhaseView::Unbinding(_) => ReadyPhaseView::Rebinding,
                    other => other,
                },
                ..send
            },
            ReadyActionView::AwaitChange,
        ),
        ReadyEvent::Binding(Some(mailbox)) => match send.phase {
            ReadyPhaseView::Seeking => (
                ReadySendView {
                    message: None,
                    phase: ReadyPhaseView::Delivering(mailbox.channel()),
                    ..send
                },
                ReadyActionView::Deliver {
                    channel: mailbox.channel(),
                    message: send.message.unwrap(),
                },
            ),
            ReadyPhaseView::Unbinding(stale) => if mailbox.channel() == stale {
                (send, ReadyActionView::AwaitChange)
            } else {
                (
                    ReadySendView { phase: ReadyPhaseView::Seeking, ..send },
                    ReadyActionView::ReadBinding,
                )
            },
            _ => (
                ReadySendView { phase: ReadyPhaseView::Seeking, ..send },
                ReadyActionView::ReadBinding,
            ),
        },
    }
}

impl<M> ReadySend<M> {
    /// Takes one event and says what to do next.
    pub fn step(&mut self, event: ReadyEvent<M>) -> (action: ReadyAction<M>)
        requires
            ready_send_expects(old(self)@, event),
        ensures
            ready_send_is_consistent(final(self)@),
            (final(self)@, action@) == ready_send_next(old(self)@, event),
    {
        let mut phase = ReadyPhase::Finished;
        std::mem::swap(&mut phase, &mut self.phase);
        match event {
            ReadyEvent::Delivered => ReadyAction::Finish(Ok(())),
            ReadyEvent::Returned(message) => {
                if let ReadyPhase::Delivering(mailbox) = phase {
                    self.phase = ReadyPhase::Unbinding(mailbox, message);
                }
                ReadyAction::ReadBinding
            },
            ReadyEvent::SourceDropped => {
                let error = match phase {
                    ReadyPhase::Seeking(_) => {
                        SendError::ActorNotRunning { actor_id: self.actor_id.clone() }
                    },
                    _ => SendError::MailboxClosed { actor_id: self.actor_id.clone() },
                };
                ReadyAction::Finish(Err(error))
            },
            ReadyEvent::Binding(None) => {
                self.phase = match phase {
                    ReadyPhase::Unbinding(_, message) => ReadyPhase::Rebinding(message),
                    other => other,
                };
                ReadyAction::AwaitChange
            },
            ReadyEvent::Binding(Some(mailbox)) => match phase {
                ReadyPhase::Seeking(message) => {
                    self.phase = ReadyPhase::Delivering(mailbox.clone());
                    ReadyAction::Deliver { mailbox, message }
                },
                ReadyPhase::Unbinding(stale, message) => {
                    if mailbox.same_channel(&stale) {
                        self.phase = ReadyPhase::Unbinding(stale, message);
                        ReadyAction::AwaitChange
                    } else {
                        self.phase = ReadyPhase::Seeking(message);
                        ReadyAction::ReadBinding
                    }
                },
                ReadyPhase::Rebinding(message) => {
                    self.phase = ReadyPhase::Seeking(message);
                    ReadyAction::ReadBinding
                },
                _ => ReadyAction::ReadBinding,
            },
        }
    }
}

/// A retried send ends well exactly when a mailbox took the message, and fails
/// only once the source of bindings is gone. Until then it keeps its message
/// or has it handed out for delivery.
pub proof fn retried_sends_outlast_restarts<M>(send: ReadySendView<M>, event: ReadyEvent<M>)
    requires
        ready_send_is_consistent(send),
        ready_send_expects(send, event),
    ensures
        ready_send_next(send, event).1 == ReadyActionView::<M>::Finish(Ok(()))
            <==> event is Delivered,
        ready_send_next(send, event).1 is Finish && !(event is Delivered)
            ==> event is SourceDropped,
        match ready_send_next(send, event).1 {
            ReadyActionView::Finish(_) => true,
            ReadyActionView::Deliver { channel, message } => Some(message) == send.message,
            _ => ready_send_next(send, event).0.message == (match event {
                ReadyEvent::Returned(message) => Some(message),
                _ => send.message,
            }),
        },
{
}

/// The send after a sequence of events.
pub open spec fn ready_send_after<M>(
    send: ReadySendView<M>,
    events: Seq<ReadyEvent<M>>,
) -> ReadySendView<M>
    decreases events.len(),
{
    if events.len() == 0 {
        send
    } else {
        ready_send_next(ready_send_after(send, events.drop_last()), events.last()).0
    }
}

/// Whether each of the events can happen when its turn comes.
pub open spec fn ready_send_allows<M>(send: ReadySendView<M>, events: Seq<ReadyEvent<M>>) -> bool
    decreases events.len(),
{
    if events.len() == 0 {
        true
    } else {
        ready_send_allows(send, events.drop_last()) && ready_send_expects(
            ready_send_after(send, events.drop_last()),
            events.last(),
        )
    }
}

/// What the send asks for after the event at `index`.
pub open spec fn ready_asked_at<M>(
    send: ReadySendView<M>,
    events: Seq<ReadyEvent<M>>,
    index: int,
) -> ReadyActionView<M> {
    ready_send_next(ready_send_after(send, events.take(index)), events[index]).1
}

/// Whether the event is part of an ordinary restart: the source of bindings
/// stays, and a mailbox that closes hands back the message it was given.
pub open spec fn is_rerun_event<M>(event: ReadyEvent<M>, message: M) -> bool {
    match event {
        ReadyEvent::Binding(_) => true,
        ReadyEvent::SourceDropped => false,
        ReadyEvent::Delivered => true,
        ReadyEvent::Returned(returned) => returned == message,
    }
}

/// A retried send rides through restarts. However often mailboxes close, are
/// cleared and are bound again, it ends only when a mailbox took the message,
/// every mailbox is given that same message, and between deliveries the send
/// holds on to it.
pub proof fn retried_sends_ride_through_restarts<M>(
    actor_id: Seq<char>,
    message: M,
    events: Seq<ReadyEvent<M>>,
)
    requires
        ready_send_allows(ready_send_started(actor_id, message), events),
        forall|i: int| 0 <= i < events.len() ==> is_rerun_event(#[trigger] events[i], message),
    ensures
        ({
            let send = ready_send_after(ready_send_started(actor_id, message), events);
            &&& ready_send_is_consistent(send)
            &&& send.phase is Finished ==> events.len() > 0 && events.last() is Delivered
            &&& send.message is Some ==> send.message == Some(message)
        }),
        forall|i: int|
            0 <= i < events.len() ==> match #[trigger] ready_asked_at(
                ready_send_started(actor_id, message),
                events,
                i,
            ) {
                ReadyActionView::Deliver { message: handed, .. } => handed == message,
                ReadyActionView::Finish(result) => result is Ok,
                _ => true,
            },
    decreases events.len(),
{
    let start = ready_send_started(actor_id, message);
    if events.len() > 0 {
        let rest = events.drop_last();
        assert forall|i: int| 0 <= i < rest.len() implies is_rerun_event(
            #[trigger] rest[i],
            message,
        ) by {
            assert(rest[i] == events[i]);
        }
        retried_sends_ride_through_restarts(actor_id, message, rest);
        let last = events.len() - 1;
        assert(events.take(last) =~= rest);
        assert(is_rerun_event(events[last], message));
        assert forall|i: int| 0 <= i < events.len() implies match #[trigger] ready_asked_at(
            start,
            events,
            i,
        ) {
            ReadyActionView::Deliver { message: handed, .. } => handed == message,
            ReadyActionView::Finish(result) => result is Ok,
            _ => true,
        } by {
            if i < last {
                assert(rest.take(i) =~= events.take(i));
                assert(ready_asked_at(start, rest, i) == ready_asked_at(start, events, i));
            }
        }
    }
}

// ---------------------------------------------------------------------------
// Actor contexts
// ---------------------------------------------------------------------------

/// Runtime context passed to a graph actor each time the graph is run.
#[verifier::reject_recursive_types(M)]
pub struct ActorContext<M> {
    id: String,
    mailbox: Inlet<M>,
    shutdown: CancellationToken,
    myself: ActorRef<M>,
}

impl<M> ActorContext<M> {
    /// The actor that runs in this context.
    pub closed spec fn actor_id(self) -> Seq<char> {
        self.id@
    }

    /// The target of the ref that leads back to the actor.
    pub closed spec fn own_target(self) -> Seq<char> {
        self.myself@
    }

    /// The binding that the ref that leads back to the actor reads.
    pub closed spec fn own_binding(self) -> watch::Receiver<Option<MailboxRef<M>>> {
        self.myself.reads()
    }

    /// The token that asks the actor to stop.
    pub closed spec fn token(self) -> CancellationToken {
        self.shutdown
    }

    /// The mailbox that the actor reads.
    pub closed spec fn inlet(self) -> Inlet<M> {
        self.mailbox
    }

    /// The context of a run that reads `mailbox`.
    pub fn new(
        id: String,
        mailbox: Inlet<M>,
        shutdown: CancellationToken,
        myself: ActorRef<M>,
    ) -> (context: Self)
        ensures
            context.actor_id() == id@,
            context.own_target() == myself@,
            context.own_binding() == myself.reads(),
            context.token() == shutdown,
            context.inlet() == mailbox,
    {
        ActorContext { id, mailbox, shutdown, myself }
    }

    /// Returns the actor's unique identifier within the graph.
    pub fn id(&self) -> (id: &str)
        ensures
            id@ == self.actor_id(),
    {
        self.id.as_str()
    }

    /// Returns the shared graph shutdown token.
    pub fn shutdown_token(&self) -> (token: &CancellationToken)
        ensures
            *token == self.token(),
    {
        &self.shutdown
    }

    /// Looks whether graph shutdown has been requested by now.
    pub fn is_shutting_down(&self) -> (reading: TokenReading)
        ensures
            reading.of() == self.token(),
    {
        token_is_cancelled(&self.shutdown)
    }

    /// Returns a sender targeting this actor's own mailbox.
    pub fn myself(&self) -> (myself: ActorRef<M>)
        ensures
            myself@ == self.own_target(),
            myself.reads() == self.own_binding(),
    {
        self.myself.clone()
    }

    /// Returns the mailbox, for waiting on its next message.
    pub fn mailbox(&mut self) -> (mailbox: &mut mpsc::Receiver<M>)
        ensures
            final(self).actor_id() == old(self).actor_id(),
            final(self).own_target() == old(self).own_target(),
            final(self).own_binding() == old(self).own_binding(),
            final(self).token() == old(self).token(),
            *mailbox == old(self).inlet().queue(),
            final(self).inlet().queue() == *final(mailbox),
            *final(mailbox) == *mailbox ==> final(self).inlet() == old(self).inlet(),
    {
        self.mailbox.receiver()
    }

    /// What a wait for the next message yields. Shutdown yields nothing, even
    /// where messages are still queued.
    pub fn received(&self, event: crate::context::ReceiveEvent<M>) -> (message: Option<M>)
        ensures
            message == match event {
                crate::context::ReceiveEvent::Shutdown => None,
                crate::context::ReceiveEvent::Mailbox(message) => message,
            },
    {
        match event {
            crate::context::ReceiveEvent::Shutdown => None,
            crate::context::ReceiveEvent::Mailbox(message) => message,
        }
    }
}

/// There is a mailbox to send to exactly where one is bound. A send succeeds
/// exactly where its message was queued; a full and a closed mailbox are told
/// apart, under the target's id.
pub proof fn typed_sends_report_what_was_found<M>(
    actor_id: Seq<char>,
    bound: Option<MailboxRef<M>>,
    outcome: TrySend<M>,
)
    ensures
        selection_problem(actor_id, bound) is None <==> bound is Some,
        bound is None ==> selection_problem(actor_id, bound) == Some(
            SendErrorView::ActorNotRunning { actor_id },
        ),
        send_result(actor_id, outcome) is Ok <==> outcome is Sent,
        outcome is Full ==> send_result(actor_id, outcome) == Err::<(), SendErrorView>(
            SendErrorView::MailboxFull { actor_id },
        ),
        outcome is Closed ==> send_result(actor_id, outcome) == Err::<(), SendErrorView>(
            SendErrorView::MailboxClosed { actor_id },
        ),
{
}

/// A retried send goes to the first mailbox that it finds, with its own
/// message. After a mailbox handed it back, it waits for that mailbox to be
/// unbound or replaced before it looks again. Without a mailbox it waits.
pub proof fn retried_sends_wait_for_another_mailbox<M>(
    send: ReadySendView<M>,
    mailbox: MailboxRef<M>,
)
    requires
        send.message is Some,
    ensures
        ({
            let (after, action) = ready_send_next(send, ReadyEvent::Binding(Some(mailbox)));
            let (unbound, waits) = ready_send_next(send, ReadyEvent::Binding(None));
            &&& send.phase is Seeking ==> action == (ReadyActionView::Deliver {
                channel: mailbox.channel(),
                message: send.message.unwrap(),
            }) && after.phase == ReadyPhaseView::Delivering(mailbox.channel())
            &&& send.phase == ReadyPhaseView::Unbinding(mailbox.channel()) ==> action is AwaitChange
                && after == send
            &&& (send.phase matches ReadyPhaseView::Unbinding(stale) && stale != mailbox.channel())
                ==> action is ReadBinding && after.phase is Seeking && after.message == send.message
            &&& send.phase is Rebinding ==> action is ReadBinding && after.phase is Seeking
                && after.message == send.message
            &&& waits is AwaitChange
            &&& send.phase is Unbinding ==> unbound.phase is Rebinding
            &&& !(send.phase is Unbinding) ==> unbound.phase == send.phase
            &&& unbound.message == send.message
            &&& after.actor_id == send.actor_id
        }),
{
}

/// A delivery ends the retried send when the mailbox took the message, and
/// otherwise starts over with the message in hand, past that mailbox.
pub proof fn retried_deliveries_end_or_start_over<M>(
    send: ReadySendView<M>,
    channel: mpsc::Sender<M>,
    message: M,
)
    requires
        send.phase == ReadyPhaseView::Delivering(channel),
    ensures
        ready_send_next(send, ReadyEvent::Delivered).1 == ReadyActionView::<M>::Finish(Ok(())),
        ready_send_next(send, ReadyEvent::Delivered).0.phase is Finished,
        ready_send_next(send, ReadyEvent::Returned(message)).1 is ReadBinding,
        ready_send_next(send, ReadyEvent::Returned(message)).0.phase == ReadyPhaseView::Unbinding(
            channel,
        ),
        ready_send_next(send, ReadyEvent::Returned(message)).0.message == Some(message),
        ready_send_next(send, ReadyEvent::Returned(message)).0.actor_id == send.actor_id,
{
}

/// A retried send ends as soon as its binding can never change again: as not
/// running where it never got to a mailbox, as closed where its mailbox closed.
pub proof fn retried_sends_end_without_a_source<M>(send: ReadySendView<M>)
    requires
        send.phase is Seeking || send.phase is Unbinding || send.phase is Rebinding,
    ensures
        ready_send_expects(send, ReadyEvent::SourceDropped),
        ready_send_next(send, ReadyEvent::SourceDropped).0.phase is Finished,
        ready_send_next(send, ReadyEvent::SourceDropped).0.message is None,
        ready_send_next(send, ReadyEvent::SourceDropped).1 == ReadyActionView::<M>::Finish(
            Err(
                if send.phase is Seeking {
                    SendErrorView::ActorNotRunning { actor_id: send.actor_id }
                } else {
                    SendErrorView::MailboxClosed { actor_id: send.actor_id }
                },
            ),
        ),
{
}

/// Events can come whenever they make sense, and a send starts by looking for a
/// mailbox with its message in hand.
pub proof fn retried_sends_take_what_can_happen<M>(
    send: ReadySendView<M>,
    bound: Option<MailboxRef<M>>,
    message: M,
)
    ensures
        send.phase is Seeking || send.phase is Unbinding || send.phase is Rebinding
            ==> ready_send_expects(send, ReadyEvent::Binding(bound)),
        send.phase is Delivering ==> ready_send_expects(send, ReadyEvent::Delivered)
            && ready_send_expects(send, ReadyEvent::Returned(message)),
        ready_send_started(send.actor_id, message).phase is Seeking,
        ready_send_started(send.actor_id, message).message == Some(message),
        ready_send_started(send.actor_id, message).actor_id == send.actor_id,
{
}

/// The result of a send shows what it holds.
pub proof fn typed_results_show_what_they_hold(error: SendError)
    ensures
        result_view(Ok(())) == Ok::<(), SendErrorView>(()),
        result_view(Err(error)) == Err::<(), SendErrorView>(error@),
{
}

/// A message is handed to the mailbox that the binding shows, and its result is
/// what that mailbox did; without a mailbox nothing is handed over.
pub proof fn refs_send_to_what_they_see<M>(
    actor_ref: &ActorRef<M>,
    message: M,
    sending: RefSend<M>,
)
    requires
        call_ensures(ActorRef::<M>::try_send, (actor_ref, message), sending),
    ensures
        sending.attempt is Some <==> sending.seen.content() is Some,
        sending.seen.content() matches Some(mailbox) ==> {
            &&& sending.attempt.unwrap().channel() == mailbox.channel()
            &&& sending.attempt.unwrap().message() == message
            &&& sending.result is Ok <==> sending.attempt.unwrap().found() is Sent
        },
        sending.seen.content() is None ==> sending.result is Err && sending.result->Err_0@
            == (SendErrorView::ActorNotRunning { actor_id: actor_ref@ }),
{
}

/// A mailbox is selected exactly where the binding shows one, and it is that one.
pub proof fn bound_mailboxes_are_selected<M>(
    actor_ref: &ActorRef<M>,
    bound: Option<MailboxRef<M>>,
    found: Result<MailboxRef<M>, SendError>,
)
    requires
        call_ensures(ActorRef::<M>::select_mailbox, (actor_ref, bound), found),
    ensures
        found is Ok <==> bound is Some,
        found is Ok ==> bound == Some(found->Ok_0),
        found is Err ==> found->Err_0@ == (SendErrorView::ActorNotRunning {
            actor_id: actor_ref@,
        }),
{
}

/// What was received is what the mailbox gave, and shutdown gives nothing.
pub proof fn shutdown_ends_receiving<M>(
    context: &ActorContext<M>,
    event: crate::context::ReceiveEvent<M>,
    message: Option<M>,
)
    requires
        call_ensures(ActorContext::<M>::received, (context, event), message),
    ensures
        event is Shutdown ==> message is None,
        event matches crate::context::ReceiveEvent::Mailbox(given) ==> message == given,
{
}

/// A send has its message while it is looking for a mailbox, and has given it
/// away while one is taking it and once it ended.
pub proof fn ready_sends_hold_their_message<M>(
    send: &mut ReadySend<M>,
    event: ReadyEvent<M>,
    action: ReadyAction<M>,
)
    requires
        call_ensures(ReadySend::<M>::step, (send, event), action),
    ensures
        final(send)@.message is None <==> final(send)@.phase is Delivering
            || final(send)@.phase is Finished,
{
}

/// A ref gives back its id, and a send through it starts with its message; what
/// a mailbox did to a message is judged under the ref's target.
pub proof fn typed_refs_hold_their_parts<M>(
    actor_id: String,
    binding: watch::Receiver<Option<MailboxRef<M>>>,
    actor_ref: ActorRef<M>,
    id: &str,
    message: M,
    send: ReadySend<M>,
    outcome: TrySend<M>,
    judged: Result<(), SendError>,
)
    requires
        call_ensures(ActorRef::<M>::new, (actor_id, binding), actor_ref),
        call_ensures(ActorRef::<M>::id, (&actor_ref,), id),
        call_ensures(ActorRef::<M>::start_send, (&actor_ref, message), send),
        call_ensures(ActorRef::<M>::sent, (&actor_ref, &outcome), judged),
    ensures
        id@ == actor_id@,
        actor_ref.reads() == binding,
        send@.message == Some(message),
        judged is Ok <==> outcome is Sent,
        outcome is Full ==> judged->Err_0@ == (SendErrorView::MailboxFull { actor_id: actor_id@ }),
        outcome is Closed ==> judged->Err_0@ == (SendErrorView::MailboxClosed {
            actor_id: actor_id@,
        }),
{
}

/// A retried send goes through events exactly where each of them can happen in
/// the state that the earlier ones led to. Of these, all but the loss of the
/// source are part of a restart, where a closed mailbox hands back the message it
/// was given.
pub proof fn retried_sends_go_through_what_can_happen<M>(
    send: ReadySendView<M>,
    events: Seq<ReadyEvent<M>>,
    event: ReadyEvent<M>,
    message: M,
)
    ensures
        ready_send_allows::<M>(send, Seq::empty()),
        ready_send_allows(send, events.push(event)) <==> ready_send_allows(send, events)
            && ready_send_expects(ready_send_after(send, events), event),
        ready_send_after::<M>(send, Seq::empty()) == send,
        ready_send_after(send, events.push(event)) == ready_send_next(
            ready_send_after(send, events),
            event,
        ).0,
        is_rerun_event(event, message) <==> !(event is SourceDropped) && (
        event matches ReadyEvent::Returned(returned) ==> returned == message),
{
    assert(events.push(event).drop_last() =~= events);
}

} // verus!
