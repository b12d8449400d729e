//! Actor refs, replies and the context that an actor runs in.
use tokio::sync::{mpsc, oneshot, watch};
use tokio_util::sync::CancellationToken;
use vstd::prelude::*;
use crate::binding::{
    send_result, BindingCore, BindingState, BindingStateView, MailboxRef, MailboxSend,
};
use crate::error::{SendError, SendErrorView};
use crate::observability::{Emission, GraphObservability, MessageOperation, SendRejection};
use crate::sync::{
    mpsc_close, mpsc_try_recv, oneshot_send, token_child, token_is_cancelled, watch_clone,
    watch_current, watch_source_dropped, Inlet, Replied, Seen, SendAttempt, SourceReading, Taken,
    TokenReading, TryReceive,
};
use crate::time::TimeSpan;

verus! {

/// Why a send that failed with this error was rejected.
pub open spec fn rejection_of(error: SendErrorView) -> SendRejection {
    match error {
        SendErrorView::ActorNotRunning { .. } => SendRejection::NotRunning,
        SendErrorView::ActorTerminated { .. } => SendRejection::ActorTerminated,
        SendErrorView::MailboxFull { .. } => SendRejection::MailboxFull,
        SendErrorView::MailboxClosed { .. } => SendRejection::MailboxClosed,
    }
}

/// Returns why a send that failed with this error was rejected.
pub fn send_rejection(error: &SendError) -> (rejection: SendRejection)
    ensures
        rejection == rejection_of(error@),
{
    match error {
        SendError::ActorNotRunning { actor_id: _ } => SendRejection::NotRunning,
        SendError::ActorTerminated { actor_id: _ } => SendRejection::ActorTerminated,
        SendError::MailboxFull { actor_id: _ } => SendRejection::MailboxFull,
        SendError::MailboxClosed { actor_id: _ } => SendRejection::MailboxClosed,
    }
}

/// The rejection that a send with this result is reported with.
pub open spec fn result_rejection(result: Result<(), SendError>) -> Option<SendRejection> {
    match result {
        Ok(_) => None,
        Err(error) => Some(rejection_of(error@)),
    }
}

// ---------------------------------------------------------------------------
// Actor refs
// ---------------------------------------------------------------------------

/// Restart-stable, typed sender for an actor mailbox.
///
/// It is bound to a long-lived mailbox binding rather than to a single run of
/// the actor. When the target actor is restarted, the ref follows the new
/// mailbox.
#[verifier::reject_recursive_types(M)]
pub struct ActorRef<M> {
    actor_id: String,
    binding: watch::Receiver<BindingState<M>>,
    source_actor_id: Option<String>,
}

/// Whom an [`ActorRef`] leads to, through which binding, and who holds it.
#[verifier::reject_recursive_types(M)]
pub struct ActorRefView<M> {
    pub actor_id: Seq<char>,
    pub binding: watch::Receiver<BindingState<M>>,
    pub source_actor_id: Option<Seq<char>>,
}

/// The characters of an optional string.
pub open spec fn optional_text(text: Option<String>) -> Option<Seq<char>> {
    match text {
        Some(text) => Some(text@),
        None => None,
    }
}

impl<M> View for ActorRef<M> {
    type V = ActorRefView<M>;

    closed spec fn view(&self) -> ActorRefView<M> {
        ActorRefView {
            actor_id: self.actor_id@,
            binding: self.binding,
            source_actor_id: optional_text(self.source_actor_id),
        }
    }
}

/// Why there is no mailbox to send to when the binding of `actor_id` shows
/// `state`, if there is none: an unbound actor is not running, unless the source
/// of the binding was dropped, which counts as termination.
pub open spec fn selection_problem<M>(
    actor_id: Seq<char>,
    state: BindingStateView<M>,
    source_dropped: bool,
) -> Option<SendErrorView> {
    match state {
        BindingStateView::Bound { .. } => None,
        BindingStateView::Unbound if !source_dropped => Some(
            SendErrorView::ActorNotRunning { actor_id },
        ),
        _ => Some(SendErrorView::ActorTerminated { actor_id }),
    }
}

/// A look at a binding: what it showed, whether its source was gone, and the
/// mailbox to send to on that account.
#[verifier::reject_recursive_types(M)]
pub struct Lookup<M> {
    pub seen: Seen<BindingState<M>>,
    pub source: SourceReading<BindingState<M>>,
    pub mailbox: Result<MailboxRef<M>, SendError>,
}

/// A send through a ref: what its binding showed, whether its source was gone,
/// the attempt to queue the message where a mailbox was found, and what all of
/// that means.
#[verifier::reject_recursive_types(M)]
pub struct RefSend<M> {
    pub seen: Seen<BindingState<M>>,
    pub source: SourceReading<BindingState<M>>,
    pub attempt: Option<SendAttempt<M>>,
    pub result: Result<(), SendError>,
}

impl<M> ActorRef<M> {
    /// A ref to the actor of `core`, held by `source_actor_id`.
    pub fn from_core(core: &BindingCore<M>, source_actor_id: Option<String>) -> (actor_ref: Self)
        ensures
            actor_ref@ == (ActorRefView {
                actor_id: core@.actor_id,
                binding: core@.binding,
                source_actor_id: optional_text(source_actor_id),
            }),
    {
        Self::from_parts(core.actor_id().to_owned(), core.subscribe(), source_actor_id)
    }

    /// A ref that reads the given binding.
    pub fn from_parts(
        actor_id: String,
        binding: watch::Receiver<BindingState<M>>,
        source_actor_id: Option<String>,
    ) -> (actor_ref: Self)
        ensures
            actor_ref@ == (ActorRefView {
                actor_id: actor_id@,
                binding,
                source_actor_id: optional_text(source_actor_id),
            }),
    {
        ActorRef { actor_id, binding, source_actor_id }
    }

    /// A ref whose binding source is gone already: every send fails as to a
    /// terminated actor.
    pub fn detached(actor_id: String) -> (actor_ref: Self)
        ensures
            actor_ref@.actor_id == actor_id@,
            actor_ref@.source_actor_id is None,
    {
        let core = BindingCore::<M>::new(actor_id);
        Self::from_core(&core, None)
    }

    /// Returns the target actor id.
    pub fn id(&self) -> (id: &str)
        ensures
            id@ == self@.actor_id,
    {
        self.actor_id.as_str()
    }

    /// Returns the reader of the binding, for waiting on its changes.
    pub fn binding(&self) -> (binding: &watch::Receiver<BindingState<M>>)
        ensures
            *binding == self@.binding,
    {
        &self.binding
    }

    /// The mailbox to send to right now.
    pub fn current_mailbox(&self) -> (lookup: Lookup<M>)
        ensures
            lookup.seen.reader() == self@.binding,
            lookup.source.reader() == self@.binding,
            match selection_problem(
                self@.actor_id,
                lookup.seen.content()@,
                lookup.source.found_dropped(),
            ) {
                Some(problem) => lookup.mailbox matches Err(error) && error@ == problem,
                None => lookup.mailbox matches Ok(mailbox) && BindingState::Bound(mailbox)@
                    == lookup.seen.content()@,
            },
    {
        let seen = watch_current(&self.binding);
        let source = watch_source_dropped(&self.binding);
        let mailbox = self.select_mailbox(seen.value().clone(), source.is_dropped());
        Lookup { seen, source, mailbox }
    }

    /// The mailbox to send to when the binding reads `state`: an unbound actor
    /// is not running, unless the source of the binding was dropped, which
    /// counts as termination.
    pub fn select_mailbox(&self, state: BindingState<M>, source_dropped: bool) -> (found: Result<
        MailboxRef<M>,
        SendError,
    >)
        ensures
            match state {
                BindingState::Bound(mailbox) => found == Ok::<MailboxRef<M>, SendError>(mailbox),
                _ => found matches Err(error) && Some(error@) == selection_problem(
                    self@.actor_id,
                    state@,
                    source_dropped,
                ),
            },
    {
        match state {
            BindingState::Bound(mailbox) => Ok(mailbox),
            BindingState::Unbound => if source_dropped {
                Err(self.actor_terminated())
            } else {
                Err(SendError::ActorNotRunning { actor_id: self.actor_id.clone() })
            },
            BindingState::Terminated => Err(self.actor_terminated()),
        }
    }

    fn actor_terminated(&self) -> (error: SendError)
        ensures
            error@ == (SendErrorView::ActorTerminated { actor_id: self@.actor_id }),
    {
        SendError::ActorTerminated { actor_id: self.actor_id.clone() }
    }

    /// Attempts to send a message without waiting for mailbox capacity.
    pub fn try_send(&self, message: M) -> (sending: RefSend<M>)
        ensures
            sending.seen.reader() == self@.binding,
            sending.source.reader() == self@.binding,
            match sending.seen.content() {
                BindingState::Bound(mailbox) => {
                    &&& sending.attempt matches Some(attempt)
                    &&& attempt.channel() == mailbox.channel()
                    &&& attempt.message() == message
                    &&& result_view(sending.result) == send_result(mailbox.owner(), attempt.found())
                },
                state => {
                    &&& sending.attempt is None
                    &&& sending.result matches Err(error)
                    &&& Some(error@) == selection_problem(
                        self@.actor_id,
                        state@,
                        sending.source.found_dropped(),
                    )
                },
            },
    {
        let Lookup { seen, source, mailbox } = self.current_mailbox();
        match mailbox {
            Ok(mailbox) => {
                let MailboxSend { attempt, result } = mailbox.try_send(message);
                RefSend { seen, source, attempt: Some(attempt), result }
            },
            Err(error) => RefSend { seen, source, attempt: None, result: Err(error) },
        }
    }

    /// Reports a send through this ref that ended with `result`.
    pub fn observe_send(
        &self,
        observability: &GraphObservability,
        operation: MessageOperation,
        duration: TimeSpan,
        result: &Result<(), SendError>,
    ) -> (emission: Emission)
        ensures
            emission@ == crate::observability::actor_message(
                observability@.graph_name,
                self@.source_actor_id,
                self@.actor_id,
                operation,
                duration,
                result_rejection(*result),
            ),
    {
        let rejection = match result {
            Ok(()) => None,
            Err(error) => Some(send_rejection(error)),
        };
        let source = match &self.source_actor_id {
            Some(source) => Some(source.as_str()),
            None => None,
        };
        observability.emit_actor_message(
            source,
            self.actor_id.as_str(),
            operation,
            duration,
            rejection,
        )
    }

    /// Starts a send that waits for a mailbox and for room in it.
    pub fn start_send(&self, message: M) -> (send: PendingSend<M>)
        ensures
            send@ == send_started(self@.actor_id, message),
    {
        PendingSend {
            actor_id: self.actor_id.clone(),
            phase: SendPhase::Seeking(message),
        }
    }
}

impl<M> Clone for ActorRef<M> {
    fn clone(&self) -> (clone: Self)
        ensures
            clone@ == self@,
    {
        let source_actor_id = match &self.source_actor_id {
            Some(source) => Some(source.clone()),
            None => None,
        };
        ActorRef {
            actor_id: self.actor_id.clone(),
            binding: watch_clone(&self.binding),
            source_actor_id,
        }
    }
}

// ---------------------------------------------------------------------------
// Waiting sends
// ---------------------------------------------------------------------------

#[verifier::reject_recursive_types(M)]
enum SendPhase<M> {
    /// Looking for a bound mailbox for the message.
    Seeking(M),
    /// The message is on its way into this mailbox.
    Delivering(MailboxRef<M>),
    /// This mailbox turned out to be closed: looking for another one for the
    /// message.
    Rebinding(MailboxRef<M>, M),
    /// The result is known.
    Finished,
}

/// A send that waits until its target has a mailbox with room, and starts over
/// where the mailbox closes under it.
///
/// It is driven by what the binding and the mailbox do: each
/// [`step`](Self::step) takes one event and says what to do next.
#[verifier::reject_recursive_types(M)]
pub struct PendingSend<M> {
    actor_id: String,
    phase: SendPhase<M>,
}

/// Where a [`PendingSend`] stands.
#[verifier::reject_recursive_types(M)]
pub enum SendPhaseView<M> {
    Seeking,
    Delivering(mpsc::Sender<M>),
    Rebinding(mpsc::Sender<M>),
    Finished,
}

/// What a [`PendingSend`] knows.
#[verifier::reject_recursive_types(M)]
pub struct PendingSendView<M> {
    pub actor_id: Seq<char>,
    pub message: Option<M>,
    pub phase: SendPhaseView<M>,
}

impl<M> View for PendingSend<M> {
    type V = PendingSendView<M>;

    closed spec fn view(&self) -> PendingSendView<M> {
        PendingSendView {
            actor_id: self.actor_id@,
            message: match self.phase {
                SendPhase::Seeking(message) => Some(message),
                SendPhase::Rebinding(_, message) => Some(message),
                _ => None,
            },
            phase: match self.phase {
                SendPhase::Seeking(_) => SendPhaseView::Seeking,
                SendPhase::Delivering(mailbox) => SendPhaseView::Delivering(mailbox.channel()),
                SendPhase::Rebinding(mailbox, _) => SendPhaseView::Rebinding(mailbox.channel()),
                SendPhase::Finished => SendPhaseView::Finished,
            },
        }
    }
}

/// Something that happened while a send was pending.
#[verifier::reject_recursive_types(M)]
pub enum SendEvent<M> {
    /// The binding was read.
    Binding(BindingState<M>),
    /// The binding can never change again.
    SourceDropped,
    /// The mailbox took the message.
    Delivered,
    /// The mailbox was closed and handed the message back.
    Returned(M),
}

/// What the driver of a send does next.
#[verifier::reject_recursive_types(M)]
pub enum SendAction<M> {
    /// Read the binding.
    ReadBinding,
    /// Wait until the binding changes, then read it.
    AwaitChange,
    /// Put the message into the mailbox, waiting for room.
    Deliver { mailbox: MailboxRef<M>, message: M },
    /// Nothing: this is the result.
    Finish(Result<(), SendError>),
}

/// One step of a pending send.
#[verifier::reject_recursive_types(M)]
pub struct SendStep<M> {
    /// A result to report to the observers of the graph.
    pub observe: Option<Result<(), SendError>>,
    /// What to do next.
    pub action: SendAction<M>,
}

/// What a [`SendAction`] says.
#[verifier::reject_recursive_types(M)]
pub enum SendActionView<M> {
    ReadBinding,
    AwaitChange,
    Deliver { channel: mpsc::Sender<M>, message: M },
    Finish(Result<(), SendErrorView>),
}

/// What a [`SendStep`] says.
#[verifier::reject_recursive_types(M)]
pub struct SendStepView<M> {
    pub observe: Option<Result<(), SendErrorView>>,
    pub action: SendActionView<M>,
}

/// The result of a send, with its error by what it says.
pub open spec fn result_view(result: Result<(), SendError>) -> Result<(), SendErrorView> {
    match result {
        Ok(_) => Ok(()),
        Err(error) => Err(error@),
    }
}

impl<M> View for SendStep<M> {
    type V = SendStepView<M>;

    open spec fn view(&self) -> SendStepView<M> {
        SendStepView {
            observe: match self.observe {
                Some(result) => Some(result_view(result)),
                None => None,
            },
            action: match self.action {
                SendAction::ReadBinding => SendActionView::ReadBinding,
                SendAction::AwaitChange => SendActionView::AwaitChange,
                SendAction::Deliver { mailbox, message } => SendActionView::Deliver {
                    channel: mailbox.channel(),
                    message,
                },
                SendAction::Finish(result) => SendActionView::Finish(result_view(result)),
            },
        }
    }
}

/// A send that has just been started.
pub open spec fn send_started<M>(actor_id: Seq<char>, message: M) -> PendingSendView<M> {
    PendingSendView { actor_id, message: Some(message), phase: SendPhaseView::Seeking }
}

/// Whether a pending send holds its message exactly while it is not handed
/// out, and nothing once it is finished.
pub open spec fn send_is_consistent<M>(send: PendingSendView<M>) -> bool {
    match send.phase {
        SendPhaseView::Seeking | SendPhaseView::Rebinding(_) => send.message is Some,
        SendPhaseView::Delivering(_) | SendPhaseView::Finished => send.message is None,
    }
}

/// Whether the event can happen to a send in this phase.
pub open spec fn send_expects<M>(send: PendingSendView<M>, event: SendEvent<M>) -> bool {
    match send.phase {
        SendPhaseView::Seeking | SendPhaseView::Rebinding(_) => event is Binding
            || event is SourceDropped,
        SendPhaseView::Delivering(_) => event is Delivered || event is Returned,
        SendPhaseView::Finished => false,
    }
}

/// The end of a send whose target is gone. While it was still looking for its
/// first mailbox, that end is reported to the observers.
pub open spec fn send_abandoned<M>(send: PendingSendView<M>) -> (
    PendingSendView<M>,
    SendStepView<M>,
) {
    let result = Err(SendErrorView::ActorTerminated { actor_id: send.actor_id });
    (
        PendingSendView { message: None, phase: SendPhaseView::Finished, ..send },
        SendStepView {
            observe: if send.phase is Seeking {
                Some(result)
            } else {
                None
            },
            action: SendActionView::Finish(result),
        },
    )
}

/// What a pending send becomes, and what it asks for, when an event happens.
pub open spec fn send_next<M>(send: PendingSendView<M>, event: SendEvent<M>) -> (
    PendingSendView<M>,
    SendStepView<M>,
) {
    match (send.phase, event) {
        (SendPhaseView::Seeking, SendEvent::Binding(BindingState::Bound(mailbox))) => (
            PendingSendView {
                message: None,
                phase: SendPhaseView::Delivering(mailbox.channel()),
                ..send
            },
            SendStepView {
                observe: None,
                action: SendActionView::Deliver {
                    channel: mailbox.channel(),
                    message: send.message.unwrap(),
                },
            },
        ),
        (
            SendPhaseView::Rebinding(stale),
            SendEvent::Binding(BindingState::Bound(mailbox)),
        ) => if mailbox.channel() == stale {
            (send, SendStepView { observe: None, action: SendActionView::AwaitChange })
        } else {
            (
                PendingSendView { phase: SendPhaseView::Seeking, ..send },
                SendStepView { observe: None, action: SendActionView::ReadBinding },
            )
        },
        (_, SendEvent::Binding(BindingState::Unbound)) => (
            send,
            SendStepView { observe: None, action: SendActionView::AwaitChange },
        ),
        (SendPhaseView::Delivering(_), SendEvent::Delivered) => (
            PendingSendView { phase: SendPhaseView::Finished, ..send },
            SendStepView { observe: Some(Ok(())), action: SendActionView::Finish(Ok(())) },
        ),
        (SendPhaseView::Delivering(channel), SendEvent::Returned(message)) => (
            PendingSendView {
                message: Some(message),
                phase: SendPhaseView::Rebinding(channel),
                ..send
            },
            SendStepView {
                observe: Some(Err(SendErrorView::MailboxClosed { actor_id: send.actor_id })),
                action: SendActionView::ReadBinding,
            },
        ),
        _ => send_abandoned(send),
    }
}

impl<M> PendingSend<M> {
    fn abandoned(&self, observed: bool) -> (step: SendStep<M>)
        ensures
            step@ == (SendStepView {
                observe: if observed {
                    Some(Err(SendErrorView::ActorTerminated { actor_id: self@.actor_id }))
                } else {
                    None
                },
                action: SendActionView::<M>::Finish(
                    Err(SendErrorView::ActorTerminated { actor_id: self@.actor_id }),
                ),
            }),
    {
        let error = SendError::ActorTerminated { actor_id: self.actor_id.clone() };
        let observe = if observed {
            Some(Err(SendError::ActorTerminated { actor_id: self.actor_id.clone() }))
        } else {
            None
        };
        SendStep { observe, action: SendAction::Finish(Err(error)) }
    }

    /// Takes one event and says what to do next.
    pub fn step(&mut self, event: SendEvent<M>) -> (step: SendStep<M>)
        requires
            send_expects(old(self)@, event),
        ensures
            send_is_consistent(final(self)@),
            (final(self)@, step@) == send_next(old(self)@, event),
    {
        let mut phase = SendPhase::Finished;
        std::mem::swap(&mut phase, &mut self.phase);
        match phase {
            SendPhase::Seeking(message) => match event {
                SendEvent::Binding(BindingState::Bound(mailbox)) => {
                    self.phase = SendPhase::Delivering(mailbox.clone());
                    SendStep { observe: None, action: SendAction::Deliver { mailbox, message } }
                },
                SendEvent::Binding(BindingState::Unbound) => {
                    self.phase = SendPhase::Seeking(message);
                    SendStep { observe: None, action: SendAction::AwaitChange }
                },
                _ => self.abandoned(true),
            },
            SendPhase::Rebinding(stale, message) => match event {
                SendEvent::Binding(BindingState::Bound(mailbox)) => {
                    if mailbox.same_channel(&stale) {
                        self.phase = SendPhase::Rebinding(stale, message);
                        SendStep { observe: None, action: SendAction::AwaitChange }
                    } else {
                        self.phase = SendPhase::Seeking(message);
                        SendStep { observe: None, action: SendAction::ReadBinding }
                    }
                },
                SendEvent::Binding(BindingState::Unbound) => {
                    self.phase = SendPhase::Rebinding(stale, message);
                    SendStep { observe: None, action: SendAction::AwaitChange }
                },
                _ => self.abandoned(false),
            },
            SendPhase::Delivering(mailbox) => match event {
                SendEvent::Returned(message) => {
                    self.phase = SendPhase::Rebinding(mailbox, message);
                    SendStep {
                        observe: Some(
                            Err(SendError::MailboxClosed { actor_id: self.actor_id.clone() }),
                        ),
                        action: SendAction::ReadBinding,
                    }
                },
                _ => SendStep { observe: Some(Ok(())), action: SendAction::Finish(Ok(())) },
            },
            SendPhase::Finished => self.abandoned(false),
        }
    }
}

/// A pending send that ends, ends well exactly when a mailbox took the
/// message, and otherwise because its target has terminated: a mailbox that
/// closes, is stale or is missing for a while never ends it.
pub proof fn send_fails_only_on_termination<M>(send: PendingSendView<M>, event: SendEvent<M>)
    requires
        send_is_consistent(send),
        send_expects(send, event),
        send_next(send, event).1.action is Finish,
    ensures
        send_next(send, event).1.action->Finish_0 is Ok <==> event is Delivered,
        send_next(send, event).1.action->Finish_0 is Err ==> {
            &&& event is SourceDropped || event == SendEvent::<M>::Binding(
                BindingState::Terminated,
            )
            &&& send_next(send, event).1.action->Finish_0->Err_0 == (
            SendErrorView::ActorTerminated { actor_id: send.actor_id })
        },
{
}

/// A pending send never loses its message: until it finishes, the message is
/// either kept or handed out for delivery, and one that comes back is kept.
pub proof fn send_keeps_its_message<M>(send: PendingSendView<M>, event: SendEvent<M>)
    requires
        send_is_consistent(send),
        send_expects(send, event),
        !(send_next(send, event).1.action is Finish),
    ensures
        match send_next(send, event).1.action {
            SendActionView::Deliver { channel, message } => Some(message) == send.message,
            _ => send_next(send, event).0.message == (match event {
                SendEvent::Returned(message) => Some(message),
                _ => send.message,
            }),
        },
        send_is_consistent(send_next(send, event).0),
{
}

/// The send after a sequence of events.
pub open spec fn send_after<M>(
    send: PendingSendView<M>,
    events: Seq<SendEvent<M>>,
) -> PendingSendView<M>
    decreases events.len(),
{
    if events.len() == 0 {
        send
    } else {
        send_next(send_after(send, events.drop_last()), events.last()).0
    }
}

/// Whether each of the events can happen when its turn comes.
pub open spec fn send_allows<M>(send: PendingSendView<M>, events: Seq<SendEvent<M>>) -> bool
    decreases events.len(),
{
    if events.len() == 0 {
        true
    } else {
        send_allows(send, events.drop_last()) && send_expects(
            send_after(send, events.drop_last()),
            events.last(),
        )
    }
}

/// What the send asks for after the event at `index`.
pub open spec fn asked_at<M>(
    send: PendingSendView<M>,
    events: Seq<SendEvent<M>>,
    index: int,
) -> SendActionView<M> {
    send_next(send_after(send, events.take(index)), events[index]).1.action
}

/// Whether the event is part of an ordinary restart: the target does not
/// terminate, and a mailbox that closes hands back the message it was given.
pub open spec fn is_restart_event<M>(event: SendEvent<M>, message: M) -> bool {
    match event {
        SendEvent::Binding(state) => !(state is Terminated),
        SendEvent::SourceDropped => false,
        SendEvent::Delivered => true,
        SendEvent::Returned(returned) => returned == message,
    }
}

/// A send rides through restarts. However often mailboxes close and are bound
/// again, it ends only when a mailbox took the message, every mailbox is given
/// that same message, and between deliveries the send holds on to it.
pub proof fn sends_ride_through_restarts<M>(
    actor_id: Seq<char>,
    message: M,
    events: Seq<SendEvent<M>>,
)
    requires
        send_allows(send_started(actor_id, message), events),
        forall|i: int| 0 <= i < events.len() ==> is_restart_event(#[trigger] events[i], message),
    ensures
        ({
            let send = send_after(send_started(actor_id, message), events);
            &&& send_is_consistent(send)
            &&& send.phase is Finished ==> events.len() > 0 && events.last() is Delivered
            &&& send.phase is Seeking || send.phase is Rebinding ==> send.message == Some(message)
        }),
        forall|i: int|
            0 <= i < events.len() ==> match #[trigger] asked_at(
                send_started(actor_id, message),
                events,
                i,
            ) {
                SendActionView::Deliver { message: handed, .. } => handed == message,
                SendActionView::Finish(result) => result is Ok,
                _ => true,
            },
    decreases events.len(),
{
    let start = send_started(actor_id, message);
    if events.len() > 0 {
        let rest = events.drop_last();
        assert forall|i: int| 0 <= i < rest.len() implies is_restart_event(
            #[trigger] rest[i],
            message,
        ) by {
            assert(rest[i] == events[i]);
        }
        sends_ride_through_restarts(actor_id, message, rest);
        let last = events.len() - 1;
        assert(events.take(last) =~= rest);
        assert(is_restart_event(events[last], message));
        assert forall|i: int| 0 <= i < events.len() implies match #[trigger] asked_at(
            start,
            events,
            i,
        ) {
            SendActionView::Deliver { message: handed, .. } => handed == message,
            SendActionView::Finish(result) => result is Ok,
            _ => true,
        } by {
            if i < last {
                assert(rest.take(i) =~= events.take(i));
                assert(asked_at(start, rest, i) == asked_at(start, events, i));
            }
        }
    }
}

// ---------------------------------------------------------------------------
// Replies
// ---------------------------------------------------------------------------

/// One-shot reply channel carried inside a request message.
///
/// Dropping a `Reply` without sending makes the caller's request fail as
/// dropped.
#[verifier::reject_recursive_types(T)]
pub struct Reply<T> {
    sender: oneshot::Sender<T>,
}

impl<T> Reply<T> {
    /// The channel that the reply goes through.
    pub closed spec fn channel(self) -> oneshot::Sender<T> {
        self.sender
    }

    /// A reply through the given channel.
    pub fn new(sender: oneshot::Sender<T>) -> (reply: Self)
        ensures
            reply.channel() == sender,
    {
        Reply { sender }
    }

    /// Sends the reply to the caller.
    ///
    /// If the caller has gone away the value is dropped silently.
    pub fn send(self, value: T) -> (sent: Replied<T>)
        ensures
            sent.channel() == self.channel(),
            sent.value() == value,
    {
        oneshot_send(self.sender, value)
    }
}

// ---------------------------------------------------------------------------
// Actor contexts
// ---------------------------------------------------------------------------

/// What ended a wait for the next message.
pub enum ReceiveEvent<M> {
    /// Shutdown was requested.
    Shutdown,
    /// The mailbox gave its next message, or has none and is closed.
    Mailbox(Option<M>),
}

/// Runtime context passed to an actor each time it is run: its mailbox, a ref
/// to itself and its shutdown token.
#[verifier::reject_recursive_types(M)]
pub struct ActorContext<M> {
    id: String,
    mailbox: Inlet<M>,
    myself: ActorRef<M>,
    shutdown: CancellationToken,
}

impl<M> ActorContext<M> {
    /// The actor that runs in this context.
    pub closed spec fn actor_id(self) -> Seq<char> {
        self.id@
    }

    /// The ref that leads back to the actor.
    pub closed spec fn own_ref(self) -> ActorRefView<M> {
        self.myself@
    }

    /// The token that asks the actor to stop.
    pub closed spec fn token(self) -> CancellationToken {
        self.shutdown
    }

    /// The mailbox that the actor reads.
    pub closed spec fn inlet(self) -> Inlet<M> {
        self.mailbox
    }

    /// The context of a run that reads `mailbox`.
    pub fn new(
        id: String,
        mailbox: Inlet<M>,
        myself: ActorRef<M>,
        shutdown: CancellationToken,
    ) -> (context: Self)
        ensures
            context.actor_id() == id@,
            context.own_ref() == myself@,
            context.token() == shutdown,
            context.inlet() == mailbox,
    {
        ActorContext { id, mailbox, myself, shutdown }
    }

    /// Returns the actor's unique identifier within the graph.
    pub fn id(&self) -> (id: &str)
        ensures
            id@ == self.actor_id(),
    {
        self.id.as_str()
    }

    /// Returns the shared graph shutdown token.
    pub fn shutdown_token(&self) -> (token: &CancellationToken)
        ensures
            *token == self.token(),
    {
        &self.shutdown
    }

    /// Looks whether graph shutdown has been requested by now.
    pub fn is_shutting_down(&self) -> (reading: TokenReading)
        ensures
            reading.of() == self.token(),
    {
        token_is_cancelled(&self.shutdown)
    }

    /// A token for work that the actor starts: cancelled with the actor's own,
    /// while its own cancellation leaves the actor running.
    pub fn child_token(&self) -> (child: CancellationToken)
        ensures
            crate::sync::parent_token(child) == self.token(),
    {
        token_child(&self.shutdown)
    }

    /// Returns a sender targeting this actor's own mailbox.
    pub fn myself(&self) -> (myself: ActorRef<M>)
        ensures
            myself@ == self.own_ref(),
    {
        self.myself.clone()
    }

    /// Returns the mailbox, for waiting on its next message.
    pub fn mailbox(&mut self) -> (mailbox: &mut mpsc::Receiver<M>)
        ensures
            final(self).actor_id() == old(self).actor_id(),
            final(self).own_ref() == old(self).own_ref(),
            final(self).token() == old(self).token(),
            *mailbox == old(self).inlet().queue(),
            final(self).inlet().queue() == *final(mailbox),
            *final(mailbox) == *mailbox ==> final(self).inlet() == old(self).inlet(),
    {
        self.mailbox.receiver()
    }

    /// Turns away further sends. Queued messages can still be received.
    pub fn close_mailbox(&mut self)
        ensures
            final(self).actor_id() == old(self).actor_id(),
            final(self).own_ref() == old(self).own_ref(),
            final(self).token() == old(self).token(),
            final(self).inlet().is_closed(),
            final(self).inlet().queue() == old(self).inlet().queue(),
            final(self).inlet().fed_by() == old(self).inlet().fed_by(),
    {
        mpsc_close(&mut self.mailbox);
    }

    /// What a wait for the next message yields. Shutdown yields nothing, even
    /// where messages are still queued. A message that was taken is reported.
    pub fn received(&self, event: ReceiveEvent<M>, observability: &GraphObservability) -> (outcome:
        (Option<M>, Option<Emission>))
        ensures
            match event {
                ReceiveEvent::Mailbox(Some(message)) => {
                    &&& outcome.0 == Some(message)
                    &&& outcome.1 matches Some(emission)
                    &&& emission@ == crate::observability::message_received(
                        observability@.graph_name,
                        self.actor_id(),
                    )
                },
                _ => outcome.0 is None && outcome.1 is None,
            },
    {
        match event {
            ReceiveEvent::Mailbox(Some(message)) => (
                Some(message),
                Some(observability.emit_message_received(self.id.as_str())),
            ),
            _ => (None, None),
        }
    }

    /// Attempts to receive a queued message without waiting and without
    /// consulting the shutdown token. A message that was taken is reported.
    pub fn try_recv(&mut self, observability: &GraphObservability) -> (outcome: (
        Taken<M>,
        Option<Emission>,
    ))
        ensures
            final(self).actor_id() == old(self).actor_id(),
            final(self).own_ref() == old(self).own_ref(),
            final(self).token() == old(self).token(),
            final(self).inlet() == old(self).inlet(),
            outcome.0.queue() == old(self).inlet().queue(),
            match outcome.0.found() {
                TryReceive::Message(_) => {
                    &&& outcome.1 matches Some(emission)
                    &&& emission@ == crate::observability::message_received(
                        observability@.graph_name,
                        old(self).actor_id(),
                    )
                },
                _ => outcome.1 is None,
            },
    {
        let taken = mpsc_try_recv(&mut self.mailbox);
        let emission = match taken.outcome() {
            TryReceive::Message(_) => {
                Some(observability.emit_message_received(self.id.as_str()))
            },
            _ => None,
        };
        (taken, emission)
    }
}

// ---------------------------------------------------------------------------
// What follows
// ---------------------------------------------------------------------------

/// A rejected send is reported for what its error says, and an accepted one
/// for nothing.
pub proof fn rejections_follow_the_error(error: SendError, result: Result<(), SendError>)
    ensures
        rejection_of(error@) == SendRejection::NotRunning <==> error@ is ActorNotRunning,
        rejection_of(error@) == SendRejection::ActorTerminated <==> error@ is ActorTerminated,
        rejection_of(error@) == SendRejection::MailboxFull <==> error@ is MailboxFull,
        rejection_of(error@) == SendRejection::MailboxClosed <==> error@ is MailboxClosed,
        result_rejection(result) is None <==> result is Ok,
        result_rejection(Err(error)) == Some(rejection_of(error@)),
{
}

/// There is a mailbox to send to exactly where one is bound. Otherwise the
/// error names the actor: it may run again only where its binding is unbound
/// and can still change.
pub proof fn mailboxes_are_found_while_bound<M>(
    actor_id: Seq<char>,
    state: BindingStateView<M>,
    source_dropped: bool,
)
    ensures
        selection_problem(actor_id, state, source_dropped) is None <==> state is Bound,
        selection_problem(actor_id, state, source_dropped) == Some(
            SendErrorView::ActorNotRunning { actor_id },
        ) <==> state is Unbound && !source_dropped,
        selection_problem(actor_id, state, source_dropped) == Some(
            SendErrorView::ActorTerminated { actor_id },
        ) <==> state is Terminated || (state is Unbound && source_dropped),
{
}

/// A send that is looking for a mailbox, be it its first or another one after
/// a mailbox closed, ends as soon as the binding reads terminated or can never
/// change again: it fails with the termination of its target.
pub proof fn sends_end_when_their_target_terminates<M>(
    send: PendingSendView<M>,
    event: SendEvent<M>,
)
    requires
        send.phase is Seeking || send.phase is Rebinding,
        event is SourceDropped || (event matches SendEvent::Binding(state) && state is Terminated),
    ensures
        send_next(send, event).1.action == SendActionView::<M>::Finish(
            Err(SendErrorView::ActorTerminated { actor_id: send.actor_id }),
        ),
        send_next(send, event).0.phase is Finished,
        send_next(send, event).0.message is None,
{
}

/// A send that has no stale mailbox to get past goes to the mailbox that the
/// binding shows, with its own message. One that has waits for another mailbox
/// and then looks again; an unbound target is waited for.
pub proof fn sends_go_to_the_bound_mailbox<M>(send: PendingSendView<M>, mailbox: MailboxRef<M>)
    requires
        send.message is Some,
    ensures
        ({
            let (after, step) = send_next(
                send,
                SendEvent::Binding(BindingState::Bound(mailbox)),
            );
            &&& send.phase is Seeking ==> step.action == (SendActionView::Deliver {
                channel: mailbox.channel(),
                message: send.message.unwrap(),
            }) && after.phase == SendPhaseView::Delivering(mailbox.channel())
            &&& send.phase matches SendPhaseView::Rebinding(stale) ==> if stale
                == mailbox.channel() {
                step.action is AwaitChange && after == send
            } else {
                step.action is ReadBinding && after.phase is Seeking && after.message
                    == send.message
            }
            &&& send.phase is Seeking || send.phase is Rebinding ==> step.observe is None
                && after.actor_id == send.actor_id
        }),
        send.phase is Seeking || send.phase is Rebinding ==> ({
            let (after, step) = send_next(send, SendEvent::Binding(BindingState::Unbound));
            step.action is AwaitChange && after == send && step.observe is None
        }),
{
}

/// A delivery ends the send when the mailbox took the message. When the mailbox
/// hands it back, the send looks for another mailbox than that one, with the
/// message in hand.
pub proof fn deliveries_end_or_start_over<M>(
    send: PendingSendView<M>,
    channel: mpsc::Sender<M>,
    message: M,
)
    requires
        send.phase == SendPhaseView::Delivering(channel),
    ensures
        ({
            let (after, step) = send_next(send, SendEvent::Delivered);
            &&& step.action == SendActionView::<M>::Finish(Ok(()))
            &&& step.observe == Some(Ok::<(), SendErrorView>(()))
            &&& after.phase is Finished
        }),
        ({
            let (after, step) = send_next(send, SendEvent::Returned(message));
            &&& step.action is ReadBinding
            &&& step.observe == Some(
                Err::<(), SendErrorView>(
                    SendErrorView::MailboxClosed { actor_id: send.actor_id },
                ),
            )
            &&& after.phase == SendPhaseView::Rebinding(channel)
            &&& after.message == Some(message)
            &&& after.actor_id == send.actor_id
        }),
{
}

/// Observers see how each delivery ended, and the end of a send that never got
/// to a delivery; nothing else of a send is observed.
pub proof fn observers_see_each_delivery<M>(send: PendingSendView<M>, event: SendEvent<M>)
    requires
        send_expects(send, event),
    ensures
        send_next(send, event).1.observe is Some <==> send.phase is Delivering || (
        send.phase is Seeking && send_next(send, event).1.action is Finish),
        match (send_next(send, event).1.observe, send_next(send, event).1.action) {
            (Some(observed), SendActionView::Finish(result)) => observed == result,
            _ => true,
        },
{
}

/// Events can come whenever they make sense: the binding can be read or lose
/// its source while a mailbox is looked for, and a delivery can end either way.
pub proof fn sends_take_what_can_happen<M>(
    send: PendingSendView<M>,
    state: BindingState<M>,
    message: M,
)
    ensures
        send.phase is Seeking || send.phase is Rebinding ==> send_expects(
            send,
            SendEvent::Binding(state),
        ) && send_expects(send, SendEvent::SourceDropped),
        send.phase is Delivering ==> send_expects(send, SendEvent::Delivered) && send_expects(
            send,
            SendEvent::Returned(message),
        ),
        send_started(send.actor_id, message).phase is Seeking,
        send_started(send.actor_id, message).message == Some(message),
        send_started(send.actor_id, message).actor_id == send.actor_id,
{
}

/// A send whose mailbox closed and whose target is then bound anew delivers the
/// same message to the new mailbox.
pub proof fn sends_follow_a_rebound_target<M>(
    send: PendingSendView<M>,
    stale: mpsc::Sender<M>,
    message: M,
    fresh: MailboxRef<M>,
)
    requires
        send.phase == SendPhaseView::Delivering(stale),
        fresh.channel() != stale,
    ensures
        ({
            let returned = send_next(send, SendEvent::Returned(message)).0;
            let bound = SendEvent::Binding(BindingState::Bound(fresh));
            let seeking = send_next(returned, bound).0;
            send_next(seeking, bound).1.action == (SendActionView::Deliver {
                channel: fresh.channel(),
                message,
            })
        }),
{
}

/// An optional text and the result of a send show what they hold.
pub proof fn optional_values_show_what_they_hold(text: String, error: SendError)
    ensures
        optional_text(Some(text)) == Some(text@),
        optional_text(None) is None,
        result_view(Ok(())) == Ok::<(), SendErrorView>(()),
        result_view(Err(error)) == Err::<(), SendErrorView>(error@),
{
}

/// A message is handed to the mailbox that the binding shows, and to none other;
/// its result is what that mailbox did. Without a mailbox nothing is handed over:
/// the target terminated, or its binding can never change again, or it is not
/// running at present.
pub proof fn refs_send_to_what_they_see<M>(
    actor_ref: &ActorRef<M>,
    message: M,
    sending: RefSend<M>,
)
    requires
        call_ensures(ActorRef::<M>::try_send, (actor_ref, message), sending),
    ensures
        sending.attempt is Some <==> sending.seen.content() is Bound,
        sending.seen.content() matches BindingState::Bound(mailbox) ==> {
            &&& sending.attempt.unwrap().channel() == mailbox.channel()
            &&& sending.attempt.unwrap().message() == message
            &&& sending.result is Ok <==> sending.attempt.unwrap().found() is Sent
            &&& sending.attempt.unwrap().found() is Full ==> sending.result->Err_0@
                == (SendErrorView::MailboxFull { actor_id: mailbox.owner() })
            &&& sending.attempt.unwrap().found() is Closed ==> sending.result->Err_0@
                == (SendErrorView::MailboxClosed { actor_id: mailbox.owner() })
        },
        !(sending.seen.content() is Bound) ==> {
            let gone = sending.seen.content() is Terminated || sending.source.found_dropped();
            &&& sending.result is Err
            &&& gone ==> sending.result->Err_0@ == (SendErrorView::ActorTerminated {
                actor_id: actor_ref@.actor_id,
            })
            &&& !gone ==> sending.result->Err_0@ == (SendErrorView::ActorNotRunning {
                actor_id: actor_ref@.actor_id,
            })
        },
{
    mailboxes_are_found_while_bound(
        actor_ref@.actor_id,
        sending.seen.content()@,
        sending.source.found_dropped(),
    );
    if let BindingState::Bound(mailbox) = sending.seen.content() {
        crate::binding::sends_report_what_the_mailbox_did(
            mailbox.owner(),
            sending.attempt.unwrap().found(),
        );
    }
}

/// A mailbox is selected exactly where the binding shows one, and it is that one.
pub proof fn bound_mailboxes_are_selected<M>(
    actor_ref: &ActorRef<M>,
    state: BindingState<M>,
    source_dropped: bool,
    found: Result<MailboxRef<M>, SendError>,
)
    requires
        call_ensures(ActorRef::<M>::select_mailbox, (actor_ref, state, source_dropped), found),
    ensures
        found is Ok <==> state is Bound,
        found is Ok ==> state == BindingState::Bound(found->Ok_0),
        found is Err && (state is Terminated || source_dropped) ==> found->Err_0@
            == (SendErrorView::ActorTerminated { actor_id: actor_ref@.actor_id }),
        found is Err && state is Unbound && !source_dropped ==> found->Err_0@
            == (SendErrorView::ActorNotRunning { actor_id: actor_ref@.actor_id }),
{
    mailboxes_are_found_while_bound(actor_ref@.actor_id, state@, source_dropped);
}

/// A started send that meets a terminated target, or whose source is gone, ends
/// with `ActorTerminated`, be it at its first reading of the binding or at one
/// after a mailbox closed.
pub proof fn steps_end_when_the_target_terminates<M>(
    send: &mut PendingSend<M>,
    event: SendEvent<M>,
    step: SendStep<M>,
)
    requires
        old(send)@.phase is Seeking || old(send)@.phase is Rebinding,
        event is SourceDropped || (event matches SendEvent::Binding(state) && state is Terminated),
        call_ensures(PendingSend::<M>::step, (send, event), step),
    ensures
        step@.action == SendActionView::<M>::Finish(
            Err(SendErrorView::ActorTerminated { actor_id: old(send)@.actor_id }),
        ),
        final(send)@.phase is Finished,
        step@.observe is Some <==> old(send)@.phase is Seeking,
{
    sends_end_when_their_target_terminates(old(send)@, event);
    observers_see_each_delivery(old(send)@, event);
}

/// A send keeps its message until it ends: whatever mailbox it is handed to gets
/// the message that the send was started with, or that came back last.
pub proof fn steps_keep_the_message<M>(
    send: &mut PendingSend<M>,
    event: SendEvent<M>,
    step: SendStep<M>,
)
    requires
        send_expects(old(send)@, event),
        send_is_consistent(old(send)@),
        call_ensures(PendingSend::<M>::step, (send, event), step),
    ensures
        final(send)@.actor_id == old(send)@.actor_id,
        step@.action matches SendActionView::Deliver { channel, message } ==> {
            &&& Some(message) == old(send)@.message
            &&& event matches SendEvent::Binding(BindingState::Bound(mailbox)) && mailbox.channel()
                == channel
            &&& old(send)@.phase is Seeking
        },
        step@.action is ReadBinding || step@.action is AwaitChange ==> final(send)@.message is Some
            && (event matches SendEvent::Returned(message) ==> final(send)@.message == Some(
            message,
        )) && (!(event is Returned) ==> final(send)@.message == old(send)@.message),
        step@.action matches SendActionView::Finish(result) ==> (result is Ok
            <==> event is Delivered),
        event is Delivered ==> step@.action is Finish,
{
}

/// What was received is what the mailbox gave; shutdown and a closed mailbox give
/// nothing. Each message received is counted, and nothing else is.
pub proof fn received_messages_are_counted<M>(
    context: &ActorContext<M>,
    event: ReceiveEvent<M>,
    observability: &GraphObservability,
    outcome: (Option<M>, Option<Emission>),
)
    requires
        call_ensures(ActorContext::<M>::received, (context, event, observability), outcome),
    ensures
        event matches ReceiveEvent::Mailbox(message) ==> outcome.0 == message,
        event is Shutdown ==> outcome.0 is None,
        outcome.1 is Some <==> outcome.0 is Some,
        outcome.1 matches Some(emission) ==> emission@ == crate::observability::message_received(
            observability@.graph_name,
            context.actor_id(),
        ),
{
}

/// A send has its message while it is looking for a mailbox, and has given it
/// away while one is taking it and once it ended.
pub proof fn pending_sends_hold_their_message<M>(
    send: &mut PendingSend<M>,
    event: SendEvent<M>,
    step: SendStep<M>,
)
    requires
        call_ensures(PendingSend::<M>::step, (send, event), step),
    ensures
        final(send)@.message is Some <==> final(send)@.phase is Seeking
            || final(send)@.phase is Rebinding,
        final(send)@.message is None <==> final(send)@.phase is Delivering
            || final(send)@.phase is Finished,
{
}

/// A ref to a binding's actor has the actor's id and reads that binding, so that
/// what the binding shows is what the ref finds; its sends start with the message
/// and name its target.
pub proof fn refs_read_the_binding_they_came_from<M>(
    core: &BindingCore<M>,
    source: Option<String>,
    actor_ref: ActorRef<M>,
    id: &str,
    binding: &watch::Receiver<BindingState<M>>,
    reader: watch::Receiver<BindingState<M>>,
    lookup: Lookup<M>,
    message: M,
    send: PendingSend<M>,
)
    requires
        call_ensures(ActorRef::<M>::from_core, (core, source), actor_ref),
        call_ensures(ActorRef::<M>::id, (&actor_ref,), id),
        call_ensures(ActorRef::<M>::binding, (&actor_ref,), binding),
        call_ensures(BindingCore::<M>::subscribe, (core,), reader),
        call_ensures(ActorRef::<M>::current_mailbox, (&actor_ref,), lookup),
        call_ensures(ActorRef::<M>::start_send, (&actor_ref, message), send),
    ensures
        id@ == core@.actor_id,
        *binding == reader,
        lookup.seen.reader() == reader,
        lookup.mailbox is Ok <==> lookup.seen.content() is Bound,
        lookup.mailbox is Ok ==> BindingState::Bound(lookup.mailbox->Ok_0)@
            == lookup.seen.content()@,
        actor_ref@.source_actor_id is Some <==> source is Some,
        source is Some ==> actor_ref@.source_actor_id == Some(source.unwrap()@),
        send@.actor_id == core@.actor_id,
        send@.message == Some(message),
        send@.phase is Seeking,
{
    mailboxes_are_found_while_bound(
        actor_ref@.actor_id,
        lookup.seen.content()@,
        lookup.source.found_dropped(),
    );
}

/// A send is observed from the ref's holder to its target, as rejected exactly
/// where it failed, and for the reason of its error.
pub proof fn observed_sends_name_both_ends<M>(
    actor_ref: &ActorRef<M>,
    observability: &GraphObservability,
    operation: MessageOperation,
    duration: TimeSpan,
    result: Result<(), SendError>,
    emission: Emission,
)
    requires
        call_ensures(
            ActorRef::<M>::observe_send,
            (actor_ref, observability, operation, duration, &result),
            emission,
        ),
    ensures
        emission@.log.message == (if result is Ok {
            "message sent"@
        } else {
            "message rejected"@
        }),
        emission@.metrics.len() == 2,
        emission@.metrics[0].name == (if result is Ok {
            "actor_graph.messages.sent"@
        } else {
            "actor_graph.messages.rejected"@
        }),
        emission@.metrics[0].labels[0] == ("graph"@, observability@.graph_name),
        emission@.metrics[0].labels[1] == ("actor_id"@, actor_ref@.actor_id),
        result is Err ==> emission@.metrics[0].labels[3] == (
            "reason"@,
            match result->Err_0@ {
                SendErrorView::ActorNotRunning { .. } => "not_running"@,
                SendErrorView::ActorTerminated { .. } => "actor_terminated"@,
                SendErrorView::MailboxFull { .. } => "mailbox_full"@,
                SendErrorView::MailboxClosed { .. } => "mailbox_closed"@,
            },
        ),
        emission@.metrics[1].action == crate::observability::MetricAction::Record(duration),
        emission@.metrics[1].labels[1] == (
            "source"@,
            if actor_ref@.source_actor_id is Some {
                "actor"@
            } else {
                "external"@
            },
        ),
{
    crate::observability::sends_are_counted_and_timed(
        observability@.graph_name,
        actor_ref@.source_actor_id,
        actor_ref@.actor_id,
        operation,
        duration,
        result_rejection(result),
    );
    if let Err(error) = result {
        rejections_follow_the_error(error, result);
    }
}

/// A context gives back what it was made with, and a reply is sent through the
/// channel that it was made with.
pub proof fn actor_contexts_hold_their_parts<M, T>(
    id: String,
    inlet: Inlet<M>,
    myself: ActorRef<M>,
    shutdown: CancellationToken,
    context: ActorContext<M>,
    shown: &str,
    own: ActorRef<M>,
    token: &CancellationToken,
    reading: TokenReading,
    child: CancellationToken,
    sender: oneshot::Sender<T>,
    reply: Reply<T>,
    value: T,
    sent: Replied<T>,
)
    requires
        call_ensures(ActorContext::<M>::new, (id, inlet, myself, shutdown), context),
        call_ensures(ActorContext::<M>::id, (&context,), shown),
        call_ensures(ActorContext::<M>::myself, (&context,), own),
        call_ensures(ActorContext::<M>::shutdown_token, (&context,), token),
        call_ensures(ActorContext::<M>::is_shutting_down, (&context,), reading),
        call_ensures(ActorContext::<M>::child_token, (&context,), child),
        call_ensures(Reply::<T>::new, (sender,), reply),
        call_ensures(Reply::<T>::send, (reply, value), sent),
    ensures
        shown@ == id@,
        own@ == myself@,
        *token == shutdown,
        reading.of() == shutdown,
        crate::sync::parent_token(child) == shutdown,
        context.inlet() == inlet,
        sent.channel() == sender,
        sent.value() == value,
{
}

/// A rejection is named like the error that it comes from.
pub proof fn rejections_are_named_like_errors(error: SendError, rejection: SendRejection)
    requires
        call_ensures(send_rejection, (&error,), rejection),
    ensures
        rejection == match error@ {
            SendErrorView::ActorNotRunning { .. } => SendRejection::NotRunning,
            SendErrorView::ActorTerminated { .. } => SendRejection::ActorTerminated,
            SendErrorView::MailboxFull { .. } => SendRejection::MailboxFull,
            SendErrorView::MailboxClosed { .. } => SendRejection::MailboxClosed,
        },
{
    rejections_follow_the_error(error, Err(error));
}

/// A send goes through events exactly where each of them can happen in the state
/// that the earlier ones led to. Of these, all but the end of the target are part
/// of a restart, where a closed mailbox hands back the message it was given.
pub proof fn sends_go_through_what_can_happen<M>(
    send: PendingSendView<M>,
    events: Seq<SendEvent<M>>,
    event: SendEvent<M>,
    message: M,
)
    ensures
        send_allows::<M>(send, Seq::empty()),
        send_allows(send, events.push(event)) <==> send_allows(send, events) && send_expects(
            send_after(send, events),
            event,
        ),
        send_after::<M>(send, Seq::empty()) == send,
        send_after(send, events.push(event)) == send_next(send_after(send, events), event).0,
        is_restart_event(event, message) <==> !(event is SourceDropped) && (
        event matches SendEvent::Binding(state) ==> state is Bound || state is Unbound) && (
        event matches SendEvent::Returned(returned) ==> returned == message),
{
    assert(events.push(event).drop_last() =~= events);
}

} // verus!
