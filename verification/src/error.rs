//! Errors of graph construction, message delivery, lookups and graph runs.
use vstd::prelude::*;
use crate::text::wrapped;

verus! {

/// Errors returned while validating a graph during build.
#[derive(Debug, Clone, PartialEq, Eq)]
pub enum GraphBuildError {
    /// The graph was built without any actors.
    EmptyGraph,
    /// Two actor implementations shared the same id.
    DuplicateActorId {
        /// Actor id registered twice.
        actor_id: String,
    },
    /// An actor slot was opened but no implementation was registered.
    MissingActor {
        /// Actor id without an implementation.
        actor_id: String,
    },
    /// Generic invalid builder configuration.
    InvalidConfig(&'static str),
}

/// What a [`GraphBuildError`] says.
pub enum GraphBuildErrorView {
    EmptyGraph,
    DuplicateActorId { actor_id: Seq<char> },
    MissingActor { actor_id: Seq<char> },
    InvalidConfig { reason: Seq<char> },
}

impl View for GraphBuildError {
    type V = GraphBuildErrorView;

    open spec fn view(&self) -> GraphBuildErrorView {
        match *self {
            GraphBuildError::EmptyGraph => GraphBuildErrorView::EmptyGraph,
            GraphBuildError::DuplicateActorId { actor_id } => {
                GraphBuildErrorView::DuplicateActorId { actor_id: actor_id@ }
            },
            GraphBuildError::MissingActor { actor_id } => {
                GraphBuildErrorView::MissingActor { actor_id: actor_id@ }
            },
            GraphBuildError::InvalidConfig(reason) => {
                GraphBuildErrorView::InvalidConfig { reason: reason@ }
            },
        }
    }
}

impl GraphBuildErrorView {
    /// The text shown to users.
    pub open spec fn text(self) -> Seq<char> {
        match self {
            GraphBuildErrorView::EmptyGraph => "graph must contain at least one actor"@,
            GraphBuildErrorView::DuplicateActorId { actor_id } => {
                "duplicate actor id `"@ + actor_id + "`"@
            },
            GraphBuildErrorView::MissingActor { actor_id } => {
                "actor `"@ + actor_id + "` slot was opened but never filled"@
            },
            GraphBuildErrorView::InvalidConfig { reason } => reason,
        }
    }
}

impl GraphBuildError {
    /// Returns the text shown to users.
    pub fn message(&self) -> (message: String)
        ensures
            message@ == self@.text(),
    {
        match self {
            GraphBuildError::EmptyGraph => "graph must contain at least one actor".to_owned(),
            GraphBuildError::DuplicateActorId { actor_id } => {
                wrapped("duplicate actor id `", actor_id.as_str(), "`")
            },
            GraphBuildError::MissingActor { actor_id } => {
                wrapped("actor `", actor_id.as_str(), "` slot was opened but never filled")
            },
            GraphBuildError::InvalidConfig(reason) => (*reason).to_owned(),
        }
    }
}

/// Errors returned when sending to an actor mailbox.
#[derive(Debug, Clone, PartialEq, Eq)]
pub enum SendError {
    /// The target actor is currently unbound because it is not running.
    ActorNotRunning { actor_id: String },
    /// The target actor has terminated and no restart is scheduled.
    ActorTerminated { actor_id: String },
    /// The target actor's mailbox is full.
    MailboxFull { actor_id: String },
    /// The target actor's mailbox is closed.
    MailboxClosed { actor_id: String },
}

/// What a [`SendError`] says.
pub enum SendErrorView {
    ActorNotRunning { actor_id: Seq<char> },
    ActorTerminated { actor_id: Seq<char> },
    MailboxFull { actor_id: Seq<char> },
    MailboxClosed { actor_id: Seq<char> },
}

impl View for SendError {
    type V = SendErrorView;

    open spec fn view(&self) -> SendErrorView {
        match *self {
            SendError::ActorNotRunning { actor_id } => {
                SendErrorView::ActorNotRunning { actor_id: actor_id@ }
            },
            SendError::ActorTerminated { actor_id } => {
                SendErrorView::ActorTerminated { actor_id: actor_id@ }
            },
            SendError::MailboxFull { actor_id } => {
                SendErrorView::MailboxFull { actor_id: actor_id@ }
            },
            SendError::MailboxClosed { actor_id } => {
                SendErrorView::MailboxClosed { actor_id: actor_id@ }
            },
        }
    }
}

impl SendErrorView {
    /// The actor that the message was meant for.
    pub open spec fn target(self) -> Seq<char> {
        match self {
            SendErrorView::ActorNotRunning { actor_id } => actor_id,
            SendErrorView::ActorTerminated { actor_id } => actor_id,
            SendErrorView::MailboxFull { actor_id } => actor_id,
            SendErrorView::MailboxClosed { actor_id } => actor_id,
        }
    }

    /// The text shown to users.
    pub open spec fn text(self) -> Seq<char> {
        match self {
            SendErrorView::ActorNotRunning { actor_id } => {
                "actor `"@ + actor_id + "` is not currently running"@
            },
            SendErrorView::ActorTerminated { actor_id } => {
                "actor `"@ + actor_id + "` has terminated"@
            },
            SendErrorView::MailboxFull { actor_id } => {
                "mailbox for actor `"@ + actor_id + "` is full"@
            },
            SendErrorView::MailboxClosed { actor_id } => {
                "mailbox for actor `"@ + actor_id + "` is closed"@
            },
        }
    }
}

impl SendError {
    /// Returns the text shown to users.
    pub fn message(&self) -> (message: String)
        ensures
            message@ == self@.text(),
    {
        match self {
            SendError::ActorNotRunning { actor_id } => {
                wrapped("actor `", actor_id.as_str(), "` is not currently running")
            },
            SendError::ActorTerminated { actor_id } => {
                wrapped("actor `", actor_id.as_str(), "` has terminated")
            },
            SendError::MailboxFull { actor_id } => {
                wrapped("mailbox for actor `", actor_id.as_str(), "` is full")
            },
            SendError::MailboxClosed { actor_id } => {
                wrapped("mailbox for actor `", actor_id.as_str(), "` is closed")
            },
        }
    }
}

/// Errors returned when a request is sent and its reply awaited.
#[derive(Debug, Clone, PartialEq, Eq)]
pub enum CallError {
    /// The request message could not be delivered.
    Send(SendError),
    /// The actor dropped the reply channel without answering.
    ReplyDropped {
        /// Target actor id.
        actor_id: String,
    },
}

/// What a [`CallError`] says.
pub enum CallErrorView {
    Send { error: SendErrorView },
    ReplyDropped { actor_id: Seq<char> },
}

impl View for CallError {
    type V = CallErrorView;

    open spec fn view(&self) -> CallErrorView {
        match *self {
            CallError::Send(error) => CallErrorView::Send { error: error@ },
            CallError::ReplyDropped { actor_id } => {
                CallErrorView::ReplyDropped { actor_id: actor_id@ }
            },
        }
    }
}

impl CallErrorView {
    /// The text shown to users.
    pub open spec fn text(self) -> Seq<char> {
        match self {
            CallErrorView::Send { error } => error.text(),
            CallErrorView::ReplyDropped { actor_id } => {
                "actor `"@ + actor_id + "` dropped the reply"@
            },
        }
    }
}

impl CallError {
    /// Returns the text shown to users.
    pub fn message(&self) -> (message: String)
        ensures
            message@ == self@.text(),
    {
        match self {
            CallError::Send(error) => error.message(),
            CallError::ReplyDropped { actor_id } => {
                wrapped("actor `", actor_id.as_str(), "` dropped the reply")
            },
        }
    }

    /// Decides how a request ends: an undelivered request reports why, a
    /// delivered one yields its reply, and a reply channel that was dropped
    /// unanswered is reported for `actor_id`.
    pub fn call_result<T>(
        actor_id: &str,
        sent: Result<(), SendError>,
        reply: Option<T>,
    ) -> (result: Result<T, CallError>)
        ensures
            match (sent, reply) {
                (Err(error), _) => result == Err::<T, CallError>(CallError::Send(error)),
                (Ok(_), Some(value)) => result == Ok::<T, CallError>(value),
                (Ok(_), None) => result matches Err(error) && error@ == (
                CallErrorView::ReplyDropped { actor_id: actor_id@ }),
            },
    {
        match sent {
            Err(error) => Err(CallError::Send(error)),
            Ok(()) => match reply {
                Some(value) => Ok(value),
                None => Err(CallError::ReplyDropped { actor_id: actor_id.to_owned() }),
            },
        }
    }
}

/// Errors returned by typed actor lookups.
#[derive(Debug, Clone, PartialEq, Eq)]
pub enum LookupError {
    /// No actor with the requested id exists.
    UnknownActor {
        /// Requested actor id.
        actor_id: String,
    },
    /// The actor exists but has a different message type.
    MessageTypeMismatch {
        /// Requested actor id.
        actor_id: String,
        /// Message type the actor was registered with.
        registered: &'static str,
        /// Message type requested by the caller.
        requested: &'static str,
    },
}

/// What a [`LookupError`] says.
pub enum LookupErrorView {
    UnknownActor { actor_id: Seq<char> },
    MessageTypeMismatch { actor_id: Seq<char>, registered: Seq<char>, requested: Seq<char> },
}

impl View for LookupError {
    type V = LookupErrorView;

    open spec fn view(&self) -> LookupErrorView {
        match *self {
            LookupError::UnknownActor { actor_id } => {
                LookupErrorView::UnknownActor { actor_id: actor_id@ }
            },
            LookupError::MessageTypeMismatch { actor_id, registered, requested } => {
                LookupErrorView::MessageTypeMismatch {
                    actor_id: actor_id@,
                    registered: registered@,
                    requested: requested@,
                }
            },
        }
    }
}

impl LookupErrorView {
    /// The text shown to users.
    pub open spec fn text(self) -> Seq<char> {
        match self {
            LookupErrorView::UnknownActor { actor_id } => "unknown actor `"@ + actor_id + "`"@,
            LookupErrorView::MessageTypeMismatch { actor_id, registered, requested } => {
                "actor `"@ + actor_id + "` has message type `"@ + registered + "`, not `"@
                    + requested + "`"@
            },
        }
    }
}

impl LookupError {
    /// Returns the text shown to users.
    pub fn message(&self) -> (message: String)
        ensures
            message@ == self@.text(),
    {
        match self {
            LookupError::UnknownActor { actor_id } => {
                wrapped("unknown actor `", actor_id.as_str(), "`")
            },
            LookupError::MessageTypeMismatch { actor_id, registered, requested } => {
                let mut message = wrapped("actor `", actor_id.as_str(), "` has message type `");
                message.append(registered);
                message.append("`, not `");
                message.append(requested);
                message.append("`");
                message
            },
        }
    }
}

/// An error raised by an actor, together with the text it displays as.
#[derive(Debug)]
pub struct Fault<E> {
    /// The error value.
    pub source: E,
    /// What the error displays as.
    pub text: String,
}

/// Errors terminating a graph run.
#[derive(Debug)]
pub enum GraphError<E> {
    /// An actor exited cleanly before shutdown was requested.
    ActorStopped { actor_id: String },
    /// An actor returned an error.
    ActorFailed { actor_id: String, source: Fault<E> },
    /// An actor panicked.
    ActorPanicked { actor_id: String },
    /// An actor task was cancelled from outside.
    ActorCancelled { actor_id: String },
    /// Another run of the same graph is active.
    AlreadyRunning,
    /// The graph is in a state that forbids the operation.
    InvalidState { detail: String },
}

/// What a [`GraphError`] says.
pub enum GraphErrorView<E> {
    ActorStopped { actor_id: Seq<char> },
    ActorFailed { actor_id: Seq<char>, source: Fault<E> },
    ActorPanicked { actor_id: Seq<char> },
    ActorCancelled { actor_id: Seq<char> },
    AlreadyRunning,
    InvalidState { detail: Seq<char> },
}

impl<E> View for GraphError<E> {
    type V = GraphErrorView<E>;

    open spec fn view(&self) -> GraphErrorView<E> {
        match *self {
            GraphError::ActorStopped { actor_id } => {
                GraphErrorView::ActorStopped { actor_id: actor_id@ }
            },
            GraphError::ActorFailed { actor_id, source } => {
                GraphErrorView::ActorFailed { actor_id: actor_id@, source }
            },
            GraphError::ActorPanicked { actor_id } => {
                GraphErrorView::ActorPanicked { actor_id: actor_id@ }
            },
            GraphError::ActorCancelled { actor_id } => {
                GraphErrorView::ActorCancelled { actor_id: actor_id@ }
            },
            GraphError::AlreadyRunning => GraphErrorView::AlreadyRunning,
            GraphError::InvalidState { detail } => {
                GraphErrorView::InvalidState { detail: detail@ }
            },
        }
    }
}

impl<E> GraphErrorView<E> {
    /// The text shown to users.
    pub open spec fn text(self) -> Seq<char> {
        match self {
            GraphErrorView::ActorStopped { actor_id } => {
                "actor `"@ + actor_id + "` stopped before shutdown was requested"@
            },
            GraphErrorView::ActorFailed { actor_id, source } => {
                "actor `"@ + actor_id + "` returned an error"@
            },
            GraphErrorView::ActorPanicked { actor_id } => "actor `"@ + actor_id + "` panicked"@,
            GraphErrorView::ActorCancelled { actor_id } => {
                "actor `"@ + actor_id + "` task was cancelled"@
            },
            GraphErrorView::AlreadyRunning => "graph is already running"@,
            GraphErrorView::InvalidState { detail } => detail,
        }
    }
}

impl<E> GraphError<E> {
    /// Returns the text shown to users.
    pub fn message(&self) -> (message: String)
        ensures
            message@ == self@.text(),
    {
        match self {
            GraphError::ActorStopped { actor_id } => {
                wrapped("actor `", actor_id.as_str(), "` stopped before shutdown was requested")
            },
            GraphError::ActorFailed { actor_id, source: _ } => {
                wrapped("actor `", actor_id.as_str(), "` returned an error")
            },
            GraphError::ActorPanicked { actor_id } => {
                wrapped("actor `", actor_id.as_str(), "` panicked")
            },
            GraphError::ActorCancelled { actor_id } => {
                wrapped("actor `", actor_id.as_str(), "` task was cancelled")
            },
            GraphError::AlreadyRunning => "graph is already running".to_owned(),
            GraphError::InvalidState { detail } => detail.clone(),
        }
    }
}

/// The texts of build errors name the actor and what is wrong with it.
pub proof fn build_errors_say_what_is_wrong(actor_id: Seq<char>, reason: Seq<char>)
    ensures
        (GraphBuildErrorView::EmptyGraph).text() == "graph must contain at least one actor"@,
        (GraphBuildErrorView::DuplicateActorId { actor_id }).text() == "duplicate actor id `"@
            + actor_id + "`"@,
        (GraphBuildErrorView::MissingActor { actor_id }).text() == "actor `"@ + actor_id
            + "` slot was opened but never filled"@,
        (GraphBuildErrorView::InvalidConfig { reason }).text() == reason,
{
}

/// The texts of send errors name the target and why it did not take the
/// message, and the target of an error is the actor that it names.
pub proof fn send_errors_name_the_target(actor_id: Seq<char>)
    ensures
        (SendErrorView::ActorNotRunning { actor_id }).text() == "actor `"@ + actor_id
            + "` is not currently running"@,
        (SendErrorView::ActorTerminated { actor_id }).text() == "actor `"@ + actor_id
            + "` has terminated"@,
        (SendErrorView::MailboxFull { actor_id }).text() == "mailbox for actor `"@ + actor_id
            + "` is full"@,
        (SendErrorView::MailboxClosed { actor_id }).text() == "mailbox for actor `"@ + actor_id
            + "` is closed"@,
        (SendErrorView::ActorNotRunning { actor_id }).target() == actor_id,
        (SendErrorView::ActorTerminated { actor_id }).target() == actor_id,
        (SendErrorView::MailboxFull { actor_id }).target() == actor_id,
        (SendErrorView::MailboxClosed { actor_id }).target() == actor_id,
{
}

/// An error says of itself what it is.
pub proof fn errors_show_what_they_are(actor_id: String)
    ensures
        (SendError::ActorNotRunning { actor_id })@ == (SendErrorView::ActorNotRunning {
            actor_id: actor_id@,
        }),
        (SendError::ActorTerminated { actor_id })@ == (SendErrorView::ActorTerminated {
            actor_id: actor_id@,
        }),
        (SendError::MailboxFull { actor_id })@ == (SendErrorView::MailboxFull {
            actor_id: actor_id@,
        }),
        (SendError::MailboxClosed { actor_id })@ == (SendErrorView::MailboxClosed {
            actor_id: actor_id@,
        }),
        (GraphBuildError::DuplicateActorId { actor_id })@
            == (GraphBuildErrorView::DuplicateActorId { actor_id: actor_id@ }),
        (GraphBuildError::MissingActor { actor_id })@ == (GraphBuildErrorView::MissingActor {
            actor_id: actor_id@,
        }),
{
}

/// A request that was not delivered reports why, and one whose answer was
/// dropped names the actor.
pub proof fn call_errors_say_what_happened(error: SendErrorView, actor_id: Seq<char>)
    ensures
        (CallErrorView::Send { error }).text() == error.text(),
        (CallErrorView::ReplyDropped { actor_id }).text() == "actor `"@ + actor_id
            + "` dropped the reply"@,
{
}

/// A lookup that fails names the actor, and where the types differ both of
/// them, the registered one first.
pub proof fn lookup_errors_name_both_types(
    actor_id: Seq<char>,
    registered: Seq<char>,
    requested: Seq<char>,
)
    ensures
        (LookupErrorView::UnknownActor { actor_id }).text() == "unknown actor `"@ + actor_id + "`"@,
        (LookupErrorView::MessageTypeMismatch { actor_id, registered, requested }).text()
            == "actor `"@ + actor_id + "` has message type `"@ + registered + "`, not `"@
            + requested + "`"@,
{
}

/// The texts of run errors name the actor and how it left.
pub proof fn graph_errors_name_the_actor<E>(
    actor_id: Seq<char>,
    source: Fault<E>,
    detail: Seq<char>,
)
    ensures
        (GraphErrorView::<E>::ActorStopped { actor_id }).text() == "actor `"@ + actor_id
            + "` stopped before shutdown was requested"@,
        (GraphErrorView::ActorFailed { actor_id, source }).text() == "actor `"@ + actor_id
            + "` returned an error"@,
        (GraphErrorView::<E>::ActorPanicked { actor_id }).text() == "actor `"@ + actor_id
            + "` panicked"@,
        (GraphErrorView::<E>::ActorCancelled { actor_id }).text() == "actor `"@ + actor_id
            + "` task was cancelled"@,
        (GraphErrorView::<E>::AlreadyRunning).text() == "graph is already running"@,
        (GraphErrorView::<E>::InvalidState { detail }).text() == detail,
{
}

/// A call gives the reply where its message was sent and answered. A failed send
/// is its error whatever came back, and a reply that never came is `ReplyDropped`.
pub proof fn calls_end_with_the_reply<T>(
    actor_id: &str,
    sent: Result<(), SendError>,
    reply: Option<T>,
    result: Result<T, CallError>,
)
    requires
        call_ensures(CallError::call_result::<T>, (actor_id, sent, reply), result),
    ensures
        result is Ok <==> sent is Ok && reply is Some,
        result is Ok ==> Some(result->Ok_0) == reply,
        sent matches Err(error) ==> result == Err::<T, CallError>(CallError::Send(error)),
        sent is Ok && reply is None ==> result->Err_0@ == (CallErrorView::ReplyDropped {
            actor_id: actor_id@,
        }),
{
}

} // verus!
