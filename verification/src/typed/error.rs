//! Errors of typed graphs.
use vstd::prelude::*;
use crate::error::Fault;
use crate::text::wrapped;
pub use crate::error::{LookupError, LookupErrorView};

verus! {

/// Errors detected while building a graph.
#[derive(Debug, Clone, PartialEq, Eq)]
pub enum BuildError {
    /// The same actor id was registered with an implementation twice.
    DuplicateActor {
        /// Actor id registered twice.
        actor_id: String,
    },
    /// An actor id was referenced with two different message types.
    MessageTypeMismatch {
        /// Actor id with conflicting message types.
        actor_id: String,
        /// Message type recorded when the actor was first referenced.
        registered: &'static str,
        /// Message type of the conflicting reference.
        requested: &'static str,
    },
    /// An actor id was declared but no implementation was registered.
    MissingActor {
        /// Actor id without an implementation.
        actor_id: String,
    },
    /// The graph contains no actors.
    EmptyGraph,
}

/// What a [`BuildError`] says.
pub enum BuildErrorView {
    DuplicateActor { actor_id: Seq<char> },
    MessageTypeMismatch { actor_id: Seq<char>, registered: Seq<char>, requested: Seq<char> },
    MissingActor { actor_id: Seq<char> },
    EmptyGraph,
}

impl View for BuildError {
    type V = BuildErrorView;

    open spec fn view(&self) -> BuildErrorView {
        match *self {
            BuildError::DuplicateActor { actor_id } => {
                BuildErrorView::DuplicateActor { actor_id: actor_id@ }
            },
            BuildError::MessageTypeMismatch { actor_id, registered, requested } => {
                BuildErrorView::MessageTypeMismatch {
                    actor_id: actor_id@,
                    registered: registered@,
                    requested: requested@,
                }
            },
            BuildError::MissingActor { actor_id } => {
                BuildErrorView::MissingActor { actor_id: actor_id@ }
            },
            BuildError::EmptyGraph => BuildErrorView::EmptyGraph,
        }
    }
}

impl BuildErrorView {
    /// The text shown to users.
    pub open spec fn text(self) -> Seq<char> {
        match self {
            BuildErrorView::DuplicateActor { actor_id } => {
                "actor `"@ + actor_id + "` is registered more than once"@
            },
            BuildErrorView::MessageTypeMismatch { actor_id, registered, requested } => {
                "actor `"@ + actor_id + "` is used with message type `"@ + requested
                    + "` but was first referenced with `"@ + registered + "`"@
            },
            BuildErrorView::MissingActor { actor_id } => {
                "actor `"@ + actor_id + "` was declared but never registered"@
            },
            BuildErrorView::EmptyGraph => "graph has no actors"@,
        }
    }
}

impl BuildError {
    /// Returns the text shown to users.
    pub fn message(&self) -> (message: String)
        ensures
            message@ == self@.text(),
    {
        match self {
            BuildError::DuplicateActor { actor_id } => {
                wrapped("actor `", actor_id.as_str(), "` is registered more than once")
            },
            BuildError::MessageTypeMismatch { actor_id, registered, requested } => {
                let mut message = wrapped(
                    "actor `",
                    actor_id.as_str(),
                    "` is used with message type `",
                );
                message.append(requested);
                message.append("` but was first referenced with `");
                message.append(registered);
                message.append("`");
                message
            },
            BuildError::MissingActor { actor_id } => {
                wrapped("actor `", actor_id.as_str(), "` was declared but never registered")
            },
            BuildError::EmptyGraph => "graph has no actors".to_owned(),
        }
    }
}

/// Errors returned when sending to an actor mailbox.
#[derive(Debug, Clone, PartialEq, Eq)]
pub enum SendError {
    /// The target actor has no bound mailbox right now.
    ActorNotRunning {
        /// Target actor id.
        actor_id: String,
    },
    /// The target mailbox is at capacity.
    MailboxFull {
        /// Target actor id.
        actor_id: String,
    },
    /// The target mailbox has been closed.
    MailboxClosed {
        /// Target actor id.
        actor_id: String,
    },
}

/// What a [`SendError`] says.
pub enum SendErrorView {
    ActorNotRunning { actor_id: Seq<char> },
    MailboxFull { actor_id: Seq<char> },
    MailboxClosed { actor_id: Seq<char> },
}

impl View for SendError {
    type V = SendErrorView;

    open spec fn view(&self) -> SendErrorView {
        match *self {
            SendError::ActorNotRunning { actor_id } => {
                SendErrorView::ActorNotRunning { actor_id: actor_id@ }
            },
            SendError::MailboxFull { actor_id } => {
                SendErrorView::MailboxFull { actor_id: actor_id@ }
            },
            SendError::MailboxClosed { actor_id } => {
                SendErrorView::MailboxClosed { actor_id: actor_id@ }
            },
        }
    }
}

impl SendErrorView {
    /// The text shown to users.
    pub open spec fn text(self) -> Seq<char> {
        match self {
            SendErrorView::ActorNotRunning { actor_id } => {
                "actor `"@ + actor_id + "` is not running"@
            },
            SendErrorView::MailboxFull { actor_id } => {
                "mailbox for actor `"@ + actor_id + "` is full"@
            },
            SendErrorView::MailboxClosed { actor_id } => {
                "mailbox for actor `"@ + actor_id + "` is closed"@
            },
        }
    }
}

impl SendError {
    /// Returns the text shown to users.
    pub fn message(&self) -> (message: String)
        ensures
            message@ == self@.text(),
    {
        match self {
            SendError::ActorNotRunning { actor_id } => {
                wrapped("actor `", actor_id.as_str(), "` is not running")
            },
            SendError::MailboxFull { actor_id } => {
                wrapped("mailbox for actor `", actor_id.as_str(), "` is full")
            },
            SendError::MailboxClosed { actor_id } => {
                wrapped("mailbox for actor `", actor_id.as_str(), "` is closed")
            },
        }
    }
}

/// Errors returned when a request is sent and its reply awaited.
#[derive(Debug, Clone, PartialEq, Eq)]
pub enum CallError {
    /// The request message could not be delivered.
    Send(SendError),
    /// The actor dropped the reply channel without answering.
    ReplyDropped {
        /// Target actor id.
        actor_id: String,
    },
}

/// What a [`CallError`] says.
pub enum CallErrorView {
    Send { error: SendErrorView },
    ReplyDropped { actor_id: Seq<char> },
}

impl View for CallError {
    type V = CallErrorView;

    open spec fn view(&self) -> CallErrorView {
        match *self {
            CallError::Send(error) => CallErrorView::Send { error: error@ },
            CallError::ReplyDropped { actor_id } => {
                CallErrorView::ReplyDropped { actor_id: actor_id@ }
            },
        }
    }
}

impl CallErrorView {
    /// The text shown to users.
    pub open spec fn text(self) -> Seq<char> {
        match self {
            CallErrorView::Send { error } => error.text(),
            CallErrorView::ReplyDropped { actor_id } => {
                "actor `"@ + actor_id + "` dropped the reply"@
            },
        }
    }
}

impl CallError {
    /// Returns the text shown to users.
    pub fn message(&self) -> (message: String)
        ensures
            message@ == self@.text(),
    {
        match self {
            CallError::Send(error) => error.message(),
            CallError::ReplyDropped { actor_id } => {
                wrapped("actor `", actor_id.as_str(), "` dropped the reply")
            },
        }
    }

    /// Decides how a request ends: an undelivered request reports why, a
    /// delivered one yields its reply, and a reply channel that was dropped
    /// unanswered is reported for `actor_id`.
    pub fn call_result<T>(
        actor_id: &str,
        sent: Result<(), SendError>,
        reply: Option<T>,
    ) -> (result: Result<T, CallError>)
        ensures
            match (sent, reply) {
                (Err(error), _) => result == Err::<T, CallError>(CallError::Send(error)),
                (Ok(_), Some(value)) => result == Ok::<T, CallError>(value),
                (Ok(_), None) => result matches Err(error) && error@ == (
                CallErrorView::ReplyDropped { actor_id: actor_id@ }),
            },
    {
        match sent {
            Err(error) => Err(CallError::Send(error)),
            Ok(()) => match reply {
                Some(value) => Ok(value),
                None => Err(CallError::ReplyDropped { actor_id: actor_id.to_owned() }),
            },
        }
    }
}

/// Errors terminating a graph run.
#[derive(Debug)]
pub enum GraphError<E> {
    /// An actor returned an error.
    ActorFailed {
        /// Failing actor id.
        actor_id: String,
        /// Error returned by the actor.
        source: Fault<E>,
    },
    /// An actor exited cleanly before shutdown was requested.
    ActorExitedEarly {
        /// Exiting actor id.
        actor_id: String,
    },
    /// An actor panicked.
    ActorPanicked {
        /// Panicking actor id.
        actor_id: String,
    },
}

/// What a [`GraphError`] says.
pub enum GraphErrorView<E> {
    ActorFailed { actor_id: Seq<char>, source: Fault<E> },
    ActorExitedEarly { actor_id: Seq<char> },
    ActorPanicked { actor_id: Seq<char> },
}

impl<E> View for GraphError<E> {
    type V = GraphErrorView<E>;

    open spec fn view(&self) -> GraphErrorView<E> {
        match *self {
            GraphError::ActorFailed { actor_id, source } => {
                GraphErrorView::ActorFailed { actor_id: actor_id@, source }
            },
            GraphError::ActorExitedEarly { actor_id } => {
                GraphErrorView::ActorExitedEarly { actor_id: actor_id@ }
            },
            GraphError::ActorPanicked { actor_id } => {
                GraphErrorView::ActorPanicked { actor_id: actor_id@ }
            },
        }
    }
}

impl<E> GraphErrorView<E> {
    /// The text shown to users.
    pub open spec fn text(self) -> Seq<char> {
        match self {
            GraphErrorView::ActorFailed { actor_id, source } => {
                "actor `"@ + actor_id + "` failed: "@ + source.text@
            },
            GraphErrorView::ActorExitedEarly { actor_id } => {
                "actor `"@ + actor_id + "` exited before shutdown was requested"@
            },
            GraphErrorView::ActorPanicked { actor_id } => "actor `"@ + actor_id + "` panicked"@,
        }
    }
}

impl<E> GraphError<E> {
    /// Returns the text shown to users.
    pub fn message(&self) -> (message: String)
        ensures
            message@ == self@.text(),
    {
        match self {
            GraphError::ActorFailed { actor_id, source } => {
                let mut message = wrapped("actor `", actor_id.as_str(), "` failed: ");
                message.append(source.text.as_str());
                message
            },
            GraphError::ActorExitedEarly { actor_id } => {
                wrapped("actor `", actor_id.as_str(), "` exited before shutdown was requested")
            },
            GraphError::ActorPanicked { actor_id } => {
                wrapped("actor `", actor_id.as_str(), "` panicked")
            },
        }
    }
}

/// The texts of errors name the actor, the message types and the source where
/// there are any, and what is wrong.
pub proof fn typed_errors_say_what_is_wrong<E>(
    actor_id: Seq<char>,
    registered: Seq<char>,
    requested: Seq<char>,
    error: SendErrorView,
    source: Fault<E>,
)
    ensures
        (BuildErrorView::DuplicateActor { actor_id }).text() == "actor `"@ + actor_id
            + "` is registered more than once"@,
        (BuildErrorView::MessageTypeMismatch { actor_id, registered, requested }).text()
            == "actor `"@ + actor_id + "` is used with message type `"@ + requested
            + "` but was first referenced with `"@ + registered + "`"@,
        (BuildErrorView::MissingActor { actor_id }).text() == "actor `"@ + actor_id
            + "` was declared but never registered"@,
        (BuildErrorView::EmptyGraph).text() == "graph has no actors"@,
        (SendErrorView::ActorNotRunning { actor_id }).text() == "actor `"@ + actor_id
            + "` is not running"@,
        (SendErrorView::MailboxFull { actor_id }).text() == "mailbox for actor `"@ + actor_id
            + "` is full"@,
        (SendErrorView::MailboxClosed { actor_id }).text() == "mailbox for actor `"@ + actor_id
            + "` is closed"@,
        (CallErrorView::Send { error }).text() == error.text(),
        (CallErrorView::ReplyDropped { actor_id }).text() == "actor `"@ + actor_id
            + "` dropped the reply"@,
        (GraphErrorView::ActorFailed { actor_id, source }).text() == "actor `"@ + actor_id
            + "` failed: "@ + source.text@,
        (GraphErrorView::<E>::ActorExitedEarly { actor_id }).text() == "actor `"@ + actor_id
            + "` exited before shutdown was requested"@,
        (GraphErrorView::<E>::ActorPanicked { actor_id }).text() == "actor `"@ + actor_id
            + "` panicked"@,
{
}

/// A call gives the reply where its message was sent and answered. A failed send
/// is its error whatever came back, and a reply that never came is `ReplyDropped`.
pub proof fn calls_end_with_the_reply<T>(
    actor_id: &str,
    sent: Result<(), SendError>,
    reply: Option<T>,
    result: Result<T, CallError>,
)
    requires
        call_ensures(CallError::call_result::<T>, (actor_id, sent, reply), result),
    ensures
        result is Ok <==> sent is Ok && reply is Some,
        result is Ok ==> Some(result->Ok_0) == reply,
        sent matches Err(error) ==> result == Err::<T, CallError>(CallError::Send(error)),
        sent is Ok && reply is None ==> result->Err_0@ == (CallErrorView::ReplyDropped {
            actor_id: actor_id@,
        }),
{
}

} // verus!
