//! Actor graphs and the rules of a graph run.
use tokio_util::sync::CancellationToken;
use vstd::prelude::*;
use crate::error::{Fault, GraphError, GraphErrorView, LookupError, LookupErrorView};
use crate::observability::{
    ActorExitStatus, Emission, GraphObservability, GraphRunStatus, GraphShutdownCause,
};
use crate::sync::{token_cancel, token_clone, token_new, Cancellation};
use crate::text::{joined, same_text};
use crate::time::TimeSpan;

verus! {

// ---------------------------------------------------------------------------
// Graphs
// ---------------------------------------------------------------------------

/// The message type of an actor: a key that no other type shares, and a name.
#[derive(Debug, Clone, Copy)]
pub struct MessageType {
    pub key: u64,
    pub name: &'static str,
}

/// One actor of a graph, with the binding that its refs read and the runner
/// that starts it.
#[derive(Debug)]
pub struct GraphActor<B, R> {
    pub actor_id: String,
    pub message_type: MessageType,
    pub binding: B,
    pub runner: R,
}

/// What a [`GraphActor`] holds.
pub struct GraphActorView<B, R> {
    pub actor_id: Seq<char>,
    pub message_type: MessageType,
    pub binding: B,
    pub runner: R,
}

impl<B, R> View for GraphActor<B, R> {
    type V = GraphActorView<B, R>;

    open spec fn view(&self) -> GraphActorView<B, R> {
        GraphActorView {
            actor_id: self.actor_id@,
            message_type: self.message_type,
            binding: self.binding,
            runner: self.runner,
        }
    }
}

/// What a graph is doing.
#[derive(Debug, Clone, Copy, PartialEq, Eq, Structural)]
pub enum GraphState {
    /// No run is active.
    Idle,
    /// A run is active.
    Running,
    /// The graph was taken apart into single actors.
    Decomposed,
}

/// Actor graph specification that can be run again and again.
///
/// Only one run of a graph may be active at a time, because all runs share the
/// bindings of its actors.
#[derive(Debug)]
pub struct Graph<B, R> {
    name: String,
    actors: Vec<GraphActor<B, R>>,
    mailbox_capacity: usize,
    actor_shutdown_timeout: TimeSpan,
    state: GraphState,
}

/// What a [`Graph`] holds.
#[verifier::ext_equal]
pub struct GraphView<B, R> {
    pub name: Seq<char>,
    pub actors: Seq<GraphActorView<B, R>>,
    pub mailbox_capacity: usize,
    pub actor_shutdown_timeout: TimeSpan,
    pub state: GraphState,
}

impl<B, R> View for Graph<B, R> {
    type V = GraphView<B, R>;

    closed spec fn view(&self) -> GraphView<B, R> {
        GraphView {
            name: self.name@,
            actors: self.actors@.map_values(|actor: GraphActor<B, R>| actor@),
            mailbox_capacity: self.mailbox_capacity,
            actor_shutdown_timeout: self.actor_shutdown_timeout,
            state: self.state,
        }
    }
}

/// Whether no two actors share an id.
pub open spec fn ids_are_distinct<B, R>(actors: Seq<GraphActorView<B, R>>) -> bool {
    forall|i: int, j: int|
        0 <= i < j < actors.len() ==> #[trigger] actors[i].actor_id != #[trigger] actors[j].actor_id
}

impl<B, R> GraphView<B, R> {
    /// Whether the graph is one that a builder accepts: it has a name and
    /// room in its mailboxes, at least one actor, and no two actors with the
    /// same id.
    pub open spec fn is_valid(self) -> bool {
        &&& self.name.len() > 0
        &&& self.mailbox_capacity > 0
        &&& self.actors.len() > 0
        &&& ids_are_distinct(self.actors)
    }
}

/// Where the first actor with the given id stands at or after `from`, or how
/// many actors there are.
pub open spec fn position<B, R>(
    actors: Seq<GraphActorView<B, R>>,
    actor_id: Seq<char>,
    from: int,
) -> int
    decreases actors.len() - from,
{
    if from < 0 || from >= actors.len() {
        actors.len() as int
    } else if actors[from].actor_id == actor_id {
        from
    } else {
        position(actors, actor_id, from + 1)
    }
}

/// What a typed lookup finds: the binding of the actor with the given id, if
/// there is one and its message type is the requested one.
pub open spec fn looked_up<B, R>(
    actors: Seq<GraphActorView<B, R>>,
    actor_id: Seq<char>,
    requested: MessageType,
) -> Result<B, LookupErrorView> {
    let index = position(actors, actor_id, 0);
    if index == actors.len() {
        Err(LookupErrorView::UnknownActor { actor_id })
    } else if actors[index].message_type.key != requested.key {
        Err(
            LookupErrorView::MessageTypeMismatch {
                actor_id,
                registered: actors[index].message_type.name@,
                requested: requested.name@,
            },
        )
    } else {
        Ok(actors[index].binding)
    }
}

proof fn position_skips<B, R>(
    actors: Seq<GraphActorView<B, R>>,
    actor_id: Seq<char>,
    from: int,
    to: int,
)
    requires
        0 <= from <= to <= actors.len(),
        forall|i: int| from <= i < to ==> #[trigger] actors[i].actor_id != actor_id,
    ensures
        position(actors, actor_id, from) == position(actors, actor_id, to),
    decreases to - from,
{
    if from < to {
        assert(actors[from].actor_id != actor_id);
        position_skips(actors, actor_id, from + 1, to);
    }
}

pub(crate) proof fn position_is_in_range<B, R>(
    actors: Seq<GraphActorView<B, R>>,
    actor_id: Seq<char>,
    from: int,
)
    requires
        0 <= from <= actors.len(),
    ensures
        from <= position(actors, actor_id, from) <= actors.len(),
        position(actors, actor_id, from) < actors.len() ==> actors[position(
            actors,
            actor_id,
            from,
        )].actor_id == actor_id,
        forall|i: int|
            from <= i < position(actors, actor_id, from) ==> #[trigger] actors[i].actor_id
                != actor_id,
    decreases actors.len() - from,
{
    if from < actors.len() && actors[from].actor_id != actor_id {
        position_is_in_range(actors, actor_id, from + 1);
    }
}

/// Every actor of a graph is found under its id: with its own message type its
/// binding comes out, with any other type both types are named.
pub proof fn actors_are_found_by_id<B, R>(
    actors: Seq<GraphActorView<B, R>>,
    index: int,
    requested: MessageType,
)
    requires
        ids_are_distinct(actors),
        0 <= index < actors.len(),
    ensures
        looked_up(actors, actors[index].actor_id, requested) == if actors[index].message_type.key
            == requested.key {
            Ok::<B, LookupErrorView>(actors[index].binding)
        } else {
            Err(
                LookupErrorView::MessageTypeMismatch {
                    actor_id: actors[index].actor_id,
                    registered: actors[index].message_type.name@,
                    requested: requested.name@,
                },
            )
        },
{
    position_skips(actors, actors[index].actor_id, 0, index);
}

/// An id that no actor has is unknown, whatever type is asked for.
pub proof fn other_ids_are_unknown<B, R>(
    actors: Seq<GraphActorView<B, R>>,
    actor_id: Seq<char>,
    requested: MessageType,
)
    requires
        forall|i: int| 0 <= i < actors.len() ==> #[trigger] actors[i].actor_id != actor_id,
    ensures
        looked_up(actors, actor_id, requested) == Err::<B, LookupErrorView>(
            LookupErrorView::UnknownActor { actor_id },
        ),
{
    position_skips(actors, actor_id, 0, actors.len() as int);
}

/// The text that an operation on a decomposed graph is refused with.
pub open spec fn decomposed_detail() -> Seq<char> {
    "graph has already been decomposed into an actor set"@
}

/// Why a graph in the given state refuses to be run or decomposed.
pub open spec fn refusal<E>(state: GraphState) -> Option<GraphErrorView<E>> {
    match state {
        GraphState::Idle => None,
        GraphState::Running => Some(GraphErrorView::AlreadyRunning),
        GraphState::Decomposed => Some(
            GraphErrorView::InvalidState { detail: decomposed_detail() },
        ),
    }
}

/// The outcome of an attempt to leave the idle state.
pub open spec fn leaves_idle<B, R, E>(
    before: GraphView<B, R>,
    after: GraphView<B, R>,
    to: GraphState,
    result: Result<(), GraphError<E>>,
) -> bool {
    match refusal::<E>(before.state) {
        None => result is Ok && after == (GraphView { state: to, ..before }),
        Some(error) => result is Err && result->Err_0@ == error && after == before,
    }
}

impl<B, R> Graph<B, R> {
    pub(crate) fn new(
        name: String,
        actors: Vec<GraphActor<B, R>>,
        mailbox_capacity: usize,
        actor_shutdown_timeout: TimeSpan,
    ) -> (graph: Self)
        ensures
            graph@ == (GraphView {
                name: name@,
                actors: actors@.map_values(|actor: GraphActor<B, R>| actor@),
                mailbox_capacity,
                actor_shutdown_timeout,
                state: GraphState::Idle,
            }),
    {
        Graph { name, actors, mailbox_capacity, actor_shutdown_timeout, state: GraphState::Idle }
    }

    /// Returns the graph name used in tracing fields and metric labels.
    pub fn name(&self) -> (name: &str)
        ensures
            name@ == self@.name,
    {
        self.name.as_str()
    }

    /// Returns the actors in definition order.
    pub fn actors(&self) -> (actors: &Vec<GraphActor<B, R>>)
        ensures
            actors@.map_values(|actor: GraphActor<B, R>| actor@) == self@.actors,
    {
        &self.actors
    }

    /// Returns the mailbox capacity of every actor.
    pub fn mailbox_capacity(&self) -> (capacity: usize)
        ensures
            capacity == self@.mailbox_capacity,
    {
        self.mailbox_capacity
    }

    /// Returns how long shutdown waits for an actor to stop.
    pub fn actor_shutdown_timeout(&self) -> (timeout: TimeSpan)
        ensures
            timeout == self@.actor_shutdown_timeout,
    {
        self.actor_shutdown_timeout
    }

    /// Returns where the actor with the given id stands in definition order, if
    /// it exists.
    pub fn index_of(&self, actor_id: &str) -> (found: Option<usize>)
        ensures
            match found {
                Some(index) => index < self@.actors.len() && index == position(
                    self@.actors,
                    actor_id@,
                    0,
                ),
                None => position(self@.actors, actor_id@, 0) == self@.actors.len(),
            },
    {
        let mut index: usize = 0;
        while index < self.actors.len()
            invariant
                index <= self.actors@.len(),
                self@.actors.len() == self.actors@.len(),
                position(self@.actors, actor_id@, 0) == position(
                    self@.actors,
                    actor_id@,
                    index as int,
                ),
            decreases self.actors@.len() - index,
        {
            assert(self@.actors[index as int] == self.actors@[index as int]@);
            if same_text(self.actors[index].actor_id.as_str(), actor_id) {
                return Some(index);
            }
            index += 1;
        }
        None
    }

    /// Returns the binding of the actor with the given id, provided that its
    /// message type is the requested one.
    pub fn actor_ref(&self, actor_id: &str, requested: MessageType) -> (found: Result<
        &B,
        LookupError,
    >)
        ensures
            match found {
                Ok(binding) => looked_up(self@.actors, actor_id@, requested) == Ok::<
                    B,
                    LookupErrorView,
                >(*binding),
                Err(error) => looked_up(self@.actors, actor_id@, requested) == Err::<
                    B,
                    LookupErrorView,
                >(error@),
            },
    {
        let index: usize = match self.index_of(actor_id) {
            Some(index) => index,
            None => {
                return Err(LookupError::UnknownActor { actor_id: actor_id.to_owned() });
            },
        };
        let actor = &self.actors[index];
        assert(self@.actors[index as int] == actor@);
        if actor.message_type.key != requested.key {
            return Err(
                LookupError::MessageTypeMismatch {
                    actor_id: actor_id.to_owned(),
                    registered: actor.message_type.name,
                    requested: requested.name,
                },
            );
        }
        Ok(&actor.binding)
    }

    fn leave_idle<E>(&mut self, to: GraphState) -> (result: Result<(), GraphError<E>>)
        ensures
            leaves_idle(old(self)@, final(self)@, to, result),
    {
        match self.state {
            GraphState::Idle => {
                self.state = to;
                Ok(())
            },
            GraphState::Running => Err(GraphError::AlreadyRunning),
            GraphState::Decomposed => Err(
                GraphError::InvalidState {
                    detail: "graph has already been decomposed into an actor set".to_owned(),
                },
            ),
        }
    }

    /// Claims the graph for a run.
    pub fn begin_run<E>(&mut self) -> (result: Result<(), GraphError<E>>)
        ensures
            leaves_idle(old(self)@, final(self)@, GraphState::Running, result),
    {
        self.leave_idle(GraphState::Running)
    }

    /// Gives the graph back after a run.
    pub fn end_run(&mut self)
        ensures
            final(self)@ == (GraphView { state: GraphState::Idle, ..old(self)@ }),
    {
        self.state = GraphState::Idle;
    }

    /// Claims the graph for being taken apart into single actors.
    pub fn mark_decomposed<E>(&mut self) -> (result: Result<(), GraphError<E>>)
        ensures
            leaves_idle(old(self)@, final(self)@, GraphState::Decomposed, result),
    {
        self.leave_idle(GraphState::Decomposed)
    }

    /// Takes the graph apart: its name, its actors in definition order, their
    /// mailbox capacity and their shutdown timeout.
    pub fn into_parts(self) -> (parts: (String, Vec<GraphActor<B, R>>, usize, TimeSpan))
        ensures
            parts.0@ == self@.name,
            parts.1@.map_values(|actor: GraphActor<B, R>| actor@) == self@.actors,
            parts.2 == self@.mailbox_capacity,
            parts.3 == self@.actor_shutdown_timeout,
    {
        (self.name, self.actors, self.mailbox_capacity, self.actor_shutdown_timeout)
    }
}

/// While a run is active, neither a second run nor a decomposition begins, and
/// a decomposed graph never runs again.
pub proof fn only_an_idle_graph_is_claimed<B, R, E>(
    before: GraphView<B, R>,
    after: GraphView<B, R>,
    to: GraphState,
    result: Result<(), GraphError<E>>,
)
    requires
        leaves_idle(before, after, to, result),
    ensures
        result is Ok <==> before.state == GraphState::Idle,
        before.state == GraphState::Decomposed ==> after == before,
        before.state == GraphState::Running ==> result->Err_0@ == GraphErrorView::<
            E,
        >::AlreadyRunning && after == before,
{
}

// ---------------------------------------------------------------------------
// How actors leave a run
// ---------------------------------------------------------------------------

/// What an actor task returned.
#[derive(Debug)]
pub struct ActorTaskExit<E> {
    pub actor_id: String,
    pub result: Result<(), Fault<E>>,
}

/// The status of an actor that returned, given whether shutdown was requested.
pub open spec fn exit_status<E>(result: Result<(), Fault<E>>, shutdown_requested: bool) ->
    ActorExitStatus {
    match result {
        Ok(_) => if shutdown_requested {
            ActorExitStatus::Shutdown
        } else {
            ActorExitStatus::Stopped
        },
        Err(_) => ActorExitStatus::Failed,
    }
}

/// Why the graph shuts down when an actor leaves with the given status.
pub open spec fn cause_of_status(status: ActorExitStatus) -> GraphShutdownCause {
    match status {
        ActorExitStatus::Shutdown => GraphShutdownCause::External,
        ActorExitStatus::Stopped => GraphShutdownCause::ActorStopped,
        ActorExitStatus::Failed => GraphShutdownCause::ActorFailed,
        ActorExitStatus::Panicked => GraphShutdownCause::ActorPanicked,
        ActorExitStatus::Cancelled => GraphShutdownCause::ActorCancelled,
    }
}

/// The failure that an actor's return means for the run, if any: an error
/// always does, a clean return only where nobody asked for shutdown.
pub open spec fn exit_failure<E>(
    actor_id: Seq<char>,
    result: Result<(), Fault<E>>,
    shutdown_requested: bool,
) -> Option<GraphErrorView<E>> {
    match result {
        Ok(_) => if shutdown_requested {
            None
        } else {
            Some(GraphErrorView::ActorStopped { actor_id })
        },
        Err(source) => Some(GraphErrorView::ActorFailed { actor_id, source }),
    }
}

impl<E> ActorTaskExit<E> {
    /// The status that the exit is reported with.
    pub fn status(&self, shutdown_requested: bool) -> (status: ActorExitStatus)
        ensures
            status == exit_status(self.result, shutdown_requested),
    {
        match &self.result {
            Ok(()) => if shutdown_requested {
                ActorExitStatus::Shutdown
            } else {
                ActorExitStatus::Stopped
            },
            Err(_) => ActorExitStatus::Failed,
        }
    }

    /// Why the exit shuts the graph down.
    pub fn shutdown_cause(&self, shutdown_requested: bool) -> (cause: GraphShutdownCause)
        ensures
            cause == cause_of_status(exit_status(self.result, shutdown_requested)),
    {
        match self.status(shutdown_requested) {
            ActorExitStatus::Shutdown => GraphShutdownCause::External,
            ActorExitStatus::Stopped => GraphShutdownCause::ActorStopped,
            ActorExitStatus::Failed => GraphShutdownCause::ActorFailed,
            ActorExitStatus::Panicked => GraphShutdownCause::ActorPanicked,
            ActorExitStatus::Cancelled => GraphShutdownCause::ActorCancelled,
        }
    }
}

/// The failure that an actor's return means for the run, if any.
pub fn classify_actor_exit<E>(exit: ActorTaskExit<E>, shutdown_requested: bool) -> (failure: Option<
    GraphError<E>,
>)
    ensures
        match exit_failure(exit.actor_id@, exit.result, shutdown_requested) {
            None => failure is None,
            Some(expected) => failure matches Some(error) && error@ == expected,
        },
{
    match exit.result {
        Ok(()) => if shutdown_requested {
            None
        } else {
            Some(GraphError::ActorStopped { actor_id: exit.actor_id })
        },
        Err(source) => Some(GraphError::ActorFailed { actor_id: exit.actor_id, source }),
    }
}

/// Why the graph shuts down on the given error.
pub open spec fn cause_of_error<E>(error: GraphErrorView<E>) -> GraphShutdownCause {
    match error {
        GraphErrorView::ActorStopped { .. } => GraphShutdownCause::ActorStopped,
        GraphErrorView::ActorFailed { .. } => GraphShutdownCause::ActorFailed,
        GraphErrorView::ActorPanicked { .. } => GraphShutdownCause::ActorPanicked,
        GraphErrorView::ActorCancelled { .. } => GraphShutdownCause::ActorCancelled,
        GraphErrorView::AlreadyRunning | GraphErrorView::InvalidState { .. } => {
            GraphShutdownCause::External
        },
    }
}

/// Returns why the graph shuts down on the given error.
pub fn graph_shutdown_cause_for_error<E>(error: &GraphError<E>) -> (cause: GraphShutdownCause)
    ensures
        cause == cause_of_error(error@),
{
    match error {
        GraphError::ActorStopped { .. } => GraphShutdownCause::ActorStopped,
        GraphError::ActorFailed { .. } => GraphShutdownCause::ActorFailed,
        GraphError::ActorPanicked { .. } => GraphShutdownCause::ActorPanicked,
        GraphError::ActorCancelled { .. } => GraphShutdownCause::ActorCancelled,
        GraphError::AlreadyRunning => GraphShutdownCause::External,
        GraphError::InvalidState { .. } => GraphShutdownCause::External,
    }
}

/// Why a driving task did not return its result.
#[derive(Debug)]
pub struct JoinFailure {
    /// Whether the task panicked; otherwise it was cancelled.
    pub panicked: bool,
    /// What the failure displays as.
    pub text: String,
}

/// The description of a driving task that did not return.
pub open spec fn join_detail(panicked: bool, text: Seq<char>) -> Seq<char> {
    if panicked {
        "graph drive task panicked: "@ + text
    } else {
        "graph drive task was cancelled: "@ + text
    }
}

/// Describes a driving task that did not return.
pub fn join_error_detail(failure: &JoinFailure) -> (detail: String)
    ensures
        detail@ == join_detail(failure.panicked, failure.text@),
{
    if failure.panicked {
        joined("graph drive task panicked: ", failure.text.as_str())
    } else {
        joined("graph drive task was cancelled: ", failure.text.as_str())
    }
}

/// The result of a graph that was run in a task of its own: what the task
/// returned, or an invalid state where the task itself was lost.
pub fn wait_result<E>(joined: Result<Result<(), GraphError<E>>, JoinFailure>) -> (result: Result<
    (),
    GraphError<E>,
>)
    ensures
        match joined {
            Ok(returned) => result == returned,
            Err(failure) => result matches Err(error) && error@ == (GraphErrorView::<
                E,
            >::InvalidState { detail: join_detail(failure.panicked, failure.text@) }),
        },
{
    match joined {
        Ok(returned) => returned,
        Err(failure) => Err(GraphError::InvalidState { detail: join_error_detail(&failure) }),
    }
}

/// Handle to a graph that runs in a task of its own.
///
/// Dropping the handle does not shut down the graph.
pub struct GraphHandle {
    graph_name: String,
    stop: CancellationToken,
}

impl View for GraphHandle {
    type V = Seq<char>;

    closed spec fn view(&self) -> Seq<char> {
        self.graph_name@
    }
}

impl GraphHandle {
    /// The token whose cancellation asks the graph to shut down.
    pub closed spec fn token(self) -> CancellationToken {
        self.stop
    }

    /// A handle to the graph of the given name.
    pub fn new(graph_name: &str) -> (handle: Self)
        ensures
            handle@ == graph_name@,
    {
        GraphHandle { graph_name: graph_name.to_owned(), stop: token_new().into_token() }
    }

    /// Returns the name of the graph.
    pub fn graph_name(&self) -> (name: &str)
        ensures
            name@ == self@,
    {
        self.graph_name.as_str()
    }

    /// Returns a token that is cancelled when shutdown is requested.
    pub fn stop_token(&self) -> (token: CancellationToken)
        ensures
            token == self.token(),
    {
        token_clone(&self.stop)
    }

    /// Requests graceful shutdown of the graph. Doing so again changes
    /// nothing.
    pub fn shutdown(&self) -> (done: Cancellation)
        ensures
            done.of() == self.token(),
    {
        token_cancel(&self.stop)
    }
}

/// The report of a graph run that ended with `result` after `duration`.
pub open spec fn stopped_report<E>(
    graph: Seq<char>,
    duration: TimeSpan,
    result: Result<(), GraphError<E>>,
) -> crate::observability::EmissionView {
    match result {
        Ok(_) => crate::observability::graph_stopped(
            graph,
            duration,
            GraphRunStatus::Completed,
            None,
        ),
        Err(error) => crate::observability::graph_stopped(
            graph,
            duration,
            GraphRunStatus::Failed,
            Some(error@.text()),
        ),
    }
}

/// Reports that a graph run ended with `result` after `duration`.
pub fn emit_graph_stopped<E>(
    observability: &GraphObservability,
    duration: TimeSpan,
    result: &Result<(), GraphError<E>>,
) -> (emission: Emission)
    ensures
        emission@ == stopped_report(observability@.graph_name, duration, *result),
{
    match result {
        Ok(()) => observability.emit_graph_stopped(duration, GraphRunStatus::Completed, None),
        Err(error) => {
            let text = error.message();
            observability.emit_graph_stopped(
                duration,
                GraphRunStatus::Failed,
                Some(text.as_str()),
            )
        },
    }
}

/// The place of an id is that of the first actor which has it, and behind all
/// actors where none has.
pub proof fn ids_are_placed_at_their_first_actor<B, R>(
    actors: Seq<GraphActorView<B, R>>,
    actor_id: Seq<char>,
    index: int,
)
    requires
        0 <= index <= actors.len(),
        index < actors.len() ==> actors[index].actor_id == actor_id,
        forall|i: int| 0 <= i < index ==> #[trigger] actors[i].actor_id != actor_id,
    ensures
        position(actors, actor_id, 0) == index,
{
    position_skips(actors, actor_id, 0, index);
}

/// A claim succeeds exactly on an idle graph, and then changes its state and
/// nothing else. Otherwise it changes nothing, and says whether the graph runs
/// or was decomposed.
pub proof fn claims_change_the_state_alone<B, R, E>(
    before: GraphView<B, R>,
    after: GraphView<B, R>,
    to: GraphState,
    result: Result<(), GraphError<E>>,
)
    requires
        leaves_idle(before, after, to, result),
    ensures
        after.name == before.name,
        after.actors == before.actors,
        after.mailbox_capacity == before.mailbox_capacity,
        after.actor_shutdown_timeout == before.actor_shutdown_timeout,
        result is Ok <==> before.state == GraphState::Idle,
        result is Ok ==> after.state == to,
        result is Err ==> after.state == before.state,
        before.state == GraphState::Running ==> result->Err_0@ is AlreadyRunning,
        before.state == GraphState::Decomposed ==> result->Err_0@ == (GraphErrorView::<
            E,
        >::InvalidState { detail: "graph has already been decomposed into an actor set"@ }),
{
}

/// An exit counts as failed exactly where it returned an error; a clean one is
/// a failure of the run exactly where nobody asked for shutdown. What is
/// reported as status, cause and failure agrees.
pub proof fn exits_are_judged_alike<E>(
    actor_id: Seq<char>,
    result: Result<(), Fault<E>>,
    shutdown_requested: bool,
)
    ensures
        exit_status(result, shutdown_requested) == ActorExitStatus::Failed <==> result is Err,
        exit_status(result, shutdown_requested) == ActorExitStatus::Shutdown <==> result is Ok
            && shutdown_requested,
        exit_status(result, shutdown_requested) == ActorExitStatus::Stopped <==> result is Ok
            && !shutdown_requested,
        exit_failure(actor_id, result, shutdown_requested) is None <==> result is Ok
            && shutdown_requested,
        result matches Err(source) ==> exit_failure(actor_id, result, shutdown_requested) == Some(
            GraphErrorView::ActorFailed { actor_id, source },
        ),
        result is Ok && !shutdown_requested ==> exit_failure(actor_id, result, shutdown_requested)
            == Some(GraphErrorView::<E>::ActorStopped { actor_id }),
        exit_failure(actor_id, result, shutdown_requested) matches Some(failure)
            ==> cause_of_error(failure) == cause_of_status(exit_status(result, shutdown_requested)),
        exit_failure(actor_id, result, shutdown_requested) is None ==> cause_of_status(
            exit_status(result, shutdown_requested),
        ) == GraphShutdownCause::External,
{
}

/// Each way to leave is a cause of its own, under the status and under the
/// error alike; everything else counts as external.
pub proof fn causes_tell_exits_apart<E>(status: ActorExitStatus, error: GraphErrorView<E>)
    ensures
        cause_of_status(status) == GraphShutdownCause::External <==> status
            == ActorExitStatus::Shutdown,
        cause_of_status(status) == GraphShutdownCause::ActorStopped <==> status
            == ActorExitStatus::Stopped,
        cause_of_status(status) == GraphShutdownCause::ActorFailed <==> status
            == ActorExitStatus::Failed,
        cause_of_status(status) == GraphShutdownCause::ActorPanicked <==> status
            == ActorExitStatus::Panicked,
        cause_of_status(status) == GraphShutdownCause::ActorCancelled <==> status
            == ActorExitStatus::Cancelled,
        cause_of_error(error) == GraphShutdownCause::ActorStopped <==> error is ActorStopped,
        cause_of_error(error) == GraphShutdownCause::ActorFailed <==> error is ActorFailed,
        cause_of_error(error) == GraphShutdownCause::ActorPanicked <==> error is ActorPanicked,
        cause_of_error(error) == GraphShutdownCause::ActorCancelled <==> error is ActorCancelled,
        cause_of_error(error) == GraphShutdownCause::External <==> error is AlreadyRunning
            || error is InvalidState,
{
}

/// The description of a lost driving task ends with what the loss displays as,
/// and says whether it was a panic.
pub proof fn lost_drives_are_described(panicked: bool, text: Seq<char>)
    ensures
        ({
            let detail = join_detail(panicked, text);
            let front = detail.take(detail.len() - text.len());
            &&& detail.len() >= text.len()
            &&& detail.skip(detail.len() - text.len()) == text
            &&& front == if panicked {
                "graph drive task panicked: "@
            } else {
                "graph drive task was cancelled: "@
            }
        }),
{
    let front = if panicked {
        "graph drive task panicked: "@
    } else {
        "graph drive task was cancelled: "@
    };
    let detail = join_detail(panicked, text);
    assert(detail.skip(front.len() as int) =~= text);
    assert(detail.take(front.len() as int) =~= front);
}

/// A run is reported as failed exactly where it failed, with the text of its
/// error, and in either case with the time it took.
pub proof fn reports_show_how_runs_ended<E>(
    graph: Seq<char>,
    duration: TimeSpan,
    result: Result<(), GraphError<E>>,
)
    ensures
        ({
            let report = stopped_report(graph, duration, result);
            let fields = report.log.fields;
            &&& report.log.level == (if result is Ok {
                crate::observability::Level::Info
            } else {
                crate::observability::Level::Warn
            })
            &&& fields[0] == ("graph"@, crate::observability::FieldValueView::Text(graph))
            &&& fields.last() == (
                "duration_secs"@,
                crate::observability::FieldValueView::Seconds(duration),
            )
            &&& result is Ok ==> fields.len() == 3
            &&& result matches Err(error) ==> fields.len() == 4 && fields[2] == (
                "error"@,
                crate::observability::FieldValueView::Text(error@.text()),
            )
        }),
{
}

/// An id is found at the first actor that has it, and only there.
pub proof fn actors_are_found_at_their_index<B, R>(
    graph: &Graph<B, R>,
    actor_id: &str,
    found: Option<usize>,
)
    requires
        call_ensures(Graph::<B, R>::index_of, (graph, actor_id), found),
    ensures
        found is Some <==> exists|i: int|
            0 <= i < graph@.actors.len() && (#[trigger] graph@.actors[i]).actor_id == actor_id@,
        found matches Some(index) ==> {
            &&& index < graph@.actors.len()
            &&& graph@.actors[index as int].actor_id == actor_id@
            &&& forall|i: int|
                0 <= i < index ==> (#[trigger] graph@.actors[i]).actor_id != actor_id@
        },
{
    if exists|i: int|
        0 <= i < graph@.actors.len() && (#[trigger] graph@.actors[i]).actor_id == actor_id@ {
        let first = first_with_id(graph@.actors, actor_id@);
        ids_are_placed_at_their_first_actor(graph@.actors, actor_id@, first);
    } else {
        ids_are_placed_at_their_first_actor(
            graph@.actors,
            actor_id@,
            graph@.actors.len() as int,
        );
    }
}

/// The index of the first actor with the id.
pub(crate) proof fn first_with_id<B, R>(
    actors: Seq<GraphActorView<B, R>>,
    actor_id: Seq<char>,
) -> (first: int)
    requires
        exists|i: int| 0 <= i < actors.len() && (#[trigger] actors[i]).actor_id == actor_id,
    ensures
        0 <= first < actors.len(),
        actors[first].actor_id == actor_id,
        forall|i: int| 0 <= i < first ==> (#[trigger] actors[i]).actor_id != actor_id,
    decreases actors.len(),
{
    let some = choose|i: int|
        0 <= i < actors.len() && (#[trigger] actors[i]).actor_id == actor_id;
    let before = actors.take(some);
    if exists|i: int| 0 <= i < before.len() && (#[trigger] before[i]).actor_id == actor_id {
        let first = first_with_id(before, actor_id);
        assert(actors[first] == before[first]);
        assert forall|i: int| 0 <= i < first implies (#[trigger] actors[i]).actor_id
            != actor_id by {
            assert(before[i] == actors[i]);
        }
        first
    } else {
        assert forall|i: int| 0 <= i < some implies (#[trigger] actors[i]).actor_id
            != actor_id by {
            assert(before[i] == actors[i]);
        }
        some
    }
}

/// A reference is handed out for an id exactly where the first actor with that
/// id takes messages of the requested type, and it is that actor's binding.
pub proof fn references_fit_their_actor<B, R>(
    graph: &Graph<B, R>,
    actor_id: &str,
    requested: MessageType,
    index: int,
    found: Result<&B, LookupError>,
)
    requires
        call_ensures(Graph::<B, R>::actor_ref, (graph, actor_id, requested), found),
        0 <= index <= graph@.actors.len(),
        forall|i: int| 0 <= i < index ==> (#[trigger] graph@.actors[i]).actor_id != actor_id@,
        index < graph@.actors.len() ==> graph@.actors[index].actor_id == actor_id@,
    ensures
        found is Ok <==> index < graph@.actors.len() && graph@.actors[index].message_type.key
            == requested.key,
        found is Ok ==> *found->Ok_0 == graph@.actors[index].binding,
        index == graph@.actors.len() ==> found is Err && found->Err_0@ == (
        LookupErrorView::UnknownActor { actor_id: actor_id@ }),
        index < graph@.actors.len() && found is Err ==> found->Err_0@ == (
        LookupErrorView::MessageTypeMismatch {
            actor_id: actor_id@,
            registered: graph@.actors[index].message_type.name@,
            requested: requested.name@,
        }),
{
    ids_are_placed_at_their_first_actor(graph@.actors, actor_id@, index);
}

/// A graph runs once at a time: while it runs it is not started again, and once
/// the run ended it can be started anew.
pub proof fn graphs_run_once_at_a_time<B, R, E>(
    starting: &mut Graph<B, R>,
    restarting: &mut Graph<B, R>,
    ending: &mut Graph<B, R>,
    resuming: &mut Graph<B, R>,
    started: Result<(), GraphError<E>>,
    restarted: Result<(), GraphError<E>>,
    done: (),
    resumed: Result<(), GraphError<E>>,
)
    requires
        call_ensures(Graph::<B, R>::begin_run::<E>, (starting,), started),
        started is Ok,
        *old(restarting) == *final(starting),
        call_ensures(Graph::<B, R>::begin_run::<E>, (restarting,), restarted),
        *old(ending) == *final(restarting),
        call_ensures(Graph::<B, R>::end_run, (ending,), done),
        *old(resuming) == *final(ending),
        call_ensures(Graph::<B, R>::begin_run::<E>, (resuming,), resumed),
    ensures
        restarted is Err && restarted->Err_0@ is AlreadyRunning,
        final(restarting)@ == final(starting)@,
        resumed is Ok,
        final(resuming)@ == final(starting)@,
        final(ending)@ == old(starting)@,
{
    claims_change_the_state_alone(
        old(starting)@,
        final(starting)@,
        GraphState::Running,
        started,
    );
    claims_change_the_state_alone(
        old(restarting)@,
        final(restarting)@,
        GraphState::Running,
        restarted,
    );
    claims_change_the_state_alone(
        old(resuming)@,
        final(resuming)@,
        GraphState::Running,
        resumed,
    );
}

/// A graph that was taken apart is neither run nor taken apart again.
pub proof fn decomposed_graphs_do_not_run<B, R, E>(
    splitting: &mut Graph<B, R>,
    starting: &mut Graph<B, R>,
    again: &mut Graph<B, R>,
    split: Result<(), GraphError<E>>,
    started: Result<(), GraphError<E>>,
    repeated: Result<(), GraphError<E>>,
)
    requires
        call_ensures(Graph::<B, R>::mark_decomposed::<E>, (splitting,), split),
        split is Ok,
        *old(starting) == *final(splitting),
        call_ensures(Graph::<B, R>::begin_run::<E>, (starting,), started),
        *old(again) == *final(starting),
        call_ensures(Graph::<B, R>::mark_decomposed::<E>, (again,), repeated),
    ensures
        old(splitting)@.state == GraphState::Idle,
        started is Err && started->Err_0@ is InvalidState,
        repeated is Err && repeated->Err_0@ is InvalidState,
        final(again)@ == final(splitting)@,
        final(splitting)@.actors == old(splitting)@.actors,
{
}

/// What an actor's exit is reported as and whether it fails its run agree: an
/// error always fails it and keeps its source, a return fails it unless shutdown
/// was requested.
pub proof fn exits_fail_runs_as_reported<E>(
    exit: ActorTaskExit<E>,
    shutdown_requested: bool,
    status: ActorExitStatus,
    failure: Option<GraphError<E>>,
)
    requires
        call_ensures(ActorTaskExit::<E>::status, (&exit, shutdown_requested), status),
        call_ensures(classify_actor_exit::<E>, (exit, shutdown_requested), failure),
    ensures
        failure is None <==> exit.result is Ok && shutdown_requested,
        failure is None <==> status is Shutdown,
        exit.result matches Err(source) ==> status is Failed && failure is Some
            && failure.unwrap()@ == (GraphErrorView::ActorFailed {
            actor_id: exit.actor_id@,
            source,
        }),
        exit.result is Ok && !shutdown_requested ==> status is Stopped && failure is Some
            && failure.unwrap()@ == (GraphErrorView::<E>::ActorStopped {
            actor_id: exit.actor_id@,
        }),
{
    exits_are_judged_alike(exit.actor_id@, exit.result, shutdown_requested);
}

/// Who waits for a run gets the run's own result; where its task was lost, an
/// invalid state that ends with what was lost.
pub proof fn waiting_gives_the_runs_result<E>(
    joined: Result<Result<(), GraphError<E>>, JoinFailure>,
    result: Result<(), GraphError<E>>,
)
    requires
        call_ensures(wait_result::<E>, (joined,), result),
    ensures
        joined is Ok ==> result == joined->Ok_0,
        joined matches Err(failure) ==> {
            &&& result is Err
            &&& result->Err_0@ is InvalidState
            &&& result->Err_0@->InvalidState_detail == (if failure.panicked {
                "graph drive task panicked: "@
            } else {
                "graph drive task was cancelled: "@
            }) + failure.text@
        },
{
    if let Err(failure) = joined {
        lost_drives_are_described(failure.panicked, failure.text@);
        let detail = join_detail(failure.panicked, failure.text@);
        let n = detail.len() - failure.text@.len();
        assert(detail =~= detail.take(n) + detail.skip(n));
    }
}

/// A graph shows its parts, and gives them away as it shows them.
pub proof fn graphs_show_their_parts<B, R>(
    graph: Graph<B, R>,
    name: &str,
    actors: &Vec<GraphActor<B, R>>,
    capacity: usize,
    timeout: TimeSpan,
    parts: (String, Vec<GraphActor<B, R>>, usize, TimeSpan),
    index: int,
)
    requires
        call_ensures(Graph::<B, R>::name, (&graph,), name),
        call_ensures(Graph::<B, R>::actors, (&graph,), actors),
        call_ensures(Graph::<B, R>::mailbox_capacity, (&graph,), capacity),
        call_ensures(Graph::<B, R>::actor_shutdown_timeout, (&graph,), timeout),
        call_ensures(Graph::<B, R>::into_parts, (graph,), parts),
    ensures
        name@ == graph@.name,
        parts.0@ == name@,
        actors@.len() == graph@.actors.len(),
        parts.1@.len() == actors@.len(),
        0 <= index < graph@.actors.len() ==> actors@[index]@ == graph@.actors[index]
            && parts.1@[index]@ == graph@.actors[index],
        capacity == graph@.mailbox_capacity,
        parts.2 == capacity,
        timeout == graph@.actor_shutdown_timeout,
        parts.3 == timeout,
{
    let shown = actors@.map_values(|actor: GraphActor<B, R>| actor@);
    let given = parts.1@.map_values(|actor: GraphActor<B, R>| actor@);
    assert(shown == graph@.actors && given == graph@.actors);
    if 0 <= index < graph@.actors.len() {
        assert(shown[index] == actors@[index]@);
        assert(given[index] == parts.1@[index]@);
    }
}

/// What stops the actors after an exit or an error is named like it, and a run's
/// report is a warning exactly where the run failed.
pub proof fn causes_are_named_like_exits<E>(
    exit: ActorTaskExit<E>,
    shutdown_requested: bool,
    cause: GraphShutdownCause,
    error: GraphError<E>,
    blamed: GraphShutdownCause,
    observability: &GraphObservability,
    duration: TimeSpan,
    result: Result<(), GraphError<E>>,
    emission: Emission,
)
    requires
        call_ensures(ActorTaskExit::<E>::shutdown_cause, (&exit, shutdown_requested), cause),
        call_ensures(graph_shutdown_cause_for_error::<E>, (&error,), blamed),
        call_ensures(emit_graph_stopped::<E>, (observability, duration, &result), emission),
    ensures
        exit.result is Err ==> cause == GraphShutdownCause::ActorFailed,
        exit.result is Ok && !shutdown_requested ==> cause == GraphShutdownCause::ActorStopped,
        exit.result is Ok && shutdown_requested ==> cause == GraphShutdownCause::External,
        error@ is ActorStopped ==> blamed == GraphShutdownCause::ActorStopped,
        error@ is ActorFailed ==> blamed == GraphShutdownCause::ActorFailed,
        error@ is ActorPanicked ==> blamed == GraphShutdownCause::ActorPanicked,
        error@ is ActorCancelled ==> blamed == GraphShutdownCause::ActorCancelled,
        emission@.log.level == (if result is Ok {
            crate::observability::Level::Info
        } else {
            crate::observability::Level::Warn
        }),
        result is Err ==> emission@.log.fields[2] == (
            "error"@,
            crate::observability::FieldValueView::Text(result->Err_0@.text()),
        ),
{
    exits_are_judged_alike(exit.actor_id@, exit.result, shutdown_requested);
    causes_tell_exits_apart::<E>(exit_status(exit.result, shutdown_requested), error@);
    reports_show_how_runs_ended(observability@.graph_name, duration, result);
}

/// A handle names its graph, and asking it to shut down cancels the token that it
/// hands out.
pub proof fn handles_stop_their_graph(
    graph_name: &str,
    handle: GraphHandle,
    name: &str,
    token: CancellationToken,
    done: Cancellation,
)
    requires
        call_ensures(GraphHandle::new, (graph_name,), handle),
        call_ensures(GraphHandle::graph_name, (&handle,), name),
        call_ensures(GraphHandle::stop_token, (&handle,), token),
        call_ensures(GraphHandle::shutdown, (&handle,), done),
    ensures
        name@ == graph_name@,
        done.of() == token,
{
}

} // verus!
