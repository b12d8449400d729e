//! Typed graphs and the rules of their runs.
use tokio_util::sync::CancellationToken;
use vstd::prelude::*;
use crate::error::Fault;
use crate::graph::{looked_up, position, GraphActor, GraphActorView, MessageType};
use crate::sync::{token_clone, token_new, StopSwitch};
use crate::tasks::{task_owner, TaskTable};
use crate::text::same_text;
use crate::typed::error::{GraphError, GraphErrorView, LookupError, LookupErrorView};

verus! {

/// Graph spec that can be rerun.
///
/// Typed refs minted by the builder, or looked up here, stay valid across
/// reruns of the same graph.
#[derive(Debug)]
pub struct Graph<B, R> {
    name: String,
    mailbox_capacity: usize,
    actors: Vec<GraphActor<B, R>>,
}

/// What a [`Graph`] holds.
#[verifier::ext_equal]
pub struct GraphView<B, R> {
    pub name: Seq<char>,
    pub mailbox_capacity: usize,
    pub actors: Seq<GraphActorView<B, R>>,
}

impl<B, R> View for Graph<B, R> {
    type V = GraphView<B, R>;

    closed spec fn view(&self) -> GraphView<B, R> {
        GraphView {
            name: self.name@,
            mailbox_capacity: self.mailbox_capacity,
            actors: self.actors@.map_values(|actor: GraphActor<B, R>| actor@),
        }
    }
}

impl<B, R> Graph<B, R> {
    pub(crate) fn new(
        name: String,
        mailbox_capacity: usize,
        actors: Vec<GraphActor<B, R>>,
    ) -> (graph: Self)
        ensures
            graph@ == (GraphView {
                name: name@,
                mailbox_capacity,
                actors: actors@.map_values(|actor: GraphActor<B, R>| actor@),
            }),
    {
        Graph { name, mailbox_capacity, actors }
    }

    /// Returns the graph name.
    pub fn name(&self) -> (name: &str)
        ensures
            name@ == self@.name,
    {
        self.name.as_str()
    }

    /// Returns the mailbox capacity of every actor.
    pub fn mailbox_capacity(&self) -> (capacity: usize)
        ensures
            capacity == self@.mailbox_capacity,
    {
        self.mailbox_capacity
    }

    /// Returns the actors in definition order.
    pub fn actors(&self) -> (actors: &Vec<GraphActor<B, R>>)
        ensures
            actors@.map_values(|actor: GraphActor<B, R>| actor@) == self@.actors,
    {
        &self.actors
    }

    /// Returns the binding of the actor with the given id, provided that its
    /// message type is the requested one.
    pub fn actor_ref(&self, actor_id: &str, requested: MessageType) -> (found: Result<
        &B,
        LookupError,
    >)
        ensures
            match found {
                Ok(binding) => looked_up(self@.actors, actor_id@, requested) == Ok::<
                    B,
                    LookupErrorView,
                >(*binding),
                Err(error) => looked_up(self@.actors, actor_id@, requested) == Err::<
                    B,
                    LookupErrorView,
                >(error@),
            },
    {
        let mut index: usize = 0;
        while index < self.actors.len()
            invariant
                index <= self.actors@.len(),
                self@.actors.len() == self.actors@.len(),
                position(self@.actors, actor_id@, 0) == position(
                    self@.actors,
                    actor_id@,
                    index as int,
                ),
            decreases self.actors@.len() - index,
        {
            let actor = &self.actors[index];
            assert(self@.actors[index as int] == actor@);
            if same_text(actor.actor_id.as_str(), actor_id) {
                if actor.message_type.key != requested.key {
                    return Err(
                        LookupError::MessageTypeMismatch {
                            actor_id: actor_id.to_owned(),
                            registered: actor.message_type.name,
                            requested: requested.name,
                        },
                    );
                }
                return Ok(&actor.binding);
            }
            index += 1;
        }
        Err(LookupError::UnknownActor { actor_id: actor_id.to_owned() })
    }
}

// ---------------------------------------------------------------------------
// Runs
// ---------------------------------------------------------------------------

/// How an actor task left the run.
#[derive(Debug)]
pub enum Joined<E> {
    /// The actor returned.
    Returned { task: u64, result: Result<(), Fault<E>> },
    /// The actor panicked.
    Panicked { task: u64 },
    /// The task was cancelled, which displays as this error.
    Cancelled { task: u64, source: Fault<E> },
}

/// One run of a typed graph.
///
/// At first it waits for shutdown or for the first actor that leaves; then it
/// tells all actors to stop and waits for the rest of them.
pub struct GraphRun<E> {
    shutdown: StopSwitch,
    tasks: TaskTable,
    first_error: Option<GraphError<E>>,
}

/// Where a run stands.
pub struct GraphRunView<E> {
    /// The actors of the run, by task.
    pub tasks: Map<u64, Seq<char>>,
    /// Whether the actors were told to stop: the token that stops them was
    /// cancelled.
    pub stopping: bool,
    /// The error that the run will report.
    pub first_error: Option<GraphErrorView<E>>,
}

impl<E> View for GraphRun<E> {
    type V = GraphRunView<E>;

    closed spec fn view(&self) -> GraphRunView<E> {
        GraphRunView {
            tasks: self.tasks@,
            stopping: self.shutdown.is_thrown(),
            first_error: match self.first_error {
                Some(error) => Some(error@),
                None => None,
            },
        }
    }
}

/// The error that the first actor to leave means for a run that nobody asked
/// to shut down: there is always one.
pub open spec fn early_error<E>(tasks: Map<u64, Seq<char>>, joined: Joined<E>) -> GraphErrorView<E> {
    match joined {
        Joined::Returned { task, result: Ok(_) } => GraphErrorView::ActorExitedEarly {
            actor_id: task_owner(tasks, task),
        },
        Joined::Returned { task, result: Err(source) } => GraphErrorView::ActorFailed {
            actor_id: task_owner(tasks, task),
            source,
        },
        Joined::Panicked { task } => GraphErrorView::ActorPanicked {
            actor_id: task_owner(tasks, task),
        },
        Joined::Cancelled { task, source } => GraphErrorView::ActorFailed {
            actor_id: task_owner(tasks, task),
            source,
        },
    }
}

/// The error that an actor means which leaves after all were told to stop:
/// errors and panics count, clean exits and cancellations do not.
pub open spec fn late_error<E>(tasks: Map<u64, Seq<char>>, joined: Joined<E>) -> Option<
    GraphErrorView<E>,
> {
    match joined {
        Joined::Returned { task, result: Err(source) } => Some(
            GraphErrorView::ActorFailed { actor_id: task_owner(tasks, task), source },
        ),
        Joined::Panicked { task } => Some(
            GraphErrorView::ActorPanicked { actor_id: task_owner(tasks, task) },
        ),
        _ => None,
    }
}

/// The run after an actor left.
pub open spec fn run_after_exit<E>(run: GraphRunView<E>, joined: Joined<E>) -> GraphRunView<E> {
    GraphRunView {
        stopping: true,
        first_error: if !run.stopping {
            Some(early_error(run.tasks, joined))
        } else if run.first_error is Some {
            run.first_error
        } else {
            late_error(run.tasks, joined)
        },
        ..run
    }
}

impl<E> GraphRun<E> {
    /// A run that has just begun, with no actor started yet.
    pub fn new() -> (run: Self)
        ensures
            run@ == (GraphRunView::<E> { tasks: Map::empty(), stopping: false, first_error: None }),
    {
        GraphRun {
            shutdown: StopSwitch::new(token_new().into_token()),
            tasks: TaskTable::new(),
            first_error: None,
        }
    }

    /// The shutdown token that all actors of the run share.
    pub closed spec fn shared_token(self) -> CancellationToken {
        self.shutdown.token()
    }

    /// Returns the shutdown token that all actors of the run share.
    pub fn actor_token(&self) -> (token: CancellationToken)
        ensures
            token == self.shared_token(),
    {
        token_clone(self.shutdown.get())
    }

    /// Records the task that an actor was started in.
    pub fn actor_spawned(&mut self, task: u64, actor_id: &str)
        ensures
            final(self)@ == (GraphRunView {
                tasks: old(self)@.tasks.insert(task, actor_id@),
                ..old(self)@
            }),
            final(self).shared_token() == old(self).shared_token(),
    {
        self.tasks.insert(task, actor_id);
    }

    /// Whether shutdown is still waited for.
    pub fn awaits_shutdown(&self) -> (awaits: bool)
        ensures
            awaits == !self@.stopping,
    {
        !self.shutdown.thrown()
    }

    /// Shutdown was requested: tells the actors to stop.
    pub fn on_shutdown(&mut self)
        ensures
            final(self)@ == (GraphRunView { stopping: true, ..old(self)@ }),
            final(self).shared_token() == old(self).shared_token(),
    {
        self.shutdown.throw();
    }

    fn early_failure(&self, joined: Joined<E>) -> (error: GraphError<E>)
        ensures
            error@ == early_error(self@.tasks, joined),
    {
        match joined {
            Joined::Returned { task, result: Ok(()) } => {
                GraphError::ActorExitedEarly { actor_id: self.tasks.owner(task) }
            },
            Joined::Returned { task, result: Err(source) } => {
                GraphError::ActorFailed { actor_id: self.tasks.owner(task), source }
            },
            Joined::Panicked { task } => {
                GraphError::ActorPanicked { actor_id: self.tasks.owner(task) }
            },
            Joined::Cancelled { task, source } => {
                GraphError::ActorFailed { actor_id: self.tasks.owner(task), source }
            },
        }
    }

    fn late_failure(&self, joined: Joined<E>) -> (error: Option<GraphError<E>>)
        ensures
            match late_error(self@.tasks, joined) {
                None => error is None,
                Some(expected) => error matches Some(found) && found@ == expected,
            },
    {
        match joined {
            Joined::Returned { task, result: Err(source) } => {
                Some(GraphError::ActorFailed { actor_id: self.tasks.owner(task), source })
            },
            Joined::Panicked { task } => {
                Some(GraphError::ActorPanicked { actor_id: self.tasks.owner(task) })
            },
            _ => None,
        }
    }

    /// An actor left the run. The first one to leave before shutdown was
    /// requested fails the run, and all others are told to stop.
    pub fn on_joined(&mut self, joined: Joined<E>)
        ensures
            final(self)@ == run_after_exit(old(self)@, joined),
            final(self).shared_token() == old(self).shared_token(),
    {
        if !self.shutdown.thrown() {
            let error = self.early_failure(joined);
            self.first_error = Some(error);
            self.shutdown.throw();
        } else if self.first_error.is_none() {
            self.first_error = self.late_failure(joined);
        }
    }

    /// The result of the run, once every actor has left it.
    pub fn finish(self) -> (result: Result<(), GraphError<E>>)
        ensures
            match self@.first_error {
                None => result is Ok,
                Some(expected) => result matches Err(error) && error@ == expected,
            },
    {
        match self.first_error {
            Some(error) => Err(error),
            None => Ok(()),
        }
    }
}

/// The run after a sequence of exits.
pub open spec fn run_after_exits<E>(run: GraphRunView<E>, exits: Seq<Joined<E>>) -> GraphRunView<E>
    decreases exits.len(),
{
    if exits.len() == 0 {
        run
    } else {
        run_after_exit(run_after_exits(run, exits.drop_last()), exits.last())
    }
}

/// A run that was asked to shut down before any actor left succeeds exactly
/// when no actor fails or panics on the way out.
pub proof fn shutdown_reports_failures_only<E>(run: GraphRunView<E>, exits: Seq<Joined<E>>)
    requires
        run.stopping,
        run.first_error is None,
    ensures
        run_after_exits(run, exits).first_error is None <==> (forall|i: int|
            0 <= i < exits.len() ==> late_error(run.tasks, #[trigger] exits[i]) is None),
        run_after_exits(run, exits).stopping,
        run_after_exits(run, exits).tasks == run.tasks,
    decreases exits.len(),
{
    if exits.len() > 0 {
        let rest = exits.drop_last();
        shutdown_reports_failures_only(run, rest);
        if forall|i: int|
            0 <= i < exits.len() ==> late_error(run.tasks, #[trigger] exits[i]) is None {
            assert forall|i: int| 0 <= i < rest.len() implies late_error(
                run.tasks,
                #[trigger] rest[i],
            ) is None by {
                assert(rest[i] == exits[i]);
            }
            assert(late_error(run.tasks, exits[exits.len() - 1]) is None);
        } else if late_error(run.tasks, exits.last()) is None {
            let i = choose|i: int|
                0 <= i < exits.len() && !(late_error(run.tasks, #[trigger] exits[i]) is None);
            assert(i < rest.len());
            assert(late_error(run.tasks, rest[i]) is Some);
        }
    }
}

/// A run whose first actor leaves before shutdown was requested fails with
/// that exit, whatever the other actors do afterwards.
pub proof fn the_first_exit_decides<E>(run: GraphRunView<E>, exits: Seq<Joined<E>>)
    requires
        !run.stopping,
        exits.len() > 0,
    ensures
        run_after_exits(run, exits).first_error == Some(early_error(run.tasks, exits[0])),
        run_after_exits(run, exits).stopping,
    decreases exits.len(),
{
    let rest = exits.drop_last();
    if rest.len() > 0 {
        the_first_exit_decides(run, rest);
        assert(rest[0] == exits[0]);
    } else {
        assert(run_after_exits(run, rest) == run);
    }
}

/// The first actor that leaves a run which nobody asked to shut down fails it:
/// with its error, its panic, the cancellation of its task, or for leaving
/// early. The failure names the actor of the task.
pub proof fn early_exits_name_their_actor<E>(
    run: GraphRunView<E>,
    task: u64,
    source: Fault<E>,
    actor_id: Seq<char>,
)
    requires
        !run.stopping,
        run.tasks.dom().contains(task),
        run.tasks[task] == actor_id,
    ensures
        run_after_exit(run, Joined::Returned { task, result: Ok(()) }).first_error == Some(
            GraphErrorView::<E>::ActorExitedEarly { actor_id },
        ),
        run_after_exit(run, Joined::Returned { task, result: Err(source) }).first_error == Some(
            GraphErrorView::ActorFailed { actor_id, source },
        ),
        run_after_exit(run, Joined::Panicked { task }).first_error == Some(
            GraphErrorView::<E>::ActorPanicked { actor_id },
        ),
        run_after_exit(run, Joined::Cancelled { task, source }).first_error == Some(
            GraphErrorView::ActorFailed { actor_id, source },
        ),
        run_after_exit(run, Joined::Panicked { task }).stopping,
        run_after_exit(run, Joined::Panicked { task }).tasks == run.tasks,
{
}

/// After the actors were told to stop, an error and a panic still fail the run,
/// unless it failed before; a clean exit and a cancellation do not.
pub proof fn late_errors_fail_the_run<E>(
    run: GraphRunView<E>,
    task: u64,
    source: Fault<E>,
    actor_id: Seq<char>,
)
    requires
        run.stopping,
        run.tasks.dom().contains(task),
        run.tasks[task] == actor_id,
    ensures
        ({
            let after = |joined: Joined<E>| run_after_exit(run, joined).first_error;
            &&& run.first_error is Some ==> after(Joined::Returned { task, result: Ok(()) })
                == run.first_error && after(Joined::Returned { task, result: Err(source) })
                == run.first_error && after(Joined::Panicked { task }) == run.first_error && after(
                Joined::Cancelled { task, source },
            ) == run.first_error
            &&& run.first_error is None ==> after(Joined::Returned { task, result: Ok(()) }) is None
                && after(Joined::Cancelled { task, source }) is None && after(
                Joined::Returned { task, result: Err(source) },
            ) == Some(GraphErrorView::ActorFailed { actor_id, source }) && after(
                Joined::Panicked { task },
            ) == Some(GraphErrorView::<E>::ActorPanicked { actor_id })
        }),
{
}

/// An actor that ends while the run is not stopping stops it; no end forgets an
/// actor or takes a stop back.
pub proof fn exits_stop_the_run<E>(run: &mut GraphRun<E>, joined: Joined<E>, done: ())
    requires
        call_ensures(GraphRun::<E>::on_joined, (run, joined), done),
    ensures
        final(run)@.stopping,
        final(run)@.tasks == old(run)@.tasks,
        !old(run)@.stopping ==> final(run)@.first_error is Some,
        old(run)@.stopping && old(run)@.first_error is Some ==> final(run)@.first_error
            == old(run)@.first_error,
{
}

/// How a run that ends after one more actor ended ends: a failure from before is
/// kept; an error or a panic fails the run at any time; and before it was
/// stopping, every end of an actor fails it.
pub proof fn runs_end_with_the_first_error<E>(
    run: &mut GraphRun<E>,
    joined: Joined<E>,
    done: (),
    result: Result<(), GraphError<E>>,
)
    requires
        call_ensures(GraphRun::<E>::on_joined, (run, joined), done),
        call_ensures(GraphRun::<E>::finish, (*final(run),), result),
        old(run)@.first_error is Some ==> old(run)@.stopping,
    ensures
        old(run)@.first_error matches Some(error) ==> result is Err && result->Err_0@ == error,
        old(run)@.first_error is None ==> match joined {
            Joined::Returned { task, result: returned } => match returned {
                Ok(_) => if old(run)@.stopping {
                    result is Ok
                } else {
                    result is Err && result->Err_0@ is ActorExitedEarly && (
                    old(run)@.tasks.dom().contains(task) ==> result->Err_0@
                        == (GraphErrorView::<E>::ActorExitedEarly {
                        actor_id: old(run)@.tasks[task],
                    }))
                },
                Err(source) => result is Err && result->Err_0@ is ActorFailed && (
                old(run)@.tasks.dom().contains(task) ==> result->Err_0@
                    == (GraphErrorView::ActorFailed {
                    actor_id: old(run)@.tasks[task],
                    source,
                })),
            },
            Joined::Panicked { task } => result is Err && result->Err_0@ is ActorPanicked && (
            old(run)@.tasks.dom().contains(task) ==> result->Err_0@
                == (GraphErrorView::<E>::ActorPanicked { actor_id: old(run)@.tasks[task] })),
            Joined::Cancelled { task, source } => if old(run)@.stopping {
                result is Ok
            } else {
                result is Err && result->Err_0@ is ActorFailed && (
                old(run)@.tasks.dom().contains(task) ==> result->Err_0@
                    == (GraphErrorView::ActorFailed {
                    actor_id: old(run)@.tasks[task],
                    source,
                }))
            },
        },
{
}

/// A reference is handed out for an id exactly where the first actor with that
/// id takes messages of the requested type, and it is that actor's binding.
pub proof fn typed_references_fit_their_actor<B, R>(
    graph: &Graph<B, R>,
    actor_id: &str,
    requested: MessageType,
    index: int,
    found: Result<&B, LookupError>,
)
    requires
        call_ensures(Graph::<B, R>::actor_ref, (graph, actor_id, requested), found),
        0 <= index <= graph@.actors.len(),
        forall|i: int| 0 <= i < index ==> (#[trigger] graph@.actors[i]).actor_id != actor_id@,
        index < graph@.actors.len() ==> graph@.actors[index].actor_id == actor_id@,
    ensures
        found is Ok <==> index < graph@.actors.len() && graph@.actors[index].message_type.key
            == requested.key,
        found is Ok ==> *found->Ok_0 == graph@.actors[index].binding,
        index == graph@.actors.len() ==> found is Err && found->Err_0@
            == (LookupErrorView::UnknownActor { actor_id: actor_id@ }),
        index < graph@.actors.len() && found is Err ==> found->Err_0@
            == (LookupErrorView::MessageTypeMismatch {
            actor_id: actor_id@,
            registered: graph@.actors[index].message_type.name@,
            requested: requested.name@,
        }),
{
    crate::graph::ids_are_placed_at_their_first_actor(graph@.actors, actor_id@, index);
}

/// A run starts with no actor and no error and not stopping. It waits for a
/// request to shut down until its actors were told to stop, and knows each actor
/// by its task.
pub proof fn typed_runs_begin_clean<E>(
    fresh: GraphRun<E>,
    awaits: bool,
    spawning: &mut GraphRun<E>,
    task: u64,
    actor_id: &str,
    stopping: &mut GraphRun<E>,
    done: ((), ()),
    awaits_more: bool,
)
    requires
        call_ensures(GraphRun::<E>::new, (), fresh),
        call_ensures(GraphRun::<E>::awaits_shutdown, (&fresh,), awaits),
        call_ensures(GraphRun::<E>::actor_spawned, (spawning, task, actor_id), done.0),
        *old(stopping) == *final(spawning),
        call_ensures(GraphRun::<E>::on_shutdown, (stopping,), done.1),
        call_ensures(GraphRun::<E>::awaits_shutdown, (final(stopping),), awaits_more),
    ensures
        awaits,
        fresh@.first_error is None,
        !fresh@.stopping,
        fresh@.tasks.dom() =~= Set::empty(),
        final(spawning)@.tasks.dom().contains(task) && final(spawning)@.tasks[task] == actor_id@,
        final(spawning)@.stopping == old(spawning)@.stopping,
        final(spawning)@.first_error == old(spawning)@.first_error,
        !awaits_more,
        final(stopping)@.first_error == old(spawning)@.first_error,
        final(stopping)@.tasks == final(spawning)@.tasks,
{
}

} // verus!
