//! The decisions of one graph run, from the first actor that leaves to the
//! last.
use tokio_util::sync::CancellationToken;
use vstd::prelude::*;
use crate::error::{GraphError, GraphErrorView};
use crate::graph::{
    classify_actor_exit, graph_shutdown_cause_for_error, ActorTaskExit,
};
use crate::observability::{ActorExitStatus, GraphShutdownCause};
use crate::sync::{token_child, token_clone, token_new, StopSwitch};
use crate::tasks::TaskTable;

verus! {

/// How an actor task left the run.
#[derive(Debug)]
pub enum Joined<E> {
    /// The task returned.
    Returned { task: u64, exit: ActorTaskExit<E> },
    /// The task panicked.
    Panicked { task: u64 },
    /// The task was cancelled.
    Cancelled { task: u64 },
}

/// Something that happened during a run.
#[derive(Debug)]
pub enum DriveEvent<E> {
    /// An actor task left the run.
    Joined(Joined<E>),
    /// Shutdown was requested from outside.
    ShutdownRequested,
    /// The actors took longer than allowed to stop.
    DeadlineElapsed,
}

/// An actor that left the run, as it is reported.
#[derive(Debug)]
pub struct ExitNotice {
    pub actor_id: String,
    pub status: ActorExitStatus,
    pub error: Option<String>,
}

/// What an [`ExitNotice`] says.
pub struct ExitNoticeView {
    pub actor_id: Seq<char>,
    pub status: ActorExitStatus,
    pub error: Option<Seq<char>>,
}

impl View for ExitNotice {
    type V = ExitNoticeView;

    open spec fn view(&self) -> ExitNoticeView {
        ExitNoticeView {
            actor_id: self.actor_id@,
            status: self.status,
            error: crate::context::optional_text(self.error),
        }
    }
}

/// What the driver of a run does about an event, in this order.
#[derive(Debug)]
pub struct DriveStep {
    /// An exit to report.
    pub exited: Option<ExitNotice>,
    /// A shutdown to report. The actors were told to stop just now, so the
    /// time they may take begins to count.
    pub shutdown: Option<GraphShutdownCause>,
    /// Whether to abort all actors that still run.
    pub abort_all: bool,
}

/// What a [`DriveStep`] says.
pub struct DriveStepView {
    pub exited: Option<ExitNoticeView>,
    pub shutdown: Option<GraphShutdownCause>,
    pub abort_all: bool,
}

impl View for DriveStep {
    type V = DriveStepView;

    open spec fn view(&self) -> DriveStepView {
        DriveStepView {
            exited: match self.exited {
                Some(notice) => Some(notice@),
                None => None,
            },
            shutdown: self.shutdown,
            abort_all: self.abort_all,
        }
    }
}

/// One run of a graph.
pub struct GraphRuntime<E> {
    shutdown: StopSwitch,
    tasks: TaskTable,
    shutdown_requested: bool,
    aborted: bool,
    failure: Option<GraphError<E>>,
}

/// Where a run stands.
pub struct RunView<E> {
    /// The actors whose tasks still run, by task.
    pub tasks: Map<u64, Seq<char>>,
    /// Whether the actors were told to stop: the token that stops them was
    /// cancelled.
    pub stopping: bool,
    /// Whether shutdown was requested from outside.
    pub shutdown_requested: bool,
    /// Whether the remaining actors were aborted.
    pub aborted: bool,
    /// The failure that the run will report.
    pub failure: Option<GraphErrorView<E>>,
}

/// The view of an optional error.
pub open spec fn optional_error<E>(error: Option<GraphError<E>>) -> Option<GraphErrorView<E>> {
    match error {
        Some(error) => Some(error@),
        None => None,
    }
}

impl<E> View for GraphRuntime<E> {
    type V = RunView<E>;

    closed spec fn view(&self) -> RunView<E> {
        RunView {
            tasks: self.tasks@,
            stopping: self.shutdown.is_thrown(),
            shutdown_requested: self.shutdown_requested,
            aborted: self.aborted,
            failure: optional_error(self.failure),
        }
    }
}

// ---------------------------------------------------------------------------
// The rules
// ---------------------------------------------------------------------------

/// A run that has just begun.
pub open spec fn run_begun<E>() -> RunView<E> {
    RunView {
        tasks: Map::empty(),
        stopping: false,
        shutdown_requested: false,
        aborted: false,
        failure: None,
    }
}

/// What holds throughout a run: a run that was asked to shut down, that
/// aborted its actors or that failed has told its actors to stop.
pub open spec fn run_is_consistent<E>(run: RunView<E>) -> bool {
    &&& run.shutdown_requested ==> run.stopping
    &&& run.aborted ==> run.stopping
    &&& run.failure is Some ==> run.stopping
}

/// Whether the event can happen now: shutdown is requested once, and the
/// deadline runs from the moment that the actors were told to stop.
pub open spec fn run_expects<E>(run: RunView<E>, event: DriveEvent<E>) -> bool {
    match event {
        DriveEvent::Joined(_) => true,
        DriveEvent::ShutdownRequested => !run.shutdown_requested,
        DriveEvent::DeadlineElapsed => run.stopping && !run.aborted,
    }
}

/// The actor whose task left the run.
pub open spec fn leaver<E>(tasks: Map<u64, Seq<char>>, joined: Joined<E>) -> Seq<char> {
    match joined {
        Joined::Returned { exit, .. } => exit.actor_id@,
        Joined::Panicked { task } => crate::tasks::task_owner(tasks, task),
        Joined::Cancelled { task } => crate::tasks::task_owner(tasks, task),
    }
}

/// The task that left the run.
pub open spec fn left_task<E>(joined: Joined<E>) -> u64 {
    match joined {
        Joined::Returned { task, .. } => task,
        Joined::Panicked { task } => task,
        Joined::Cancelled { task } => task,
    }
}

/// How the exit is reported.
pub open spec fn exit_notice<E>(run: RunView<E>, joined: Joined<E>) -> ExitNoticeView {
    ExitNoticeView {
        actor_id: leaver(run.tasks, joined),
        status: match joined {
            Joined::Returned { exit, .. } => crate::graph::exit_status(
                exit.result,
                run.shutdown_requested,
            ),
            Joined::Panicked { .. } => ActorExitStatus::Panicked,
            Joined::Cancelled { .. } => ActorExitStatus::Cancelled,
        },
        error: match joined {
            Joined::Returned { exit, .. } => match exit.result {
                Ok(_) => None,
                Err(source) => Some(source.text@),
            },
            _ => None,
        },
    }
}

/// The failure that the exit means for the run, if any. A panic and an error
/// always are one; a clean return is one unless shutdown was requested; a
/// cancellation is one unless the run aborted its actors itself.
pub open spec fn joined_failure<E>(run: RunView<E>, joined: Joined<E>) -> Option<GraphErrorView<E>> {
    match joined {
        Joined::Returned { exit, .. } => crate::graph::exit_failure(
            exit.actor_id@,
            exit.result,
            run.shutdown_requested,
        ),
        Joined::Panicked { .. } => Some(
            GraphErrorView::ActorPanicked { actor_id: leaver(run.tasks, joined) },
        ),
        Joined::Cancelled { .. } => if run.aborted {
            None
        } else {
            Some(GraphErrorView::ActorCancelled { actor_id: leaver(run.tasks, joined) })
        },
    }
}

/// What a run becomes, and what is done about it, when an event happens.
pub open spec fn run_next<E>(run: RunView<E>, event: DriveEvent<E>) -> (RunView<E>, DriveStepView) {
    match event {
        DriveEvent::Joined(joined) => {
            let failure = joined_failure(run, joined);
            (
                RunView {
                    tasks: run.tasks.remove(left_task(joined)),
                    stopping: run.stopping || failure is Some,
                    failure: if run.failure is Some {
                        run.failure
                    } else {
                        failure
                    },
                    ..run
                },
                DriveStepView {
                    exited: Some(exit_notice(run, joined)),
                    shutdown: if failure is Some && !run.stopping {
                        Some(crate::graph::cause_of_error(failure.unwrap()))
                    } else {
                        None
                    },
                    abort_all: false,
                },
            )
        },
        DriveEvent::ShutdownRequested => (
            RunView { shutdown_requested: true, stopping: true, ..run },
            DriveStepView {
                exited: None,
                shutdown: if run.stopping {
                    None
                } else {
                    Some(GraphShutdownCause::External)
                },
                abort_all: false,
            },
        ),
        DriveEvent::DeadlineElapsed => (
            RunView { aborted: true, ..run },
            DriveStepView { exited: None, shutdown: None, abort_all: true },
        ),
    }
}

impl<E> GraphRuntime<E> {
    /// What holds of every value.
    #[verifier::type_invariant]
    pub closed spec fn is_valid(self) -> bool {
        run_is_consistent(self@)
    }

    /// A run that has just begun, with no actor started yet.
    pub fn new() -> (run: Self)
        ensures
            run@ == run_begun::<E>(),
            run_is_consistent(run@),
    {
        GraphRuntime {
            shutdown: StopSwitch::new(token_new().into_token()),
            tasks: TaskTable::new(),
            shutdown_requested: false,
            aborted: false,
            failure: None,
        }
    }

    /// The token that stops all actors of the run.
    pub closed spec fn stop_token(self) -> CancellationToken {
        self.shutdown.token()
    }

    /// A shutdown token for one actor of the run, made from the token that
    /// stops them all.
    pub fn actor_token(&self) -> (token: CancellationToken)
        ensures
            crate::sync::parent_token(token) == self.stop_token(),
    {
        token_child(self.shutdown.get())
    }

    /// Records the task that an actor was started in.
    pub fn actor_spawned(&mut self, task: u64, actor_id: &str)
        ensures
            run_is_consistent(final(self)@),
            final(self)@ == (RunView {
                tasks: old(self)@.tasks.insert(task, actor_id@),
                ..old(self)@
            }),
            final(self).stop_token() == old(self).stop_token(),
    {
        proof {
            use_type_invariant(&*self);
        }
        let mut tasks = TaskTable::new();
        std::mem::swap(&mut tasks, &mut self.tasks);
        tasks.insert(task, actor_id);
        self.tasks = tasks;
    }

    /// Whether the request for shutdown is still waited for.
    pub fn awaits_shutdown(&self) -> (awaits: bool)
        ensures
            awaits == !self@.shutdown_requested,
    {
        !self.shutdown_requested
    }

    /// Whether the deadline for the actors to stop is running.
    pub fn awaits_deadline(&self) -> (awaits: bool)
        ensures
            awaits == (self@.stopping && !self@.aborted),
    {
        self.shutdown.thrown() && !self.aborted
    }

    /// Tells the actors to stop, unless they were told before. Returns the
    /// cause where it is to be reported.
    fn request_shutdown(&mut self, cause: GraphShutdownCause) -> (reported: Option<
        GraphShutdownCause,
    >)
        ensures
            final(self)@ == (RunView { stopping: true, ..old(self)@ }),
            final(self).stop_token() == old(self).stop_token(),
            reported == if old(self)@.stopping {
                None
            } else {
                Some(cause)
            },
    {
        proof {
            use_type_invariant(&*self);
        }
        if self.shutdown.thrown() {
            return None;
        }
        self.shutdown = StopSwitch::cancelled(token_clone(self.shutdown.get()));
        Some(cause)
    }

    fn record_failure(&mut self, failure: GraphError<E>)
        requires
            old(self)@.stopping,
        ensures
            final(self)@ == (RunView {
                failure: if old(self)@.failure is Some {
                    old(self)@.failure
                } else {
                    Some(failure@)
                },
                ..old(self)@
            }),
            final(self).stop_token() == old(self).stop_token(),
    {
        proof {
            use_type_invariant(&*self);
        }
        if self.failure.is_none() {
            self.failure = Some(failure);
        }
    }

    fn take_task(&mut self, task: u64) -> (actor_id: String)
        ensures
            final(self)@ == (RunView { tasks: old(self)@.tasks.remove(task), ..old(self)@ }),
            final(self).stop_token() == old(self).stop_token(),
            actor_id@ == crate::tasks::task_owner(old(self)@.tasks, task),
    {
        proof {
            use_type_invariant(&*self);
        }
        let mut tasks = TaskTable::new();
        std::mem::swap(&mut tasks, &mut self.tasks);
        let actor_id = tasks.take(task);
        self.tasks = tasks;
        actor_id
    }

    /// Names the actor of a task that left, and how it left, by the task alone.
    fn classify_lost(&mut self, task: u64, panicked: bool) -> (lost: (GraphError<E>, ExitNotice))
        ensures
            final(self)@ == (RunView { tasks: old(self)@.tasks.remove(task), ..old(self)@ }),
            final(self).stop_token() == old(self).stop_token(),
            lost.0@ == if panicked {
                GraphErrorView::<E>::ActorPanicked {
                    actor_id: crate::tasks::task_owner(old(self)@.tasks, task),
                }
            } else {
                GraphErrorView::ActorCancelled {
                    actor_id: crate::tasks::task_owner(old(self)@.tasks, task),
                }
            },
            lost.1@ == (ExitNoticeView {
                actor_id: crate::tasks::task_owner(old(self)@.tasks, task),
                status: if panicked {
                    ActorExitStatus::Panicked
                } else {
                    ActorExitStatus::Cancelled
                },
                error: None,
            }),
    {
        let actor_id = self.take_task(task);
        let status = if panicked {
            ActorExitStatus::Panicked
        } else {
            ActorExitStatus::Cancelled
        };
        let notice = ExitNotice { actor_id: actor_id.clone(), status, error: None };
        let error = if panicked {
            GraphError::ActorPanicked { actor_id }
        } else {
            GraphError::ActorCancelled { actor_id }
        };
        (error, notice)
    }

    fn actor_returned(&mut self, task: u64, exit: ActorTaskExit<E>) -> (step: DriveStep)
        ensures
            run_is_consistent(final(self)@),
            (final(self)@, step@) == run_next(
                old(self)@,
                DriveEvent::Joined(Joined::Returned { task, exit }),
            ),
            final(self).stop_token() == old(self).stop_token(),
    {
        proof {
            use_type_invariant(&*self);
        }
        let _ = self.take_task(task);
        let status = exit.status(self.shutdown_requested);
        let error = match &exit.result {
            Ok(()) => None,
            Err(source) => Some(source.text.clone()),
        };
        let notice = ExitNotice { actor_id: exit.actor_id.clone(), status, error };
        let shutdown = if !self.shutdown_requested || exit.result.is_err() {
            let cause = exit.shutdown_cause(self.shutdown_requested);
            self.request_shutdown(cause)
        } else {
            None
        };
        if let Some(failure) = classify_actor_exit(exit, self.shutdown_requested) {
            self.record_failure(failure);
        }
        DriveStep { exited: Some(notice), shutdown, abort_all: false }
    }

    fn actor_lost(&mut self, task: u64, panicked: bool) -> (step: DriveStep)
        ensures
            run_is_consistent(final(self)@),
            (final(self)@, step@) == run_next(
                old(self)@,
                DriveEvent::Joined(
                    if panicked {
                        Joined::Panicked { task }
                    } else {
                        Joined::Cancelled { task }
                    },
                ),
            ),
            final(self).stop_token() == old(self).stop_token(),
    {
        proof {
            use_type_invariant(&*self);
        }
        let (error, notice) = self.classify_lost(task, panicked);
        if self.aborted && !panicked {
            return DriveStep { exited: Some(notice), shutdown: None, abort_all: false };
        }
        let cause = graph_shutdown_cause_for_error(&error);
        let shutdown = self.request_shutdown(cause);
        self.record_failure(error);
        DriveStep { exited: Some(notice), shutdown, abort_all: false }
    }

    /// Takes one event of the run and says what to do about it.
    pub fn drive(&mut self, event: DriveEvent<E>) -> (step: DriveStep)
        requires
            run_expects(old(self)@, event),
        ensures
            run_is_consistent(final(self)@),
            (final(self)@, step@) == run_next(old(self)@, event),
            final(self).stop_token() == old(self).stop_token(),
    {
        proof {
            use_type_invariant(&*self);
        }
        match event {
            DriveEvent::Joined(Joined::Returned { task, exit }) => self.actor_returned(task, exit),
            DriveEvent::Joined(Joined::Panicked { task }) => self.actor_lost(task, true),
            DriveEvent::Joined(Joined::Cancelled { task }) => self.actor_lost(task, false),
            DriveEvent::ShutdownRequested => {
                let shutdown = self.request_shutdown(GraphShutdownCause::External);
                self.shutdown_requested = true;
                DriveStep { exited: None, shutdown, abort_all: false }
            },
            DriveEvent::DeadlineElapsed => {
                self.aborted = true;
                DriveStep { exited: None, shutdown: None, abort_all: true }
            },
        }
    }

    /// The result of the run, once every actor has left it.
    pub fn finish(self) -> (result: Result<(), GraphError<E>>)
        ensures
            match self@.failure {
                None => result is Ok,
                Some(failure) => result matches Err(error) && error@ == failure,
            },
    {
        match self.failure {
            Some(error) => Err(error),
            None => Ok(()),
        }
    }
}

// ---------------------------------------------------------------------------
// What follows for whole runs
// ---------------------------------------------------------------------------

/// The run after a sequence of events.
pub open spec fn run_after<E>(run: RunView<E>, events: Seq<DriveEvent<E>>) -> RunView<E>
    decreases events.len(),
{
    if events.len() == 0 {
        run
    } else {
        run_next(run_after(run, events.drop_last()), events.last()).0
    }
}

/// Whether each of the events can happen when its turn comes.
pub open spec fn run_allows<E>(run: RunView<E>, events: Seq<DriveEvent<E>>) -> bool
    decreases events.len(),
{
    if events.len() == 0 {
        true
    } else {
        run_allows(run, events.drop_last()) && run_expects(
            run_after(run, events.drop_last()),
            events.last(),
        )
    }
}

/// The failure that the event at `index` means for the run, if any.
pub open spec fn failure_at<E>(
    run: RunView<E>,
    events: Seq<DriveEvent<E>>,
    index: int,
) -> Option<GraphErrorView<E>> {
    match events[index] {
        DriveEvent::Joined(joined) => joined_failure(run_after(run, events.take(index)), joined),
        _ => None,
    }
}

/// Throughout every run, its invariant holds.
pub proof fn runs_stay_consistent<E>(run: RunView<E>, events: Seq<DriveEvent<E>>)
    requires
        run_is_consistent(run),
        run_allows(run, events),
    ensures
        run_is_consistent(run_after(run, events)),
    decreases events.len(),
{
    if events.len() > 0 {
        runs_stay_consistent(run, events.drop_last());
    }
}

/// A run some of whose events were failures fails, with the first of them.
pub proof fn the_first_failure_is_reported<E>(events: Seq<DriveEvent<E>>, first: int)
    requires
        0 <= first < events.len(),
        failure_at(run_begun(), events, first) is Some,
        forall|i: int| 0 <= i < first ==> failure_at(run_begun(), events, i) is None,
    ensures
        run_after(run_begun(), events).failure == failure_at(run_begun(), events, first),
    decreases events.len(),
{
    let rest = events.drop_last();
    assert forall|i: int| 0 <= i < rest.len() implies failure_at(run_begun(), rest, i)
        == failure_at(run_begun(), events, i) by {
        assert(rest.take(i) =~= events.take(i));
    }
    if first < rest.len() {
        the_first_failure_is_reported(rest, first);
    } else {
        no_failure_without_a_cause(rest);
        assert(events.take(first) =~= rest);
    }
}

/// A run none of whose events was a failure succeeds.
pub proof fn no_failure_without_a_cause<E>(events: Seq<DriveEvent<E>>)
    requires
        forall|i: int| 0 <= i < events.len() ==> failure_at(run_begun(), events, i) is None,
    ensures
        run_after(run_begun(), events).failure is None,
    decreases events.len(),
{
    if events.len() > 0 {
        let rest = events.drop_last();
        assert forall|i: int| 0 <= i < rest.len() implies failure_at(
            run_begun(),
            rest,
            i,
        ) is None by {
            assert(rest.take(i) =~= events.take(i));
            assert(failure_at(run_begun(), events, i) is None);
        }
        no_failure_without_a_cause(rest);
        let last = events.len() - 1;
        assert(events.take(last) =~= rest);
        assert(failure_at(run_begun(), events, last) is None);
    }
}

/// Once shutdown was requested, actors that return cleanly fail nothing, and
/// once the run aborted its actors, neither do those that are cancelled.
pub proof fn requested_shutdown_is_clean<E>(run: RunView<E>, joined: Joined<E>)
    ensures
        run.shutdown_requested && (joined matches Joined::Returned { exit, .. }
            && exit.result is Ok) ==> joined_failure(run, joined) is None,
        run.aborted && joined is Cancelled ==> joined_failure(run, joined) is None,
{
}

/// Before shutdown was requested, every exit fails the run: a clean return, an
/// error and a panic alike, and a cancellation too unless the run itself
/// aborted its actors.
pub proof fn early_exits_fail_the_run<E>(run: RunView<E>, joined: Joined<E>)
    requires
        !run.shutdown_requested,
        !(run.aborted && joined is Cancelled),
    ensures
        joined_failure(run, joined) is Some,
        run_next(run, DriveEvent::Joined(joined)).0.failure is Some,
        run_next(run, DriveEvent::Joined(joined)).0.stopping,
{
}

/// The actors are told to stop at most once in a run.
pub proof fn actors_are_stopped_once<E>(
    run: RunView<E>,
    events: Seq<DriveEvent<E>>,
    first: int,
    second: int,
)
    requires
        0 <= first < second < events.len(),
        run_next(run_after(run, events.take(first)), events[first]).1.shutdown is Some,
    ensures
        run_next(run_after(run, events.take(second)), events[second]).1.shutdown is None,
{
    stopping_lasts(run, events, first, second);
}

proof fn stopping_lasts<E>(run: RunView<E>, events: Seq<DriveEvent<E>>, first: int, later: int)
    requires
        0 <= first < later <= events.len(),
        run_next(run_after(run, events.take(first)), events[first]).1.shutdown is Some,
    ensures
        run_after(run, events.take(later)).stopping,
    decreases later - first,
{
    let prefix = events.take(later);
    assert(prefix.drop_last() =~= events.take(later - 1));
    assert(prefix.last() == events[later - 1]);
    if later > first + 1 {
        stopping_lasts(run, events, first, later - 1);
    }
}

/// An actor that returns decides the run's result by what it returned, at any
/// time: its error fails the run, also after shutdown was requested or the
/// actors were aborted, and a clean return fails it only where nobody asked for
/// shutdown. An earlier failure stays.
pub proof fn returning_actors_decide_the_result<E>(
    run: RunView<E>,
    task: u64,
    exit: ActorTaskExit<E>,
)
    ensures
        ({
            let after = run_next(run, DriveEvent::Joined(Joined::Returned { task, exit })).0;
            match exit.result {
                Err(source) => after.failure == (if run.failure is Some {
                    run.failure
                } else {
                    Some(GraphErrorView::ActorFailed { actor_id: exit.actor_id@, source })
                }),
                Ok(_) => after.failure == (if run.failure is Some || run.shutdown_requested {
                    run.failure
                } else {
                    Some(GraphErrorView::ActorStopped { actor_id: exit.actor_id@ })
                }),
            }
        }),
{
}

/// An actor that is lost decides the run's result too: a panic always fails the
/// run, and a cancellation does unless the run aborted its actors itself. The
/// failure names the actor of the lost task. An earlier failure stays.
pub proof fn lost_actors_decide_the_result<E>(run: RunView<E>, task: u64)
    ensures
        ({
            let actor_id = if run.tasks.dom().contains(task) {
                run.tasks[task]
            } else {
                "<unknown>"@
            };
            let panicked = run_next(run, DriveEvent::Joined(Joined::Panicked { task })).0;
            let cancelled = run_next(run, DriveEvent::Joined(Joined::Cancelled { task })).0;
            &&& panicked.failure == (if run.failure is Some {
                run.failure
            } else {
                Some(GraphErrorView::ActorPanicked { actor_id })
            })
            &&& cancelled.failure == (if run.failure is Some || run.aborted {
                run.failure
            } else {
                Some(GraphErrorView::ActorCancelled { actor_id })
            })
        }),
{
}

/// Every exit is reported once, when it happens, with the actor, how it left
/// and its error; nothing else is reported as an exit.
pub proof fn every_exit_is_reported<E>(run: RunView<E>, event: DriveEvent<E>)
    ensures
        ({
            let step = run_next(run, event).1;
            match event {
                DriveEvent::Joined(Joined::Returned { exit, .. }) => {
                    &&& step.exited matches Some(notice)
                    &&& notice.actor_id == exit.actor_id@
                    &&& notice.status == match exit.result {
                        Err(_) => ActorExitStatus::Failed,
                        Ok(_) => if run.shutdown_requested {
                            ActorExitStatus::Shutdown
                        } else {
                            ActorExitStatus::Stopped
                        },
                    }
                    &&& notice.error == match exit.result {
                        Err(source) => Some(source.text@),
                        Ok(_) => None,
                    }
                },
                DriveEvent::Joined(Joined::Panicked { task }) => {
                    &&& step.exited matches Some(notice)
                    &&& run.tasks.dom().contains(task) ==> notice.actor_id == run.tasks[task]
                    &&& notice.status == ActorExitStatus::Panicked
                    &&& notice.error is None
                },
                DriveEvent::Joined(Joined::Cancelled { task }) => {
                    &&& step.exited matches Some(notice)
                    &&& run.tasks.dom().contains(task) ==> notice.actor_id == run.tasks[task]
                    &&& notice.status == ActorExitStatus::Cancelled
                    &&& notice.error is None
                },
                _ => step.exited is None,
            }
        }),
{
}

/// The actors are told to stop by the first request for shutdown or the first
/// failure, and by nothing else. That is reported when it happens, with its
/// cause.
pub proof fn the_first_cause_stops_the_actors<E>(run: RunView<E>, event: DriveEvent<E>)
    requires
        run_is_consistent(run),
    ensures
        ({
            let (after, step) = run_next(run, event);
            &&& after.stopping <==> run.stopping || event is ShutdownRequested
                || after.failure is Some
            &&& step.shutdown is Some <==> after.stopping && !run.stopping
            &&& step.shutdown matches Some(cause) ==> cause == match event {
                DriveEvent::Joined(Joined::Returned { exit, .. }) => if exit.result is Ok {
                    GraphShutdownCause::ActorStopped
                } else {
                    GraphShutdownCause::ActorFailed
                },
                DriveEvent::Joined(Joined::Panicked { .. }) => GraphShutdownCause::ActorPanicked,
                DriveEvent::Joined(Joined::Cancelled { .. }) => GraphShutdownCause::ActorCancelled,
                _ => GraphShutdownCause::External,
            }
        }),
{
}

/// An event touches nothing but what it is about: an exit takes its task off
/// the table and no other, only a request marks the run as asked to shut down,
/// and only a missed deadline aborts the actors.
pub proof fn events_touch_what_they_are_about<E>(run: RunView<E>, event: DriveEvent<E>, task: u64)
    ensures
        ({
            let (after, step) = run_next(run, event);
            let leaves = match event {
                DriveEvent::Joined(Joined::Returned { task: left, .. }) => left == task,
                DriveEvent::Joined(Joined::Panicked { task: left }) => left == task,
                DriveEvent::Joined(Joined::Cancelled { task: left }) => left == task,
                _ => false,
            };
            &&& after.tasks.dom().contains(task) <==> run.tasks.dom().contains(task) && !leaves
            &&& after.tasks.dom().contains(task) ==> after.tasks[task] == run.tasks[task]
            &&& after.shutdown_requested == (run.shutdown_requested || event is ShutdownRequested)
            &&& after.aborted == (run.aborted || event is DeadlineElapsed)
            &&& step.abort_all == (event is DeadlineElapsed)
        }),
{
}

/// An exit can happen at any time; shutdown can be requested as long as it was
/// not, and the deadline can be missed once the actors were told to stop, as
/// long as they were not aborted.
pub proof fn exits_can_happen_at_any_time<E>(run: RunView<E>, joined: Joined<E>)
    ensures
        run_expects(run, DriveEvent::Joined(joined)),
        !run.shutdown_requested ==> run_expects(run, DriveEvent::ShutdownRequested),
        run.stopping && !run.aborted ==> run_expects(run, DriveEvent::DeadlineElapsed),
{
}

/// Whether the event is an actor's error or panic.
pub open spec fn is_error_or_panic<E>(event: DriveEvent<E>) -> bool {
    match event {
        DriveEvent::Joined(Joined::Returned { exit, .. }) => exit.result is Err,
        DriveEvent::Joined(Joined::Panicked { .. }) => true,
        _ => false,
    }
}

/// A run in which any actor returned an error or panicked fails, whenever that
/// happened and whatever followed.
pub proof fn errors_and_panics_are_never_lost<E>(
    run: RunView<E>,
    events: Seq<DriveEvent<E>>,
    index: int,
)
    requires
        0 <= index < events.len(),
        is_error_or_panic(events[index]),
    ensures
        run_after(run, events).failure is Some,
    decreases events.len(),
{
    let rest = events.drop_last();
    if index < rest.len() {
        assert(rest[index] == events[index]);
        errors_and_panics_are_never_lost(run, rest, index);
    }
}

/// A run that was asked to shut down first succeeds when every actor returns
/// cleanly or is cancelled after the deadline passed.
pub proof fn asked_for_shutdowns_succeed<E>(events: Seq<DriveEvent<E>>)
    requires
        events.len() > 0,
        events[0] is ShutdownRequested,
        forall|i: int|
            1 <= i < events.len() ==> match #[trigger] events[i] {
                DriveEvent::Joined(Joined::Returned { exit, .. }) => exit.result is Ok,
                DriveEvent::Joined(Joined::Cancelled { .. }) => exists|k: int|
                    0 <= k < i && (#[trigger] events[k]) is DeadlineElapsed,
                DriveEvent::DeadlineElapsed => true,
                _ => false,
            },
    ensures
        run_after(run_begun(), events).failure is None,
        run_after(run_begun(), events).shutdown_requested,
        (exists|k: int| 0 <= k < events.len() && (#[trigger] events[k]) is DeadlineElapsed)
            ==> run_after(run_begun(), events).aborted,
    decreases events.len(),
{
    let rest = events.drop_last();
    let last = events.len() - 1;
    if rest.len() > 0 {
        assert(rest[0] == events[0]);
        assert forall|i: int| 1 <= i < rest.len() implies match #[trigger] rest[i] {
            DriveEvent::Joined(Joined::Returned { exit, .. }) => exit.result is Ok,
            DriveEvent::Joined(Joined::Cancelled { .. }) => exists|k: int|
                0 <= k < i && (#[trigger] rest[k]) is DeadlineElapsed,
            DriveEvent::DeadlineElapsed => true,
            _ => false,
        } by {
            assert(rest[i] == events[i]);
            if events[i] matches DriveEvent::Joined(Joined::Cancelled { .. }) {
                let k = choose|k: int| 0 <= k < i && (#[trigger] events[k]) is DeadlineElapsed;
                assert(rest[k] is DeadlineElapsed);
            }
        }
        asked_for_shutdowns_succeed(rest);
        assert(events[last] == events.last());
        if exists|k: int| 0 <= k < last && (#[trigger] events[k]) is DeadlineElapsed {
            let k = choose|k: int| 0 <= k < last && (#[trigger] events[k]) is DeadlineElapsed;
            assert(rest[k] is DeadlineElapsed);
        }
        if exists|k: int| 0 <= k < events.len() && (#[trigger] events[k]) is DeadlineElapsed {
            let k = choose|k: int| 0 <= k < events.len() && (#[trigger] events[k]) is DeadlineElapsed;
            if k < last {
                assert(rest[k] is DeadlineElapsed);
            }
        }
    } else {
        assert(run_after(run_begun::<E>(), rest) == run_begun::<E>());
    }
}

/// A run begins with nothing told, requested, aborted or failed, and an error
/// shows what it is.
pub proof fn runs_begin_clean<E>(error: GraphError<E>)
    ensures
        !run_begun::<E>().stopping,
        !run_begun::<E>().shutdown_requested,
        !run_begun::<E>().aborted,
        run_begun::<E>().failure is None,
        run_begun::<E>().tasks == Map::<u64, Seq<char>>::empty(),
        optional_error(Some(error)) == Some(error@),
        optional_error::<E>(None) is None,
{
}

/// How a run that ends after one more event ends. A failure from before is kept.
/// Else an actor that returned an error or panicked fails it, one that returned
/// early or was cancelled fails it unless that was asked for, and nothing else
/// does.
pub proof fn runs_end_with_their_first_failure<E>(
    run: &mut GraphRuntime<E>,
    event: DriveEvent<E>,
    step: DriveStep,
    result: Result<(), GraphError<E>>,
)
    requires
        call_ensures(GraphRuntime::<E>::drive, (run, event), step),
        call_ensures(GraphRuntime::<E>::finish, (*final(run),), result),
    ensures
        old(run)@.failure matches Some(failure) ==> result is Err && result->Err_0@ == failure,
        old(run)@.failure is None ==> match event {
            DriveEvent::Joined(Joined::Returned { exit, .. }) => match exit.result {
                Err(source) => result is Err && result->Err_0@ == (GraphErrorView::ActorFailed {
                    actor_id: exit.actor_id@,
                    source,
                }),
                Ok(_) => if old(run)@.shutdown_requested {
                    result is Ok
                } else {
                    result is Err && result->Err_0@ == (GraphErrorView::<E>::ActorStopped {
                        actor_id: exit.actor_id@,
                    })
                },
            },
            DriveEvent::Joined(Joined::Panicked { task }) => {
                &&& result is Err
                &&& result->Err_0@ is ActorPanicked
                &&& old(run)@.tasks.dom().contains(task) ==> result->Err_0@
                    == (GraphErrorView::<E>::ActorPanicked { actor_id: old(run)@.tasks[task] })
            },
            DriveEvent::Joined(Joined::Cancelled { task }) => if old(run)@.aborted {
                result is Ok
            } else {
                &&& result is Err
                &&& result->Err_0@ is ActorCancelled
                &&& old(run)@.tasks.dom().contains(task) ==> result->Err_0@
                    == (GraphErrorView::<E>::ActorCancelled { actor_id: old(run)@.tasks[task] })
            },
            _ => result is Ok,
        },
{
    match event {
        DriveEvent::Joined(Joined::Returned { task, exit }) => {
            returning_actors_decide_the_result(old(run)@, task, exit);
        },
        DriveEvent::Joined(Joined::Panicked { task }) => {
            lost_actors_decide_the_result(old(run)@, task);
        },
        DriveEvent::Joined(Joined::Cancelled { task }) => {
            lost_actors_decide_the_result(old(run)@, task);
        },
        _ => {},
    }
}

/// A spawned actor's task is known under its id until it ends, and what is
/// reported of its end names it.
pub proof fn spawned_actors_are_named_when_they_end<E>(
    run: &mut GraphRuntime<E>,
    driven: &mut GraphRuntime<E>,
    task: u64,
    actor_id: &str,
    done: (),
    event: DriveEvent<E>,
    step: DriveStep,
)
    requires
        call_ensures(GraphRuntime::<E>::actor_spawned, (run, task, actor_id), done),
        *old(driven) == *final(run),
        event == DriveEvent::<E>::Joined(Joined::Panicked { task }) || event == DriveEvent::<
            E,
        >::Joined(Joined::Cancelled { task }),
        call_ensures(GraphRuntime::<E>::drive, (driven, event), step),
    ensures
        final(run)@.failure == old(run)@.failure,
        final(run)@.stopping == old(run)@.stopping,
        final(run)@.shutdown_requested == old(run)@.shutdown_requested,
        final(run)@.aborted == old(run)@.aborted,
        step@.exited matches Some(notice) && notice.actor_id == actor_id@,
        !final(driven)@.tasks.dom().contains(task),
{
    every_exit_is_reported(old(driven)@, event);
    events_touch_what_they_are_about(old(driven)@, event, task);
}

/// A run waits for a request to shut down until there was one, and for the
/// deadline while its actors are stopping and were not aborted.
pub proof fn runs_wait_for_what_can_come<E>(
    run: &mut GraphRuntime<E>,
    event: DriveEvent<E>,
    step: DriveStep,
    shutdown: bool,
    deadline: bool,
)
    requires
        run_is_consistent(old(run)@),
        call_ensures(GraphRuntime::<E>::drive, (run, event), step),
        call_ensures(GraphRuntime::<E>::awaits_shutdown, (final(run),), shutdown),
        call_ensures(GraphRuntime::<E>::awaits_deadline, (final(run),), deadline),
    ensures
        event is ShutdownRequested ==> !shutdown,
        !(event is ShutdownRequested) ==> shutdown == !old(run)@.shutdown_requested,
        event is DeadlineElapsed ==> !deadline && step@.abort_all,
        event is ShutdownRequested ==> deadline == !old(run)@.aborted,
        deadline ==> event is ShutdownRequested || old(run)@.stopping || event is Joined,
{
    events_touch_what_they_are_about(old(run)@, event, 0);
    the_first_cause_stops_the_actors(old(run)@, event);
}

/// A run that was asked to shut down, was aborted or has failed has told its
/// actors to stop.
pub proof fn ending_runs_are_stopping<E>(
    run: &mut GraphRuntime<E>,
    event: DriveEvent<E>,
    step: DriveStep,
)
    requires
        call_ensures(GraphRuntime::<E>::drive, (run, event), step),
    ensures
        final(run)@.shutdown_requested ==> final(run)@.stopping,
        final(run)@.aborted ==> final(run)@.stopping,
        final(run)@.failure is Some ==> final(run)@.stopping,
{
}

/// An error that an actor returned and a panic are the ends of an actor that no
/// run forgives, whichever its task: afterwards the run has a failure.
pub proof fn unforgiven_ends_fail_the_run<E>(run: RunView<E>, event: DriveEvent<E>)
    requires
        run.failure is None,
    ensures
        is_error_or_panic(event) <==> (event matches DriveEvent::Joined(joined) && (
        joined is Panicked || (joined is Returned && joined->exit.result is Err))),
        is_error_or_panic(event) ==> run_next(run, event).0.failure is Some,
        run_next(run, event).0.failure is Some ==> event is Joined,
{
}

} // verus!
