//! Single actors of a graph, run and restarted on their own.
use tokio_util::sync::CancellationToken;
use vstd::prelude::*;
use crate::binding::{BindingPhase, RebindPolicy};
use crate::builder::{DEFAULT_ACTOR_SHUTDOWN_SECS, DEFAULT_MAILBOX_CAPACITY};
use crate::error::{Fault, GraphError, LookupError, LookupErrorView};
use crate::graph::{
    looked_up, position, Graph, GraphActor, GraphActorView, GraphView, MessageType,
};
use crate::observability::{anonymous_graph_name, ActorExitStatus, IdSource};
use crate::registry::{ActorRegistry, RegistryError, RegistryErrorView};
use crate::runtime::{ExitNotice, ExitNoticeView};
use crate::sync::{token_cancel, token_clone, token_new, Cancellation, StopSwitch};
use crate::text::{same_text, wrapped};
use crate::time::TimeSpan;

verus! {

// ---------------------------------------------------------------------------
// Errors
// ---------------------------------------------------------------------------

/// Why a single actor's run failed.
#[derive(Debug)]
pub enum RunFault<E> {
    /// The actor returned this error.
    Returned(Fault<E>),
    /// The actor's task was cancelled by somebody else.
    TaskCancelled {
        /// What the cancellation displays as.
        text: String,
    },
}

/// Errors returned from a single actor's run.
#[derive(Debug)]
pub enum ActorRunError<E> {
    /// Another instance of the same runnable actor is already active.
    AlreadyRunning { actor_id: String },
    /// The actor returned an error.
    Failed { actor_id: String, source: RunFault<E> },
}

/// What a [`RunFault`] says.
pub enum RunFaultView<E> {
    Returned(Fault<E>),
    TaskCancelled { text: Seq<char> },
}

/// What an [`ActorRunError`] says.
pub enum ActorRunErrorView<E> {
    AlreadyRunning { actor_id: Seq<char> },
    Failed { actor_id: Seq<char>, source: RunFaultView<E> },
}

impl<E> View for ActorRunError<E> {
    type V = ActorRunErrorView<E>;

    open spec fn view(&self) -> ActorRunErrorView<E> {
        match *self {
            ActorRunError::AlreadyRunning { actor_id } => {
                ActorRunErrorView::AlreadyRunning { actor_id: actor_id@ }
            },
            ActorRunError::Failed { actor_id, source } => ActorRunErrorView::Failed {
                actor_id: actor_id@,
                source: match source {
                    RunFault::Returned(fault) => RunFaultView::Returned(fault),
                    RunFault::TaskCancelled { text } => RunFaultView::TaskCancelled { text: text@ },
                },
            },
        }
    }
}

impl<E> ActorRunErrorView<E> {
    /// The text shown to users.
    pub open spec fn text(self) -> Seq<char> {
        match self {
            ActorRunErrorView::AlreadyRunning { actor_id } => {
                "actor `"@ + actor_id + "` is already running"@
            },
            ActorRunErrorView::Failed { actor_id, .. } => {
                "actor `"@ + actor_id + "` returned an error"@
            },
        }
    }
}

impl<E> ActorRunError<E> {
    /// Returns the text shown to users.
    pub fn message(&self) -> (message: String)
        ensures
            message@ == self@.text(),
    {
        match self {
            ActorRunError::AlreadyRunning { actor_id } => {
                wrapped("actor `", actor_id.as_str(), "` is already running")
            },
            ActorRunError::Failed { actor_id, source: _ } => {
                wrapped("actor `", actor_id.as_str(), "` returned an error")
            },
        }
    }
}

// ---------------------------------------------------------------------------
// What follows a run
// ---------------------------------------------------------------------------

/// What becomes of an actor's binding after a run.
#[derive(Debug, Clone, Copy, PartialEq, Eq, Structural)]
pub enum RunDisposition {
    /// Another run is expected: senders wait for it.
    ExpectRebind,
    /// No run follows: senders fail.
    Terminate,
}

/// Whether the status counts as a failure under a restart policy.
pub open spec fn is_failure(status: ActorExitStatus) -> bool {
    status == ActorExitStatus::Failed || status == ActorExitStatus::Panicked || status
        == ActorExitStatus::Cancelled
}

/// What follows a run that ended with the given status: another run is
/// expected where shutdown was not requested and the policy covers the status.
pub open spec fn disposition(
    policy: RebindPolicy,
    shutdown_requested: bool,
    status: ActorExitStatus,
) -> RunDisposition {
    let covered = match policy {
        RebindPolicy::Never => false,
        RebindPolicy::OnFailure => is_failure(status),
        RebindPolicy::Always => is_failure(status) || status == ActorExitStatus::Stopped,
    };
    if covered && !shutdown_requested {
        RunDisposition::ExpectRebind
    } else {
        RunDisposition::Terminate
    }
}

/// Decides what follows a run that ended with the given status.
pub fn run_disposition(
    policy: RebindPolicy,
    shutdown_requested: bool,
    status: ActorExitStatus,
) -> (result: RunDisposition)
    ensures
        result == disposition(policy, shutdown_requested, status),
{
    if shutdown_requested || status == ActorExitStatus::Shutdown {
        return RunDisposition::Terminate;
    }
    match (policy, status) {
        (RebindPolicy::Never, _) => RunDisposition::Terminate,
        (RebindPolicy::OnFailure, ActorExitStatus::Stopped) => RunDisposition::Terminate,
        (_, _) => RunDisposition::ExpectRebind,
    }
}

/// A requested shutdown terminates the binding whatever the policy, and so
/// does every exit of an actor that is never run again.
pub proof fn shutdown_always_terminates(policy: RebindPolicy, status: ActorExitStatus)
    ensures
        disposition(policy, true, status) == RunDisposition::Terminate,
        disposition(RebindPolicy::Never, false, status) == RunDisposition::Terminate,
        disposition(policy, false, ActorExitStatus::Shutdown) == RunDisposition::Terminate,
        is_failure(status) && policy != RebindPolicy::Never ==> disposition(policy, false, status)
            == RunDisposition::ExpectRebind,
{
}

// ---------------------------------------------------------------------------
// One run
// ---------------------------------------------------------------------------

/// How the task of a single actor left.
#[derive(Debug)]
pub enum RunJoined<E> {
    /// The actor returned.
    Returned(Result<(), Fault<E>>),
    /// The actor panicked.
    Panicked,
    /// The task was cancelled.
    Cancelled,
}

/// How the run of a single actor ends for its caller.
#[derive(Debug)]
pub enum RunVerdict<E> {
    /// The run returns this result.
    Return(Result<(), ActorRunError<E>>),
    /// The actor's panic goes on in the caller.
    ResumePanic,
}

/// The end of a single actor's run.
pub struct RunOutcome<E> {
    pub disposition: RunDisposition,
    pub exited: ExitNotice,
    pub verdict: RunVerdict<E>,
    /// That the token that asks the actor to stop was cancelled.
    pub stopped: Cancellation,
}

/// What a [`RunVerdict`] says.
pub enum RunVerdictView<E> {
    Return(Result<(), ActorRunErrorView<E>>),
    ResumePanic,
}

/// What a [`RunOutcome`] says.
pub struct RunOutcomeView<E> {
    pub disposition: RunDisposition,
    pub exited: ExitNoticeView,
    pub verdict: RunVerdictView<E>,
}

impl<E> View for RunOutcome<E> {
    type V = RunOutcomeView<E>;

    open spec fn view(&self) -> RunOutcomeView<E> {
        RunOutcomeView {
            disposition: self.disposition,
            exited: self.exited@,
            verdict: match self.verdict {
                RunVerdict::ResumePanic => RunVerdictView::ResumePanic,
                RunVerdict::Return(result) => RunVerdictView::Return(
                    match result {
                        Ok(_) => Ok(()),
                        Err(error) => Err(error@),
                    },
                ),
            },
        }
    }
}

/// One run of a single actor.
pub struct ActorRun {
    actor_id: String,
    policy: RebindPolicy,
    shutdown: StopSwitch,
    aborted: bool,
}

/// Where a run stands.
pub struct ActorRunView {
    pub actor_id: Seq<char>,
    /// The policy that was in force when the run began.
    pub policy: RebindPolicy,
    /// Whether shutdown was requested, and the token that asks the actor to
    /// stop cancelled. From then on the deadline for it is running.
    pub shutdown_requested: bool,
    /// Whether the actor was aborted because it missed the deadline.
    pub aborted: bool,
}

impl View for ActorRun {
    type V = ActorRunView;

    closed spec fn view(&self) -> ActorRunView {
        ActorRunView {
            actor_id: self.actor_id@,
            policy: self.policy,
            shutdown_requested: self.shutdown.is_thrown(),
            aborted: self.aborted,
        }
    }
}

/// The status that the actor's leaving is reported with.
pub open spec fn joined_status<E>(run: ActorRunView, joined: RunJoined<E>) -> ActorExitStatus {
    match joined {
        RunJoined::Returned(result) => crate::graph::exit_status(result, run.shutdown_requested),
        RunJoined::Panicked => ActorExitStatus::Panicked,
        RunJoined::Cancelled => ActorExitStatus::Cancelled,
    }
}

/// What the run ends with: a clean return and a missed deadline are fine, an
/// error and a foreign cancellation are not, and a panic goes on.
pub open spec fn joined_verdict<E>(run: ActorRunView, joined: RunJoined<E>) -> RunVerdictView<E> {
    match joined {
        RunJoined::Returned(Ok(_)) => RunVerdictView::Return(Ok(())),
        RunJoined::Returned(Err(fault)) => RunVerdictView::Return(
            Err(
                ActorRunErrorView::Failed {
                    actor_id: run.actor_id,
                    source: RunFaultView::Returned(fault),
                },
            ),
        ),
        RunJoined::Panicked => RunVerdictView::ResumePanic,
        RunJoined::Cancelled => if run.aborted {
            RunVerdictView::Return(Ok(()))
        } else {
            RunVerdictView::Return(
                Err(
                    ActorRunErrorView::Failed {
                        actor_id: run.actor_id,
                        source: RunFaultView::TaskCancelled {
                            text: "actor `"@ + run.actor_id + "` task was cancelled"@,
                        },
                    },
                ),
            )
        },
    }
}

/// The end of a run whose actor left as `joined` says. An error that the run
/// returns is reported with the exit.
pub open spec fn run_ended<E>(run: ActorRunView, joined: RunJoined<E>) -> RunOutcomeView<E> {
    let status = joined_status(run, joined);
    let verdict = joined_verdict(run, joined);
    RunOutcomeView {
        disposition: disposition(run.policy, run.shutdown_requested, status),
        exited: ExitNoticeView {
            actor_id: run.actor_id,
            status,
            error: match verdict {
                RunVerdictView::Return(Err(error)) => Some(error.text()),
                _ => None,
            },
        },
        verdict,
    }
}

impl ActorRun {
    /// The token that asks the actor to stop.
    pub closed spec fn stop_token(self) -> CancellationToken {
        self.shutdown.token()
    }

    /// A token that is cancelled when the actor is asked to stop.
    pub fn token(&self) -> (token: CancellationToken)
        ensures
            token == self.stop_token(),
    {
        token_clone(self.shutdown.get())
    }

    /// Returns the policy that was in force when the run began.
    pub fn policy(&self) -> (policy: RebindPolicy)
        ensures
            policy == self@.policy,
    {
        self.policy
    }

    /// Whether the request for shutdown is still waited for.
    pub fn awaits_shutdown(&self) -> (awaits: bool)
        ensures
            awaits == !self@.shutdown_requested,
    {
        !self.shutdown.thrown()
    }

    /// Whether the deadline for the actor to stop is running.
    pub fn awaits_deadline(&self) -> (awaits: bool)
        ensures
            awaits == (self@.shutdown_requested && !self@.aborted),
    {
        self.shutdown.thrown() && !self.aborted
    }

    /// Shutdown was requested: asks the actor to stop. The deadline begins to
    /// run.
    pub fn on_shutdown(&mut self)
        requires
            !old(self)@.shutdown_requested,
        ensures
            final(self)@ == (ActorRunView { shutdown_requested: true, ..old(self)@ }),
            final(self).stop_token() == old(self).stop_token(),
    {
        self.shutdown.throw();
    }

    /// The actor missed the deadline: it is to be aborted.
    pub fn on_deadline(&mut self)
        requires
            old(self)@.shutdown_requested,
            !old(self)@.aborted,
        ensures
            final(self)@ == (ActorRunView { aborted: true, ..old(self)@ }),
            final(self).stop_token() == old(self).stop_token(),
    {
        self.aborted = true;
    }

    /// The actor left: how the run ends. Whatever the actor started is asked
    /// to stop as well.
    pub fn on_joined<E>(self, joined: RunJoined<E>) -> (outcome: RunOutcome<E>)
        ensures
            outcome@ == run_ended(self@, joined),
            outcome.stopped.of() == self.stop_token(),
    {
        let stopped = token_cancel(self.shutdown.get());
        let shutdown_requested = self.shutdown.thrown();
        let status = match &joined {
            RunJoined::Returned(Ok(())) => if shutdown_requested {
                ActorExitStatus::Shutdown
            } else {
                ActorExitStatus::Stopped
            },
            RunJoined::Returned(Err(_)) => ActorExitStatus::Failed,
            RunJoined::Panicked => ActorExitStatus::Panicked,
            RunJoined::Cancelled => ActorExitStatus::Cancelled,
        };
        let disposition = run_disposition(self.policy, shutdown_requested, status);
        let failed = match joined {
            RunJoined::Returned(Ok(())) => None,
            RunJoined::Returned(Err(fault)) => Some(RunFault::Returned(fault)),
            RunJoined::Panicked => {
                let exited = ExitNotice { actor_id: self.actor_id, status, error: None };
                return RunOutcome {
                    disposition,
                    exited,
                    verdict: RunVerdict::ResumePanic,
                    stopped,
                };
            },
            RunJoined::Cancelled => if self.aborted {
                None
            } else {
                Some(
                    RunFault::TaskCancelled {
                        text: wrapped("actor `", self.actor_id.as_str(), "` task was cancelled"),
                    },
                )
            },
        };
        match failed {
            None => RunOutcome {
                disposition,
                exited: ExitNotice { actor_id: self.actor_id, status, error: None },
                verdict: RunVerdict::Return(Ok(())),
                stopped,
            },
            Some(source) => {
                let error = ActorRunError::Failed { actor_id: self.actor_id.clone(), source };
                let text = error.message();
                RunOutcome {
                    disposition,
                    exited: ExitNotice { actor_id: self.actor_id, status, error: Some(text) },
                    verdict: RunVerdict::Return(Err(error)),
                    stopped,
                }
            },
        }
    }
}

/// An actor that is aborted because it missed the deadline of a requested
/// shutdown ends its run well, and is reported as cancelled.
pub proof fn timeout_abort_is_a_clean_shutdown<E>(run: ActorRunView)
    requires
        run.shutdown_requested,
        run.aborted,
    ensures
        run_ended::<E>(run, RunJoined::Cancelled).verdict == RunVerdictView::<E>::Return(Ok(())),
        run_ended::<E>(run, RunJoined::Cancelled).exited.status == ActorExitStatus::Cancelled,
        run_ended::<E>(run, RunJoined::Cancelled).exited.error is None,
        run_ended::<E>(run, RunJoined::Cancelled).disposition == RunDisposition::Terminate,
{
}

/// After a requested shutdown no further run is expected, however the actor
/// left.
pub proof fn requested_shutdown_terminates<E>(run: ActorRunView, joined: RunJoined<E>)
    requires
        run.shutdown_requested,
    ensures
        run_ended(run, joined).disposition == RunDisposition::Terminate,
{
}

// ---------------------------------------------------------------------------
// Runnable actors
// ---------------------------------------------------------------------------

/// A single actor extracted from a graph, ready to be run independently.
///
/// It keeps the binding of the original graph, so refs keep working across
/// restarts. `G` is the registry that the actor is shown at run time.
#[derive(Debug)]
pub struct RunnableActor<B, R, G> {
    actor: GraphActor<B, R>,
    graph_name: String,
    mailbox_capacity: usize,
    actor_shutdown_timeout: TimeSpan,
    registry: Option<G>,
    rebind_policy: RebindPolicy,
    running: bool,
}

/// What a [`RunnableActor`] holds.
pub struct RunnableActorView<B, R, G> {
    pub actor: GraphActorView<B, R>,
    pub graph_name: Seq<char>,
    pub mailbox_capacity: usize,
    pub actor_shutdown_timeout: TimeSpan,
    pub registry: Option<G>,
    pub rebind_policy: RebindPolicy,
    pub running: bool,
}

impl<B, R, G> View for RunnableActor<B, R, G> {
    type V = RunnableActorView<B, R, G>;

    closed spec fn view(&self) -> RunnableActorView<B, R, G> {
        RunnableActorView {
            actor: self.actor@,
            graph_name: self.graph_name@,
            mailbox_capacity: self.mailbox_capacity,
            actor_shutdown_timeout: self.actor_shutdown_timeout,
            registry: self.registry,
            rebind_policy: self.rebind_policy,
            running: self.running,
        }
    }
}

/// A runnable actor that has not run yet.
pub open spec fn not_run_yet<B, R, G>(
    actor: GraphActorView<B, R>,
    graph_name: Seq<char>,
    mailbox_capacity: usize,
    actor_shutdown_timeout: TimeSpan,
) -> RunnableActorView<B, R, G> {
    RunnableActorView {
        actor,
        graph_name,
        mailbox_capacity,
        actor_shutdown_timeout,
        registry: None,
        rebind_policy: RebindPolicy::Never,
        running: false,
    }
}

/// What applying a disposition does to the binding and the registry entry.
#[derive(Debug, Clone, Copy, PartialEq, Eq, Structural)]
pub struct BindingChange {
    /// The phase that the binding is put in.
    pub phase: BindingPhase,
    /// Whether the actor is removed from its registry.
    pub deregister: bool,
}

/// What a disposition means for the binding and the registry entry: where
/// another run is expected the binding is cleared, otherwise it is terminated
/// and the actor leaves the registry that it was shown, if any.
pub open spec fn change_for(disposition: RunDisposition, has_registry: bool) -> BindingChange {
    match disposition {
        RunDisposition::ExpectRebind => BindingChange {
            phase: BindingPhase::Unbound,
            deregister: false,
        },
        RunDisposition::Terminate => BindingChange {
            phase: BindingPhase::Terminated,
            deregister: has_registry,
        },
    }
}

/// The entries of a registry after a change was applied to the entry of the
/// given actor.
pub open spec fn registry_after<B>(
    entries: Seq<GraphActorView<B, ()>>,
    actor_id: Seq<char>,
    change: BindingChange,
) -> Seq<GraphActorView<B, ()>> {
    if change.deregister {
        crate::registry::deregistered(entries, actor_id)
    } else {
        entries
    }
}

/// A run that ends for good evicts its actor from the registry that it was
/// shown, and from then on sends through the actor's refs fail as to a
/// terminated actor. A run after which another is expected leaves the registry
/// alone, and until the next run sends fail as to an actor that is not running.
/// A clean exit that nobody asked for ends for good unless the actor is always
/// run again.
pub proof fn exits_decide_registry_and_refs<M, B, E>(
    run: ActorRunView,
    joined: RunJoined<E>,
    entries: Seq<GraphActorView<B, ()>>,
    state: crate::binding::BindingStateView<M>,
)
    requires
        crate::graph::ids_are_distinct(entries),
        crate::registry::is_registered(entries, run.actor_id),
    ensures
        ({
            let disposition = run_ended(run, joined).disposition;
            let change = change_for(disposition, true);
            let after = registry_after(entries, run.actor_id, change);
            let problem = crate::context::selection_problem(
                run.actor_id,
                crate::binding::entered(state, change.phase),
                false,
            );
            &&& disposition == RunDisposition::Terminate
                ==> !crate::registry::is_registered(after, run.actor_id) && problem == Some(
                crate::error::SendErrorView::ActorTerminated { actor_id: run.actor_id },
            )
            &&& disposition == RunDisposition::ExpectRebind ==> after == entries && problem == Some(
                crate::error::SendErrorView::ActorNotRunning { actor_id: run.actor_id },
            )
            &&& joined == RunJoined::<E>::Returned(Ok(())) && !run.shutdown_requested ==> (
            disposition == RunDisposition::ExpectRebind <==> run.policy == RebindPolicy::Always)
        }),
{
    crate::registry::deregistered_actors_are_unknown(
        entries,
        run.actor_id,
        MessageType { key: 0, name: "" },
    );
}

impl<B, R, G> RunnableActor<B, R, G> {
    fn new(
        actor: GraphActor<B, R>,
        graph_name: String,
        mailbox_capacity: usize,
        actor_shutdown_timeout: TimeSpan,
    ) -> (runnable: Self)
        ensures
            runnable@ == not_run_yet::<B, R, G>(
                actor@,
                graph_name@,
                mailbox_capacity,
                actor_shutdown_timeout,
            ),
    {
        RunnableActor {
            actor,
            graph_name,
            mailbox_capacity,
            actor_shutdown_timeout,
            registry: None,
            rebind_policy: RebindPolicy::Never,
            running: false,
        }
    }

    /// Returns the actor id.
    pub fn id(&self) -> (id: &str)
        ensures
            id@ == self@.actor.actor_id,
    {
        self.actor.actor_id.as_str()
    }

    /// Returns what starts the actor.
    pub fn runner(&self) -> (runner: &R)
        ensures
            *runner == self@.actor.runner,
    {
        &self.actor.runner
    }

    /// Returns what refs to the actor read.
    pub fn binding(&self) -> (binding: &B)
        ensures
            *binding == self@.actor.binding,
    {
        &self.actor.binding
    }

    /// Returns the name of the graph that the actor reports under.
    pub fn graph_name(&self) -> (name: &str)
        ensures
            name@ == self@.graph_name,
    {
        self.graph_name.as_str()
    }

    /// Returns the capacity of the actor's mailboxes.
    pub fn mailbox_capacity(&self) -> (capacity: usize)
        ensures
            capacity == self@.mailbox_capacity,
    {
        self.mailbox_capacity
    }

    /// Returns how long shutdown waits for the actor to stop.
    pub fn actor_shutdown_timeout(&self) -> (timeout: TimeSpan)
        ensures
            timeout == self@.actor_shutdown_timeout,
    {
        self.actor_shutdown_timeout
    }

    /// Returns the actor's binding, provided that its message type is the
    /// requested one.
    pub fn actor_ref(&self, requested: MessageType) -> (found: Result<&B, LookupError>)
        ensures
            if self@.actor.message_type.key == requested.key {
                found matches Ok(binding) && *binding == self@.actor.binding
            } else {
                found matches Err(error) && error@ == (LookupErrorView::MessageTypeMismatch {
                    actor_id: self@.actor.actor_id,
                    registered: self@.actor.message_type.name@,
                    requested: requested.name@,
                })
            },
    {
        if self.actor.message_type.key != requested.key {
            return Err(
                LookupError::MessageTypeMismatch {
                    actor_id: self.actor.actor_id.clone(),
                    registered: self.actor.message_type.name,
                    requested: requested.name,
                },
            );
        }
        Ok(&self.actor.binding)
    }

    /// Registers this actor in a runtime registry, under the given handle to
    /// its binding.
    pub fn register_with<H>(&self, registry: &mut ActorRegistry<H>, binding: H) -> (result: Result<
        (),
        RegistryError,
    >)
        ensures
            if crate::registry::is_registered(old(registry)@, self@.actor.actor_id) {
                &&& result matches Err(error)
                &&& error@ == (RegistryErrorView::AlreadyRegistered {
                    actor_id: self@.actor.actor_id,
                })
                &&& final(registry)@ == old(registry)@
            } else {
                &&& result is Ok
                &&& final(registry)@ == old(registry)@.push(
                    GraphActorView {
                        actor_id: self@.actor.actor_id,
                        message_type: self@.actor.message_type,
                        binding,
                        runner: (),
                    },
                )
            },
    {
        registry.register(self.actor.actor_id.as_str(), self.actor.message_type, binding)
    }

    /// Sets the runtime actor registry visible to this actor. Only the first
    /// one counts.
    pub fn set_registry(&mut self, registry: G)
        ensures
            final(self)@ == if old(self)@.registry is None {
                RunnableActorView { registry: Some(registry), ..old(self)@ }
            } else {
                old(self)@
            },
    {
        if self.registry.is_none() {
            self.registry = Some(registry);
        }
    }

    /// Returns the runtime actor registry visible to this actor.
    pub fn registry(&self) -> (registry: &Option<G>)
        ensures
            *registry == self@.registry,
    {
        &self.registry
    }

    /// Sets how this actor's binding behaves after a run exits.
    pub fn set_rebind_policy(&mut self, policy: RebindPolicy)
        ensures
            final(self)@ == (RunnableActorView { rebind_policy: policy, ..old(self)@ }),
    {
        self.rebind_policy = policy;
    }

    /// Begins a run, unless one is active. The policy that is in force now
    /// holds for the whole run.
    pub fn begin_run<E>(&mut self) -> (result: Result<ActorRun, ActorRunError<E>>)
        ensures
            if old(self)@.running {
                &&& result matches Err(error)
                &&& error@ == (ActorRunErrorView::<E>::AlreadyRunning {
                    actor_id: old(self)@.actor.actor_id,
                })
                &&& final(self)@ == old(self)@
            } else {
                &&& result matches Ok(run)
                &&& run@ == (ActorRunView {
                    actor_id: old(self)@.actor.actor_id,
                    policy: old(self)@.rebind_policy,
                    shutdown_requested: false,
                    aborted: false,
                })
                &&& final(self)@ == (RunnableActorView { running: true, ..old(self)@ })
            },
    {
        if self.running {
            return Err(ActorRunError::AlreadyRunning { actor_id: self.actor.actor_id.clone() });
        }
        self.running = true;
        Ok(
            ActorRun {
                actor_id: self.actor.actor_id.clone(),
                policy: self.rebind_policy,
                shutdown: StopSwitch::new(token_new().into_token()),
                aborted: false,
            },
        )
    }

    /// Ends a run.
    pub fn end_run(&mut self)
        ensures
            final(self)@ == (RunnableActorView { running: false, ..old(self)@ }),
    {
        self.running = false;
    }

    /// What a disposition means for the binding and the registry entry: where
    /// another run is expected the binding is cleared, otherwise it is
    /// terminated and the actor leaves the registry that it was shown.
    pub fn apply_run_disposition(&self, disposition: RunDisposition) -> (change: BindingChange)
        ensures
            change == change_for(disposition, self@.registry is Some),
    {
        match disposition {
            RunDisposition::ExpectRebind => BindingChange {
                phase: BindingPhase::Unbound,
                deregister: false,
            },
            RunDisposition::Terminate => BindingChange {
                phase: BindingPhase::Terminated,
                deregister: self.registry.is_some(),
            },
        }
    }

    /// What giving up on further runs means for the binding and the registry
    /// entry.
    pub fn terminate_binding(&self) -> (change: BindingChange)
        ensures
            change == change_for(RunDisposition::Terminate, self@.registry is Some),
    {
        self.apply_run_disposition(RunDisposition::Terminate)
    }
}

// ---------------------------------------------------------------------------
// Factories and actor sets
// ---------------------------------------------------------------------------

/// Factory for constructing runtime-added actors that share the same per-graph
/// execution settings as an existing actor set.
#[derive(Debug)]
pub struct RunnableActorFactory {
    graph_name: String,
    mailbox_capacity: usize,
    actor_shutdown_timeout: TimeSpan,
}

/// What a [`RunnableActorFactory`] holds.
pub struct FactoryView {
    pub graph_name: Seq<char>,
    pub mailbox_capacity: usize,
    pub actor_shutdown_timeout: TimeSpan,
}

impl View for RunnableActorFactory {
    type V = FactoryView;

    closed spec fn view(&self) -> FactoryView {
        FactoryView {
            graph_name: self.graph_name@,
            mailbox_capacity: self.mailbox_capacity,
            actor_shutdown_timeout: self.actor_shutdown_timeout,
        }
    }
}

impl RunnableActorFactory {
    /// Creates a factory with the same defaults that a builder uses for a
    /// graph without an explicit name.
    pub fn new(ids: &mut IdSource) -> (factory: Self)
        ensures
            factory@ == (FactoryView {
                graph_name: crate::observability::anonymous_name(old(ids)@),
                mailbox_capacity: 64,
                actor_shutdown_timeout: TimeSpan { secs: 5, nanos: 0 },
            }),
            final(ids)@ == old(ids)@.wrapping_add(1),
    {
        RunnableActorFactory {
            graph_name: anonymous_graph_name(ids),
            mailbox_capacity: DEFAULT_MAILBOX_CAPACITY,
            actor_shutdown_timeout: TimeSpan::from_secs(DEFAULT_ACTOR_SHUTDOWN_SECS),
        }
    }

    /// Returns the name that the actors report under.
    pub fn graph_name(&self) -> (name: &str)
        ensures
            name@ == self@.graph_name,
    {
        self.graph_name.as_str()
    }

    /// Constructs a runtime actor.
    pub fn actor<B, R, G>(
        &self,
        actor_id: &str,
        message_type: MessageType,
        binding: B,
        runner: R,
    ) -> (runnable: RunnableActor<B, R, G>)
        ensures
            runnable@ == not_run_yet::<B, R, G>(
                GraphActorView { actor_id: actor_id@, message_type, binding, runner },
                self@.graph_name,
                self@.mailbox_capacity,
                self@.actor_shutdown_timeout,
            ),
    {
        let actor = GraphActor { actor_id: actor_id.to_owned(), message_type, binding, runner };
        RunnableActor::new(
            actor,
            self.graph_name.clone(),
            self.mailbox_capacity,
            self.actor_shutdown_timeout,
        )
    }
}

/// Decomposed actor graph where each actor can be run independently.
#[derive(Debug)]
pub struct ActorSet<B, R, G> {
    graph_name: String,
    actors: Vec<RunnableActor<B, R, G>>,
    mailbox_capacity: usize,
    actor_shutdown_timeout: TimeSpan,
}

/// What an [`ActorSet`] holds.
#[verifier::ext_equal]
pub struct ActorSetView<B, R, G> {
    pub settings: FactoryView,
    pub actors: Seq<RunnableActorView<B, R, G>>,
}

impl<B, R, G> View for ActorSet<B, R, G> {
    type V = ActorSetView<B, R, G>;

    closed spec fn view(&self) -> ActorSetView<B, R, G> {
        ActorSetView {
            settings: FactoryView {
                graph_name: self.graph_name@,
                mailbox_capacity: self.mailbox_capacity,
                actor_shutdown_timeout: self.actor_shutdown_timeout,
            },
            actors: self.actors@.map_values(|actor: RunnableActor<B, R, G>| actor@),
        }
    }
}

impl<B, R, G> ActorSetView<B, R, G> {
    /// The actors as the graph defined them.
    pub open spec fn definitions(self) -> Seq<GraphActorView<B, R>> {
        self.actors.map_values(|actor: RunnableActorView<B, R, G>| actor.actor)
    }
}

/// The set that a graph decomposes into: its actors in definition order, none
/// of which has run on its own yet.
pub open spec fn decomposed<B, R, G>(graph: GraphView<B, R>) -> ActorSetView<B, R, G> {
    ActorSetView {
        settings: FactoryView {
            graph_name: graph.name,
            mailbox_capacity: graph.mailbox_capacity,
            actor_shutdown_timeout: graph.actor_shutdown_timeout,
        },
        actors: graph.actors.map_values(
            |actor: GraphActorView<B, R>|
                not_run_yet::<B, R, G>(
                    actor,
                    graph.name,
                    graph.mailbox_capacity,
                    graph.actor_shutdown_timeout,
                ),
        ),
    }
}

impl<B, R> Graph<B, R> {
    /// Decomposes a graph into independently runnable actors.
    pub fn into_actor_set<G, E>(self) -> (result: Result<
        ActorSet<B, R, G>,
        GraphError<E>,
    >)
        ensures
            match crate::graph::refusal::<E>(self@.state) {
                Some(problem) => result matches Err(error) && error@ == problem,
                None => result matches Ok(set) && set@ =~= decomposed::<B, R, G>(self@),
            },
    {
        let ghost before = self@;
        let mut graph = self;
        match graph.mark_decomposed() {
            Err(error) => Err(error),
            Ok(()) => {
                let set = ActorSet::from_graph(graph);
                assert(decomposed::<B, R, G>(
                    GraphView { state: crate::graph::GraphState::Decomposed, ..before },
                ).actors =~= decomposed::<B, R, G>(before).actors);
                Ok(set)
            },
        }
    }
}

impl<B, R, G> ActorSet<B, R, G> {
    fn from_graph(graph: Graph<B, R>) -> (set: Self)
        ensures
            set@ =~= decomposed::<B, R, G>(graph@),
    {
        let ghost before = graph@;
        let (graph_name, definitions, mailbox_capacity, actor_shutdown_timeout) =
            graph.into_parts();
        let ghost all = definitions@;
        let mut definitions = definitions;
        let mut actors: Vec<RunnableActor<B, R, G>> = Vec::new();
        while definitions.len() > 0
            invariant
                before.actors == all.map_values(|actor: GraphActor<B, R>| actor@),
                before.name == graph_name@,
                before.mailbox_capacity == mailbox_capacity,
                before.actor_shutdown_timeout == actor_shutdown_timeout,
                actors@.len() + definitions@.len() == all.len(),
                definitions@ == all.skip(actors@.len() as int),
                forall|i: int|
                    0 <= i < actors@.len() ==> (#[trigger] actors@[i])@ == not_run_yet::<B, R, G>(
                        before.actors[i],
                        before.name,
                        before.mailbox_capacity,
                        before.actor_shutdown_timeout,
                    ),
            decreases definitions@.len(),
        {
            let ghost done = actors@.len() as int;
            let definition = definitions.remove(0);
            assert(definition@ == before.actors[done]);
            assert(definitions@ =~= all.skip(done + 1));
            actors.push(
                RunnableActor::new(
                    definition,
                    graph_name.clone(),
                    mailbox_capacity,
                    actor_shutdown_timeout,
                ),
            );
        }
        let set = ActorSet { graph_name, actors, mailbox_capacity, actor_shutdown_timeout };
        assert(set@.actors =~= decomposed::<B, R, G>(before).actors);
        set
    }

    fn find(&self, actor_id: &str) -> (index: usize)
        ensures
            index == position(self@.definitions(), actor_id@, 0),
            index <= self.actors@.len(),
            self@.actors.len() == self.actors@.len(),
    {
        let mut index: usize = 0;
        while index < self.actors.len()
            invariant
                index <= self.actors@.len(),
                self@.actors.len() == self.actors@.len(),
                position(self@.definitions(), actor_id@, 0) == position(
                    self@.definitions(),
                    actor_id@,
                    index as int,
                ),
            decreases self.actors@.len() - index,
        {
            assert(self@.actors[index as int] == self.actors@[index as int]@);
            assert(self@.definitions()[index as int] == self.actors@[index as int].actor@);
            if same_text(self.actors[index].id(), actor_id) {
                return index;
            }
            index += 1;
        }
        index
    }

    /// Returns an individually runnable actor by id, if it exists.
    pub fn actor(&self, id: &str) -> (found: Option<&RunnableActor<B, R, G>>)
        ensures
            match found {
                Some(actor) => {
                    let index = position(self@.definitions(), id@, 0);
                    &&& 0 <= index < self@.actors.len()
                    &&& actor@ == self@.actors[index]
                    &&& actor@.actor.actor_id == id@
                },
                None => position(self@.definitions(), id@, 0) == self@.actors.len(),
            },
    {
        let index: usize = self.find(id);
        proof {
            crate::graph::position_is_in_range(self@.definitions(), id@, 0);
        }
        if index < self.actors.len() {
            assert(self@.actors[index as int] == self.actors@[index as int]@);
            Some(&self.actors[index])
        } else {
            None
        }
    }

    /// Returns the binding of the actor with the given id, provided that its
    /// message type is the requested one.
    pub fn actor_ref(&self, id: &str, requested: MessageType) -> (found: Result<&B, LookupError>)
        ensures
            match found {
                Ok(binding) => looked_up(self@.definitions(), id@, requested) == Ok::<
                    B,
                    LookupErrorView,
                >(*binding),
                Err(error) => looked_up(self@.definitions(), id@, requested) == Err::<
                    B,
                    LookupErrorView,
                >(error@),
            },
    {
        let index: usize = self.find(id);
        proof {
            crate::graph::position_is_in_range(self@.definitions(), id@, 0);
        }
        if index < self.actors.len() {
            assert(self@.actors[index as int] == self.actors@[index as int]@);
            assert(self@.definitions()[index as int] == self.actors@[index as int].actor@);
            self.actors[index].actor_ref(requested)
        } else {
            Err(LookupError::UnknownActor { actor_id: id.to_owned() })
        }
    }

    /// Returns all runnable actors in graph definition order.
    pub fn actors(&self) -> (actors: &Vec<RunnableActor<B, R, G>>)
        ensures
            actors@.map_values(|actor: RunnableActor<B, R, G>| actor@) == self@.actors,
    {
        &self.actors
    }

    /// Takes the set apart into its runnable actors, in definition order.
    pub fn into_actors(self) -> (actors: Vec<RunnableActor<B, R, G>>)
        ensures
            actors@.map_values(|actor: RunnableActor<B, R, G>| actor@) == self@.actors,
    {
        self.actors
    }

    /// Returns a factory for constructing additional runnable actors that use
    /// the same runtime configuration as this actor set.
    pub fn dynamic_factory(&self) -> (factory: RunnableActorFactory)
        ensures
            factory@ == self@.settings,
    {
        RunnableActorFactory {
            graph_name: self.graph_name.clone(),
            mailbox_capacity: self.mailbox_capacity,
            actor_shutdown_timeout: self.actor_shutdown_timeout,
        }
    }
}

/// Every actor of a graph is in the set that the graph decomposes into, at its
/// place, with its id, type, binding and runner, and not running.
pub proof fn decomposition_keeps_every_actor<B, R, G>(graph: GraphView<B, R>, index: int)
    requires
        0 <= index < graph.actors.len(),
    ensures
        decomposed::<B, R, G>(graph).definitions() == graph.actors,
        !decomposed::<B, R, G>(graph).actors[index].running,
{
    assert(decomposed::<B, R, G>(graph).definitions() =~= graph.actors);
}

/// Another run is expected exactly where nobody asked for shutdown and the
/// policy covers the exit: every one but a requested shutdown under `Always`,
/// failures alone under `OnFailure`, none under `Never`.
pub proof fn policies_decide_about_another_run(
    policy: RebindPolicy,
    shutdown_requested: bool,
    status: ActorExitStatus,
)
    ensures
        disposition(policy, shutdown_requested, status) == RunDisposition::ExpectRebind <==> {
            &&& !shutdown_requested
            &&& policy != RebindPolicy::Never
            &&& status != ActorExitStatus::Shutdown
            &&& policy == RebindPolicy::OnFailure ==> status != ActorExitStatus::Stopped
        },
        disposition(policy, shutdown_requested, status) == RunDisposition::ExpectRebind
            || disposition(policy, shutdown_requested, status) == RunDisposition::Terminate,
{
}

/// A run ends with what its actor did: a clean return is fine, an error is
/// returned with its source, a panic goes on, and a cancellation is an error
/// unless the actor was aborted for missing its deadline. The exit is reported
/// with the actor and how it left.
pub proof fn runs_end_with_what_the_actor_did<E>(run: ActorRunView, fault: Fault<E>)
    ensures
        ({
            let ok = run_ended::<E>(run, RunJoined::Returned(Ok(())));
            let failed = run_ended::<E>(run, RunJoined::Returned(Err(fault)));
            let panicked = run_ended::<E>(run, RunJoined::Panicked);
            let cancelled = run_ended::<E>(run, RunJoined::Cancelled);
            &&& ok.verdict == RunVerdictView::<E>::Return(Ok(()))
            &&& ok.exited.status == (if run.shutdown_requested {
                ActorExitStatus::Shutdown
            } else {
                ActorExitStatus::Stopped
            })
            &&& ok.exited.error is None
            &&& failed.verdict == RunVerdictView::Return(
                Err(
                    ActorRunErrorView::Failed {
                        actor_id: run.actor_id,
                        source: RunFaultView::Returned(fault),
                    },
                ),
            )
            &&& failed.exited.status == ActorExitStatus::Failed
            &&& failed.exited.error == Some("actor `"@ + run.actor_id + "` returned an error"@)
            &&& panicked.verdict is ResumePanic
            &&& panicked.exited.status == ActorExitStatus::Panicked
            &&& panicked.exited.error is None
            &&& cancelled.exited.status == ActorExitStatus::Cancelled
            &&& cancelled.verdict == RunVerdictView::<E>::Return(Ok(())) <==> run.aborted
            &&& !run.aborted ==> cancelled.verdict == RunVerdictView::<E>::Return(
                Err(
                    ActorRunErrorView::Failed {
                        actor_id: run.actor_id,
                        source: RunFaultView::TaskCancelled {
                            text: "actor `"@ + run.actor_id + "` task was cancelled"@,
                        },
                    },
                ),
            )
            &&& ok.exited.actor_id == run.actor_id
            &&& failed.exited.actor_id == run.actor_id
            &&& panicked.exited.actor_id == run.actor_id
            &&& cancelled.exited.actor_id == run.actor_id
        }),
{
}

/// How a run ended decides whether another one is expected, by the policy that
/// was in force when it began.
pub proof fn exits_are_followed_by_policy<E>(run: ActorRunView, fault: Fault<E>)
    ensures
        ({
            let again = |joined: RunJoined<E>|
                run_ended(run, joined).disposition == RunDisposition::ExpectRebind;
            let asked = run.shutdown_requested;
            let covers_failures = run.policy == RebindPolicy::OnFailure || run.policy
                == RebindPolicy::Always;
            &&& again(RunJoined::Returned(Ok(()))) <==> !asked && run.policy == RebindPolicy::Always
            &&& again(RunJoined::Returned(Err(fault))) <==> !asked && covers_failures
            &&& again(RunJoined::Panicked) <==> !asked && covers_failures
            &&& again(RunJoined::Cancelled) <==> !asked && covers_failures
        }),
{
}

/// A decomposed graph passes its settings on to every actor and to whatever is
/// made later; each actor starts without a registry, not running, and is not
/// run again unless told otherwise.
pub proof fn decomposition_passes_settings_on<B, R, G>(graph: GraphView<B, R>, index: int)
    requires
        0 <= index < graph.actors.len(),
    ensures
        ({
            let set = decomposed::<B, R, G>(graph);
            let actor = set.actors[index];
            &&& set.actors.len() == graph.actors.len()
            &&& set.settings.graph_name == graph.name
            &&& set.settings.mailbox_capacity == graph.mailbox_capacity
            &&& set.settings.actor_shutdown_timeout == graph.actor_shutdown_timeout
            &&& actor.actor == graph.actors[index]
            &&& actor.graph_name == graph.name
            &&& actor.mailbox_capacity == graph.mailbox_capacity
            &&& actor.actor_shutdown_timeout == graph.actor_shutdown_timeout
            &&& actor.registry is None
            &&& actor.rebind_policy == RebindPolicy::Never
            &&& !actor.running
        }),
{
}

/// The text of an error names the actor and what is wrong.
pub proof fn run_errors_name_the_actor<E>(actor_id: Seq<char>, source: RunFaultView<E>)
    ensures
        (ActorRunErrorView::<E>::AlreadyRunning { actor_id }).text() == "actor `"@ + actor_id
            + "` is already running"@,
        (ActorRunErrorView::Failed { actor_id, source }).text() == "actor `"@ + actor_id
            + "` returned an error"@,
{
}

/// A run that is over for good terminates the binding, and takes the actor out
/// of the registry where it was shown one; a run that another one follows
/// clears the binding and leaves the registry alone.
pub proof fn changes_follow_the_disposition<B>(
    entries: Seq<GraphActorView<B, ()>>,
    actor_id: Seq<char>,
    has_registry: bool,
)
    ensures
        change_for(RunDisposition::Terminate, has_registry).phase == BindingPhase::Terminated,
        change_for(RunDisposition::Terminate, has_registry).deregister == has_registry,
        change_for(RunDisposition::ExpectRebind, has_registry).phase == BindingPhase::Unbound,
        !change_for(RunDisposition::ExpectRebind, has_registry).deregister,
        registry_after(entries, actor_id, change_for(RunDisposition::ExpectRebind, has_registry))
            == entries,
        has_registry ==> registry_after(
            entries,
            actor_id,
            change_for(RunDisposition::Terminate, has_registry),
        ) == crate::registry::deregistered(entries, actor_id),
{
}

/// An actor runs once at a time: while it runs it is not started again, and once
/// its run ended it can be started anew, under the policy that it has then.
pub proof fn actors_run_once_at_a_time<B, R, G, E>(
    starting: &mut RunnableActor<B, R, G>,
    restarting: &mut RunnableActor<B, R, G>,
    ending: &mut RunnableActor<B, R, G>,
    setting: &mut RunnableActor<B, R, G>,
    resuming: &mut RunnableActor<B, R, G>,
    policy: RebindPolicy,
    started: Result<ActorRun, ActorRunError<E>>,
    restarted: Result<ActorRun, ActorRunError<E>>,
    resumed: Result<ActorRun, ActorRunError<E>>,
    done: ((), ()),
)
    requires
        call_ensures(RunnableActor::<B, R, G>::begin_run::<E>, (starting,), started),
        *old(restarting) == *final(starting),
        call_ensures(RunnableActor::<B, R, G>::begin_run::<E>, (restarting,), restarted),
        *old(ending) == *final(restarting),
        call_ensures(RunnableActor::<B, R, G>::end_run, (ending,), done.0),
        *old(setting) == *final(ending),
        call_ensures(RunnableActor::<B, R, G>::set_rebind_policy, (setting, policy), done.1),
        *old(resuming) == *final(setting),
        call_ensures(RunnableActor::<B, R, G>::begin_run::<E>, (resuming,), resumed),
    ensures
        started is Ok <==> !old(starting)@.running,
        started matches Ok(run) ==> {
            &&& run@.actor_id == old(starting)@.actor.actor_id
            &&& run@.policy == old(starting)@.rebind_policy
            &&& !run@.shutdown_requested
            &&& !run@.aborted
        },
        restarted is Err && restarted->Err_0@ == (ActorRunErrorView::<E>::AlreadyRunning {
            actor_id: old(starting)@.actor.actor_id,
        }),
        resumed matches Ok(run) && run@.policy == policy && run@.actor_id
            == old(starting)@.actor.actor_id,
        final(resuming)@.actor == old(starting)@.actor,
        final(resuming)@.registry == old(starting)@.registry,
{
}

/// The first registry that an actor is given stays.
pub proof fn the_first_registry_stays<B, R, G>(
    first: &mut RunnableActor<B, R, G>,
    second: &mut RunnableActor<B, R, G>,
    registries: (G, G),
    done: ((), ()),
)
    requires
        old(first)@.registry is None,
        call_ensures(RunnableActor::<B, R, G>::set_registry, (first, registries.0), done.0),
        *old(second) == *final(first),
        call_ensures(RunnableActor::<B, R, G>::set_registry, (second, registries.1), done.1),
    ensures
        final(second)@.registry == Some(registries.0),
        final(second)@.actor == old(first)@.actor,
        final(second)@.running == old(first)@.running,
        final(second)@.rebind_policy == old(first)@.rebind_policy,
{
}

/// An actor is registered under its own id and message type, and found there by
/// that type; a second registration under the id is refused.
pub proof fn actors_register_under_their_id<B, R, G, H>(
    actor: &RunnableActor<B, R, G>,
    first: &mut ActorRegistry<H>,
    second: &mut ActorRegistry<H>,
    bindings: (H, H),
    earlier: Result<(), RegistryError>,
    later: Result<(), RegistryError>,
    ids: Vec<String>,
)
    requires
        call_ensures(
            RunnableActor::<B, R, G>::register_with::<H>,
            (actor, first, bindings.0),
            earlier,
        ),
        earlier is Ok,
        *old(second) == *final(first),
        call_ensures(
            RunnableActor::<B, R, G>::register_with::<H>,
            (actor, second, bindings.1),
            later,
        ),
        call_ensures(ActorRegistry::<H>::actor_ids, (final(second),), ids),
    ensures
        ids@.len() == old(first)@.len() + 1,
        ids@.last()@ == actor@.actor.actor_id,
        final(first)@.last().binding == bindings.0,
        final(first)@.last().message_type == actor@.actor.message_type,
        final(first)@.drop_last() =~= old(first)@,
        later is Err && later->Err_0@ == (RegistryErrorView::AlreadyRegistered {
            actor_id: actor@.actor.actor_id,
        }),
        final(second)@ == final(first)@,
{
    let after = final(first)@;
    assert(after.last().actor_id == actor@.actor.actor_id);
    let place = crate::graph::first_with_id(after, actor@.actor.actor_id);
    crate::graph::ids_are_placed_at_their_first_actor(after, actor@.actor.actor_id, place);
    assert(ids@[ids@.len() - 1]@ == after[after.len() - 1].actor_id);
}

/// An actor hands out its binding to who asks for its own message type, and to
/// nobody else.
pub proof fn own_references_fit_the_type<B, R, G>(
    actor: &RunnableActor<B, R, G>,
    requested: MessageType,
    found: Result<&B, LookupError>,
)
    requires
        call_ensures(RunnableActor::<B, R, G>::actor_ref, (actor, requested), found),
    ensures
        found is Ok <==> actor@.actor.message_type.key == requested.key,
        found is Ok ==> *found->Ok_0 == actor@.actor.binding,
        found matches Err(error) ==> error@ == (LookupErrorView::MessageTypeMismatch {
            actor_id: actor@.actor.actor_id,
            registered: actor@.actor.message_type.name@,
            requested: requested.name@,
        }),
{
}

/// How a run that was joined ends, and whether its actor's binding waits for
/// another run: not after a shutdown that was asked for, not under the policy
/// `Never`, and after a plain return only under `Always`.
pub proof fn joined_runs_are_judged<E>(run: ActorRun, joined: RunJoined<E>, outcome: RunOutcome<E>)
    requires
        call_ensures(ActorRun::on_joined::<E>, (run, joined), outcome),
    ensures
        outcome@.exited.actor_id == run@.actor_id,
        outcome@.exited.status == match joined {
            RunJoined::Returned(Ok(_)) => if run@.shutdown_requested {
                ActorExitStatus::Shutdown
            } else {
                ActorExitStatus::Stopped
            },
            RunJoined::Returned(Err(_)) => ActorExitStatus::Failed,
            RunJoined::Panicked => ActorExitStatus::Panicked,
            RunJoined::Cancelled => ActorExitStatus::Cancelled,
        },
        outcome@.verdict is ResumePanic <==> joined is Panicked,
        outcome@.verdict == RunVerdictView::<E>::Return(Ok(())) <==> match joined {
            RunJoined::Returned(result) => result is Ok,
            RunJoined::Panicked => false,
            RunJoined::Cancelled => run@.aborted,
        },
        outcome@.disposition == RunDisposition::ExpectRebind <==> {
            &&& !run@.shutdown_requested
            &&& run@.policy != RebindPolicy::Never
            &&& joined matches RunJoined::Returned(Ok(_)) ==> run@.policy == RebindPolicy::Always
        },
        outcome.stopped.of() == run.stop_token(),
{
    let fault = match joined {
        RunJoined::Returned(Err(fault)) => fault,
        _ => arbitrary(),
    };
    runs_end_with_what_the_actor_did(run@, fault);
    exits_are_followed_by_policy(run@, fault);
}

/// Taking a graph apart is refused while it runs, and gives every actor with the
/// graph's settings otherwise.
pub proof fn idle_graphs_are_taken_apart<B, R, G, E>(
    graph: Graph<B, R>,
    result: Result<ActorSet<B, R, G>, GraphError<E>>,
    index: int,
)
    requires
        call_ensures(Graph::<B, R>::into_actor_set::<G, E>, (graph,), result),
    ensures
        result is Ok <==> graph@.state is Idle,
        result matches Ok(set) ==> {
            &&& set@.actors.len() == graph@.actors.len()
            &&& 0 <= index < graph@.actors.len() ==> {
                &&& set@.actors[index].actor == graph@.actors[index]
                &&& set@.actors[index].graph_name == graph@.name
                &&& set@.actors[index].mailbox_capacity == graph@.mailbox_capacity
                &&& !set@.actors[index].running
                &&& set@.actors[index].registry is None
            }
        },
        graph@.state is Running ==> result->Err_0@ is AlreadyRunning,
        graph@.state is Decomposed ==> result->Err_0@ is InvalidState,
{
    if 0 <= index < graph@.actors.len() {
        decomposition_passes_settings_on::<B, R, G>(graph@, index);
    }
}

/// A run waits for a request to shut down until there was one, and from then on
/// for the deadline until that has passed.
pub proof fn actor_runs_wait_for_what_can_come(
    stopping: &mut ActorRun,
    aborting: &mut ActorRun,
    done: ((), ()),
    shutdown: (bool, bool, bool),
    deadline: (bool, bool, bool),
)
    requires
        !old(stopping)@.shutdown_requested,
        !old(stopping)@.aborted,
        call_ensures(ActorRun::awaits_shutdown, (old(stopping),), shutdown.0),
        call_ensures(ActorRun::awaits_deadline, (old(stopping),), deadline.0),
        call_ensures(ActorRun::on_shutdown, (stopping,), done.0),
        call_ensures(ActorRun::awaits_shutdown, (final(stopping),), shutdown.1),
        call_ensures(ActorRun::awaits_deadline, (final(stopping),), deadline.1),
        *old(aborting) == *final(stopping),
        call_ensures(ActorRun::on_deadline, (aborting,), done.1),
        call_ensures(ActorRun::awaits_shutdown, (final(aborting),), shutdown.2),
        call_ensures(ActorRun::awaits_deadline, (final(aborting),), deadline.2),
    ensures
        shutdown == (true, false, false),
        deadline == (false, true, false),
        final(aborting)@.actor_id == old(stopping)@.actor_id,
        final(aborting)@.policy == old(stopping)@.policy,
        final(aborting).stop_token() == old(stopping).stop_token(),
{
}

/// What becomes of a binding: an actor that may run again keeps its entry and is
/// unbound; one that may not is terminated and, where it has a registry, leaves it.
pub proof fn dispositions_are_applied<B, R, G>(
    actor: &RunnableActor<B, R, G>,
    disposition: RunDisposition,
    change: BindingChange,
    ended: BindingChange,
)
    requires
        call_ensures(
            RunnableActor::<B, R, G>::apply_run_disposition,
            (actor, disposition),
            change,
        ),
        call_ensures(RunnableActor::<B, R, G>::terminate_binding, (actor,), ended),
    ensures
        change.phase == BindingPhase::Unbound <==> disposition == RunDisposition::ExpectRebind,
        change.phase == BindingPhase::Terminated <==> disposition == RunDisposition::Terminate,
        change.deregister <==> disposition == RunDisposition::Terminate && actor@.registry is Some,
        ended.phase == BindingPhase::Terminated,
        ended.deregister == (actor@.registry is Some),
{
    changes_follow_the_disposition(
        Seq::<GraphActorView<B, ()>>::empty(),
        Seq::empty(),
        actor@.registry is Some,
    );
}

/// Actors that a factory makes have the factory's settings and have not run; a
/// new factory has a name of its own and the settings of a new graph.
pub proof fn factories_pass_settings_on<B, R, G>(
    ids: &mut IdSource,
    fresh: RunnableActorFactory,
    factory: &RunnableActorFactory,
    actor_id: &str,
    message_type: MessageType,
    binding: B,
    runner: R,
    actor: RunnableActor<B, R, G>,
)
    requires
        call_ensures(RunnableActorFactory::new, (ids,), fresh),
        call_ensures(
            RunnableActorFactory::actor::<B, R, G>,
            (factory, actor_id, message_type, binding, runner),
            actor,
        ),
    ensures
        fresh@.mailbox_capacity == 64,
        fresh@.actor_shutdown_timeout == (TimeSpan { secs: 5, nanos: 0 }),
        crate::text::number_shown(fresh@.graph_name.skip(6)) == old(ids)@,
        actor@.actor.actor_id == actor_id@,
        actor@.actor.message_type == message_type,
        actor@.actor.binding == binding,
        actor@.actor.runner == runner,
        actor@.graph_name == factory@.graph_name,
        actor@.mailbox_capacity == factory@.mailbox_capacity,
        actor@.actor_shutdown_timeout == factory@.actor_shutdown_timeout,
        actor@.registry is None,
        actor@.rebind_policy == RebindPolicy::Never,
        !actor@.running,
{
    reveal_strlit("graph-");
    assert(fresh@.graph_name.skip(6) =~= crate::text::decimal(old(ids)@ as nat));
    crate::text::decimals_read_back(old(ids)@ as nat);
}

/// An actor of a set is found by its id, the first one with it, and nothing is
/// found under another id.
pub proof fn set_actors_are_found_by_id<B, R, G>(
    set: &ActorSet<B, R, G>,
    id: &str,
    found: Option<&RunnableActor<B, R, G>>,
    index: int,
)
    requires
        call_ensures(ActorSet::<B, R, G>::actor, (set, id), found),
        0 <= index <= set@.actors.len(),
        forall|i: int|
            0 <= i < index ==> (#[trigger] set@.actors[i]).actor.actor_id != id@,
        index < set@.actors.len() ==> set@.actors[index].actor.actor_id == id@,
    ensures
        found is Some <==> index < set@.actors.len(),
        found matches Some(actor) ==> actor@ == set@.actors[index],
{
    let actors = set@.definitions();
    assert(actors.len() == set@.actors.len());
    assert forall|i: int| 0 <= i < index implies (#[trigger] actors[i]).actor_id != id@ by {
        assert(set@.actors[i].actor.actor_id != id@);
    }
    crate::graph::ids_are_placed_at_their_first_actor(actors, id@, index);
}

/// An actor that a factory made shows what it was made with and, once it was
/// given them, its registry and the policy that its runs have.
pub proof fn runnable_actors_show_their_parts<B, R, G, E>(
    factory: &RunnableActorFactory,
    named: &str,
    actor_id: &str,
    message_type: MessageType,
    binding: B,
    runner: R,
    actor: RunnableActor<B, R, G>,
    shown: (&str, &R, &B, &str, usize, TimeSpan),
    registered: &Option<G>,
    starting: &mut RunnableActor<B, R, G>,
    run: Result<ActorRun, ActorRunError<E>>,
    policy: RebindPolicy,
)
    requires
        call_ensures(RunnableActorFactory::graph_name, (factory,), named),
        call_ensures(
            RunnableActorFactory::actor::<B, R, G>,
            (factory, actor_id, message_type, binding, runner),
            actor,
        ),
        call_ensures(RunnableActor::<B, R, G>::id, (&actor,), shown.0),
        call_ensures(RunnableActor::<B, R, G>::runner, (&actor,), shown.1),
        call_ensures(RunnableActor::<B, R, G>::binding, (&actor,), shown.2),
        call_ensures(RunnableActor::<B, R, G>::graph_name, (&actor,), shown.3),
        call_ensures(RunnableActor::<B, R, G>::mailbox_capacity, (&actor,), shown.4),
        call_ensures(RunnableActor::<B, R, G>::actor_shutdown_timeout, (&actor,), shown.5),
        call_ensures(RunnableActor::<B, R, G>::registry, (&actor,), registered),
        *old(starting) == actor,
        call_ensures(RunnableActor::<B, R, G>::begin_run::<E>, (starting,), run),
        run is Ok ==> call_ensures(ActorRun::policy, (&run->Ok_0,), policy),
    ensures
        shown.0@ == actor_id@,
        *shown.1 == runner,
        *shown.2 == binding,
        shown.3@ == named@,
        shown.4 == factory@.mailbox_capacity,
        shown.5 == factory@.actor_shutdown_timeout,
        *registered is None,
        run is Ok,
        policy == RebindPolicy::Never,
{
}

/// A set hands out all of its actors in order, by reference and for good, and a
/// factory with the settings of its graph.
pub proof fn sets_hand_out_their_actors<B, R, G, E>(
    graph: Graph<B, R>,
    result: Result<ActorSet<B, R, G>, GraphError<E>>,
    actors: &Vec<RunnableActor<B, R, G>>,
    owned: Vec<RunnableActor<B, R, G>>,
    factory: RunnableActorFactory,
    index: int,
)
    requires
        call_ensures(Graph::<B, R>::into_actor_set::<G, E>, (graph,), result),
        result is Ok,
        call_ensures(ActorSet::<B, R, G>::actors, (&result->Ok_0,), actors),
        call_ensures(ActorSet::<B, R, G>::into_actors, (result->Ok_0,), owned),
        call_ensures(ActorSet::<B, R, G>::dynamic_factory, (&result->Ok_0,), factory),
        0 <= index < graph@.actors.len(),
    ensures
        actors@.len() == graph@.actors.len(),
        owned@.len() == graph@.actors.len(),
        actors@[index]@.actor == graph@.actors[index],
        owned@[index]@.actor == graph@.actors[index],
        factory@.graph_name == graph@.name,
        factory@.mailbox_capacity == graph@.mailbox_capacity,
        factory@.actor_shutdown_timeout == graph@.actor_shutdown_timeout,
{
    decomposition_passes_settings_on::<B, R, G>(graph@, index);
    let set = result->Ok_0@;
    let shown = actors@.map_values(|actor: RunnableActor<B, R, G>| actor@);
    let given = owned@.map_values(|actor: RunnableActor<B, R, G>| actor@);
    assert(shown == set.actors && given == set.actors);
    assert(shown[index] == actors@[index]@);
    assert(given[index] == owned@[index]@);
}

/// A reference is handed out by a set exactly where its first actor with the id
/// takes messages of the requested type.
pub proof fn set_references_fit_their_actor<B, R, G>(
    set: &ActorSet<B, R, G>,
    id: &str,
    requested: MessageType,
    found: Result<&B, LookupError>,
    index: int,
)
    requires
        call_ensures(ActorSet::<B, R, G>::actor_ref, (set, id, requested), found),
        0 <= index <= set@.actors.len(),
        forall|i: int|
            0 <= i < index ==> (#[trigger] set@.actors[i]).actor.actor_id != id@,
        index < set@.actors.len() ==> set@.actors[index].actor.actor_id == id@,
    ensures
        found is Ok <==> index < set@.actors.len() && set@.actors[index].actor.message_type.key
            == requested.key,
        found is Ok ==> *found->Ok_0 == set@.actors[index].actor.binding,
        index == set@.actors.len() ==> found is Err && found->Err_0@
            == (LookupErrorView::UnknownActor { actor_id: id@ }),
        index < set@.actors.len() && found is Err ==> found->Err_0@
            == (LookupErrorView::MessageTypeMismatch {
            actor_id: id@,
            registered: set@.actors[index].actor.message_type.name@,
            requested: requested.name@,
        }),
{
    let actors = set@.definitions();
    assert(actors.len() == set@.actors.len());
    assert forall|i: int| 0 <= i < index implies (#[trigger] actors[i]).actor_id != id@ by {
        assert(set@.actors[i].actor.actor_id != id@);
    }
    crate::graph::ids_are_placed_at_their_first_actor(actors, id@, index);
    if index < set@.actors.len() {
        assert(actors[index] == set@.actors[index].actor);
    }
}

/// What becomes of a run follows from its policy, whether shutdown was asked for,
/// and how its actor ended.
pub proof fn dispositions_follow_the_policy(
    policy: RebindPolicy,
    shutdown_requested: bool,
    status: ActorExitStatus,
    result: RunDisposition,
)
    requires
        call_ensures(run_disposition, (policy, shutdown_requested, status), result),
    ensures
        result == RunDisposition::ExpectRebind <==> {
            &&& !shutdown_requested
            &&& policy != RebindPolicy::Never
            &&& status != ActorExitStatus::Shutdown
            &&& policy == RebindPolicy::OnFailure ==> status != ActorExitStatus::Stopped
        },
{
    policies_decide_about_another_run(policy, shutdown_requested, status);
}

} // verus!
