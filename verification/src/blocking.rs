//! Blocking work that actors start: admission, results and failures.
use std::sync::Arc;
use tokio::sync::Semaphore;
use tokio_util::sync::CancellationToken;
use vstd::prelude::*;
use crate::context::ActorRef;
use crate::error::Fault;
use crate::observability::{Emission, GraphObservability};
use crate::sync::{
    semaphore_new, semaphore_try_acquire, token_cancel, token_clone, token_is_cancelled, token_new,
    Cancellation, Exhausted, FreshToken, Permit, Permits, StopSwitch, TokenReading,
};
use crate::text::{decimal_text, wrapped};
use crate::time::TimeSpan;

verus! {

/// Stable identifier for a blocking task owned by an actor.
#[derive(Clone, Copy, Debug, Eq, Hash, PartialEq, Structural)]
pub struct BlockingTaskId(u64);

impl BlockingTaskId {
    /// The number of the task.
    pub closed spec fn number(self) -> u64 {
        self.0
    }

    /// What the id displays as.
    pub open spec fn shown(self) -> Seq<char> {
        crate::text::decimal(self.number() as nat)
    }

    /// The id with the given number.
    pub fn from_u64(value: u64) -> (id: Self)
        ensures
            id.number() == value,
    {
        BlockingTaskId(value)
    }

    /// Returns what the id displays as.
    pub fn text(&self) -> (text: String)
        ensures
            text@ == self.shown(),
    {
        decimal_text(self.0 as u128)
    }
}

/// Options used when spawning a blocking task from an actor.
#[derive(Clone, Debug, Default)]
pub struct BlockingOptions {
    name: Option<String>,
}

impl View for BlockingOptions {
    type V = Option<Seq<char>>;

    closed spec fn view(&self) -> Option<Seq<char>> {
        crate::context::optional_text(self.name)
    }
}

impl BlockingOptions {
    /// Options without a name.
    pub fn unnamed() -> (options: Self)
        ensures
            options@ is None,
    {
        BlockingOptions { name: None }
    }

    /// Creates a named blocking task option set.
    pub fn named(name: &str) -> (options: Self)
        ensures
            options@ == Some(name@),
    {
        BlockingOptions { name: Some(name.to_owned()) }
    }

    /// Takes the name out of the options.
    pub fn into_name(self) -> (name: Option<String>)
        ensures
            crate::context::optional_text(name) == self@,
    {
        self.name
    }
}

// ---------------------------------------------------------------------------
// Errors
// ---------------------------------------------------------------------------

/// Errors returned by blocking task closures.
#[derive(Debug)]
pub enum BlockingOperationError<E> {
    /// The blocking task observed cooperative cancellation.
    Cancelled,
    /// The blocking task returned an application error.
    Failed(E),
}

impl<E> BlockingOperationError<E> {
    /// Returns the text shown to users.
    pub fn message(&self) -> (message: &'static str)
        ensures
            message@ == match *self {
                BlockingOperationError::Cancelled => "blocking task was cancelled"@,
                BlockingOperationError::Failed(_) => "blocking task failed"@,
            },
    {
        match self {
            BlockingOperationError::Cancelled => "blocking task was cancelled",
            BlockingOperationError::Failed(_) => "blocking task failed",
        }
    }
}

/// Errors returned when spawning a blocking task from an actor.
#[derive(Debug, PartialEq, Eq)]
pub enum SpawnBlockingError {
    /// The actor is shutting down, so new blocking work is rejected.
    ShuttingDown { actor_id: String },
    /// The actor has reached its active blocking task limit.
    AtCapacity { actor_id: String, max_blocking_tasks: usize },
}

/// What a [`SpawnBlockingError`] says.
pub enum SpawnBlockingErrorView {
    ShuttingDown { actor_id: Seq<char> },
    AtCapacity { actor_id: Seq<char>, max_blocking_tasks: usize },
}

impl View for SpawnBlockingError {
    type V = SpawnBlockingErrorView;

    open spec fn view(&self) -> SpawnBlockingErrorView {
        match *self {
            SpawnBlockingError::ShuttingDown { actor_id } => {
                SpawnBlockingErrorView::ShuttingDown { actor_id: actor_id@ }
            },
            SpawnBlockingError::AtCapacity { actor_id, max_blocking_tasks } => {
                SpawnBlockingErrorView::AtCapacity { actor_id: actor_id@, max_blocking_tasks }
            },
        }
    }
}

impl SpawnBlockingErrorView {
    /// The text shown to users.
    pub open spec fn text(self) -> Seq<char> {
        match self {
            SpawnBlockingErrorView::ShuttingDown { actor_id } => {
                "actor `"@ + actor_id + "` is shutting down"@
            },
            SpawnBlockingErrorView::AtCapacity { actor_id, max_blocking_tasks } => {
                "actor `"@ + actor_id + "` has reached its blocking task limit of "@
                    + crate::text::decimal(max_blocking_tasks as nat)
            },
        }
    }
}

impl SpawnBlockingError {
    /// Returns the text shown to users.
    pub fn message(&self) -> (message: String)
        ensures
            message@ == self@.text(),
    {
        match self {
            SpawnBlockingError::ShuttingDown { actor_id } => {
                wrapped("actor `", actor_id.as_str(), "` is shutting down")
            },
            SpawnBlockingError::AtCapacity { actor_id, max_blocking_tasks } => {
                let mut message = wrapped(
                    "actor `",
                    actor_id.as_str(),
                    "` has reached its blocking task limit of ",
                );
                let limit = decimal_text(*max_blocking_tasks as u128);
                message.append(limit.as_str());
                message
            },
        }
    }
}

impl Clone for SpawnBlockingError {
    fn clone(&self) -> (clone: Self)
        ensures
            clone@ == self@,
    {
        match self {
            SpawnBlockingError::ShuttingDown { actor_id } => {
                SpawnBlockingError::ShuttingDown { actor_id: actor_id.clone() }
            },
            SpawnBlockingError::AtCapacity { actor_id, max_blocking_tasks } => {
                SpawnBlockingError::AtCapacity {
                    actor_id: actor_id.clone(),
                    max_blocking_tasks: *max_blocking_tasks,
                }
            },
        }
    }
}

/// Shared, cloneable wrapper around an error returned by blocking work.
#[derive(Debug)]
pub struct SharedError<E>(Arc<E>);

impl<E> View for SharedError<E> {
    type V = E;

    closed spec fn view(&self) -> E {
        *self.0
    }
}

impl<E> SharedError<E> {
    /// Shares an error.
    pub fn new(error: E) -> (shared: Self)
        ensures
            shared@ == error,
    {
        SharedError(Arc::new(error))
    }

    /// Returns the error.
    pub fn source(&self) -> (source: &E)
        ensures
            *source == self@,
    {
        &self.0
    }
}

impl<E> Clone for SharedError<E> {
    fn clone(&self) -> (clone: Self)
        ensures
            clone@ == self@,
    {
        SharedError(self.0.clone())
    }
}

/// Errors returned by blocking task handles.
#[derive(Debug)]
pub enum BlockingTaskError<E> {
    /// The blocking task could not be started.
    Rejected(SpawnBlockingError),
    /// The blocking task observed cooperative cancellation.
    Cancelled,
    /// The blocking task returned an application error.
    Failed(SharedError<E>),
    /// The blocking task panicked.
    Panicked,
    /// The task runtime lost the completion result unexpectedly.
    Unavailable,
}

/// What a [`BlockingTaskError`] says.
pub enum BlockingTaskErrorView<E> {
    Rejected(SpawnBlockingErrorView),
    Cancelled,
    Failed(E),
    Panicked,
    Unavailable,
}

impl<E> View for BlockingTaskError<E> {
    type V = BlockingTaskErrorView<E>;

    open spec fn view(&self) -> BlockingTaskErrorView<E> {
        match *self {
            BlockingTaskError::Rejected(error) => BlockingTaskErrorView::Rejected(error@),
            BlockingTaskError::Cancelled => BlockingTaskErrorView::Cancelled,
            BlockingTaskError::Failed(error) => BlockingTaskErrorView::Failed(error@),
            BlockingTaskError::Panicked => BlockingTaskErrorView::Panicked,
            BlockingTaskError::Unavailable => BlockingTaskErrorView::Unavailable,
        }
    }
}

impl<E> BlockingTaskErrorView<E> {
    /// The text shown to users.
    pub open spec fn text(self) -> Seq<char> {
        match self {
            BlockingTaskErrorView::Rejected(error) => error.text(),
            BlockingTaskErrorView::Cancelled => "blocking task was cancelled"@,
            BlockingTaskErrorView::Failed(_) => "blocking task failed"@,
            BlockingTaskErrorView::Panicked => "blocking task panicked"@,
            BlockingTaskErrorView::Unavailable => "blocking task result became unavailable"@,
        }
    }
}

impl<E> BlockingTaskError<E> {
    /// Returns the text shown to users.
    pub fn message(&self) -> (message: String)
        ensures
            message@ == self@.text(),
    {
        match self {
            BlockingTaskError::Rejected(error) => error.message(),
            BlockingTaskError::Cancelled => "blocking task was cancelled".to_owned(),
            BlockingTaskError::Failed(_) => "blocking task failed".to_owned(),
            BlockingTaskError::Panicked => "blocking task panicked".to_owned(),
            BlockingTaskError::Unavailable => "blocking task result became unavailable".to_owned(),
        }
    }
}

impl<E> Clone for BlockingTaskError<E> {
    fn clone(&self) -> (clone: Self)
        ensures
            clone@ == self@,
    {
        match self {
            BlockingTaskError::Rejected(error) => BlockingTaskError::Rejected(error.clone()),
            BlockingTaskError::Cancelled => BlockingTaskError::Cancelled,
            BlockingTaskError::Failed(error) => BlockingTaskError::Failed(error.clone()),
            BlockingTaskError::Panicked => BlockingTaskError::Panicked,
            BlockingTaskError::Unavailable => BlockingTaskError::Unavailable,
        }
    }
}

/// A blocking task failure with task identity attached.
#[derive(Debug)]
pub struct BlockingTaskFailure<E> {
    task_id: BlockingTaskId,
    task_name: Option<String>,
    error: BlockingTaskError<E>,
}

/// What a [`BlockingTaskFailure`] says.
pub struct BlockingTaskFailureView<E> {
    pub task_id: BlockingTaskId,
    pub task_name: Option<Seq<char>>,
    pub error: BlockingTaskErrorView<E>,
}

impl<E> View for BlockingTaskFailure<E> {
    type V = BlockingTaskFailureView<E>;

    closed spec fn view(&self) -> BlockingTaskFailureView<E> {
        BlockingTaskFailureView {
            task_id: self.task_id,
            task_name: crate::context::optional_text(self.task_name),
            error: self.error@,
        }
    }
}

impl<E> BlockingTaskFailureView<E> {
    /// The text shown to users.
    pub open spec fn text(self) -> Seq<char> {
        match self.task_name {
            Some(name) => "blocking task `"@ + self.task_id.shown() + "` (`"@ + name
                + "`) failed"@,
            None => "blocking task `"@ + self.task_id.shown() + "` failed"@,
        }
    }
}

impl<E> BlockingTaskFailure<E> {
    /// The failure of the given task.
    pub fn new(
        task_id: BlockingTaskId,
        task_name: Option<String>,
        error: BlockingTaskError<E>,
    ) -> (failure: Self)
        ensures
            failure@ == (BlockingTaskFailureView {
                task_id,
                task_name: crate::context::optional_text(task_name),
                error: error@,
            }),
    {
        BlockingTaskFailure { task_id, task_name, error }
    }

    /// Returns the failed blocking task id.
    pub fn task_id(&self) -> (id: BlockingTaskId)
        ensures
            id == self@.task_id,
    {
        self.task_id
    }

    /// Returns the optional blocking task name.
    pub fn task_name(&self) -> (name: Option<&str>)
        ensures
            crate::observability::optional_chars(name) == self@.task_name,
    {
        match &self.task_name {
            Some(name) => Some(name.as_str()),
            None => None,
        }
    }

    /// Returns the underlying blocking task error.
    pub fn error(&self) -> (error: &BlockingTaskError<E>)
        ensures
            error@ == self@.error,
    {
        &self.error
    }

    /// Returns the text shown to users.
    pub fn message(&self) -> (message: String)
        ensures
            message@ == self@.text(),
    {
        let id = self.task_id.text();
        match &self.task_name {
            Some(name) => {
                let mut message = wrapped("blocking task `", id.as_str(), "` (`");
                message.append(name.as_str());
                message.append("`) failed");
                message
            },
            None => wrapped("blocking task `", id.as_str(), "` failed"),
        }
    }
}

// ---------------------------------------------------------------------------
// Results
// ---------------------------------------------------------------------------

/// How a blocking task ended, as it is reported.
#[derive(Debug, Clone, Copy, PartialEq, Eq, Structural)]
pub enum BlockingTaskStatus {
    Completed,
    Cancelled,
    Failed,
    Panicked,
}

impl BlockingTaskStatus {
    /// The label of this status.
    pub open spec fn label(self) -> Seq<char> {
        match self {
            BlockingTaskStatus::Completed => "completed"@,
            BlockingTaskStatus::Cancelled => "cancelled"@,
            BlockingTaskStatus::Failed => "failed"@,
            BlockingTaskStatus::Panicked => "panicked"@,
        }
    }

    /// Returns the label of this status.
    pub fn as_str(self) -> (label: &'static str)
        ensures
            label@ == self.label(),
    {
        match self {
            BlockingTaskStatus::Completed => "completed",
            BlockingTaskStatus::Cancelled => "cancelled",
            BlockingTaskStatus::Failed => "failed",
            BlockingTaskStatus::Panicked => "panicked",
        }
    }
}

/// The view of a task's result.
pub open spec fn task_result_view<E>(result: Result<(), BlockingTaskError<E>>) -> Result<
    (),
    BlockingTaskErrorView<E>,
> {
    match result {
        Ok(_) => Ok(()),
        Err(error) => Err(error@),
    }
}

/// The status of a task with the given result.
pub open spec fn status_of_result<E>(result: Result<(), BlockingTaskErrorView<E>>) ->
    BlockingTaskStatus {
    match result {
        Ok(_) => BlockingTaskStatus::Completed,
        Err(BlockingTaskErrorView::Cancelled) => BlockingTaskStatus::Cancelled,
        Err(BlockingTaskErrorView::Failed(_)) => BlockingTaskStatus::Failed,
        Err(BlockingTaskErrorView::Rejected(_)) => BlockingTaskStatus::Failed,
        Err(_) => BlockingTaskStatus::Panicked,
    }
}

/// Returns the status of a task with the given result.
pub fn blocking_status_for_result<E>(result: &Result<(), BlockingTaskError<E>>) -> (status:
    BlockingTaskStatus)
    ensures
        status == status_of_result(task_result_view(*result)),
{
    match result {
        Ok(()) => BlockingTaskStatus::Completed,
        Err(BlockingTaskError::Cancelled) => BlockingTaskStatus::Cancelled,
        Err(BlockingTaskError::Failed(_)) => BlockingTaskStatus::Failed,
        Err(BlockingTaskError::Panicked) => BlockingTaskStatus::Panicked,
        Err(BlockingTaskError::Unavailable) => BlockingTaskStatus::Panicked,
        Err(BlockingTaskError::Rejected(_)) => BlockingTaskStatus::Failed,
    }
}

/// How the closure of a blocking task came back.
#[derive(Debug)]
pub enum ClosureOutcome<E> {
    /// It returned.
    Returned(Result<(), BlockingOperationError<E>>),
    /// It panicked.
    Panicked,
}

/// The result of a task whose closure came back like this.
pub open spec fn closure_result<E>(outcome: ClosureOutcome<E>) -> Result<
    (),
    BlockingTaskErrorView<E>,
> {
    match outcome {
        ClosureOutcome::Returned(Ok(_)) => Ok(()),
        ClosureOutcome::Returned(Err(BlockingOperationError::Cancelled)) => Err(
            BlockingTaskErrorView::Cancelled,
        ),
        ClosureOutcome::Returned(Err(BlockingOperationError::Failed(error))) => Err(
            BlockingTaskErrorView::Failed(error),
        ),
        ClosureOutcome::Panicked => Err(BlockingTaskErrorView::Panicked),
    }
}

/// The failure that a result means for the actor, if any: every error but
/// cooperative cancellation.
pub open spec fn result_failure<E>(
    task_id: BlockingTaskId,
    task_name: Option<Seq<char>>,
    result: Result<(), BlockingTaskErrorView<E>>,
) -> Option<BlockingTaskFailureView<E>> {
    match result {
        Ok(_) => None,
        Err(BlockingTaskErrorView::Cancelled) => None,
        Err(error) => Some(BlockingTaskFailureView { task_id, task_name, error }),
    }
}

/// The view of an optional failure.
pub open spec fn failure_view<E>(failure: Option<BlockingTaskFailure<E>>) -> Option<
    BlockingTaskFailureView<E>,
> {
    match failure {
        Some(failure) => Some(failure@),
        None => None,
    }
}

/// Everything that follows from how a blocking task's closure came back.
#[derive(Debug)]
pub struct TaskCompletion<E> {
    /// What the handle of the task receives.
    pub result: Result<(), BlockingTaskError<E>>,
    /// The status that the task is reported with.
    pub status: BlockingTaskStatus,
    /// The error text that the task is reported with.
    pub error: Option<String>,
    /// The failure that the actor takes note of.
    pub failure: Option<BlockingTaskFailure<E>>,
}

/// Works out what follows from how a blocking task's closure came back.
pub fn complete_task<E>(
    task_id: BlockingTaskId,
    task_name: Option<&str>,
    outcome: ClosureOutcome<E>,
) -> (completion: TaskCompletion<E>)
    ensures
        task_result_view(completion.result) == closure_result(outcome),
        completion.status == status_of_result(closure_result(outcome)),
        crate::context::optional_text(completion.error) == match closure_result(outcome) {
            Ok(_) => None,
            Err(error) => Some(error.text()),
        },
        failure_view(completion.failure) == result_failure(
            task_id,
            crate::observability::optional_chars(task_name),
            closure_result(outcome),
        ),
{
    let result = match outcome {
        ClosureOutcome::Returned(Ok(())) => Ok(()),
        ClosureOutcome::Returned(Err(BlockingOperationError::Cancelled)) => {
            Err(BlockingTaskError::Cancelled)
        },
        ClosureOutcome::Returned(Err(BlockingOperationError::Failed(error))) => {
            Err(BlockingTaskError::Failed(SharedError::new(error)))
        },
        ClosureOutcome::Panicked => Err(BlockingTaskError::Panicked),
    };
    let status = blocking_status_for_result(&result);
    let error = match &result {
        Ok(()) => None,
        Err(error) => Some(error.message()),
    };
    let failure = match &result {
        Ok(()) => None,
        Err(BlockingTaskError::Cancelled) => None,
        Err(error) => {
            let name = match task_name {
                Some(name) => Some(name.to_owned()),
                None => None,
            };
            Some(BlockingTaskFailure::new(task_id, name, error.clone()))
        },
    };
    TaskCompletion { result, status, error, failure }
}

/// What waiting for a task returns: its result, or that the result was lost.
pub fn wait_result<E>(received: Option<Result<(), BlockingTaskError<E>>>) -> (result: Result<
    (),
    BlockingTaskError<E>,
>)
    ensures
        match received {
            Some(sent) => result == sent,
            None => result == Err::<(), BlockingTaskError<E>>(BlockingTaskError::Unavailable),
        },
{
    match received {
        Some(sent) => sent,
        None => Err(BlockingTaskError::Unavailable),
    }
}

// ---------------------------------------------------------------------------
// Cancellation
// ---------------------------------------------------------------------------

/// Whether a blocking task should stop: it was cancelled itself, or its actor
/// is shutting down.
pub fn should_stop(task_cancelled: bool, actor_shutting_down: bool) -> (stop: bool)
    ensures
        stop == (task_cancelled || actor_shutting_down),
{
    task_cancelled || actor_shutting_down
}

/// What a checkpoint returns to a task that should stop or go on.
pub fn checkpoint_result<E>(stop: bool) -> (result: Result<(), BlockingOperationError<E>>)
    ensures
        result == if stop {
            Err::<(), BlockingOperationError<E>>(BlockingOperationError::Cancelled)
        } else {
            Ok(())
        },
{
    if stop {
        Err(BlockingOperationError::Cancelled)
    } else {
        Ok(())
    }
}

/// What the tokens that stop a blocking task were found to say.
pub struct StopReadings {
    /// Of the token that cancels the task alone.
    pub task: TokenReading,
    /// Of the token that stops the owning actor.
    pub actor: TokenReading,
}

impl StopReadings {
    /// Whether one of the tokens was cancelled.
    pub open spec fn found_cancelled(self) -> bool {
        self.task.found_cancelled() || self.actor.found_cancelled()
    }

    /// Returns whether the task should stop.
    pub fn should_stop(&self) -> (stop: bool)
        ensures
            stop == self.found_cancelled(),
    {
        should_stop(self.task.is_cancelled(), self.actor.is_cancelled())
    }
}

/// A checkpoint of a blocking task: what was found, and what it returns.
pub struct Checkpoint<E> {
    pub readings: StopReadings,
    pub result: Result<(), BlockingOperationError<E>>,
}

/// Synchronous context passed to blocking task closures.
#[verifier::reject_recursive_types(M)]
pub struct BlockingContext<M> {
    myself: ActorRef<M>,
    actor_shutdown: CancellationToken,
    task_cancel: CancellationToken,
}

impl<M> BlockingContext<M> {
    /// The ref that leads back to the owning actor.
    pub closed spec fn owner(self) -> crate::context::ActorRefView<M> {
        self.myself@
    }

    /// The token that stops the owning actor.
    pub closed spec fn actor_token(self) -> CancellationToken {
        self.actor_shutdown
    }

    /// The token that cancels the task alone.
    pub closed spec fn task_token(self) -> CancellationToken {
        self.task_cancel
    }

    /// The context of a task owned by the actor that `myself` leads to.
    pub fn new(
        myself: ActorRef<M>,
        actor_shutdown: CancellationToken,
        task_cancel: CancellationToken,
    ) -> (context: Self)
        ensures
            context.owner() == myself@,
            context.actor_token() == actor_shutdown,
            context.task_token() == task_cancel,
    {
        BlockingContext { myself, actor_shutdown, task_cancel }
    }

    /// Looks whether the task or its owning actor has been cancelled by now.
    pub fn is_cancelled(&self) -> (readings: StopReadings)
        ensures
            readings.task.of() == self.task_token(),
            readings.actor.of() == self.actor_token(),
    {
        StopReadings {
            task: token_is_cancelled(&self.task_cancel),
            actor: token_is_cancelled(&self.actor_shutdown),
        }
    }

    /// Gives the cancellation error once the task should stop.
    pub fn checkpoint<E>(&self) -> (checkpoint: Checkpoint<E>)
        ensures
            checkpoint.readings.task.of() == self.task_token(),
            checkpoint.readings.actor.of() == self.actor_token(),
            checkpoint.result == if checkpoint.readings.found_cancelled() {
                Err::<(), BlockingOperationError<E>>(BlockingOperationError::Cancelled)
            } else {
                Ok(())
            },
    {
        let readings = self.is_cancelled();
        let result = checkpoint_result(readings.should_stop());
        Checkpoint { readings, result }
    }

    /// Returns a sender targeting the owning actor's mailbox.
    pub fn myself(&self) -> (myself: &ActorRef<M>)
        ensures
            myself@ == self.owner(),
    {
        &self.myself
    }
}

/// Handle to a blocking task spawned by an actor.
pub struct BlockingHandle {
    id: BlockingTaskId,
    name: Option<String>,
    cancel: CancellationToken,
}

impl BlockingHandle {
    /// The task that the handle leads to.
    pub closed spec fn task(self) -> BlockingTaskId {
        self.id
    }

    /// The name of the task.
    pub closed spec fn task_name(self) -> Option<Seq<char>> {
        crate::context::optional_text(self.name)
    }

    /// The token that cancels the task.
    pub closed spec fn token(self) -> CancellationToken {
        self.cancel
    }

    /// Returns the blocking task id.
    pub fn id(&self) -> (id: BlockingTaskId)
        ensures
            id == self.task(),
    {
        self.id
    }

    /// Returns the optional blocking task name.
    pub fn name(&self) -> (name: Option<&str>)
        ensures
            crate::observability::optional_chars(name) == self.task_name(),
    {
        match &self.name {
            Some(name) => Some(name.as_str()),
            None => None,
        }
    }

    /// Requests cooperative cancellation of the blocking task.
    pub fn cancel(&self) -> (done: Cancellation)
        ensures
            done.of() == self.token(),
    {
        token_cancel(&self.cancel)
    }
}

/// Whether somebody waits for a task's result.
#[derive(Debug)]
pub struct BlockingTaskState {
    claimed_for_wait: bool,
}

impl View for BlockingTaskState {
    type V = bool;

    closed spec fn view(&self) -> bool {
        self.claimed_for_wait
    }
}

impl BlockingTaskState {
    /// Nobody waits yet.
    pub fn new() -> (state: Self)
        ensures
            !state@,
    {
        BlockingTaskState { claimed_for_wait: false }
    }

    /// Takes over the responsibility for the task's result.
    pub fn claim_for_wait(&mut self)
        ensures
            final(self)@,
    {
        self.claimed_for_wait = true;
    }

    /// Whether somebody has taken over the responsibility.
    pub fn was_claimed_for_wait(&self) -> (claimed: bool)
        ensures
            claimed == self@,
    {
        self.claimed_for_wait
    }
}

// ---------------------------------------------------------------------------
// Admission
// ---------------------------------------------------------------------------

/// Bounds how many blocking tasks of an actor are active at a time.
pub struct BlockingAdmission {
    limit: usize,
    permits: Permits,
}

impl BlockingAdmission {
    /// How many tasks may be active.
    pub closed spec fn bound(self) -> usize {
        self.limit
    }

    /// The semaphore that counts the active tasks.
    pub closed spec fn source(self) -> Semaphore {
        self.permits.source()
    }

    #[verifier::type_invariant]
    spec fn one_permit_for_each_task(self) -> bool {
        self.permits.total() == self.limit
    }

    /// Admits at most `limit` tasks at a time.
    pub fn new(limit: usize) -> (admission: Self)
        requires
            limit <= crate::sync::max_permits(),
        ensures
            admission.bound() == limit,
    {
        BlockingAdmission { limit, permits: semaphore_new(limit) }
    }

    /// Takes a permit for one task, if one is free: it is, unless as many are
    /// in use as tasks may be active.
    pub fn try_acquire(&self, actor_id: &str) -> (outcome: Result<
        Permit,
        (SpawnBlockingError, Exhausted),
    >)
        ensures
            match outcome {
                Ok(permit) => {
                    &&& permit.source() == self.source()
                    &&& 0 <= permit.others() < self.bound()
                },
                Err((error, found)) => {
                    &&& found.source() == self.source()
                    &&& found.in_use() == self.bound()
                    &&& error@ == (SpawnBlockingErrorView::AtCapacity {
                        actor_id: actor_id@,
                        max_blocking_tasks: self.bound(),
                    })
                },
            },
    {
        proof {
            use_type_invariant(self);
        }
        match semaphore_try_acquire(&self.permits) {
            Ok(permit) => Ok(permit),
            Err(found) => Err(
                (
                    SpawnBlockingError::AtCapacity {
                        actor_id: actor_id.to_owned(),
                        max_blocking_tasks: self.limit,
                    },
                    found,
                ),
            ),
        }
    }
}

/// Why a new task is turned away, if it is: the actor is shutting down, or it
/// has a limit and no permit is free.
pub open spec fn spawn_problem(
    actor_id: Seq<char>,
    shutting_down: bool,
    limit: Option<usize>,
    permit_free: bool,
) -> Option<SpawnBlockingErrorView> {
    if shutting_down {
        Some(SpawnBlockingErrorView::ShuttingDown { actor_id })
    } else if limit is Some && !permit_free {
        Some(
            SpawnBlockingErrorView::AtCapacity { actor_id, max_blocking_tasks: limit.unwrap() },
        )
    } else {
        None
    }
}

/// A blocking task that is on record, with the means to join it.
pub struct BlockingTaskEntry<J> {
    pub id: BlockingTaskId,
    pub name: Option<String>,
    pub cancel: StopSwitch,
    pub join: J,
}

/// The blocking tasks of one actor run.
pub struct BlockingState<J> {
    closing: bool,
    next_id: u64,
    tasks: Vec<BlockingTaskEntry<J>>,
}

/// What a [`BlockingState`] holds.
pub struct BlockingStateView<J> {
    pub closing: bool,
    pub next_id: u64,
    pub tasks: Seq<BlockingTaskEntry<J>>,
}

impl<J> View for BlockingState<J> {
    type V = BlockingStateView<J>;

    closed spec fn view(&self) -> BlockingStateView<J> {
        BlockingStateView { closing: self.closing, next_id: self.next_id, tasks: self.tasks@ }
    }
}

impl<J> BlockingStateView<J> {
    /// What always holds: tasks on record have ids that were handed out, and
    /// no two of them the same.
    pub open spec fn is_consistent(self) -> bool {
        &&& forall|i: int|
            0 <= i < self.tasks.len() ==> (#[trigger] self.tasks[i]).id.number() < self.next_id
        &&& forall|i: int, j: int|
            0 <= i < j < self.tasks.len() ==> (#[trigger] self.tasks[i]).id != (
            #[trigger] self.tasks[j]).id
    }

    /// Where the task with the given id stands on record, at or after `from`.
    pub open spec fn place(self, id: BlockingTaskId, from: int) -> int
        decreases self.tasks.len() - from,
    {
        if from < 0 || from >= self.tasks.len() {
            self.tasks.len() as int
        } else if self.tasks[from].id == id {
            from
        } else {
            self.place(id, from + 1)
        }
    }
}

/// The entry of a task after it was told to stop: the token that cancels it
/// was cancelled, and all else is as it was.
pub open spec fn told_to_stop<J>(before: BlockingTaskEntry<J>, after: BlockingTaskEntry<J>) -> bool {
    &&& after.id == before.id
    &&& after.name == before.name
    &&& after.join == before.join
    &&& after.cancel.token() == before.cancel.token()
    &&& after.cancel.is_thrown()
}

/// A task that was admitted: its id, a cancellation token of its own, and its
/// permit where the actor has a limit.
pub struct AdmittedTask {
    pub id: BlockingTaskId,
    pub cancel: FreshToken,
    pub permit: Option<Permit>,
    /// What the token that stops the actor was found to say.
    pub shutdown: TokenReading,
}

/// What a task was turned away for.
pub enum RefusalGrounds {
    /// The blocking tasks of the run are being wound up.
    Closing,
    /// The token that stops the actor was cancelled.
    ActorStopping(TokenReading),
    /// The token was not cancelled, and no permit was free.
    NoPermit(TokenReading, Exhausted),
}

/// A task that was turned away.
pub struct RefusedTask {
    pub error: SpawnBlockingError,
    pub grounds: RefusalGrounds,
}

/// Whether a task may be turned away with `error` on the given grounds.
pub open spec fn refusal_is_grounded(
    closing: bool,
    actor_id: Seq<char>,
    actor_shutdown: CancellationToken,
    admission: Option<BlockingAdmission>,
    grounds: RefusalGrounds,
    error: SpawnBlockingErrorView,
) -> bool {
    match grounds {
        RefusalGrounds::Closing => {
            &&& closing
            &&& error == (SpawnBlockingErrorView::ShuttingDown { actor_id })
        },
        RefusalGrounds::ActorStopping(shutdown) => {
            &&& !closing
            &&& shutdown.of() == actor_shutdown
            &&& shutdown.found_cancelled()
            &&& error == (SpawnBlockingErrorView::ShuttingDown { actor_id })
        },
        RefusalGrounds::NoPermit(shutdown, found) => {
            &&& !closing
            &&& shutdown.of() == actor_shutdown
            &&& !shutdown.found_cancelled()
            &&& admission matches Some(admission)
            &&& found.source() == admission.source()
            &&& found.in_use() == admission.bound()
            &&& error == (SpawnBlockingErrorView::AtCapacity {
                actor_id,
                max_blocking_tasks: admission.bound(),
            })
        },
    }
}

/// The state after a task was admitted or turned away.
pub open spec fn after_spawn<J>(state: BlockingStateView<J>, admitted: bool) -> BlockingStateView<J> {
    if admitted {
        BlockingStateView { next_id: (state.next_id + 1) as u64, ..state }
    } else {
        state
    }
}

/// One call for a new task: whether it was admitted, and the name it was given.
pub struct SpawnCall {
    pub admitted: bool,
    pub name: Option<Seq<char>>,
}

/// The state after a sequence of calls.
pub open spec fn after_spawns<J>(
    state: BlockingStateView<J>,
    calls: Seq<SpawnCall>,
) -> BlockingStateView<J>
    decreases calls.len(),
{
    if calls.len() == 0 {
        state
    } else {
        after_spawn(after_spawns(state, calls.drop_last()), calls.last().admitted)
    }
}

/// The number and the name of each task that a sequence of calls admitted, in
/// order.
pub open spec fn spawned<J>(state: BlockingStateView<J>, calls: Seq<SpawnCall>) -> Seq<
    (u64, Option<Seq<char>>),
>
    decreases calls.len(),
{
    if calls.len() == 0 {
        Seq::empty()
    } else {
        let before = spawned(state, calls.drop_last());
        if calls.last().admitted {
            before.push((after_spawns(state, calls.drop_last()).next_id, calls.last().name))
        } else {
            before
        }
    }
}

/// The names in the calls that were admitted, in order.
pub open spec fn admitted_names(calls: Seq<SpawnCall>) -> Seq<Option<Seq<char>>>
    decreases calls.len(),
{
    if calls.len() == 0 {
        Seq::empty()
    } else if calls.last().admitted {
        admitted_names(calls.drop_last()).push(calls.last().name)
    } else {
        admitted_names(calls.drop_last())
    }
}

/// The tasks of a run are numbered in the order of their admission, from zero
/// and without gaps: a call that is turned away uses up no number. Each keeps
/// the name that it was given.
pub proof fn admitted_tasks_are_numbered_in_order<J>(
    state: BlockingStateView<J>,
    calls: Seq<SpawnCall>,
)
    requires
        state.next_id == 0,
        calls.len() <= u64::MAX,
    ensures
        ({
            let tasks = spawned(state, calls);
            &&& after_spawns(state, calls).next_id == tasks.len()
            &&& tasks.len() == admitted_names(calls).len()
            &&& tasks.len() <= calls.len()
            &&& forall|k: int|
                0 <= k < tasks.len() ==> (#[trigger] tasks[k]).0 == k && tasks[k].1
                    == admitted_names(calls)[k]
        }),
    decreases calls.len(),
{
    if calls.len() > 0 {
        admitted_tasks_are_numbered_in_order(state, calls.drop_last());
    }
}

impl<J> BlockingState<J> {
    /// What holds of every value.
    #[verifier::type_invariant]
    pub closed spec fn is_valid(self) -> bool {
        self@.is_consistent()
    }

    /// No tasks yet.
    pub fn new() -> (state: Self)
        ensures
            state@ == (BlockingStateView::<J> { closing: false, next_id: 0, tasks: Seq::empty() }),
            state@.is_consistent(),
    {
        BlockingState { closing: false, next_id: 0, tasks: Vec::new() }
    }

    /// Whether every task id has been given out, so that no further task can
    /// be admitted.
    pub fn ids_are_used_up(&self) -> (used_up: bool)
        ensures
            used_up == (self@.next_id == u64::MAX),
    {
        self.next_id == u64::MAX
    }

    /// Admits a new task, unless the actor is shutting down or as many of its
    /// tasks are active as its limit allows. A refusal says what was found.
    pub fn spawn_blocking(
        &mut self,
        actor_id: &str,
        actor_shutdown: &CancellationToken,
        admission: &Option<BlockingAdmission>,
    ) -> (result: Result<AdmittedTask, RefusedTask>)
        requires
            old(self)@.next_id < u64::MAX,
        ensures
            final(self)@.is_consistent(),
            final(self)@ == after_spawn(old(self)@, result is Ok),
            match result {
                Ok(task) => {
                    &&& !old(self)@.closing
                    &&& task.shutdown.of() == *actor_shutdown
                    &&& !task.shutdown.found_cancelled()
                    &&& task.id.number() == old(self)@.next_id
                    &&& match *admission {
                        Some(admission) => {
                            &&& task.permit matches Some(permit)
                            &&& permit.source() == admission.source()
                            &&& 0 <= permit.others() < admission.bound()
                        },
                        None => task.permit is None,
                    }
                },
                Err(refused) => refusal_is_grounded(
                    old(self)@.closing,
                    actor_id@,
                    *actor_shutdown,
                    *admission,
                    refused.grounds,
                    refused.error@,
                ),
            },
    {
        proof {
            use_type_invariant(&*self);
        }
        if self.closing {
            let error = SpawnBlockingError::ShuttingDown { actor_id: actor_id.to_owned() };
            return Err(RefusedTask { error, grounds: RefusalGrounds::Closing });
        }
        let shutdown = token_is_cancelled(actor_shutdown);
        let stopping = shutdown.is_cancelled();
        let mut limit: Option<usize> = None;
        let mut permit: Option<Permit> = None;
        if let Some(admission) = admission {
            limit = Some(admission.limit);
            if !stopping {
                permit = match admission.try_acquire(actor_id) {
                    Ok(permit) => Some(permit),
                    Err((error, found)) => {
                        let grounds = RefusalGrounds::NoPermit(shutdown, found);
                        return Err(RefusedTask { error, grounds });
                    },
                };
            }
        }
        match self.decide(actor_id, stopping, limit, permit.is_some()) {
            Ok(id) => Ok(AdmittedTask { id, cancel: token_new(), permit, shutdown }),
            Err(error) => {
                Err(RefusedTask { error, grounds: RefusalGrounds::ActorStopping(shutdown) })
            },
        }
    }

    /// Decides whether a new task is admitted, given whether the actor is
    /// shutting down and whether a permit is free, and hands out its id.
    pub fn decide(
        &mut self,
        actor_id: &str,
        actor_shutting_down: bool,
        limit: Option<usize>,
        permit_free: bool,
    ) -> (result: Result<BlockingTaskId, SpawnBlockingError>)
        requires
            old(self)@.next_id < u64::MAX,
        ensures
            final(self)@.is_consistent(),
            match spawn_problem(
                actor_id@,
                old(self)@.closing || actor_shutting_down,
                limit,
                permit_free,
            ) {
                Some(problem) => {
                    &&& result matches Err(error)
                    &&& error@ == problem
                },
                None => {
                    &&& result matches Ok(id)
                    &&& id.number() == old(self)@.next_id
                },
            },
            final(self)@ == after_spawn(old(self)@, result is Ok),
    {
        proof {
            use_type_invariant(&*self);
        }
        if self.closing || actor_shutting_down {
            return Err(SpawnBlockingError::ShuttingDown { actor_id: actor_id.to_owned() });
        }
        if let Some(limit) = limit {
            if !permit_free {
                return Err(
                    SpawnBlockingError::AtCapacity {
                        actor_id: actor_id.to_owned(),
                        max_blocking_tasks: limit,
                    },
                );
            }
        }
        Ok(self.take_id())
    }

    fn take_id(&mut self) -> (id: BlockingTaskId)
        requires
            old(self)@.next_id < u64::MAX,
        ensures
            final(self)@.is_consistent(),
            id.number() == old(self)@.next_id,
            final(self)@ == after_spawn(old(self)@, true),
    {
        proof {
            use_type_invariant(&*self);
        }
        let id = BlockingTaskId(self.next_id);
        self.next_id = self.next_id + 1;
        id
    }

    /// Puts an admitted task on record, and returns the handle to it.
    pub fn record(&mut self, task_id: BlockingTaskId, name: Option<String>, cancel: CancellationToken,
        join: J) -> (handle: BlockingHandle)
        requires
            task_id.number() < old(self)@.next_id,
            old(self)@.place(task_id, 0) == old(self)@.tasks.len(),
        ensures
            final(self)@.is_consistent(),
            handle.task() == task_id,
            handle.task_name() == crate::context::optional_text(name),
            handle.token() == cancel,
            final(self)@ == (BlockingStateView {
                tasks: old(self)@.tasks.push(final(self)@.tasks.last()),
                ..old(self)@
            }),
            final(self)@.tasks.last().id == task_id,
            final(self)@.tasks.last().name == name,
            final(self)@.tasks.last().join == join,
            final(self)@.tasks.last().cancel.token() == cancel,
            !final(self)@.tasks.last().cancel.is_thrown(),
    {
        proof {
            use_type_invariant(&*self);
            place_is_in_range(self@, task_id, 0);
        }
        let handle_name = match &name {
            Some(name) => Some(name.clone()),
            None => None,
        };
        let handle = BlockingHandle { id: task_id, name: handle_name, cancel: token_clone(&cancel) };
        let cancel = StopSwitch::new(cancel);
        let mut tasks: Vec<BlockingTaskEntry<J>> = Vec::new();
        std::mem::swap(&mut tasks, &mut self.tasks);
        tasks.push(BlockingTaskEntry { id: task_id, name, cancel, join });
        self.tasks = tasks;
        handle
    }

    /// Takes a task off the record.
    pub fn take_task(&mut self, task_id: BlockingTaskId) -> (taken: Option<BlockingTaskEntry<J>>)
        ensures
            final(self)@.is_consistent(),
            if old(self)@.place(task_id, 0) < old(self)@.tasks.len() {
                let index = old(self)@.place(task_id, 0);
                &&& 0 <= index
                &&& taken == Some(old(self)@.tasks[index])
                &&& old(self)@.tasks[index].id == task_id
                &&& final(self)@ == (BlockingStateView {
                    tasks: old(self)@.tasks.remove(index),
                    ..old(self)@
                })
            } else {
                &&& taken is None
                &&& final(self)@ == old(self)@
            },
    {
        proof {
            use_type_invariant(&*self);
        }
        let mut index: usize = 0;
        while index < self.tasks.len()
            invariant
                index <= self.tasks@.len(),
                self.tasks@ == self@.tasks,
                self@ == old(self)@,
                self@.place(task_id, 0) == self@.place(task_id, index as int),
                self@.is_consistent(),
            decreases self.tasks@.len() - index,
        {
            if self.tasks[index].id.0 == task_id.0 {
                let mut tasks: Vec<BlockingTaskEntry<J>> = Vec::new();
                std::mem::swap(&mut tasks, &mut self.tasks);
                let entry = tasks.remove(index);
                self.tasks = tasks;
                return Some(entry);
            }
            index += 1;
        }
        None
    }

    /// Turns away new tasks from now on, cancels those on record, and hands
    /// them over.
    pub fn close_and_take_all(&mut self) -> (entries: Vec<BlockingTaskEntry<J>>)
        ensures
            final(self)@.is_consistent(),
            final(self)@ == (BlockingStateView {
                closing: true,
                tasks: Seq::empty(),
                ..old(self)@
            }),
            entries@.len() == old(self)@.tasks.len(),
            forall|i: int|
                0 <= i < entries@.len() ==> told_to_stop(
                    old(self)@.tasks[i],
                    #[trigger] entries@[i],
                ),
    {
        proof {
            use_type_invariant(&*self);
        }
        let ghost before = self.tasks@;
        self.closing = true;
        let mut entries: Vec<BlockingTaskEntry<J>> = Vec::new();
        std::mem::swap(&mut entries, &mut self.tasks);
        let count: usize = entries.len();
        for i in 0..count
            invariant
                count == entries@.len(),
                entries@.len() == before.len(),
                forall|j: int| 0 <= j < i ==> told_to_stop(before[j], #[trigger] entries@[j]),
                forall|j: int| i <= j < count ==> #[trigger] entries@[j] == before[j],
        {
            entries[i].cancel.throw();
        }
        entries
    }
}

proof fn place_is_in_range<J>(state: BlockingStateView<J>, id: BlockingTaskId, from: int)
    requires
        0 <= from <= state.tasks.len(),
    ensures
        from <= state.place(id, from) <= state.tasks.len(),
        state.place(id, from) < state.tasks.len() ==> state.tasks[state.place(id, from)].id == id,
        forall|i: int| from <= i < state.place(id, from) ==> (#[trigger] state.tasks[i]).id != id,
    decreases state.tasks.len() - from,
{
    if from < state.tasks.len() && state.tasks[from].id != id {
        place_is_in_range(state, id, from + 1);
    }
}

/// An id that has just been handed out belongs to no task on record, so it can
/// be put there.
pub proof fn fresh_ids_are_not_on_record<J>(state: BlockingStateView<J>, id: BlockingTaskId)
    requires
        state.is_consistent(),
        id.number() == state.next_id,
    ensures
        state.place(id, 0) == state.tasks.len(),
{
    place_is_in_range(state, id, 0);
}

// ---------------------------------------------------------------------------
// Joining tasks
// ---------------------------------------------------------------------------

/// How joining a blocking task came out.
#[derive(Debug)]
pub enum JoinedTask<E> {
    /// The task ended, with this failure to take note of.
    Ended(Option<BlockingTaskFailure<E>>),
    /// The task was lost.
    Lost,
    /// The task did not end before the shutdown deadline.
    TimedOut,
}

/// The failure that joining a task leaves to the actor: none where somebody
/// else waits for the result or where the task outlasted shutdown.
pub open spec fn joined_task_failure<E>(
    id: BlockingTaskId,
    name: Option<Seq<char>>,
    claimed: bool,
    joined: JoinedTask<E>,
) -> Option<BlockingTaskFailureView<E>> {
    if claimed {
        None
    } else {
        match joined {
            JoinedTask::Ended(failure) => failure_view(failure),
            JoinedTask::Lost => Some(
                BlockingTaskFailureView {
                    task_id: id,
                    task_name: name,
                    error: BlockingTaskErrorView::Unavailable,
                },
            ),
            JoinedTask::TimedOut => None,
        }
    }
}

/// Works out the failure that joining a task leaves to the actor.
pub fn complete_entry<E>(
    id: BlockingTaskId,
    name: Option<String>,
    state: &BlockingTaskState,
    joined: JoinedTask<E>,
) -> (failure: Option<BlockingTaskFailure<E>>)
    ensures
        failure_view(failure) == joined_task_failure(
            id,
            crate::context::optional_text(name),
            state@,
            joined,
        ),
{
    if state.was_claimed_for_wait() {
        return None;
    }
    match joined {
        JoinedTask::Ended(failure) => failure,
        JoinedTask::Lost => {
            Some(BlockingTaskFailure::new(id, name, BlockingTaskError::Unavailable))
        },
        JoinedTask::TimedOut => None,
    }
}

/// Reports a task that outlasted shutdown and is left to itself.
pub fn log_shutdown_timeout(
    observability: &GraphObservability,
    actor_id: &str,
    task_id: BlockingTaskId,
    task_name: Option<&str>,
    shutdown_timeout: TimeSpan,
) -> (emission: Emission)
    ensures
        emission@ == crate::observability::task_detached(
            observability@.graph_name,
            actor_id@,
            task_id.shown(),
            crate::observability::optional_chars(task_name),
            shutdown_timeout,
        ),
{
    let id = task_id.text();
    observability.emit_task_detached(actor_id, id.as_str(), task_name, shutdown_timeout)
}

/// What an actor run with blocking tasks failed with.
#[derive(Debug)]
pub enum RunnerFault<E> {
    /// The actor's own error.
    Actor(Fault<E>),
    /// The failure of one of its blocking tasks.
    Blocking(BlockingTaskFailure<E>),
}

/// The result of an actor run: the actor's own error, or else the first
/// failure among its blocking tasks.
pub fn finish_result<E>(
    actor_result: Result<(), RunnerFault<E>>,
    first_failure: Option<BlockingTaskFailure<E>>,
) -> (result: Result<(), RunnerFault<E>>)
    ensures
        match (actor_result, first_failure) {
            (Err(fault), _) => result == Err::<(), RunnerFault<E>>(fault),
            (Ok(_), Some(failure)) => result == Err::<(), RunnerFault<E>>(
                RunnerFault::Blocking(failure),
            ),
            (Ok(_), None) => result is Ok,
        },
{
    match actor_result {
        Err(fault) => Err(fault),
        Ok(()) => match first_failure {
            Some(failure) => Err(RunnerFault::Blocking(failure)),
            None => Ok(()),
        },
    }
}

/// The first failure in a sequence, if there is one.
pub open spec fn first_failure<E>(failures: Seq<Option<BlockingTaskFailureView<E>>>) -> Option<
    BlockingTaskFailureView<E>,
>
    decreases failures.len(),
{
    if failures.len() == 0 {
        None
    } else {
        match first_failure(failures.drop_last()) {
            Some(failure) => Some(failure),
            None => failures.last(),
        }
    }
}

/// Winds up the blocking tasks of an actor run that has ended: one task after
/// the other is joined, and the first failure is kept.
pub struct WindUp<J, E> {
    remaining: Vec<BlockingTaskEntry<J>>,
    tally: Tally<E>,
}

/// The first failure of those that joined tasks left.
struct Tally<E> {
    first_failure: Option<BlockingTaskFailure<E>>,
    failures: Ghost<Seq<Option<BlockingTaskFailureView<E>>>>,
}

/// What a [`WindUp`] holds.
pub struct WindUpView<J, E> {
    /// The tasks that were not handed out yet, in the order they will be.
    pub remaining: Seq<BlockingTaskEntry<J>>,
    /// What joining each of the others left, in order.
    pub failures: Seq<Option<BlockingTaskFailureView<E>>>,
}

impl<J, E> View for WindUp<J, E> {
    type V = WindUpView<J, E>;

    closed spec fn view(&self) -> WindUpView<J, E> {
        WindUpView { remaining: self.remaining@, failures: self.tally.failures@ }
    }
}

impl<J, E> WindUp<J, E> {
    /// What holds of every value: the first of the failures is the one that is
    /// kept.
    #[verifier::type_invariant]
    pub closed spec fn is_valid(self) -> bool {
        failure_view(self.tally.first_failure) == first_failure(self.tally.failures@)
    }

    /// Begins to wind up the given tasks.
    pub fn new(entries: Vec<BlockingTaskEntry<J>>) -> (wind_up: Self)
        ensures
            wind_up@ == (WindUpView::<J, E> { remaining: entries@, failures: Seq::empty() }),
    {
        let tally = Tally { first_failure: None, failures: Ghost(Seq::empty()) };
        WindUp { remaining: entries, tally }
    }

    /// Hands out the next task to join.
    pub fn next_entry(&mut self) -> (entry: Option<BlockingTaskEntry<J>>)
        ensures
            if old(self)@.remaining.len() == 0 {
                entry is None && final(self)@ == old(self)@
            } else {
                entry == Some(old(self)@.remaining[0]) && final(self)@ == (WindUpView {
                    remaining: old(self)@.remaining.remove(0),
                    ..old(self)@
                })
            },
    {
        proof {
            use_type_invariant(&*self);
        }
        if self.remaining.len() == 0 {
            return None;
        }
        let mut remaining: Vec<BlockingTaskEntry<J>> = Vec::new();
        std::mem::swap(&mut remaining, &mut self.remaining);
        let entry = remaining.remove(0);
        self.remaining = remaining;
        Some(entry)
    }

    /// Takes note of how joining a task came out.
    pub fn settle(
        &mut self,
        id: BlockingTaskId,
        name: Option<String>,
        state: &BlockingTaskState,
        joined: JoinedTask<E>,
    )
        ensures
            final(self)@ == (WindUpView {
                failures: old(self)@.failures.push(
                    joined_task_failure(id, crate::context::optional_text(name), state@, joined),
                ),
                ..old(self)@
            }),
    {
        let failure = complete_entry(id, name, state, joined);
        let ghost left = failure_view(failure);
        proof {
            use_type_invariant(&*self);
        }
        let mut tally = Tally { first_failure: None, failures: Ghost(Seq::empty()) };
        std::mem::swap(&mut tally, &mut self.tally);
        record_failure(&mut tally.first_failure, failure);
        tally.failures = Ghost(old(self)@.failures.push(left));
        assert(tally.failures@.drop_last() =~= old(self)@.failures);
        self.tally = tally;
    }

    /// The result of the run: the actor's own error, or else the first failure
    /// among its blocking tasks.
    pub fn finish(self, actor_result: Result<(), RunnerFault<E>>) -> (result: Result<
        (),
        RunnerFault<E>,
    >)
        ensures
            match actor_result {
                Err(fault) => result == Err::<(), RunnerFault<E>>(fault),
                Ok(_) => match first_failure(self@.failures) {
                    Some(expected) => result matches Err(RunnerFault::Blocking(failure)) && failure@
                        == expected,
                    None => result is Ok,
                },
            },
    {
        proof {
            use_type_invariant(&self);
        }
        finish_result(actor_result, self.tally.first_failure)
    }
}

/// Keeps the first failure.
fn record_failure<E>(
    first_failure: &mut Option<BlockingTaskFailure<E>>,
    failure: Option<BlockingTaskFailure<E>>,
)
    ensures
        *final(first_failure) == if *old(first_failure) is Some {
            *old(first_failure)
        } else {
            failure
        },
{
    if first_failure.is_none() {
        *first_failure = failure;
    }
}

/// A failure that somebody waits for is theirs: it never reaches the actor.
pub proof fn claimed_failures_are_not_propagated<E>(
    id: BlockingTaskId,
    name: Option<Seq<char>>,
    joined: JoinedTask<E>,
)
    ensures
        joined_task_failure(id, name, true, joined) is None,
{
}

/// Cooperative cancellation is no failure of the task.
pub proof fn cancelled_tasks_are_not_failures<E>(id: BlockingTaskId, name: Option<Seq<char>>)
    ensures
        result_failure::<E>(id, name, Err(BlockingTaskErrorView::Cancelled)) is None,
        result_failure::<E>(id, name, Ok(())) is None,
        result_failure::<E>(id, name, Err(BlockingTaskErrorView::Panicked)) is Some,
{
}

// ---------------------------------------------------------------------------
// The loop around an actor and its blocking tasks
// ---------------------------------------------------------------------------

/// Something that happened while an actor and its blocking tasks run.
#[derive(Debug)]
pub enum RunnerEvent<E> {
    /// The actor returned.
    ActorReturned(Result<(), Fault<E>>),
    /// A blocking task completed.
    TaskCompleted(BlockingTaskId),
    /// The completed task was joined, with this failure to take note of.
    TaskReaped(Option<BlockingTaskFailure<E>>),
    /// No further task can complete.
    TasksExhausted,
}

/// What the loop does next.
#[derive(Debug)]
pub enum RunnerAction<E> {
    /// Wait for the actor, and for completed tasks too where `tasks` says so.
    Await { tasks: bool },
    /// Join the completed task.
    Reap(BlockingTaskId),
    /// Wind up the blocking tasks, then end the run with this result.
    WindUp(Result<(), RunnerFault<E>>),
}

/// Waits for an actor while taking note of its failing blocking tasks.
pub struct RunnerLoop {
    actor_shutdown: StopSwitch,
    events_open: bool,
}

impl RunnerLoop {
    /// Whether tasks can still complete.
    pub closed spec fn is_open(self) -> bool {
        self.events_open
    }

    /// The token that stops the actor.
    pub closed spec fn stop_token(self) -> CancellationToken {
        self.actor_shutdown.token()
    }

    /// Whether the loop has stopped the actor, by cancelling its token.
    pub closed spec fn has_stopped_actor(self) -> bool {
        self.actor_shutdown.is_thrown()
    }

    /// The loop of a run that `actor_shutdown` stops.
    pub fn new(actor_shutdown: CancellationToken) -> (runner: Self)
        ensures
            runner.is_open(),
            runner.stop_token() == actor_shutdown,
            !runner.has_stopped_actor(),
    {
        RunnerLoop { actor_shutdown: StopSwitch::new(actor_shutdown), events_open: true }
    }

    /// Takes one event and says what to do next. A failing task stops the
    /// actor and ends the loop with its failure.
    pub fn step<E>(&mut self, event: RunnerEvent<E>) -> (action: RunnerAction<E>)
        ensures
            final(self).is_open() == (old(self).is_open() && !(event is TasksExhausted)),
            final(self).stop_token() == old(self).stop_token(),
            final(self).has_stopped_actor() == (old(self).has_stopped_actor()
                || event matches RunnerEvent::TaskReaped(Some(_))),
            match event {
                RunnerEvent::ActorReturned(Ok(_)) => action == RunnerAction::<E>::WindUp(Ok(())),
                RunnerEvent::ActorReturned(Err(fault)) => action == RunnerAction::WindUp(
                    Err(RunnerFault::Actor(fault)),
                ),
                RunnerEvent::TaskCompleted(id) => action == RunnerAction::<E>::Reap(id),
                RunnerEvent::TaskReaped(Some(failure)) => action == RunnerAction::WindUp(
                    Err(RunnerFault::Blocking(failure)),
                ),
                RunnerEvent::TaskReaped(None) => action == (RunnerAction::<E>::Await {
                    tasks: old(self).is_open(),
                }),
                RunnerEvent::TasksExhausted => action == (RunnerAction::<E>::Await {
                    tasks: false,
                }),
            },
    {
        match event {
            RunnerEvent::ActorReturned(Ok(())) => RunnerAction::WindUp(Ok(())),
            RunnerEvent::ActorReturned(Err(fault)) => {
                RunnerAction::WindUp(Err(RunnerFault::Actor(fault)))
            },
            RunnerEvent::TaskCompleted(id) => RunnerAction::Reap(id),
            RunnerEvent::TaskReaped(Some(failure)) => {
                self.actor_shutdown.throw();
                RunnerAction::WindUp(Err(RunnerFault::Blocking(failure)))
            },
            RunnerEvent::TaskReaped(None) => RunnerAction::Await { tasks: self.events_open },
            RunnerEvent::TasksExhausted => {
                self.events_open = false;
                RunnerAction::Await { tasks: false }
            },
        }
    }
}

/// A task ends as its closure came back, and is reported so: a clean return
/// completes it, cooperative cancellation cancels it, an error fails it with
/// that error, and a panic is a panic.
pub proof fn tasks_end_as_their_closure_did<E>(error: E)
    ensures
        ({
            let ok = closure_result::<E>(ClosureOutcome::Returned(Ok(())));
            let cancelled = closure_result::<E>(
                ClosureOutcome::Returned(Err(BlockingOperationError::Cancelled)),
            );
            let failed = closure_result::<E>(
                ClosureOutcome::Returned(Err(BlockingOperationError::Failed(error))),
            );
            let panicked = closure_result::<E>(ClosureOutcome::Panicked);
            &&& ok is Ok
            &&& status_of_result(ok) == BlockingTaskStatus::Completed
            &&& cancelled == Err::<(), BlockingTaskErrorView<E>>(BlockingTaskErrorView::Cancelled)
            &&& status_of_result(cancelled) == BlockingTaskStatus::Cancelled
            &&& failed == Err::<(), BlockingTaskErrorView<E>>(BlockingTaskErrorView::Failed(error))
            &&& status_of_result(failed) == BlockingTaskStatus::Failed
            &&& panicked == Err::<(), BlockingTaskErrorView<E>>(BlockingTaskErrorView::Panicked)
            &&& status_of_result(panicked) == BlockingTaskStatus::Panicked
        }),
{
}

/// The status of a result says what it is: completed exactly where it is fine,
/// cancelled exactly where the task was; a refused task counts as failed, and
/// one whose result was lost as panicked.
pub proof fn statuses_follow_results<E>(result: Result<(), BlockingTaskErrorView<E>>)
    ensures
        status_of_result(result) == BlockingTaskStatus::Completed <==> result is Ok,
        status_of_result(result) == BlockingTaskStatus::Cancelled <==> result is Err
            && result->Err_0 is Cancelled,
        status_of_result(result) == BlockingTaskStatus::Failed <==> result is Err && (
        result->Err_0 is Failed || result->Err_0 is Rejected),
        status_of_result(result) == BlockingTaskStatus::Panicked <==> result is Err && (
        result->Err_0 is Panicked || result->Err_0 is Unavailable),
{
}

/// Every error of a task is a failure that its actor hears of, under the task's
/// id and name, but for cooperative cancellation.
pub proof fn errors_reach_the_actor<E>(
    task_id: BlockingTaskId,
    task_name: Option<Seq<char>>,
    result: Result<(), BlockingTaskErrorView<E>>,
)
    ensures
        result_failure(task_id, task_name, result) is Some <==> result is Err
            && !(result->Err_0 is Cancelled),
        result_failure(task_id, task_name, result) matches Some(failure) ==> failure.task_id
            == task_id && failure.task_name == task_name && Err::<(), BlockingTaskErrorView<E>>(
            failure.error,
        ) == result,
{
}

/// What joining a task leaves to the actor: nothing where somebody waits for
/// the result or the task outlasted shutdown, the failure that it ended with
/// where it ended, and the loss itself where it was lost.
pub proof fn joined_tasks_leave_their_failure<E>(
    id: BlockingTaskId,
    name: Option<Seq<char>>,
    failure: BlockingTaskFailure<E>,
    joined: JoinedTask<E>,
)
    ensures
        joined_task_failure(id, name, true, joined) is None,
        joined_task_failure::<E>(id, name, false, JoinedTask::TimedOut) is None,
        joined_task_failure::<E>(id, name, false, JoinedTask::Ended(None)) is None,
        joined_task_failure(id, name, false, JoinedTask::Ended(Some(failure))) == Some(failure@),
        joined_task_failure::<E>(id, name, false, JoinedTask::Lost) matches Some(lost)
            && lost.task_id == id && lost.task_name == name && lost.error is Unavailable,
{
}

/// Of the failures of several tasks the first one counts, and those that left
/// none make no difference.
pub proof fn the_first_task_failure_counts<E>(
    failures: Seq<Option<BlockingTaskFailureView<E>>>,
    index: int,
)
    requires
        0 <= index <= failures.len(),
        forall|i: int| 0 <= i < index ==> (#[trigger] failures[i]) is None,
        index < failures.len() ==> failures[index] is Some,
    ensures
        index < failures.len() ==> first_failure(failures) == failures[index],
        index == failures.len() ==> first_failure(failures) is None,
    decreases failures.len(),
{
    if failures.len() > 0 {
        let rest = failures.drop_last();
        assert forall|i: int| 0 <= i < rest.len() && i < index implies (
        #[trigger] rest[i]) is None by {
            assert(rest[i] == failures[i]);
        }
        if index < rest.len() {
            assert(rest[index] == failures[index]);
            the_first_task_failure_counts(rest, index);
        } else {
            the_first_task_failure_counts(rest, rest.len() as int);
            assert(failures.last() == failures[failures.len() - 1]);
        }
    }
}

/// A task is admitted exactly where its actor is not shutting down and has no
/// limit or a permit to give. Shutting down comes before capacity, and each
/// refusal names the actor.
pub proof fn refusals_have_an_order(
    actor_id: Seq<char>,
    shutting_down: bool,
    limit: Option<usize>,
    permit_free: bool,
)
    ensures
        spawn_problem(actor_id, shutting_down, limit, permit_free) is None <==> !shutting_down && (
        limit is None || permit_free),
        shutting_down ==> spawn_problem(actor_id, shutting_down, limit, permit_free) == Some(
            SpawnBlockingErrorView::ShuttingDown { actor_id },
        ),
        !shutting_down && limit is Some && !permit_free ==> spawn_problem(
            actor_id,
            shutting_down,
            limit,
            permit_free,
        ) == Some(
            SpawnBlockingErrorView::AtCapacity { actor_id, max_blocking_tasks: limit.unwrap() },
        ),
{
}

/// A refusal stands on what was found: shutting down on a run that is being
/// wound up or on a token that was found cancelled, and capacity on a token
/// that was not and a semaphore of the limit's size without a free permit.
pub proof fn refusals_stand_on_findings(
    closing: bool,
    actor_id: Seq<char>,
    actor_shutdown: CancellationToken,
    admission: Option<BlockingAdmission>,
    grounds: RefusalGrounds,
    error: SpawnBlockingErrorView,
)
    requires
        refusal_is_grounded(closing, actor_id, actor_shutdown, admission, grounds, error),
    ensures
        error is ShuttingDown || error is AtCapacity,
        error is ShuttingDown ==> closing || (grounds matches RefusalGrounds::ActorStopping(found)
            && found.of() == actor_shutdown && found.found_cancelled()),
        error is AtCapacity ==> !closing && admission is Some && (
        grounds matches RefusalGrounds::NoPermit(reading, found) && reading.of() == actor_shutdown
            && !reading.found_cancelled() && found.source() == admission.unwrap().source()
            && found.in_use() == admission.unwrap().bound()),
        error matches SpawnBlockingErrorView::AtCapacity { actor_id: named, max_blocking_tasks }
            ==> named == actor_id && max_blocking_tasks == admission.unwrap().bound(),
        error matches SpawnBlockingErrorView::ShuttingDown { actor_id: named } ==> named
            == actor_id,
{
}

/// A task on record is found at its place, and an id that no task has at none.
pub proof fn recorded_tasks_are_found<J>(
    state: BlockingStateView<J>,
    id: BlockingTaskId,
    index: int,
)
    requires
        state.is_consistent(),
        0 <= index <= state.tasks.len(),
        index < state.tasks.len() ==> state.tasks[index].id == id,
        index == state.tasks.len() ==> forall|i: int|
            0 <= i < state.tasks.len() ==> (#[trigger] state.tasks[i]).id != id,
    ensures
        state.place(id, 0) == index,
{
    place_is_in_range(state, id, 0);
    let place = state.place(id, 0);
    if place < state.tasks.len() && index < state.tasks.len() && place != index {
        assert(state.tasks[place].id == state.tasks[index].id);
    }
}

/// A task that was told to stop is the same task, and its token was cancelled.
pub proof fn stopped_tasks_stay_themselves<J>(
    before: BlockingTaskEntry<J>,
    after: BlockingTaskEntry<J>,
)
    requires
        told_to_stop(before, after),
    ensures
        after.id == before.id,
        after.name == before.name,
        after.join == before.join,
        after.cancel.token() == before.cancel.token(),
        after.cancel.is_thrown(),
{
}

/// A task should stop exactly where one of its two tokens was found cancelled.
pub proof fn either_token_stops_a_task(readings: StopReadings)
    ensures
        readings.task.found_cancelled() ==> readings.found_cancelled(),
        readings.actor.found_cancelled() ==> readings.found_cancelled(),
        readings.found_cancelled() ==> readings.task.found_cancelled()
            || readings.actor.found_cancelled(),
{
}

/// The texts of errors name the actor, the limit and the task where there is
/// one, and tell the errors apart. A task's id is shown as its number.
pub proof fn blocking_errors_say_what_happened<E>(
    actor_id: Seq<char>,
    limit: usize,
    error: SpawnBlockingErrorView,
    failed: E,
    failure: BlockingTaskFailureView<E>,
)
    ensures
        (SpawnBlockingErrorView::ShuttingDown { actor_id }).text() == "actor `"@ + actor_id
            + "` is shutting down"@,
        (SpawnBlockingErrorView::AtCapacity { actor_id, max_blocking_tasks: limit }).text()
            == "actor `"@ + actor_id + "` has reached its blocking task limit of "@
            + crate::text::decimal(limit as nat),
        (BlockingTaskErrorView::<E>::Rejected(error)).text() == error.text(),
        (BlockingTaskErrorView::<E>::Cancelled).text() == "blocking task was cancelled"@,
        (BlockingTaskErrorView::<E>::Failed(failed)).text() == "blocking task failed"@,
        (BlockingTaskErrorView::<E>::Panicked).text() == "blocking task panicked"@,
        (BlockingTaskErrorView::<E>::Unavailable).text()
            == "blocking task result became unavailable"@,
        failure.task_name is None ==> failure.text() == "blocking task `"@ + failure.task_id.shown()
            + "` failed"@,
        failure.task_name matches Some(name) ==> failure.text() == "blocking task `"@
            + failure.task_id.shown() + "` (`"@ + name + "`) failed"@,
        crate::text::number_shown(failure.task_id.shown()) == failure.task_id.number(),
{
    crate::text::decimals_read_back(failure.task_id.number() as nat);
}

/// Each status has a label of its own.
pub proof fn task_statuses_have_labels(status: BlockingTaskStatus)
    ensures
        status == BlockingTaskStatus::Completed ==> status.label() == "completed"@,
        status == BlockingTaskStatus::Cancelled ==> status.label() == "cancelled"@,
        status == BlockingTaskStatus::Failed ==> status.label() == "failed"@,
        status == BlockingTaskStatus::Panicked ==> status.label() == "panicked"@,
{
}

/// A result and a failure show what they hold, and admitting a task changes
/// nothing but the next number.
pub proof fn results_show_what_they_hold<J, E>(
    error: BlockingTaskError<E>,
    failure: BlockingTaskFailure<E>,
    state: BlockingStateView<J>,
)
    requires
        state.next_id < u64::MAX,
    ensures
        task_result_view::<E>(Ok(())) == Ok::<(), BlockingTaskErrorView<E>>(()),
        task_result_view(Err(error)) == Err::<(), BlockingTaskErrorView<E>>(error@),
        failure_view(Some(failure)) == Some(failure@),
        failure_view::<E>(None) is None,
        after_spawn(state, false) == state,
        after_spawn(state, true).next_id == state.next_id + 1,
        after_spawn(state, true).tasks == state.tasks,
        after_spawn(state, true).closing == state.closing,
{
}

/// A checkpoint lets the closure go on exactly where neither its own token nor
/// its actor's was found cancelled; otherwise it is told `Cancelled`.
pub proof fn checkpoints_fail_when_stopping<E>(
    task_cancelled: bool,
    actor_shutting_down: bool,
    stop: bool,
    result: Result<(), BlockingOperationError<E>>,
)
    requires
        call_ensures(should_stop, (task_cancelled, actor_shutting_down), stop),
        call_ensures(checkpoint_result::<E>, (stop,), result),
    ensures
        result is Ok <==> !task_cancelled && !actor_shutting_down,
        result matches Err(error) ==> error is Cancelled,
{
}

/// A context's checkpoint reads the tokens that the context was made with, and
/// fails with `Cancelled` exactly where one of them was found cancelled.
pub proof fn contexts_check_their_own_tokens<M, E>(
    myself: ActorRef<M>,
    actor_shutdown: CancellationToken,
    task_cancel: CancellationToken,
    context: BlockingContext<M>,
    checkpoint: Checkpoint<E>,
)
    requires
        call_ensures(BlockingContext::<M>::new, (myself, actor_shutdown, task_cancel), context),
        call_ensures(BlockingContext::<M>::checkpoint::<E>, (&context,), checkpoint),
    ensures
        checkpoint.readings.task.of() == task_cancel,
        checkpoint.readings.actor.of() == actor_shutdown,
        checkpoint.result is Ok <==> !checkpoint.readings.task.found_cancelled()
            && !checkpoint.readings.actor.found_cancelled(),
        checkpoint.result matches Err(error) ==> error is Cancelled,
{
}

/// Who waits for a task gets the very result that the task sent, and
/// `Unavailable` where the task ended without sending one.
pub proof fn waiting_gives_what_was_sent<E>(
    received: Option<Result<(), BlockingTaskError<E>>>,
    result: Result<(), BlockingTaskError<E>>,
)
    requires
        call_ensures(wait_result::<E>, (received,), result),
    ensures
        received is Some ==> Some(result) == received,
        received is None ==> result is Err && result->Err_0 is Unavailable,
{
}

/// What a completed task reports agrees: `Ok`, the status `Completed`, no error
/// text and no failure come together; a task that was cancelled has an error but
/// no failure; every other error is also the task's failure, under its id and name.
pub proof fn completions_agree<E>(
    task_id: BlockingTaskId,
    task_name: Option<&str>,
    outcome: ClosureOutcome<E>,
    completion: TaskCompletion<E>,
)
    requires
        call_ensures(complete_task::<E>, (task_id, task_name, outcome), completion),
    ensures
        completion.result is Ok <==> (outcome matches ClosureOutcome::Returned(Ok(_))),
        completion.result is Ok <==> completion.status is Completed,
        completion.result is Ok <==> completion.error is None,
        completion.result matches Err(error) ==> {
            &&& completion.error is Some
            &&& completion.error.unwrap()@ == error@.text()
            &&& completion.status is Cancelled <==> error is Cancelled
            &&& completion.status is Failed <==> error is Failed
            &&& completion.status is Panicked <==> error is Panicked
            &&& completion.failure is None <==> error is Cancelled
        },
        outcome is Panicked ==> completion.status is Panicked,
        outcome matches ClosureOutcome::Returned(Err(BlockingOperationError::Cancelled))
            ==> completion.status is Cancelled,
        outcome matches ClosureOutcome::Returned(Err(BlockingOperationError::Failed(source)))
            ==> completion.status is Failed && completion.failure is Some
            && completion.failure.unwrap()@.error == BlockingTaskErrorView::Failed(source),
        completion.failure matches Some(failure) ==> {
            &&& failure@.task_id == task_id
            &&& failure@.task_name == match task_name {
                Some(name) => Some(name@),
                None => None,
            }
            &&& completion.result is Err && completion.result->Err_0@ == failure@.error
        },
{
}

/// A joined task that somebody waits for leaves no failure; otherwise the task's
/// own failure comes out, and a task that was lost is `Unavailable`.
pub proof fn joined_entries_leave_their_failure<E>(
    id: BlockingTaskId,
    name: Option<String>,
    state: BlockingTaskState,
    joined: JoinedTask<E>,
    failure: Option<BlockingTaskFailure<E>>,
)
    requires
        call_ensures(complete_entry::<E>, (id, name, &state, joined), failure),
    ensures
        failure is Some <==> !state@ && (joined is Lost || (joined matches JoinedTask::Ended(ended)
            && ended is Some)),
        failure is Some ==> (joined matches JoinedTask::Ended(ended) ==> failure.unwrap()@
            == ended.unwrap()@),
        failure is Some && joined is Lost ==> {
            &&& failure.unwrap()@.task_id == id
            &&& failure.unwrap()@.error is Unavailable
            &&& failure.unwrap()@.task_name is Some <==> name is Some
            &&& name is Some ==> failure.unwrap()@.task_name == Some(name.unwrap()@)
        },
{
}

/// The actor's own error comes before a task's: a run succeeds exactly where
/// neither the actor nor a task failed.
pub proof fn actor_errors_come_before_task_failures<E>(
    actor_result: Result<(), RunnerFault<E>>,
    failure: Option<BlockingTaskFailure<E>>,
    result: Result<(), RunnerFault<E>>,
)
    requires
        call_ensures(finish_result::<E>, (actor_result, failure), result),
    ensures
        result is Ok <==> actor_result is Ok && failure is None,
        actor_result is Err ==> result == actor_result,
        actor_result is Ok && failure is Some ==> result == Err::<(), RunnerFault<E>>(
            RunnerFault::Blocking(failure.unwrap()),
        ),
{
}

/// Winding up ends with the actor's error, else with the failure of the first
/// task that left one, else well.
pub proof fn winding_up_ends_with_the_first_failure<J, E>(
    wind_up: WindUp<J, E>,
    actor_result: Result<(), RunnerFault<E>>,
    index: int,
    result: Result<(), RunnerFault<E>>,
)
    requires
        call_ensures(WindUp::<J, E>::finish, (wind_up, actor_result), result),
        0 <= index <= wind_up@.failures.len(),
        forall|i: int| 0 <= i < index ==> (#[trigger] wind_up@.failures[i]) is None,
        index < wind_up@.failures.len() ==> wind_up@.failures[index] is Some,
    ensures
        result is Ok <==> actor_result is Ok && index == wind_up@.failures.len(),
        actor_result is Err ==> result == actor_result,
        actor_result is Ok && index < wind_up@.failures.len() ==> result is Err
            && result->Err_0 is Blocking && Some(result->Err_0->Blocking_0@)
            == wind_up@.failures[index],
{
    the_first_task_failure_counts(wind_up@.failures, index);
}

/// Entries come out one by one, first to last, each once.
pub proof fn entries_are_wound_up_in_order<J, E>(
    wind_up: &mut WindUp<J, E>,
    entry: Option<BlockingTaskEntry<J>>,
)
    requires
        call_ensures(WindUp::<J, E>::next_entry, (wind_up,), entry),
    ensures
        entry is None <==> old(wind_up)@.remaining.len() == 0,
        entry is Some ==> old(wind_up)@.remaining =~= seq![entry.unwrap()]
            + final(wind_up)@.remaining,
        entry is None ==> final(wind_up)@.remaining =~= old(wind_up)@.remaining,
        final(wind_up)@.failures == old(wind_up)@.failures,
{
}

/// Settling an entry adds what it left behind the failures seen so far: the
/// task's own failure, where nobody waits for it.
pub proof fn settled_entries_are_kept_in_order<J, E>(
    wind_up: &mut WindUp<J, E>,
    id: BlockingTaskId,
    name: Option<String>,
    state: BlockingTaskState,
    joined: JoinedTask<E>,
    done: (),
)
    requires
        call_ensures(WindUp::<J, E>::settle, (wind_up, id, name, &state, joined), done),
    ensures
        final(wind_up)@.failures.len() == old(wind_up)@.failures.len() + 1,
        final(wind_up)@.failures.drop_last() =~= old(wind_up)@.failures,
        final(wind_up)@.remaining == old(wind_up)@.remaining,
        final(wind_up)@.failures.last() is Some <==> !state@ && (joined is Lost || (
        joined matches JoinedTask::Ended(ended) && ended is Some)),
        joined matches JoinedTask::Ended(Some(failure)) ==> !state@
            ==> final(wind_up)@.failures.last() == Some(failure@),
{
}

/// A task on record is taken by its id once: what is taken is what was recorded,
/// the record is then as it was before, and a second call finds nothing.
pub proof fn recorded_tasks_are_taken_once<J>(
    recording: &mut BlockingState<J>,
    taking: &mut BlockingState<J>,
    retaking: &mut BlockingState<J>,
    id: BlockingTaskId,
    name: Option<String>,
    cancel: CancellationToken,
    join: J,
    handle: BlockingHandle,
    taken: Option<BlockingTaskEntry<J>>,
    again: Option<BlockingTaskEntry<J>>,
)
    requires
        old(recording)@.is_consistent(),
        forall|i: int|
            0 <= i < old(recording)@.tasks.len() ==> (#[trigger] old(recording)@.tasks[i]).id != id,
        call_ensures(BlockingState::<J>::record, (recording, id, name, cancel, join), handle),
        *old(taking) == *final(recording),
        call_ensures(BlockingState::<J>::take_task, (taking, id), taken),
        *old(retaking) == *final(taking),
        call_ensures(BlockingState::<J>::take_task, (retaking, id), again),
    ensures
        handle.task() == id,
        handle.token() == cancel,
        taken matches Some(entry) && entry.id == id && entry.name == name && entry.join == join
            && entry.cancel.token() == cancel && !entry.cancel.is_thrown(),
        final(taking)@.tasks =~= old(recording)@.tasks,
        final(taking)@.next_id == old(recording)@.next_id,
        final(taking)@.closing == old(recording)@.closing,
        again is None,
        final(retaking)@ == final(taking)@,
{
    recorded_tasks_are_found(
        old(taking)@,
        id,
        old(recording)@.tasks.len() as int,
    );
    recorded_tasks_are_found(old(retaking)@, id, old(retaking)@.tasks.len() as int);
}

/// Taking a task takes that task alone.
pub proof fn other_tasks_stay_on_record<J>(
    state: &mut BlockingState<J>,
    id: BlockingTaskId,
    taken: Option<BlockingTaskEntry<J>>,
    index: int,
)
    requires
        old(state)@.is_consistent(),
        0 <= index < old(state)@.tasks.len(),
        call_ensures(BlockingState::<J>::take_task, (state, id), taken),
    ensures
        old(state)@.tasks[index].id == id ==> taken == Some(old(state)@.tasks[index])
            && final(state)@.tasks =~= old(state)@.tasks.remove(index),
        old(state)@.tasks[index].id != id ==> final(state)@.tasks.contains(
            old(state)@.tasks[index],
        ),
        final(state)@.next_id == old(state)@.next_id,
        final(state)@.closing == old(state)@.closing,
{
    if old(state)@.tasks[index].id == id {
        recorded_tasks_are_found(old(state)@, id, index);
    } else {
        let place = old(state)@.place(id, 0);
        if place < old(state)@.tasks.len() {
            let after = old(state)@.tasks.remove(place);
            if index < place {
                assert(after[index] == old(state)@.tasks[index]);
            } else {
                assert(after[index - 1] == old(state)@.tasks[index]);
            }
        }
    }
}

/// Once an actor's tasks were closed, all of them are out and were told to stop,
/// and no further task is admitted.
pub proof fn closed_states_admit_no_task<J>(
    closing: &mut BlockingState<J>,
    deciding: &mut BlockingState<J>,
    entries: Vec<BlockingTaskEntry<J>>,
    actor_id: &str,
    actor_shutting_down: bool,
    limit: Option<usize>,
    permit_free: bool,
    result: Result<BlockingTaskId, SpawnBlockingError>,
)
    requires
        call_ensures(BlockingState::<J>::close_and_take_all, (closing,), entries),
        *old(deciding) == *final(closing),
        call_ensures(
            BlockingState::<J>::decide,
            (deciding, actor_id, actor_shutting_down, limit, permit_free),
            result,
        ),
    ensures
        entries@.len() == old(closing)@.tasks.len(),
        forall|i: int|
            0 <= i < entries@.len() ==> {
                &&& (#[trigger] entries@[i]).id == old(closing)@.tasks[i].id
                &&& entries@[i].join == old(closing)@.tasks[i].join
                &&& entries@[i].cancel.token() == old(closing)@.tasks[i].cancel.token()
                &&& entries@[i].cancel.is_thrown()
            },
        final(closing)@.tasks.len() == 0,
        result matches Err(error) && error@ == (SpawnBlockingErrorView::ShuttingDown {
            actor_id: actor_id@,
        }),
        final(deciding)@ == old(deciding)@,
{
    assert forall|i: int| 0 <= i < entries@.len() implies {
        &&& (#[trigger] entries@[i]).id == old(closing)@.tasks[i].id
        &&& entries@[i].join == old(closing)@.tasks[i].join
        &&& entries@[i].cancel.token() == old(closing)@.tasks[i].cancel.token()
        &&& entries@[i].cancel.is_thrown()
    } by {
        stopped_tasks_stay_themselves(old(closing)@.tasks[i], entries@[i]);
    }
    refusals_have_an_order(actor_id@, true, limit, permit_free);
}

/// A task is admitted exactly while the actor is up and, where tasks are
/// limited, a permit is free. Its id is one above the last one, so that no two
/// admitted tasks share an id; a refusal uses up no id.
pub proof fn admitted_tasks_have_their_own_ids<J>(
    first: &mut BlockingState<J>,
    second: &mut BlockingState<J>,
    actor_id: &str,
    limit: Option<usize>,
    stopping: (bool, bool),
    free: (bool, bool),
    earlier: Result<BlockingTaskId, SpawnBlockingError>,
    later: Result<BlockingTaskId, SpawnBlockingError>,
)
    requires
        old(first)@.next_id < u64::MAX - 1,
        call_ensures(
            BlockingState::<J>::decide,
            (first, actor_id, stopping.0, limit, free.0),
            earlier,
        ),
        *old(second) == *final(first),
        call_ensures(
            BlockingState::<J>::decide,
            (second, actor_id, stopping.1, limit, free.1),
            later,
        ),
    ensures
        earlier is Ok <==> !old(first)@.closing && !stopping.0 && (limit is None || free.0),
        later is Ok <==> !old(first)@.closing && !stopping.1 && (limit is None || free.1),
        earlier is Ok ==> earlier->Ok_0.number() == old(first)@.next_id,
        earlier is Ok && later is Ok ==> later->Ok_0.number() == earlier->Ok_0.number() + 1,
        earlier is Err && later is Ok ==> later->Ok_0.number() == old(first)@.next_id,
        final(second)@.tasks == old(first)@.tasks,
        final(second)@.closing == old(first)@.closing,
{
    refusals_have_an_order(actor_id@, old(first)@.closing || stopping.0, limit, free.0);
    refusals_have_an_order(actor_id@, old(second)@.closing || stopping.1, limit, free.1);
}

/// A task is spawned only for an actor that was found running and has not closed
/// its tasks, with a permit where tasks are limited; whatever comes back, no
/// recorded task changes.
pub proof fn spawning_follows_the_readings<J>(
    state: &mut BlockingState<J>,
    actor_id: &str,
    actor_shutdown: &CancellationToken,
    admission: &Option<BlockingAdmission>,
    result: Result<AdmittedTask, RefusedTask>,
)
    requires
        old(state)@.next_id < u64::MAX,
        call_ensures(
            BlockingState::<J>::spawn_blocking,
            (state, actor_id, actor_shutdown, admission),
            result,
        ),
    ensures
        final(state)@.tasks == old(state)@.tasks,
        final(state)@.closing == old(state)@.closing,
        final(state)@.next_id == old(state)@.next_id + if result is Ok {
            1int
        } else {
            0
        },
        old(state)@.closing ==> result is Err && result->Err_0.error@
            == (SpawnBlockingErrorView::ShuttingDown { actor_id: actor_id@ }),
        result matches Ok(task) ==> task.id.number() == old(state)@.next_id && task.shutdown.of()
            == *actor_shutdown && !task.shutdown.found_cancelled(),
        result matches Ok(task) ==> (task.permit is Some <==> admission is Some),
        result matches Err(refused) ==> (refused.error@ is AtCapacity ==> admission is Some),
{
    if let Err(refused) = result {
        refusals_stand_on_findings(
            old(state)@.closing,
            actor_id@,
            *actor_shutdown,
            *admission,
            refused.grounds,
            refused.error@,
        );
    }
}

/// The runner winds up when its actor returned or a reaped task failed, with
/// that error; a completed task is reaped; else it waits on, for tasks too while
/// there can be any. Only a task's failure stops the actor.
pub proof fn runners_end_with_the_actor_or_a_failure<E>(
    runner: &mut RunnerLoop,
    event: RunnerEvent<E>,
    action: RunnerAction<E>,
)
    requires
        call_ensures(RunnerLoop::step::<E>, (runner, event), action),
    ensures
        action is WindUp <==> event is ActorReturned || (event matches RunnerEvent::TaskReaped(
            failure,
        ) && failure is Some),
        event matches RunnerEvent::ActorReturned(returned) ==> match returned {
            Ok(_) => action matches RunnerAction::WindUp(result) && result is Ok,
            Err(fault) => action matches RunnerAction::WindUp(result) && result == Err::<
                (),
                RunnerFault<E>,
            >(RunnerFault::Actor(fault)),
        },
        event matches RunnerEvent::TaskReaped(Some(failure)) ==> (
        action matches RunnerAction::WindUp(result) && result == Err::<(), RunnerFault<E>>(
            RunnerFault::Blocking(failure),
        )),
        event matches RunnerEvent::TaskCompleted(id) ==> (action matches RunnerAction::Reap(
            reaped,
        ) && reaped == id),
        action is Reap ==> event is TaskCompleted,
        action matches RunnerAction::Await { tasks } ==> tasks == final(runner).is_open(),
        final(runner).is_open() ==> old(runner).is_open(),
        old(runner).is_open() && !final(runner).is_open() ==> event is TasksExhausted,
        event is TasksExhausted ==> !final(runner).is_open(),
        final(runner).has_stopped_actor() && !old(runner).has_stopped_actor()
            ==> event is TaskReaped && action is WindUp,
        event matches RunnerEvent::TaskReaped(Some(_)) ==> final(runner).has_stopped_actor(),
        old(runner).has_stopped_actor() ==> final(runner).has_stopped_actor(),
        final(runner).stop_token() == old(runner).stop_token(),
{
}

/// A task somebody waits for is marked so from then on, and only then.
pub proof fn claims_are_remembered(
    fresh: BlockingTaskState,
    state: &mut BlockingTaskState,
    done: (),
    unclaimed: bool,
    claimed: bool,
)
    requires
        call_ensures(BlockingTaskState::new, (), fresh),
        call_ensures(BlockingTaskState::was_claimed_for_wait, (&fresh,), unclaimed),
        call_ensures(BlockingTaskState::claim_for_wait, (state,), done),
        call_ensures(BlockingTaskState::was_claimed_for_wait, (final(state),), claimed),
    ensures
        !unclaimed,
        claimed,
{
}

/// No two tasks on record share an id, and no task on record has an id that is
/// still to be given out.
pub proof fn recorded_ids_differ<J>(
    recording: &mut BlockingState<J>,
    taking: &mut BlockingState<J>,
    id: BlockingTaskId,
    name: Option<String>,
    cancel: CancellationToken,
    join: J,
    handle: BlockingHandle,
    taken: Option<BlockingTaskEntry<J>>,
)
    requires
        call_ensures(BlockingState::<J>::record, (recording, id, name, cancel, join), handle),
        call_ensures(BlockingState::<J>::take_task, (taking, id), taken),
    ensures
        forall|i: int, j: int|
            0 <= i < j < final(recording)@.tasks.len() ==> (
            #[trigger] final(recording)@.tasks[i]).id != (
            #[trigger] final(recording)@.tasks[j]).id,
        forall|i: int|
            0 <= i < final(recording)@.tasks.len() ==> (
            #[trigger] final(recording)@.tasks[i]).id.number() < final(recording)@.next_id,
        forall|i: int, j: int|
            0 <= i < j < final(taking)@.tasks.len() ==> (#[trigger] final(taking)@.tasks[i]).id != (
            #[trigger] final(taking)@.tasks[j]).id,
        forall|i: int|
            0 <= i < final(taking)@.tasks.len() ==> (
            #[trigger] final(taking)@.tasks[i]).id.number() < final(taking)@.next_id,
{
}

/// Options give back the name they were made with, and an id shows its number.
pub proof fn names_and_ids_come_back(
    name: &str,
    named: BlockingOptions,
    unnamed: BlockingOptions,
    kept: Option<String>,
    none: Option<String>,
    value: u64,
    id: BlockingTaskId,
    text: String,
)
    requires
        call_ensures(BlockingOptions::named, (name,), named),
        call_ensures(BlockingOptions::unnamed, (), unnamed),
        call_ensures(BlockingOptions::into_name, (named,), kept),
        call_ensures(BlockingOptions::into_name, (unnamed,), none),
        call_ensures(BlockingTaskId::from_u64, (value,), id),
        call_ensures(BlockingTaskId::text, (&id,), text),
    ensures
        kept is Some && kept.unwrap()@ == name@,
        none is None,
        id.number() == value,
        crate::text::number_shown(text@) == value,
{
    crate::text::decimals_read_back(value as nat);
}

/// A failure gives back the task, the name and the error that it was made with,
/// and a shared error its source.
pub proof fn failures_hold_what_they_were_made_with<E>(
    task_id: BlockingTaskId,
    task_name: Option<String>,
    error: BlockingTaskError<E>,
    failure: BlockingTaskFailure<E>,
    id: BlockingTaskId,
    name: Option<&str>,
    held: &BlockingTaskError<E>,
    cause: E,
    shared: SharedError<E>,
    source: &E,
)
    requires
        call_ensures(BlockingTaskFailure::<E>::new, (task_id, task_name, error), failure),
        call_ensures(BlockingTaskFailure::<E>::task_id, (&failure,), id),
        call_ensures(BlockingTaskFailure::<E>::task_name, (&failure,), name),
        call_ensures(BlockingTaskFailure::<E>::error, (&failure,), held),
        call_ensures(SharedError::<E>::new, (cause,), shared),
        call_ensures(SharedError::<E>::source, (&shared,), source),
    ensures
        id == task_id,
        name is Some <==> task_name is Some,
        name is Some ==> name.unwrap()@ == task_name.unwrap()@,
        held@ == error@,
        *source == cause,
{
}

/// What each error and status says.
pub proof fn blocking_messages_say_what_happened<E>(
    operation: BlockingOperationError<E>,
    told: &'static str,
    refusal: SpawnBlockingError,
    refused: String,
    error: BlockingTaskError<E>,
    ended: String,
    failure: BlockingTaskFailure<E>,
    failed: String,
    status: BlockingTaskStatus,
    label: &'static str,
)
    requires
        call_ensures(BlockingOperationError::<E>::message, (&operation,), told),
        call_ensures(SpawnBlockingError::message, (&refusal,), refused),
        call_ensures(BlockingTaskError::<E>::message, (&error,), ended),
        call_ensures(BlockingTaskFailure::<E>::message, (&failure,), failed),
        call_ensures(BlockingTaskStatus::as_str, (status,), label),
    ensures
        operation is Cancelled ==> told@ == "blocking task was cancelled"@,
        operation is Failed ==> told@ == "blocking task failed"@,
        refusal@ matches SpawnBlockingErrorView::ShuttingDown { actor_id } ==> refused@ == "actor `"@
            + actor_id + "` is shutting down"@,
        refusal@ matches SpawnBlockingErrorView::AtCapacity { actor_id, max_blocking_tasks }
            ==> refused@ == "actor `"@ + actor_id + "` has reached its blocking task limit of "@
            + crate::text::decimal(max_blocking_tasks as nat),
        error@ is Cancelled ==> ended@ == "blocking task was cancelled"@,
        error@ is Failed ==> ended@ == "blocking task failed"@,
        error@ is Panicked ==> ended@ == "blocking task panicked"@,
        error@ is Unavailable ==> ended@ == "blocking task result became unavailable"@,
        failure@.task_name is None ==> failed@ == "blocking task `"@ + crate::text::decimal(
            failure@.task_id.number() as nat,
        ) + "` failed"@,
        failure@.task_name matches Some(name) ==> failed@ == "blocking task `"@
            + crate::text::decimal(failure@.task_id.number() as nat) + "` (`"@ + name
            + "`) failed"@,
        label@ == match status {
            BlockingTaskStatus::Completed => "completed"@,
            BlockingTaskStatus::Cancelled => "cancelled"@,
            BlockingTaskStatus::Failed => "failed"@,
            BlockingTaskStatus::Panicked => "panicked"@,
        },
{
}

/// A status follows the result: `Completed` for `Ok`, and for an error the one
/// that is named like it, where a rejected task has failed and a result that
/// became unavailable counts as a panic.
pub proof fn statuses_are_named_like_errors<E>(
    result: Result<(), BlockingTaskError<E>>,
    status: BlockingTaskStatus,
)
    requires
        call_ensures(blocking_status_for_result::<E>, (&result,), status),
    ensures
        status is Completed <==> result is Ok,
        result is Err && result->Err_0@ is Cancelled <==> status is Cancelled,
        result is Err && (result->Err_0@ is Panicked || result->Err_0@ is Unavailable)
            <==> status is Panicked,
        result is Err && (result->Err_0@ is Failed || result->Err_0@ is Rejected)
            <==> status is Failed,
{
    statuses_follow_results(task_result_view(result));
}

/// What a task sees: its own ref, and the tokens that its context was made with.
pub proof fn contexts_hold_their_parts<M>(
    myself: ActorRef<M>,
    actor_shutdown: CancellationToken,
    task_cancel: CancellationToken,
    context: BlockingContext<M>,
    own: &ActorRef<M>,
    readings: StopReadings,
    stop: bool,
)
    requires
        call_ensures(BlockingContext::<M>::new, (myself, actor_shutdown, task_cancel), context),
        call_ensures(BlockingContext::<M>::myself, (&context,), own),
        call_ensures(BlockingContext::<M>::is_cancelled, (&context,), readings),
        call_ensures(StopReadings::should_stop, (&readings,), stop),
    ensures
        own@ == myself@,
        readings.task.of() == task_cancel,
        readings.actor.of() == actor_shutdown,
        stop <==> readings.task.found_cancelled() || readings.actor.found_cancelled(),
{
}

/// The handle of a recorded task has the task's id, name and token.
pub proof fn handles_belong_to_their_task<J>(
    state: &mut BlockingState<J>,
    id: BlockingTaskId,
    name: Option<String>,
    cancel: CancellationToken,
    join: J,
    handle: BlockingHandle,
    shown: BlockingTaskId,
    called: Option<&str>,
    done: Cancellation,
)
    requires
        call_ensures(BlockingState::<J>::record, (state, id, name, cancel, join), handle),
        call_ensures(BlockingHandle::id, (&handle,), shown),
        call_ensures(BlockingHandle::name, (&handle,), called),
        call_ensures(BlockingHandle::cancel, (&handle,), done),
    ensures
        shown == id,
        called is Some <==> name is Some,
        called is Some ==> called.unwrap()@ == name.unwrap()@,
        done.of() == cancel,
{
}

/// At most as many tasks are admitted at once as the limit says: a permit is
/// given while fewer are out, and refused, with the limit, when all are.
pub proof fn admission_keeps_to_its_limit(
    limit: usize,
    admission: BlockingAdmission,
    actor_id: &str,
    outcome: Result<Permit, (SpawnBlockingError, Exhausted)>,
)
    requires
        call_ensures(BlockingAdmission::new, (limit,), admission),
        call_ensures(BlockingAdmission::try_acquire, (&admission, actor_id), outcome),
    ensures
        outcome matches Ok(permit) ==> 0 <= permit.others() < limit && permit.source()
            == admission.source(),
        outcome matches Err(refused) ==> refused.1.in_use() == limit && refused.1.source()
            == admission.source() && refused.0@ == (SpawnBlockingErrorView::AtCapacity {
            actor_id: actor_id@,
            max_blocking_tasks: limit,
        }),
{
}

/// A task that is spawned under a limit holds a permit of that limit.
pub proof fn spawned_tasks_hold_a_permit<J>(
    state: &mut BlockingState<J>,
    actor_id: &str,
    actor_shutdown: &CancellationToken,
    admission: BlockingAdmission,
    result: Result<AdmittedTask, RefusedTask>,
)
    requires
        call_ensures(
            BlockingState::<J>::spawn_blocking,
            (state, actor_id, actor_shutdown, &Some(admission)),
            result,
        ),
        result is Ok,
    ensures
        result->Ok_0.permit is Some,
        result->Ok_0.permit.unwrap().source() == admission.source(),
        0 <= result->Ok_0.permit.unwrap().others() < admission.bound(),
{
}

/// A new actor has no tasks and is not closing; its first task is number zero,
/// and its ids are used up exactly when no number is left.
pub proof fn first_tasks_are_number_zero<J>(
    fresh: BlockingState<J>,
    state: &mut BlockingState<J>,
    actor_id: &str,
    result: Result<BlockingTaskId, SpawnBlockingError>,
    used_up: bool,
)
    requires
        call_ensures(BlockingState::<J>::new, (), fresh),
        *old(state) == fresh,
        call_ensures(BlockingState::<J>::decide, (state, actor_id, false, None, true), result),
        call_ensures(BlockingState::<J>::ids_are_used_up, (final(state),), used_up),
    ensures
        fresh@.tasks.len() == 0,
        !fresh@.closing,
        result is Ok && result->Ok_0.number() == 0,
        !used_up,
{
    refusals_have_an_order(actor_id@, false, None, true);
}

/// Ids are used up when the last number is next, and not before.
pub proof fn ids_last_to_the_last_number<J>(state: &BlockingState<J>, used_up: bool)
    requires
        call_ensures(BlockingState::<J>::ids_are_used_up, (state,), used_up),
    ensures
        used_up <==> state@.next_id >= u64::MAX,
{
}

/// Winding up starts with all entries and no failure; a runner starts open, with
/// its actor's token and the actor not stopped.
pub proof fn winding_up_starts_with_all_entries<J, E>(
    entries: Vec<BlockingTaskEntry<J>>,
    wind_up: WindUp<J, E>,
    actor_shutdown: CancellationToken,
    runner: RunnerLoop,
)
    requires
        call_ensures(WindUp::<J, E>::new, (entries,), wind_up),
        call_ensures(RunnerLoop::new, (actor_shutdown,), runner),
    ensures
        wind_up@.remaining =~= entries@,
        wind_up@.failures.len() == 0,
        runner.is_open(),
        runner.stop_token() == actor_shutdown,
        !runner.has_stopped_actor(),
{
}

/// A task that is left running past the deadline is warned of under its id and
/// name.
pub proof fn left_tasks_are_warned_of(
    observability: &GraphObservability,
    actor_id: &str,
    task_id: BlockingTaskId,
    task_name: Option<&str>,
    shutdown_timeout: TimeSpan,
    emission: Emission,
)
    requires
        call_ensures(
            log_shutdown_timeout,
            (observability, actor_id, task_id, task_name, shutdown_timeout),
            emission,
        ),
    ensures
        emission@.log.level == crate::observability::Level::Warn,
        emission@.log.fields[0].1 == crate::observability::FieldValueView::Text(
            observability@.graph_name,
        ),
        emission@.log.fields[1].1 == crate::observability::FieldValueView::Text(actor_id@),
        emission@.log.fields[2].1 == crate::observability::FieldValueView::Text(
            crate::text::decimal(task_id.number() as nat),
        ),
        task_name matches Some(name) ==> emission@.log.fields[3].1
            == crate::observability::FieldValueView::Text(name@),
        emission@.log.fields.len() == (if task_name is Some {
            5int
        } else {
            4
        }),
        emission@.log.fields.last().1 == crate::observability::FieldValueView::Seconds(
            shutdown_timeout,
        ),
        emission@.metrics.len() == 0,
{
    crate::observability::detached_tasks_are_warned_of(
        observability@.graph_name,
        actor_id@,
        task_id.shown(),
        crate::observability::optional_chars(task_name),
        shutdown_timeout,
    );
}

} // verus!
