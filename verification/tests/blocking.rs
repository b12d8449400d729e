use tokio_otp::binding::BindingCore;
use tokio_otp::blocking::{
    blocking_status_for_result, checkpoint_result, complete_entry, complete_task, finish_result,
    log_shutdown_timeout, should_stop, wait_result, BlockingAdmission, BlockingContext,
    BlockingOperationError, BlockingOptions, BlockingState, BlockingTaskError, BlockingTaskFailure,
    BlockingTaskId, BlockingTaskState, BlockingTaskStatus, ClosureOutcome, JoinedTask, RunnerAction,
    RunnerEvent, RunnerFault, RunnerLoop, SharedError, SpawnBlockingError, RefusalGrounds, WindUp,
};
use tokio_otp::context::ActorRef;
use tokio_otp::error::Fault;
use tokio_otp::observability::GraphObservability;
use tokio_otp::time::TimeSpan;
use tokio_util::sync::CancellationToken;

fn id(value: u64) -> BlockingTaskId {
    BlockingTaskId::from_u64(value)
}

fn failure(value: u64) -> BlockingTaskFailure<&'static str> {
    BlockingTaskFailure::new(id(value), None, BlockingTaskError::Panicked)
}

#[test]
fn tasks_are_numbered_from_zero_and_limited() {
    let mut state: BlockingState<u8> = BlockingState::new();
    let token = CancellationToken::new();
    let admission = Some(BlockingAdmission::new(1));
    let first = state
        .spawn_blocking("worker", &token, &admission)
        .ok()
        .expect("a permit is free");
    assert_eq!(first.id, id(0));
    assert!(first.permit.is_some());
    let error = state
        .spawn_blocking("worker", &token, &admission)
        .err()
        .expect("no permit is free")
        .error;
    assert_eq!(
        error,
        SpawnBlockingError::AtCapacity {
            actor_id: "worker".to_owned(),
            max_blocking_tasks: 1,
        }
    );
    assert_eq!(
        error.message(),
        "actor `worker` has reached its blocking task limit of 1"
    );
    drop(first);
    let second = state
        .spawn_blocking("worker", &token, &admission)
        .ok()
        .expect("the permit came back");
    assert_eq!(second.id, id(1));
    let third = state
        .spawn_blocking("worker", &token, &None)
        .ok()
        .expect("no limit");
    assert_eq!(third.id, id(2));
    assert!(third.permit.is_none());
    token.cancel();
    let error = state
        .spawn_blocking("worker", &token, &None)
        .err()
        .expect("actor is shutting down")
        .error;
    assert_eq!(error.message(), "actor `worker` is shutting down");
}

#[test]
fn admission_is_decided_in_order() {
    let mut state: BlockingState<u8> = BlockingState::new();
    assert!(!state.ids_are_used_up());
    assert!(matches!(
        state.decide("w", true, Some(1), false),
        Err(SpawnBlockingError::ShuttingDown { .. })
    ));
    assert!(matches!(
        state.decide("w", false, Some(4), false),
        Err(SpawnBlockingError::AtCapacity { max_blocking_tasks: 4, .. })
    ));
    assert_eq!(state.decide("w", false, None, false), Ok(id(0)));
    assert_eq!(state.decide("w", false, Some(4), true), Ok(id(1)));
    state.close_and_take_all();
    assert!(matches!(
        state.decide("w", false, None, true),
        Err(SpawnBlockingError::ShuttingDown { .. })
    ));
}

#[test]
fn recorded_tasks_are_taken_once_and_cancelled_on_close() {
    let mut state: BlockingState<&'static str> = BlockingState::new();
    let token = CancellationToken::new();
    let mut tokens = Vec::new();
    for name in ["a", "b", "c"] {
        let task = state.spawn_blocking("w", &token, &None).ok().expect("admitted");
        let cancel = task.cancel.into_token();
        tokens.push(cancel.clone());
        let name = BlockingOptions::named(name).into_name();
        let handle = state.record(task.id, name, cancel, "join");
        assert_eq!(handle.id(), task.id);
    }
    let taken = state.take_task(id(1)).expect("on record");
    assert_eq!(taken.name.as_deref(), Some("b"));
    assert!(state.take_task(id(1)).is_none());
    let rest = state.close_and_take_all();
    let ids: Vec<BlockingTaskId> = rest.iter().map(|entry| entry.id).collect();
    assert_eq!(ids, vec![id(0), id(2)]);
    assert!(tokens[0].is_cancelled());
    assert!(!tokens[1].is_cancelled());
    assert!(tokens[2].is_cancelled());
    assert!(state.close_and_take_all().is_empty());
}

#[test]
fn handles_cancel_their_task() {
    let mut state: BlockingState<()> = BlockingState::new();
    let token = CancellationToken::new();
    let task = state.spawn_blocking("w", &token, &None).ok().expect("admitted");
    let cancel = task.cancel.into_token();
    let handle = state.record(task.id, None, cancel.clone(), ());
    assert_eq!(handle.name(), None);
    handle.cancel();
    assert!(cancel.is_cancelled());
    assert!(!token.is_cancelled());
}

#[test]
fn closures_are_classified() {
    let ok = complete_task::<&str>(id(1), None, ClosureOutcome::Returned(Ok(())));
    assert!(ok.result.is_ok());
    assert_eq!(ok.status, BlockingTaskStatus::Completed);
    assert!(ok.error.is_none());
    assert!(ok.failure.is_none());

    let cancelled = complete_task::<&str>(
        id(1),
        None,
        ClosureOutcome::Returned(Err(BlockingOperationError::Cancelled)),
    );
    assert_eq!(cancelled.status, BlockingTaskStatus::Cancelled);
    assert_eq!(cancelled.error.as_deref(), Some("blocking task was cancelled"));
    assert!(cancelled.failure.is_none());

    let failed = complete_task(
        id(3),
        Some("import"),
        ClosureOutcome::Returned(Err(BlockingOperationError::Failed("boom"))),
    );
    assert_eq!(failed.status, BlockingTaskStatus::Failed);
    assert_eq!(failed.error.as_deref(), Some("blocking task failed"));
    let failure = failed.failure.expect("the actor takes note");
    assert_eq!(failure.task_id(), id(3));
    assert_eq!(failure.task_name(), Some("import"));
    assert_eq!(failure.message(), "blocking task `3` (`import`) failed");
    match failure.error() {
        BlockingTaskError::Failed(shared) => assert_eq!(*shared.source(), "boom"),
        _ => panic!("unexpected error"),
    }

    let panicked = complete_task::<&str>(id(4), None, ClosureOutcome::Panicked);
    assert_eq!(panicked.status, BlockingTaskStatus::Panicked);
    let failure = panicked.failure.expect("the actor takes note");
    assert_eq!(failure.message(), "blocking task `4` failed");
    assert_eq!(failure.error().message(), "blocking task panicked");
}

#[test]
fn statuses_follow_results() {
    let rejected: Result<(), BlockingTaskError<()>> =
        Err(BlockingTaskError::Rejected(SpawnBlockingError::ShuttingDown {
            actor_id: "w".to_owned(),
        }));
    assert_eq!(
        blocking_status_for_result(&rejected),
        BlockingTaskStatus::Failed
    );
    assert_eq!(
        rejected.expect_err("rejected").clone().message(),
        "actor `w` is shutting down"
    );
    let lost: Result<(), BlockingTaskError<()>> = wait_result(None);
    assert_eq!(
        blocking_status_for_result(&lost),
        BlockingTaskStatus::Panicked
    );
    assert_eq!(
        lost.expect_err("lost").message(),
        "blocking task result became unavailable"
    );
    assert!(wait_result::<()>(Some(Ok(()))).is_ok());
    assert_eq!(BlockingTaskStatus::Completed.as_str(), "completed");
    assert_eq!(BlockingTaskStatus::Cancelled.as_str(), "cancelled");
    assert_eq!(BlockingTaskStatus::Failed.as_str(), "failed");
    assert_eq!(BlockingTaskStatus::Panicked.as_str(), "panicked");
    assert_eq!(BlockingOperationError::<()>::Cancelled.message(), "blocking task was cancelled");
    assert_eq!(BlockingOperationError::Failed(1).message(), "blocking task failed");
    let shared = SharedError::new(5);
    assert_eq!(shared.clone().source(), &5);
}

#[test]
fn claimed_failures_stay_with_the_waiter() {
    let mut state = BlockingTaskState::new();
    let open = complete_entry(id(1), None, &state, JoinedTask::Ended(Some(failure(1))));
    assert!(open.is_some());
    let lost = complete_entry::<()>(id(1), None, &state, JoinedTask::Lost);
    assert!(matches!(
        lost.expect("lost").error(),
        BlockingTaskError::Unavailable
    ));
    assert!(complete_entry::<()>(id(1), None, &state, JoinedTask::TimedOut).is_none());
    state.claim_for_wait();
    assert!(state.was_claimed_for_wait());
    let claimed = complete_entry(id(1), None, &state, JoinedTask::Ended(Some(failure(1))));
    assert!(claimed.is_none());
    assert!(complete_entry::<()>(id(1), None, &state, JoinedTask::Lost).is_none());
}

#[test]
fn the_actor_error_comes_before_blocking_failures() {
    let fault = Fault { source: "boxed", text: "boom".to_owned() };
    let result = finish_result(Err(RunnerFault::Actor(fault)), Some(failure(1)));
    assert!(matches!(result, Err(RunnerFault::Actor(fault)) if fault.text == "boom"));
    let result = finish_result(Ok(()), Some(failure(2)));
    assert!(matches!(result, Err(RunnerFault::Blocking(failure)) if failure.task_id() == id(2)));
    assert!(finish_result::<&str>(Ok(()), None).is_ok());
}

#[test]
fn winding_up_keeps_the_first_failure() {
    let mut state: BlockingState<u8> = BlockingState::new();
    let token = CancellationToken::new();
    for join in [10, 11, 12] {
        let task = state.spawn_blocking("w", &token, &None).ok().expect("admitted");
        state.record(task.id, None, task.cancel.into_token(), join);
    }
    let mut wind_up: WindUp<u8, &'static str> = WindUp::new(state.close_and_take_all());
    let unclaimed = BlockingTaskState::new();
    let mut joined = Vec::new();
    while let Some(entry) = wind_up.next_entry() {
        joined.push(entry.join);
        let outcome = match entry.join {
            10 => JoinedTask::Ended(None),
            11 => JoinedTask::Ended(Some(failure(1))),
            _ => JoinedTask::Lost,
        };
        wind_up.settle(entry.id, entry.name, &unclaimed, outcome);
    }
    assert_eq!(joined, vec![10, 11, 12]);
    assert!(matches!(
        wind_up.finish(Ok(())),
        Err(RunnerFault::Blocking(failure)) if failure.task_id() == id(1)
    ));
}

#[test]
fn failing_tasks_stop_their_actor() {
    let token = CancellationToken::new();
    let mut runner = RunnerLoop::new(token.clone());
    assert!(matches!(
        runner.step(RunnerEvent::<&str>::TaskCompleted(id(5))),
        RunnerAction::Reap(found) if found == id(5)
    ));
    assert!(matches!(
        runner.step(RunnerEvent::<&str>::TaskReaped(None)),
        RunnerAction::Await { tasks: true }
    ));
    assert!(!token.is_cancelled());
    assert!(matches!(
        runner.step(RunnerEvent::TaskReaped(Some(failure(5)))),
        RunnerAction::WindUp(Err(RunnerFault::Blocking(_)))
    ));
    assert!(token.is_cancelled());
    assert!(matches!(
        runner.step(RunnerEvent::<&str>::TasksExhausted),
        RunnerAction::Await { tasks: false }
    ));
    assert!(matches!(
        runner.step(RunnerEvent::<&str>::TaskReaped(None)),
        RunnerAction::Await { tasks: false }
    ));
    assert!(matches!(
        runner.step(RunnerEvent::<&str>::ActorReturned(Ok(()))),
        RunnerAction::WindUp(Ok(()))
    ));
}

#[test]
fn contexts_observe_both_tokens() {
    let binding: BindingCore<u8> = BindingCore::new("worker".to_owned());
    let context = |actor: &CancellationToken, task: &CancellationToken| {
        BlockingContext::new(ActorRef::from_core(&binding, None), actor.clone(), task.clone())
    };
    let actor = CancellationToken::new();
    let task = CancellationToken::new();
    let both = context(&actor, &task);
    assert_eq!(both.myself().id(), "worker");
    assert!(!both.is_cancelled().should_stop());
    assert!(both.checkpoint::<()>().result.is_ok());
    task.cancel();
    assert!(both.is_cancelled().should_stop());
    assert!(matches!(
        both.checkpoint::<()>().result,
        Err(BlockingOperationError::Cancelled)
    ));
    let fresh = CancellationToken::new();
    actor.cancel();
    let readings = context(&actor, &fresh).is_cancelled();
    assert!(readings.should_stop());
    assert!(readings.actor.is_cancelled());
    assert!(!readings.task.is_cancelled());
    assert!(context(&actor, &fresh).checkpoint::<()>().result.is_err());
    assert!(should_stop(true, false) && should_stop(false, true) && !should_stop(false, false));
    assert!(checkpoint_result::<()>(false).is_ok());
}

#[test]
fn detached_tasks_are_reported() {
    let observability = GraphObservability::new("orders".to_owned());
    let emission =
        log_shutdown_timeout(&observability, "worker", id(12), None, TimeSpan::from_secs(2));
    assert_eq!(emission.log.fields.entries.len(), 4);
    assert_eq!(emission.log.fields.entries[2].name, "task_id");
    assert_eq!(id(12).text(), "12");
    assert_eq!(BlockingOptions::unnamed().into_name(), None);
}

#[test]
fn limit_of_zero_admits_no_task() {
    let admission = BlockingAdmission::new(0);
    let (error, _) = admission.try_acquire("worker").err().expect("no permit");
    assert_eq!(
        error,
        SpawnBlockingError::AtCapacity {
            actor_id: "worker".to_owned(),
            max_blocking_tasks: 0,
        }
    );
    let mut state: BlockingState<u8> = BlockingState::new();
    let token = CancellationToken::new();
    assert!(state.spawn_blocking("worker", &token, &Some(admission)).is_err());
    assert!(state.spawn_blocking("worker", &token, &None).is_ok());
}

#[test]
fn refusals_say_what_was_found() {
    let mut state: BlockingState<u8> = BlockingState::new();
    let token = CancellationToken::new();
    let admission = Some(BlockingAdmission::new(2));
    let first = state.spawn_blocking("w", &token, &admission).ok().expect("free");
    let second = state.spawn_blocking("w", &token, &admission).ok().expect("free");
    let full = state.spawn_blocking("w", &token, &admission).err().expect("full");
    assert!(matches!(full.grounds, RefusalGrounds::NoPermit(found, _) if !found.is_cancelled()));
    assert!(matches!(
        full.error,
        SpawnBlockingError::AtCapacity { max_blocking_tasks: 2, .. }
    ));
    assert!(!first.shutdown.is_cancelled());
    drop(first);
    let third = state.spawn_blocking("w", &token, &admission).ok().expect("given back");
    assert!(third.permit.is_some());
    let (second, third) = (second.cancel.into_token(), third.cancel.into_token());
    third.cancel();
    assert!(!second.is_cancelled());
    assert!(!token.is_cancelled());

    token.cancel();
    let stopping = state.spawn_blocking("w", &token, &None).err().expect("stopping");
    assert!(matches!(
        stopping.grounds,
        RefusalGrounds::ActorStopping(found) if found.is_cancelled()
    ));
    state.close_and_take_all();
    let closing = state
        .spawn_blocking("w", &CancellationToken::new(), &None)
        .err()
        .expect("closing");
    assert!(matches!(closing.grounds, RefusalGrounds::Closing));
}

#[test]
fn handed_over_tasks_are_told_to_stop() {
    let mut state: BlockingState<u8> = BlockingState::new();
    let token = CancellationToken::new();
    let task = state.spawn_blocking("w", &token, &None).ok().expect("admitted");
    let handle = state.record(task.id, None, task.cancel.into_token(), 7);
    let entries = state.close_and_take_all();
    assert_eq!(entries.len(), 1);
    assert_eq!(entries[0].join, 7);
    assert!(entries[0].cancel.thrown());
    assert!(entries[0].cancel.get().is_cancelled());
    assert!(!token.is_cancelled());
    handle.cancel();
}

#[test]
fn refused_tasks_use_up_no_number() {
    let mut state: BlockingState<u8> = BlockingState::new();
    let token = CancellationToken::new();
    let admission = Some(BlockingAdmission::new(1));
    let mut numbers = Vec::new();
    for name in ["a", "b", "c"] {
        let task = state.spawn_blocking("w", &token, &admission).ok().expect("free");
        assert!(state.spawn_blocking("w", &token, &admission).is_err());
        let name = BlockingOptions::named(name).into_name();
        let handle = state.record(task.id, name.clone(), task.cancel.into_token(), 0);
        assert_eq!(handle.name(), name.as_deref());
        numbers.push(handle.id());
    }
    assert_eq!(numbers, vec![id(0), id(1), id(2)]);
}
