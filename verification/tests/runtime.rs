use tokio_otp::error::{Fault, GraphError};
use tokio_otp::graph::{
    classify_actor_exit, emit_graph_stopped, graph_shutdown_cause_for_error, join_error_detail,
    wait_result, ActorTaskExit, GraphHandle, JoinFailure, MessageType,
};
use tokio_otp::builder::GraphBuilder;
use tokio_otp::observability::{
    ActorExitStatus, GraphObservability, GraphShutdownCause, IdSource, Level,
};
use tokio_otp::runtime::{DriveEvent, GraphRuntime, Joined};
use tokio_otp::time::TimeSpan;

fn fault(text: &str) -> Fault<&'static str> {
    Fault {
        source: "boxed",
        text: text.to_owned(),
    }
}

fn returned(
    task: u64,
    actor_id: &str,
    result: Result<(), Fault<&'static str>>,
) -> DriveEvent<&'static str> {
    DriveEvent::Joined(Joined::Returned {
        task,
        exit: ActorTaskExit {
            actor_id: actor_id.to_owned(),
            result,
        },
    })
}

fn running(actors: &[&str]) -> GraphRuntime<&'static str> {
    let mut run = GraphRuntime::new();
    for (index, actor) in actors.iter().enumerate() {
        run.actor_spawned(index as u64, actor);
    }
    run
}

#[test]
fn failing_actor_fails_the_run_and_stops_the_others() {
    let mut run = running(&["healthy", "bad"]);
    let token = run.actor_token();
    let step = run.drive(returned(1, "bad", Err(fault("boom"))));
    let exited = step.exited.expect("exit is reported");
    assert_eq!(exited.actor_id, "bad");
    assert_eq!(exited.status, ActorExitStatus::Failed);
    assert_eq!(exited.error.as_deref(), Some("boom"));
    assert_eq!(step.shutdown, Some(GraphShutdownCause::ActorFailed));
    assert!(token.is_cancelled());
    assert!(run.awaits_deadline());

    let step = run.drive(returned(0, "healthy", Ok(())));
    assert_eq!(step.shutdown, None);
    assert!(matches!(
        run.finish(),
        Err(GraphError::ActorFailed { actor_id, source }) if actor_id == "bad" && source.text == "boom"
    ));
}

#[test]
fn early_exit_fails_the_run() {
    let mut run = running(&["quitter"]);
    let step = run.drive(returned(0, "quitter", Ok(())));
    assert_eq!(step.shutdown, Some(GraphShutdownCause::ActorStopped));
    assert_eq!(
        step.exited.expect("exit is reported").status,
        ActorExitStatus::Stopped
    );
    assert!(matches!(
        run.finish(),
        Err(GraphError::ActorStopped { actor_id }) if actor_id == "quitter"
    ));
}

#[test]
fn requested_shutdown_aborts_late_actors_cleanly() {
    let mut run = running(&["cooperative", "stubborn"]);
    let token = run.actor_token();
    assert!(run.awaits_shutdown());
    assert!(!run.awaits_deadline());
    let step = run.drive(DriveEvent::ShutdownRequested);
    assert_eq!(step.shutdown, Some(GraphShutdownCause::External));
    assert!(token.is_cancelled());
    assert!(!run.awaits_shutdown());

    let step = run.drive(returned(0, "cooperative", Ok(())));
    assert_eq!(
        step.exited.expect("exit is reported").status,
        ActorExitStatus::Shutdown
    );
    let step = run.drive(DriveEvent::DeadlineElapsed);
    assert!(step.abort_all);
    assert!(!run.awaits_deadline());
    let step = run.drive(DriveEvent::Joined(Joined::Cancelled { task: 1 }));
    let exited = step.exited.expect("exit is reported");
    assert_eq!(exited.actor_id, "stubborn");
    assert_eq!(exited.status, ActorExitStatus::Cancelled);
    assert!(run.finish().is_ok());
}

#[test]
fn panics_and_foreign_cancellations_fail_the_run() {
    let mut run = running(&["a", "b"]);
    let step = run.drive(DriveEvent::Joined(Joined::Panicked { task: 1 }));
    assert_eq!(step.shutdown, Some(GraphShutdownCause::ActorPanicked));
    let step = run.drive(DriveEvent::Joined(Joined::Cancelled { task: 0 }));
    assert_eq!(step.shutdown, None);
    assert!(matches!(
        run.finish(),
        Err(GraphError::ActorPanicked { actor_id }) if actor_id == "b"
    ));

    let mut run = running(&["a"]);
    let step = run.drive(DriveEvent::Joined(Joined::Cancelled { task: 7 }));
    assert_eq!(step.shutdown, Some(GraphShutdownCause::ActorCancelled));
    assert!(matches!(
        run.finish(),
        Err(GraphError::ActorCancelled { actor_id }) if actor_id == "<unknown>"
    ));
}

#[test]
fn panic_after_the_deadline_still_fails_the_run() {
    let mut run = running(&["a"]);
    run.drive(DriveEvent::ShutdownRequested);
    run.drive(DriveEvent::DeadlineElapsed);
    run.drive(DriveEvent::Joined(Joined::Panicked { task: 0 }));
    assert!(matches!(run.finish(), Err(GraphError::ActorPanicked { .. })));
}

#[test]
fn exits_are_classified() {
    let clean = |result| ActorTaskExit {
        actor_id: "a".to_owned(),
        result,
    };
    assert!(classify_actor_exit(clean(Ok::<(), Fault<()>>(())), true).is_none());
    assert!(matches!(
        classify_actor_exit(clean(Ok(())), false),
        Some(GraphError::ActorStopped { .. })
    ));
    let failed = Fault {
        source: (),
        text: "x".to_owned(),
    };
    assert!(matches!(
        classify_actor_exit(clean(Err(failed)), true),
        Some(GraphError::ActorFailed { .. })
    ));
    assert_eq!(
        clean(Ok(())).shutdown_cause(true),
        GraphShutdownCause::External
    );
    assert_eq!(
        graph_shutdown_cause_for_error(&GraphError::<()>::AlreadyRunning),
        GraphShutdownCause::External
    );
    assert_eq!(
        graph_shutdown_cause_for_error(&GraphError::<()>::ActorPanicked {
            actor_id: "a".to_owned()
        }),
        GraphShutdownCause::ActorPanicked
    );
}

#[test]
fn lost_driving_tasks_are_described() {
    let panicked = JoinFailure {
        panicked: true,
        text: "task 3 panicked".to_owned(),
    };
    assert_eq!(
        join_error_detail(&panicked),
        "graph drive task panicked: task 3 panicked"
    );
    let cancelled = JoinFailure {
        panicked: false,
        text: "task 3 was cancelled".to_owned(),
    };
    let result: Result<(), GraphError<()>> = wait_result(Err(cancelled));
    let error = result.expect_err("lost task");
    assert_eq!(
        error.message(),
        "graph drive task was cancelled: task 3 was cancelled"
    );
    assert!(wait_result::<()>(Ok(Ok(()))).is_ok());
}

#[test]
fn graphs_run_one_at_a_time_and_decompose_when_idle() {
    let mut ids = IdSource::new();
    let mut builder: GraphBuilder<(), ()> = GraphBuilder::new(&mut ids);
    builder.actor("worker", MessageType { key: 1, name: "u8" }, (), ());
    let mut graph = builder.build(&mut ids).expect("valid graph");
    graph.begin_run::<()>().expect("idle graph runs");
    assert!(matches!(
        graph.begin_run::<()>(),
        Err(GraphError::AlreadyRunning)
    ));
    assert!(matches!(
        graph.mark_decomposed::<()>(),
        Err(GraphError::AlreadyRunning)
    ));
    graph.end_run();
    graph.begin_run::<()>().expect("graph runs again");
    graph.end_run();
    graph.mark_decomposed::<()>().expect("idle graph decomposes");
    let error = graph.begin_run::<()>().expect_err("decomposed graph");
    assert_eq!(
        error.message(),
        "graph has already been decomposed into an actor set"
    );
}

#[test]
fn stopped_runs_are_reported_with_their_error() {
    let observability = GraphObservability::new("orders".to_owned());
    let result: Result<(), GraphError<()>> = Err(GraphError::ActorPanicked {
        actor_id: "worker".to_owned(),
    });
    let emission = emit_graph_stopped(&observability, TimeSpan::from_secs(1), &result);
    assert_eq!(emission.log.level, Level::Warn);
    assert_eq!(emission.log.message, "graph stopped");
    assert_eq!(emission.log.fields.entries[2].name, "error");
    let clean: Result<(), GraphError<()>> = Ok(());
    let emission = emit_graph_stopped(&observability, TimeSpan::from_secs(1), &clean);
    assert_eq!(emission.log.level, Level::Info);
}

#[test]
fn graph_handles_stop_their_graph() {
    let handle = GraphHandle::new("orders");
    let token = handle.stop_token();
    assert_eq!(handle.graph_name(), "orders");
    assert!(!token.is_cancelled());
    handle.shutdown();
    handle.shutdown();
    assert!(token.is_cancelled());
}
