use tokio_otp::error::Fault;
use tokio_otp::graph::MessageType;
use tokio_otp::sync::TrySend;
use tokio_otp::typed::binding::BindingCore;
use tokio_otp::typed::builder::GraphBuilder;
use tokio_otp::typed::context::{ActorRef, ReadyAction, ReadyEvent};
use tokio_otp::typed::error::{BuildError, CallError, GraphError, LookupError, SendError};
use tokio_otp::typed::graph::{GraphRun, Joined};

fn numbers() -> MessageType {
    MessageType {
        key: 1,
        name: "u32",
    }
}

fn texts() -> MessageType {
    MessageType {
        key: 2,
        name: "alloc::string::String",
    }
}

fn builder() -> GraphBuilder<&'static str, &'static str> {
    GraphBuilder::new()
}

#[test]
fn build_rejects_message_type_mismatch() {
    let mut builder = builder();
    let _declared = builder.declare("worker", numbers(), "declared");
    let _registered = builder.actor("worker", texts(), "registered", "runner");
    assert!(matches!(
        builder.build(),
        Err(BuildError::MessageTypeMismatch { actor_id, registered, requested })
            if actor_id == "worker" && registered.contains("u32") && requested.contains("String")
    ));
}

#[test]
fn build_rejects_declared_but_missing_actor() {
    let mut builder = builder();
    let _declared = builder.declare("ghost", numbers(), "declared");
    assert!(matches!(
        builder.build(),
        Err(BuildError::MissingActor { actor_id }) if actor_id == "ghost"
    ));
}

#[test]
fn build_rejects_duplicate_actor() {
    let mut builder = builder();
    builder.actor("worker", numbers(), "first", "noop");
    builder.actor("worker", numbers(), "second", "noop");
    assert!(matches!(
        builder.build(),
        Err(BuildError::DuplicateActor { actor_id }) if actor_id == "worker"
    ));
}

#[test]
fn build_rejects_empty_graph() {
    assert!(matches!(builder().build(), Err(BuildError::EmptyGraph)));
}

#[test]
fn typed_graph_runtime_lookup_checks_message_type() {
    let mut builder = builder();
    builder.actor("echo", numbers(), "echo binding", "runner");
    let graph = builder.build().expect("valid graph");

    assert!(graph.actor_ref("echo", numbers()).is_ok());
    assert!(matches!(
        graph.actor_ref("echo", texts()),
        Err(LookupError::MessageTypeMismatch { .. })
    ));
    assert!(matches!(
        graph.actor_ref("nope", numbers()),
        Err(LookupError::UnknownActor { .. })
    ));
}

#[test]
fn declared_actors_keep_their_first_binding() {
    let mut builder = builder();
    assert_eq!(builder.declare("pong", numbers(), "first"), Some(0));
    assert_eq!(builder.actor("ping", numbers(), "ping", "ping runner"), Some(1));
    assert_eq!(builder.actor("pong", numbers(), "ignored", "pong runner"), Some(0));
    assert_eq!(builder.declare("pong", texts(), "other"), None);
    assert_eq!(builder.binding(0), Some(&"first"));
    assert_eq!(builder.binding(2), None);
}

#[test]
fn typed_defaults_and_capacity_floor() {
    let mut builder = builder();
    builder.actor("a", numbers(), "b", "r");
    let graph = builder.build().expect("valid graph");
    assert_eq!(graph.name(), "graph");
    assert_eq!(graph.mailbox_capacity(), 64);

    let mut builder = GraphBuilder::<u8, u8>::new();
    builder.name("orders");
    builder.mailbox_capacity(0);
    builder.actor("a", numbers(), 1, 2);
    let graph = builder.build().expect("valid graph");
    assert_eq!(graph.name(), "orders");
    assert_eq!(graph.mailbox_capacity(), 1);
}

#[test]
fn typed_errors_display_their_actor() {
    let mismatch = BuildError::MessageTypeMismatch {
        actor_id: "worker".to_owned(),
        registered: "u32",
        requested: "u8",
    };
    assert_eq!(
        mismatch.message(),
        "actor `worker` is used with message type `u8` but was first referenced with `u32`"
    );
    let duplicate = BuildError::DuplicateActor {
        actor_id: "w".to_owned(),
    };
    assert_eq!(duplicate.message(), "actor `w` is registered more than once");
    let missing = BuildError::MissingActor {
        actor_id: "w".to_owned(),
    };
    assert_eq!(missing.message(), "actor `w` was declared but never registered");
    assert_eq!(BuildError::EmptyGraph.message(), "graph has no actors");
    let idle = SendError::ActorNotRunning {
        actor_id: "w".to_owned(),
    };
    assert_eq!(idle.message(), "actor `w` is not running");
    let dropped: Result<u8, CallError> = CallError::call_result("w", Ok(()), None);
    assert_eq!(
        dropped.err().map(|error| error.message()),
        Some("actor `w` dropped the reply".to_owned())
    );
    let unsent: Result<u8, CallError> = CallError::call_result("w", Err(idle.clone()), None);
    assert_eq!(unsent, Err(CallError::Send(idle)));
    assert_eq!(CallError::call_result("w", Ok(()), Some(5)), Ok(5));
    let failed: GraphError<()> = GraphError::ActorFailed {
        actor_id: "w".to_owned(),
        source: fault("boom"),
    };
    assert_eq!(failed.message(), "actor `w` failed: boom");
}

fn fault(text: &str) -> Fault<()> {
    Fault {
        source: (),
        text: text.to_owned(),
    }
}

#[test]
fn typed_run_reports_early_exit() {
    let mut run: GraphRun<()> = GraphRun::new();
    let token = run.actor_token();
    run.actor_spawned(1, "quitter");
    run.actor_spawned(2, "healthy");
    assert!(run.awaits_shutdown());
    run.on_joined(Joined::Returned { task: 1, result: Ok(()) });
    assert!(token.is_cancelled());
    assert!(!run.awaits_shutdown());
    run.on_joined(Joined::Returned { task: 2, result: Err(fault("late")) });
    assert!(matches!(
        run.finish(),
        Err(GraphError::ActorExitedEarly { actor_id }) if actor_id == "quitter"
    ));
}

#[test]
fn typed_run_after_shutdown_reports_failures_only() {
    let mut run: GraphRun<()> = GraphRun::new();
    run.actor_spawned(1, "a");
    run.actor_spawned(2, "b");
    run.actor_spawned(3, "c");
    run.on_shutdown();
    run.on_joined(Joined::Returned { task: 1, result: Ok(()) });
    run.on_joined(Joined::Cancelled { task: 2, source: fault("cancelled") });
    run.on_joined(Joined::Panicked { task: 3 });
    assert!(matches!(
        run.finish(),
        Err(GraphError::ActorPanicked { actor_id }) if actor_id == "c"
    ));

    let mut clean: GraphRun<()> = GraphRun::new();
    clean.actor_spawned(1, "a");
    clean.on_shutdown();
    clean.on_joined(Joined::Returned { task: 1, result: Ok(()) });
    assert!(clean.finish().is_ok());
}

#[test]
fn typed_run_names_cancelled_and_unknown_tasks() {
    let mut run: GraphRun<()> = GraphRun::new();
    run.actor_spawned(1, "a");
    run.on_joined(Joined::Cancelled { task: 9, source: fault("task was cancelled") });
    assert!(matches!(
        run.finish(),
        Err(GraphError::ActorFailed { actor_id, source })
            if actor_id == "<unknown>" && source.text == "task was cancelled"
    ));
}

#[test]
fn typed_refs_follow_the_binding() {
    let mut core: BindingCore<u32> = BindingCore::new("echo".to_owned());
    let actor_ref = ActorRef::new("echo".to_owned(), core.subscribe());
    assert_eq!(actor_ref.id(), "echo");
    assert_eq!(
        actor_ref.try_send(1).result,
        Err(SendError::ActorNotRunning {
            actor_id: "echo".to_owned()
        })
    );
    let mut mailbox = core.start_run(1);
    assert!(core.is_bound());
    assert_eq!(actor_ref.try_send(2).result, Ok(()));
    assert_eq!(
        actor_ref.try_send(3).result,
        Err(SendError::MailboxFull {
            actor_id: "echo".to_owned()
        })
    );
    assert_eq!(mailbox.receiver().try_recv(), Ok(2));
    drop(mailbox);
    assert_eq!(
        actor_ref.try_send(4).result,
        Err(SendError::MailboxClosed {
            actor_id: "echo".to_owned()
        })
    );
    core.clear();
    assert!(matches!(
        actor_ref.clone().try_send(5).result,
        Err(SendError::ActorNotRunning { .. })
    ));
}

#[test]
fn retried_sends_wait_for_a_fresh_mailbox() {
    let mut core: BindingCore<u32> = BindingCore::new("echo".to_owned());
    let actor_ref = ActorRef::new("echo".to_owned(), core.subscribe());
    let mut send = actor_ref.start_send(7);
    assert!(matches!(send.step(ReadyEvent::Binding(None)), ReadyAction::AwaitChange));

    drop(core.start_run(1));
    let stale = actor_ref.current_mailbox().mailbox.ok();
    let action = send.step(ReadyEvent::Binding(stale.clone()));
    assert!(matches!(action, ReadyAction::Deliver { message: 7, .. }));
    assert!(matches!(send.step(ReadyEvent::Returned(7)), ReadyAction::ReadBinding));
    assert!(matches!(send.step(ReadyEvent::Binding(stale)), ReadyAction::AwaitChange));
    assert!(matches!(send.step(ReadyEvent::Binding(None)), ReadyAction::AwaitChange));

    let _fresh = core.start_run(1);
    let bound = actor_ref.current_mailbox().mailbox.ok();
    assert!(matches!(
        send.step(ReadyEvent::Binding(bound.clone())),
        ReadyAction::ReadBinding
    ));
    assert!(matches!(
        send.step(ReadyEvent::Binding(bound)),
        ReadyAction::Deliver { message: 7, .. }
    ));
    assert!(matches!(
        send.step(ReadyEvent::Delivered),
        ReadyAction::Finish(Ok(()))
    ));
}

#[test]
fn retried_sends_end_with_their_source() {
    let core: BindingCore<u32> = BindingCore::new("echo".to_owned());
    let actor_ref = ActorRef::new("echo".to_owned(), core.subscribe());
    let mut waiting = actor_ref.start_send(1);
    assert!(matches!(
        waiting.step(ReadyEvent::SourceDropped),
        ReadyAction::Finish(Err(SendError::ActorNotRunning { .. }))
    ));
}

#[test]
fn typed_readers_count_the_current_state_as_seen() {
    let mut core: BindingCore<u32> = BindingCore::new("echo".to_owned());
    let early = core.subscribe();
    let _mailbox = core.start_run(1);
    let late = core.subscribe();
    assert!(early.has_changed().expect("source is alive"));
    assert!(!late.has_changed().expect("source is alive"));
    assert!(late.same_channel(&early));
    let mut actor_ref = ActorRef::new("echo".to_owned(), late);
    assert!(actor_ref.binding().same_channel(&early));
    assert!(actor_ref.binding().borrow().is_some());
}

#[test]
fn sends_show_what_was_found() {
    let mut core: BindingCore<u32> = BindingCore::new("echo".to_owned());
    let actor_ref = ActorRef::new("echo".to_owned(), core.subscribe());
    let nowhere = actor_ref.try_send(1);
    assert!(nowhere.seen.value().is_none());
    assert!(nowhere.attempt.is_none());
    let _mailbox = core.start_run(1);
    let sent = actor_ref.try_send(2);
    assert!(sent.seen.value().is_some());
    assert!(matches!(sent.attempt.expect("tried").outcome(), TrySend::Sent));
    let full = actor_ref.try_send(3);
    assert!(matches!(full.attempt.expect("tried").outcome(), TrySend::Full(3)));
    assert!(matches!(full.result, Err(SendError::MailboxFull { .. })));
    assert!(matches!(
        actor_ref.sent(&TrySend::Closed(4)),
        Err(SendError::MailboxClosed { .. })
    ));
    let lookup = actor_ref.current_mailbox();
    let shown = lookup.seen.value().as_ref().expect("bound");
    assert!(lookup.mailbox.expect("bound").same_channel(shown));
}
