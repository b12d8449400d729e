use tokio::sync::oneshot;
use tokio_otp::binding::{
    ActorStats, BindingCore, BindingPhase, BindingState, RebindPolicy, StatsCounters,
};
use tokio_otp::context::{
    send_rejection, ActorContext, ActorRef, ReceiveEvent, Reply, SendAction, SendEvent,
};
use tokio_otp::error::{CallError, SendError};
use tokio_otp::observability::{GraphObservability, MessageOperation, SendRejection};
use tokio_otp::sync::TryReceive;
use tokio_otp::time::TimeSpan;
use tokio_util::sync::CancellationToken;

fn observability() -> GraphObservability {
    GraphObservability::new("orders".to_owned())
}

fn fresh_binding() -> BindingCore<u32> {
    BindingCore::new("worker".to_owned())
}

fn state(actor_ref: &ActorRef<u32>) -> BindingState<u32> {
    actor_ref.binding().borrow().clone()
}

#[test]
fn try_send_reports_each_binding_state() {
    let mut binding = fresh_binding();
    let actor_ref = ActorRef::from_core(&binding, None);
    assert_eq!(actor_ref.id(), "worker");
    assert_eq!(
        actor_ref.try_send(1).result,
        Err(SendError::ActorNotRunning { actor_id: "worker".to_owned() })
    );

    let (mut mailbox, bound) = binding.start_run(1, &observability());
    assert_eq!(bound.log.message, "actor mailbox bound");
    assert_eq!(binding.phase(), BindingPhase::Bound);
    assert_eq!(actor_ref.try_send(2).result, Ok(()));
    assert_eq!(
        actor_ref.try_send(3).result,
        Err(SendError::MailboxFull { actor_id: "worker".to_owned() })
    );
    assert_eq!(mailbox.receiver().try_recv(), Ok(2));
    mailbox.receiver().close();
    assert_eq!(
        actor_ref.try_send(4).result,
        Err(SendError::MailboxClosed { actor_id: "worker".to_owned() })
    );

    let cleared = binding.end_run(RebindPolicy::OnFailure, &observability());
    assert_eq!(cleared.log.message, "actor mailbox cleared");
    assert!(matches!(actor_ref.try_send(5).result, Err(SendError::ActorNotRunning { .. })));
    binding.end_run(RebindPolicy::Never, &observability());
    assert!(matches!(actor_ref.try_send(6).result, Err(SendError::ActorTerminated { .. })));
    let _rerun = binding.start_run(1, &observability());
    assert_eq!(actor_ref.clone().try_send(7).result, Ok(()));
    binding.unbind();
    drop(binding);
    assert!(matches!(actor_ref.try_send(8).result, Err(SendError::ActorTerminated { .. })));
}

#[test]
fn detached_refs_are_terminated() {
    let detached: ActorRef<u32> = ActorRef::detached("ghost".to_owned());
    assert_eq!(
        detached.try_send(1).result,
        Err(SendError::ActorTerminated { actor_id: "ghost".to_owned() })
    );
}

#[test]
fn sends_wait_for_a_fresh_mailbox() {
    let mut binding = fresh_binding();
    let actor_ref = ActorRef::from_core(&binding, None);
    let mut send = actor_ref.start_send(9);
    let step = send.step(SendEvent::Binding(state(&actor_ref)));
    assert!(matches!(step.action, SendAction::AwaitChange));
    assert!(step.observe.is_none());

    let (mailbox, _) = binding.start_run(1, &observability());
    drop(mailbox);
    let step = send.step(SendEvent::Binding(state(&actor_ref)));
    let (mailbox, message) = match step.action {
        SendAction::Deliver { mailbox, message } => (mailbox, message),
        _ => panic!("expected a delivery"),
    };
    assert_eq!(message, 9);
    assert!(mailbox.try_send(message).result.is_err());
    let step = send.step(SendEvent::Returned(9));
    assert!(matches!(step.action, SendAction::ReadBinding));
    assert!(matches!(step.observe, Some(Err(SendError::MailboxClosed { .. }))));

    let step = send.step(SendEvent::Binding(state(&actor_ref)));
    assert!(matches!(step.action, SendAction::AwaitChange));

    let (mut fresh, _) = binding.start_run(1, &observability());
    let step = send.step(SendEvent::Binding(state(&actor_ref)));
    assert!(matches!(step.action, SendAction::ReadBinding));
    let step = send.step(SendEvent::Binding(state(&actor_ref)));
    match step.action {
        SendAction::Deliver { mailbox, message } => mailbox.try_send(message).result.expect("room"),
        _ => panic!("expected a delivery"),
    }
    assert_eq!(fresh.receiver().try_recv(), Ok(9));
    let step = send.step(SendEvent::Delivered);
    assert!(matches!(step.action, SendAction::Finish(Ok(()))));
    assert_eq!(step.observe, Some(Ok(())));
}

#[test]
fn sends_fail_on_termination_only() {
    let mut binding = fresh_binding();
    let actor_ref = ActorRef::from_core(&binding, None);
    binding.terminate();
    let mut send = actor_ref.start_send(1);
    let step = send.step(SendEvent::Binding(state(&actor_ref)));
    assert!(matches!(
        step.action,
        SendAction::Finish(Err(SendError::ActorTerminated { .. }))
    ));
    assert!(matches!(step.observe, Some(Err(SendError::ActorTerminated { .. }))));

    let mut rebinding = actor_ref.start_send(2);
    let (mailbox, _) = binding.start_run(1, &observability());
    drop(mailbox);
    rebinding.step(SendEvent::Binding(state(&actor_ref)));
    rebinding.step(SendEvent::Returned(2));
    let step = rebinding.step(SendEvent::SourceDropped);
    assert!(matches!(
        step.action,
        SendAction::Finish(Err(SendError::ActorTerminated { .. }))
    ));
    assert!(step.observe.is_none());
}

#[test]
fn sends_are_observed_with_source_and_reason() {
    let binding = fresh_binding();
    let actor_ref = ActorRef::from_core(&binding, Some("frontend".to_owned()));
    let result = actor_ref.try_send(1).result;
    let emission = actor_ref.observe_send(
        &observability(),
        MessageOperation::TrySend,
        TimeSpan::from_secs(0),
        &result,
    );
    assert_eq!(emission.log.message, "message rejected");
    assert_eq!(emission.log.fields.entries[1].name, "source_actor_id");
    assert_eq!(emission.metrics[0].labels[3].value, "not_running");
    let accepted = actor_ref.observe_send(
        &observability(),
        MessageOperation::Send,
        TimeSpan::from_secs(0),
        &Ok(()),
    );
    assert_eq!(accepted.log.message, "message sent");
}

#[test]
fn rejections_name_the_reason() {
    let id = || "a".to_owned();
    assert_eq!(
        send_rejection(&SendError::ActorNotRunning { actor_id: id() }),
        SendRejection::NotRunning
    );
    assert_eq!(
        send_rejection(&SendError::ActorTerminated { actor_id: id() }),
        SendRejection::ActorTerminated
    );
    assert_eq!(
        send_rejection(&SendError::MailboxFull { actor_id: id() }),
        SendRejection::MailboxFull
    );
    assert_eq!(
        send_rejection(&SendError::MailboxClosed { actor_id: id() }),
        SendRejection::MailboxClosed
    );
    assert_eq!(
        SendError::ActorNotRunning { actor_id: id() }.message(),
        "actor `a` is not currently running"
    );
    assert_eq!(
        SendError::ActorTerminated { actor_id: id() }.message(),
        "actor `a` has terminated"
    );
    assert_eq!(
        SendError::MailboxFull { actor_id: id() }.message(),
        "mailbox for actor `a` is full"
    );
    assert_eq!(
        SendError::MailboxClosed { actor_id: id() }.message(),
        "mailbox for actor `a` is closed"
    );
}

#[test]
fn replies_reach_their_caller() {
    let (sender, mut receiver) = oneshot::channel();
    Reply::new(sender).send(5u32);
    assert_eq!(receiver.try_recv(), Ok(5));

    let (sender, receiver) = oneshot::channel::<u32>();
    drop(receiver);
    Reply::new(sender).send(6);

    assert_eq!(CallError::call_result("w", Ok(()), Some(1)), Ok(1));
    let dropped: Result<u8, CallError> = CallError::call_result("w", Ok(()), None);
    let dropped = dropped.expect_err("reply was dropped");
    assert_eq!(dropped.message(), "actor `w` dropped the reply");
    let full = SendError::MailboxFull { actor_id: "w".to_owned() };
    let unsent: Result<u8, CallError> = CallError::call_result("w", Err(full), None);
    assert_eq!(
        unsent.expect_err("request was not sent").message(),
        "mailbox for actor `w` is full"
    );
}

#[test]
fn contexts_drain_after_shutdown() {
    let mut binding = fresh_binding();
    let actor_ref = ActorRef::from_core(&binding, None);
    let (mailbox, _) = binding.start_run(4, &observability());
    let token = CancellationToken::new();
    let mut context = ActorContext::new(
        "worker".to_owned(),
        mailbox,
        ActorRef::from_core(&binding, Some("worker".to_owned())),
        token.clone(),
    );
    assert_eq!(context.id(), "worker");
    assert_eq!(context.myself().id(), "worker");
    assert!(!context.is_shutting_down().is_cancelled());
    actor_ref.try_send(1).result.expect("room");
    actor_ref.try_send(2).result.expect("room");
    let child = context.child_token();
    token.cancel();
    assert!(context.is_shutting_down().is_cancelled());
    assert!(context.shutdown_token().is_cancelled());
    assert!(child.is_cancelled());

    let (message, report) = context.received(ReceiveEvent::Shutdown, &observability());
    assert_eq!(message, None);
    assert!(report.is_none());
    let (first, report) = context.try_recv(&observability());
    assert_eq!(first.into_outcome(), TryReceive::Message(1));
    assert_eq!(report.expect("reported").log.message, "message received");
    assert_eq!(context.try_recv(&observability()).0.into_outcome(), TryReceive::Message(2));
    let (empty, report) = context.try_recv(&observability());
    assert_eq!(empty.into_outcome(), TryReceive::Empty);
    assert!(report.is_none());
    context.close_mailbox();
    assert!(matches!(actor_ref.try_send(3).result, Err(SendError::MailboxClosed { .. })));
    drop(actor_ref);
    binding.terminate();
    assert_eq!(context.try_recv(&observability()).0.into_outcome(), TryReceive::Disconnected);

    let (message, report) = context.received(ReceiveEvent::Mailbox(Some(8)), &observability());
    assert_eq!(message, Some(8));
    assert!(report.is_some());
    let (message, report) = context.received(ReceiveEvent::Mailbox(None), &observability());
    assert_eq!(message, None);
    assert!(report.is_none());
}

#[test]
fn stats_follow_sends_receives_and_the_mailbox() {
    let mut binding = fresh_binding();
    let mut counters = StatsCounters::new();
    let worker_ref = ActorRef::from_core(&binding, None);
    assert_eq!(binding.stats(&counters).stats.mailbox_capacity, 0);
    let (mailbox, _) = binding.start_run(2, &observability());
    let mut context = ActorContext::new(
        "worker".to_owned(),
        mailbox,
        ActorRef::from_core(&binding, Some("worker".to_owned())),
        CancellationToken::new(),
    );

    for message in [1, 2, 3] {
        counters.record_send(worker_ref.try_send(message).result.is_ok());
    }
    assert_eq!(
        binding.stats(&counters).stats,
        ActorStats {
            actor_id: "worker".to_owned(),
            messages_received: 0,
            messages_accepted: 2,
            sends_rejected: 1,
            mailbox_depth: 2,
            mailbox_capacity: 2,
        }
    );

    while let TryReceive::Message(_) = context.try_recv(&observability()).0.into_outcome() {
        counters.record_received();
    }
    let stats = binding.stats(&counters).stats;
    assert_eq!(stats.messages_received, 2);
    assert_eq!(stats.mailbox_depth, 0);
    assert_eq!(stats.mailbox_capacity, 2);
    binding.terminate();
    assert_eq!(binding.stats(&counters).stats.mailbox_capacity, 0);
}

#[test]
fn messages_survive_any_number_of_restarts() {
    let mut binding = fresh_binding();
    let actor_ref = ActorRef::from_core(&binding, None);
    let mut send = actor_ref.start_send(42);
    for _ in 0..3 {
        let (mailbox, _) = binding.start_run(1, &observability());
        drop(mailbox);
        let step = send.step(SendEvent::Binding(state(&actor_ref)));
        let message = match step.action {
            SendAction::Deliver { mailbox, message } => {
                assert!(mailbox.same_channel(&mailbox.clone()));
                message
            }
            _ => panic!("expected a delivery"),
        };
        assert_eq!(message, 42);
        send.step(SendEvent::Returned(message));
        binding.unbind();
        send.step(SendEvent::Binding(state(&actor_ref)));
        let (next, _) = binding.start_run(1, &observability());
        let step = send.step(SendEvent::Binding(state(&actor_ref)));
        assert!(matches!(step.action, SendAction::ReadBinding));
        drop(next);
    }
    let (mut mailbox, _) = binding.start_run(1, &observability());
    let step = send.step(SendEvent::Binding(state(&actor_ref)));
    match step.action {
        SendAction::Deliver { mailbox, message } => {
            mailbox.blocking_send(message).result.expect("room");
        }
        _ => panic!("expected a delivery"),
    }
    assert!(matches!(
        send.step(SendEvent::Delivered).action,
        SendAction::Finish(Ok(()))
    ));
    assert_eq!(mailbox.receiver().try_recv(), Ok(42));
}

#[test]
fn sends_to_a_dropped_binding_end_as_terminated() {
    let binding: BindingCore<u32> = BindingCore::new("echo".to_owned());
    let echo = ActorRef::from_core(&binding, None);
    drop(binding);
    let mut send = echo.start_send(1);
    let step = send.step(SendEvent::Binding(state(&echo)));
    assert!(matches!(step.action, SendAction::AwaitChange));
    assert!(echo.binding().has_changed().is_err());
    let step = send.step(SendEvent::SourceDropped);
    match step.action {
        SendAction::Finish(Err(SendError::ActorTerminated { actor_id })) => {
            assert_eq!(actor_id, "echo");
        }
        _ => panic!("expected the end of the send"),
    }
}

#[test]
fn new_readers_count_the_current_state_as_seen() {
    let mut binding = fresh_binding();
    let early = binding.subscribe();
    let (_mailbox, _) = binding.start_run(1, &observability());
    let late = binding.subscribe();
    assert!(early.has_changed().expect("source is alive"));
    assert!(!late.has_changed().expect("source is alive"));
    assert!(late.same_channel(&early));
    assert!(matches!(&*late.borrow(), BindingState::Bound(_)));
    binding.terminate();
    assert!(late.has_changed().expect("source is alive"));
    drop(binding);
    assert!(late.has_changed().is_err());
}

#[test]
fn mailbox_hands_out_what_the_context_reads() {
    let mut binding = fresh_binding();
    let actor_ref = ActorRef::from_core(&binding, None);
    let (mailbox, _) = binding.start_run(2, &observability());
    let mut context = ActorContext::new(
        "worker".to_owned(),
        mailbox,
        actor_ref.clone(),
        tokio_util::sync::CancellationToken::new(),
    );
    actor_ref.try_send(1).result.expect("room");
    actor_ref.try_send(2).result.expect("room");
    assert_eq!(context.mailbox().try_recv(), Ok(1));
    context.close_mailbox();
    assert_eq!(context.try_recv(&observability()).0.into_outcome(), TryReceive::Message(2));
}

#[test]
fn mailboxes_hold_as_many_messages_as_configured() {
    let mut binding = fresh_binding();
    let actor_ref = ActorRef::from_core(&binding, None);
    let counters = StatsCounters::new();
    for capacity in [1, 3] {
        let (mut mailbox, _) = binding.start_run(capacity, &observability());
        assert_eq!(mailbox.receiver().max_capacity(), capacity);
        for message in 0..capacity {
            assert!(actor_ref.try_send(message as u32).result.is_ok());
        }
        assert!(matches!(actor_ref.try_send(9).result, Err(SendError::MailboxFull { .. })));
        let stats = binding.stats(&counters).stats;
        assert_eq!(stats.mailbox_capacity, capacity);
        assert_eq!(stats.mailbox_depth, capacity);
        for message in 0..capacity {
            assert_eq!(mailbox.receiver().try_recv(), Ok(message as u32));
        }
        assert_eq!(binding.stats(&counters).stats.mailbox_depth, 0);
        binding.unbind();
        assert_eq!(binding.stats(&counters).stats.mailbox_capacity, 0);
    }
}
