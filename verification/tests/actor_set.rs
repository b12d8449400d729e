use tokio_otp::actor_set::{
    run_disposition, ActorRunError, ActorSet, BindingChange, RunDisposition,
    RunFault, RunJoined, RunVerdict, RunnableActor, RunnableActorFactory,
};
use tokio_otp::binding::{BindingPhase, RebindPolicy};
use tokio_otp::builder::GraphBuilder;
use tokio_otp::error::{Fault, GraphError, LookupError};
use tokio_otp::graph::MessageType;
use tokio_otp::observability::{ActorExitStatus, IdSource};
use tokio_otp::registry::ActorRegistry;
use tokio_otp::time::TimeSpan;

const NUMBERS: MessageType = MessageType { key: 1, name: "u32" };
const TEXTS: MessageType = MessageType { key: 2, name: "String" };

type Runnable = RunnableActor<u8, u8, &'static str>;

fn set() -> ActorSet<u8, u8, &'static str> {
    let mut ids = IdSource::new();
    let mut builder = GraphBuilder::new(&mut ids);
    builder.name("orders");
    builder.mailbox_capacity(2);
    builder.actor_shutdown_timeout(TimeSpan { secs: 0, nanos: 100_000_000 });
    builder.actor("worker", NUMBERS, 1, 11);
    builder.actor("frontend", TEXTS, 2, 22);
    let graph = builder.build(&mut ids).expect("valid graph");
    let set: Result<_, GraphError<()>> = graph.into_actor_set();
    set.expect("actor set")
}

fn worker() -> Runnable {
    set().into_actors().remove(0)
}

fn fault() -> Fault<()> {
    Fault {
        source: (),
        text: "boom".to_owned(),
    }
}

#[test]
fn sets_keep_definition_order_and_settings() {
    let set = set();
    let ids: Vec<&str> = set.actors().iter().map(|actor| actor.id()).collect();
    assert_eq!(ids, vec!["worker", "frontend"]);
    let frontend = set.actor("frontend").expect("frontend exists");
    assert_eq!(frontend.graph_name(), "orders");
    assert_eq!(frontend.mailbox_capacity(), 2);
    assert_eq!(*frontend.runner(), 22);
    assert_eq!(*frontend.binding(), 2);
    assert!(set.actor("nope").is_none());
    assert_eq!(set.actor_ref("worker", NUMBERS), Ok(&1));
    assert!(matches!(
        set.actor_ref("worker", TEXTS),
        Err(LookupError::MessageTypeMismatch { .. })
    ));
    assert!(matches!(
        set.actor_ref("nope", TEXTS),
        Err(LookupError::UnknownActor { .. })
    ));
}

#[test]
fn factories_inherit_the_settings_of_their_set() {
    let factory = set().dynamic_factory();
    let added: Runnable = factory.actor("extra", NUMBERS, 3, 33);
    assert_eq!(added.id(), "extra");
    assert_eq!(added.graph_name(), "orders");
    assert_eq!(added.mailbox_capacity(), 2);
    assert_eq!(
        added.actor_shutdown_timeout(),
        TimeSpan { secs: 0, nanos: 100_000_000 }
    );

    let mut ids = IdSource::new();
    let plain: Runnable = RunnableActorFactory::new(&mut ids).actor("extra", NUMBERS, 3, 33);
    assert_eq!(plain.graph_name(), "graph-1");
    assert_eq!(plain.mailbox_capacity(), 64);
    assert_eq!(
        plain.actor_shutdown_timeout(),
        TimeSpan { secs: 5, nanos: 0 }
    );
}

#[test]
fn decomposed_or_running_graphs_do_not_decompose() {
    let mut ids = IdSource::new();
    let mut builder: GraphBuilder<u8, u8> = GraphBuilder::new(&mut ids);
    builder.actor("worker", NUMBERS, 1, 11);
    let mut graph = builder.build(&mut ids).expect("valid graph");
    graph.begin_run::<()>().expect("idle");
    let result: Result<ActorSet<u8, u8, ()>, GraphError<()>> = graph.into_actor_set();
    assert!(matches!(result, Err(GraphError::AlreadyRunning)));
}

#[test]
fn concurrent_runs_are_rejected() {
    let mut worker = worker();
    let _run = worker.begin_run::<()>().expect("first run");
    let error = worker.begin_run::<()>().err().expect("second run");
    assert!(matches!(&error, ActorRunError::AlreadyRunning { actor_id } if actor_id == "worker"));
    assert_eq!(error.message(), "actor `worker` is already running");
    worker.end_run();
    worker.begin_run::<()>().expect("run after the first");
}

#[test]
fn clean_exits_and_shutdown() {
    let mut worker = worker();
    worker.set_rebind_policy(RebindPolicy::Always);
    let run = worker.begin_run::<()>().expect("run");
    let outcome = run.on_joined(RunJoined::<()>::Returned(Ok(())));
    assert_eq!(outcome.disposition, RunDisposition::ExpectRebind);
    assert_eq!(outcome.exited.status, ActorExitStatus::Stopped);
    assert!(matches!(outcome.verdict, RunVerdict::Return(Ok(()))));
    worker.end_run();

    let mut run = worker.begin_run::<()>().expect("run");
    let token = run.token();
    assert!(run.awaits_shutdown());
    run.on_shutdown();
    assert!(token.is_cancelled());
    assert!(run.awaits_deadline());
    let outcome = run.on_joined(RunJoined::<()>::Returned(Ok(())));
    assert_eq!(outcome.disposition, RunDisposition::Terminate);
    assert_eq!(outcome.exited.status, ActorExitStatus::Shutdown);
}

#[test]
fn timeout_aborts_are_clean_requested_shutdowns() {
    let mut worker = worker();
    let mut run = worker.begin_run::<()>().expect("run");
    run.on_shutdown();
    run.on_deadline();
    assert!(!run.awaits_deadline());
    let outcome = run.on_joined(RunJoined::<()>::Cancelled);
    assert!(matches!(outcome.verdict, RunVerdict::Return(Ok(()))));
    assert_eq!(outcome.exited.status, ActorExitStatus::Cancelled);
    assert_eq!(outcome.exited.error, None);
}

#[test]
fn failures_panics_and_foreign_cancellations() {
    let mut worker = worker();
    worker.set_rebind_policy(RebindPolicy::OnFailure);
    let run = worker.begin_run::<()>().expect("run");
    let outcome = run.on_joined(RunJoined::Returned(Err(fault())));
    assert_eq!(outcome.disposition, RunDisposition::ExpectRebind);
    assert_eq!(
        outcome.exited.error.as_deref(),
        Some("actor `worker` returned an error")
    );
    assert!(matches!(
        outcome.verdict,
        RunVerdict::Return(Err(ActorRunError::Failed { source: RunFault::Returned(fault), .. }))
            if fault.text == "boom"
    ));
    worker.end_run();

    let run = worker.begin_run::<()>().expect("run");
    let outcome = run.on_joined(RunJoined::<()>::Panicked);
    assert!(matches!(outcome.verdict, RunVerdict::ResumePanic));
    assert_eq!(outcome.exited.error, None);
    worker.end_run();

    let run = worker.begin_run::<()>().expect("run");
    let outcome = run.on_joined(RunJoined::<()>::Cancelled);
    assert!(matches!(
        outcome.verdict,
        RunVerdict::Return(Err(ActorRunError::Failed { source: RunFault::TaskCancelled { text }, .. }))
            if text == "actor `worker` task was cancelled"
    ));
    assert_eq!(
        outcome.exited.error.as_deref(),
        Some("actor `worker` returned an error")
    );
}

#[test]
fn dispositions_follow_policy_and_shutdown() {
    let statuses = [
        ActorExitStatus::Shutdown,
        ActorExitStatus::Stopped,
        ActorExitStatus::Failed,
        ActorExitStatus::Panicked,
        ActorExitStatus::Cancelled,
    ];
    for status in statuses {
        for policy in [RebindPolicy::Never, RebindPolicy::OnFailure, RebindPolicy::Always] {
            assert_eq!(
                run_disposition(policy, true, status),
                RunDisposition::Terminate
            );
        }
        assert_eq!(
            run_disposition(RebindPolicy::Never, false, status),
            RunDisposition::Terminate
        );
    }
    assert_eq!(
        run_disposition(RebindPolicy::OnFailure, false, ActorExitStatus::Stopped),
        RunDisposition::Terminate
    );
    assert_eq!(
        run_disposition(RebindPolicy::Always, false, ActorExitStatus::Stopped),
        RunDisposition::ExpectRebind
    );
    assert_eq!(
        run_disposition(RebindPolicy::OnFailure, false, ActorExitStatus::Panicked),
        RunDisposition::ExpectRebind
    );
    assert_eq!(
        run_disposition(RebindPolicy::Always, false, ActorExitStatus::Shutdown),
        RunDisposition::Terminate
    );
}

#[test]
fn terminal_exits_leave_the_registry() {
    let mut worker = worker();
    assert_eq!(
        worker.terminate_binding(),
        BindingChange {
            phase: BindingPhase::Terminated,
            deregister: false,
        }
    );
    worker.set_registry("first");
    worker.set_registry("second");
    assert_eq!(*worker.registry(), Some("first"));
    let mut registry: ActorRegistry<u8> = ActorRegistry::new();
    worker.register_with(&mut registry, 1).expect("actor registered");
    assert!(worker.register_with(&mut registry, 1).is_err());
    assert!(registry.contains("worker"));

    let run = worker.begin_run::<()>().expect("run");
    let outcome = run.on_joined(RunJoined::<()>::Returned(Ok(())));
    let change = worker.apply_run_disposition(outcome.disposition);
    assert_eq!(
        change,
        BindingChange {
            phase: BindingPhase::Terminated,
            deregister: true,
        }
    );
    registry.deregister(worker.id()).expect("registered");
    assert!(registry.actor_ids().is_empty());
    assert_eq!(
        worker.apply_run_disposition(RunDisposition::ExpectRebind),
        BindingChange {
            phase: BindingPhase::Unbound,
            deregister: false,
        }
    );
}

#[test]
fn runnable_lookup_checks_message_type() {
    let worker = worker();
    assert_eq!(worker.actor_ref(NUMBERS), Ok(&1));
    assert!(matches!(
        worker.actor_ref(TEXTS),
        Err(LookupError::MessageTypeMismatch { registered: "u32", requested: "String", .. })
    ));
}
