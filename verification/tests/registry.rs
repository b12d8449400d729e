use std::sync::Arc;

use tokio_otp::actor_set::{ActorSet, RunJoined, RunnableActor, RunnableActorFactory};
use tokio_otp::binding::{ActorStats, BindingCore, RebindPolicy, StatsCounters};
use tokio_otp::builder::GraphBuilder;
use tokio_otp::context::ActorRef;
use tokio_otp::error::{GraphError, LookupError, SendError};
use tokio_otp::graph::MessageType;
use tokio_otp::observability::IdSource;
use tokio_otp::registry::{ActorRegistry, RegistryError};

const NUMBERS: MessageType = MessageType { key: 1, name: "u32" };
const TEXTS: MessageType = MessageType { key: 2, name: "alloc::string::String" };

type Binding = Arc<BindingCore<u32>>;

fn decomposed() -> ActorSet<Binding, &'static str, ()> {
    let mut ids = IdSource::new();
    let mut builder = GraphBuilder::new(&mut ids);
    let binding: Binding = Arc::new(BindingCore::new("worker".to_owned()));
    builder.actor("worker", NUMBERS, binding, "drain");
    let graph = builder.build(&mut ids).expect("valid graph");
    let set: Result<_, GraphError<()>> = graph.into_actor_set();
    set.expect("graph decomposes")
}

fn stats_of(binding: &Binding) -> ActorStats {
    binding.stats(&StatsCounters::new()).stats
}

#[test]
fn registry_tracks_registered_actor_refs() {
    let actor_set = decomposed();
    let worker = actor_set.actor("worker").expect("worker exists");
    let mut registry: ActorRegistry<Binding> = ActorRegistry::new();

    worker
        .register_with(&mut registry, Arc::clone(worker.binding()))
        .expect("worker registers successfully");

    assert!(registry.contains("worker"));
    assert_eq!(registry.actor_ids(), vec!["worker".to_owned()]);
    let stats: Vec<ActorStats> = registry.bindings().into_iter().map(stats_of).collect();
    assert_eq!(stats, vec![stats_of(worker.binding())]);
    let binding = registry
        .actor_ref("worker", NUMBERS)
        .expect("actor ref exists");
    assert_eq!(ActorRef::from_core(binding, None).id(), "worker");
    assert!(matches!(
        registry.actor_ref("worker", TEXTS),
        Err(LookupError::MessageTypeMismatch { .. })
    ));

    registry
        .deregister("worker")
        .expect("worker deregisters successfully");
    assert!(!registry.contains("worker"));
    assert!(matches!(
        registry.actor_ref("worker", NUMBERS),
        Err(LookupError::UnknownActor { .. })
    ));
}

#[test]
fn registry_refuses_duplicates_and_strangers() {
    let mut registry: ActorRegistry<u8> = ActorRegistry::new();
    registry.register("a", NUMBERS, 1).expect("fresh id");
    let error = registry.register("a", TEXTS, 2).expect_err("taken id");
    assert_eq!(
        error,
        RegistryError::AlreadyRegistered {
            actor_id: "a".to_owned()
        }
    );
    assert_eq!(error.message(), "actor `a` is already registered");
    assert_eq!(registry.actor_ref("a", NUMBERS), Ok(&1));
    let error = registry.deregister("b").expect_err("unknown id");
    assert_eq!(error.message(), "actor `b` is not registered");
    registry.register("b", TEXTS, 2).expect("fresh id");
    registry.deregister("a").expect("known id");
    assert_eq!(registry.actor_ids(), vec!["b".to_owned()]);
}

#[test]
fn stats_count_traffic_and_depth() {
    let mut counters = StatsCounters::new();
    counters.record_send(true);
    counters.record_send(true);
    counters.record_send(false);
    let stats = counters.snapshot("worker", 2, 0);
    assert_eq!(
        stats,
        tokio_otp::binding::ActorStats {
            actor_id: "worker".to_owned(),
            messages_received: 0,
            messages_accepted: 2,
            sends_rejected: 1,
            mailbox_depth: 2,
            mailbox_capacity: 2,
        }
    );
    counters.record_received();
    counters.record_received();
    let stats = counters.snapshot("worker", 2, 2);
    assert_eq!(stats.messages_received, 2);
    assert_eq!(stats.mailbox_depth, 0);
    assert_eq!(stats.mailbox_capacity, 2);
}

#[test]
fn final_exits_evict_the_actor_and_end_its_refs() {
    for (policy, registered) in [
        (RebindPolicy::Never, false),
        (RebindPolicy::OnFailure, false),
        (RebindPolicy::Always, true),
    ] {
        let mut ids = IdSource::new();
        let factory = RunnableActorFactory::new(&mut ids);
        let mut actor: RunnableActor<u8, &'static str, ()> =
            factory.actor("worker", NUMBERS, 0, "drain");
        actor.set_registry(());
        actor.set_rebind_policy(policy);
        let mut binding: BindingCore<u32> = BindingCore::new("worker".to_owned());
        let worker_ref = ActorRef::from_core(&binding, None);
        let mut registry: ActorRegistry<u8> = ActorRegistry::new();
        actor.register_with(&mut registry, 0).expect("fresh id");

        let run = actor.begin_run::<()>().ok().expect("not running");
        let outcome = run.on_joined(RunJoined::<()>::Returned(Ok(())));
        let change = actor.apply_run_disposition(outcome.disposition);
        binding.enter(change.phase);
        if change.deregister {
            registry.deregister(actor.id()).expect("registered");
        }
        assert_eq!(registry.contains("worker"), registered);
        let refused = worker_ref.try_send(1).result.expect_err("no mailbox");
        if registered {
            assert!(matches!(refused, SendError::ActorNotRunning { .. }));
        } else {
            assert!(matches!(refused, SendError::ActorTerminated { .. }));
        }
    }
}
