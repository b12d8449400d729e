use tokio_otp::builder::{short_type_name, ActorSlot, GraphBuilder};
use tokio_otp::error::{GraphBuildError, LookupError};
use tokio_otp::graph::MessageType;
use tokio_otp::observability::IdSource;
use tokio_otp::time::TimeSpan;

const NUMBERS: MessageType = MessageType { key: 1, name: "u32" };
const TEXTS: MessageType = MessageType { key: 2, name: "alloc::string::String" };
const UNITS: MessageType = MessageType { key: 3, name: "()" };

fn fresh(ids: &mut IdSource) -> GraphBuilder<u32, &'static str> {
    GraphBuilder::new(ids)
}

#[test]
fn short_type_name_handles_plain_path_qualified_and_generics() {
    assert_eq!(short_type_name("Sink"), "Sink");
    assert_eq!(short_type_name("orders::Gateway"), "Gateway");
    assert_eq!(short_type_name("orders::Gateway<fix::Fix>"), "Gateway");
    assert_eq!(
        short_type_name("orders::Gateway<fix::Fix<wire::Header>, sink::Out>"),
        "Gateway"
    );
}

#[test]
fn short_type_name_edge_shapes() {
    assert_eq!(short_type_name(""), "");
    assert_eq!(short_type_name("a:::b"), "b");
    assert_eq!(short_type_name("a::"), "");
    assert_eq!(short_type_name("::a"), "a");
    assert_eq!(short_type_name("<A as B>::C"), "");
    assert_eq!(short_type_name("a:b"), "a:b");
}

#[test]
fn graph_preserves_explicit_name() {
    let mut ids = IdSource::new();
    let mut builder = fresh(&mut ids);
    builder.name("orders");
    builder.actor("worker", UNITS, 0, "drain");
    let graph = builder.build(&mut ids).expect("valid graph");

    assert_eq!(graph.name(), "orders");
}

#[test]
fn graph_generates_unique_anonymous_names() {
    let mut ids = IdSource::new();
    let mut first = fresh(&mut ids);
    first.actor("worker", UNITS, 0, "drain");
    let first = first.build(&mut ids).expect("valid graph");

    let mut second = fresh(&mut ids);
    second.actor("worker", UNITS, 0, "drain");
    let second = second.build(&mut ids).expect("valid graph");

    assert_ne!(first.name(), second.name());
    assert!(first.name().starts_with("graph-"));
    assert!(second.name().starts_with("graph-"));
}

#[test]
fn build_rejects_invalid_graph_definitions() {
    let mut ids = IdSource::new();
    let mut missing = fresh(&mut ids);
    let _slot: ActorSlot<u32> = missing.slot("ghost", NUMBERS, 0);
    assert!(matches!(
        missing.build(&mut ids),
        Err(GraphBuildError::MissingActor { actor_id }) if actor_id == "ghost"
    ));

    let mut duplicate = fresh(&mut ids);
    duplicate.actor("worker", NUMBERS, 0, "drain");
    duplicate.actor("worker", NUMBERS, 1, "drain");
    assert!(matches!(
        duplicate.build(&mut ids),
        Err(GraphBuildError::DuplicateActorId { actor_id }) if actor_id == "worker"
    ));

    let empty = fresh(&mut ids);
    assert!(matches!(empty.build(&mut ids), Err(GraphBuildError::EmptyGraph)));

    let mut empty_name = fresh(&mut ids);
    empty_name.name("");
    empty_name.actor("worker", UNITS, 0, "drain");
    assert!(matches!(
        empty_name.build(&mut ids),
        Err(GraphBuildError::InvalidConfig(
            "graph name must not be empty"
        ))
    ));

    let mut zero_capacity = fresh(&mut ids);
    zero_capacity.mailbox_capacity(0);
    zero_capacity.actor("worker", UNITS, 0, "drain");
    assert!(matches!(
        zero_capacity.build(&mut ids),
        Err(GraphBuildError::InvalidConfig(
            "mailbox capacity must be non-zero"
        ))
    ));
}

#[test]
fn graph_runtime_lookup_checks_message_type() {
    let mut ids = IdSource::new();
    let mut builder = fresh(&mut ids);
    builder.actor("echo", NUMBERS, 7, "drain");
    let graph = builder.build(&mut ids).expect("valid graph");

    assert!(graph.actor_ref("echo", NUMBERS).is_ok());
    assert!(matches!(
        graph.actor_ref("echo", TEXTS),
        Err(LookupError::MessageTypeMismatch { .. })
    ));
    assert!(matches!(
        graph.actor_ref("nope", NUMBERS),
        Err(LookupError::UnknownActor { .. })
    ));
    assert_eq!(graph.actor_ref("echo", NUMBERS), Ok(&7));
}

#[test]
fn defaults_are_sixty_four_messages_and_five_seconds() {
    let mut ids = IdSource::new();
    let mut builder = fresh(&mut ids);
    builder.actor("worker", UNITS, 0, "drain");
    let graph = builder.build(&mut ids).expect("valid graph");
    assert_eq!(graph.mailbox_capacity(), 64);
    assert_eq!(graph.actor_shutdown_timeout(), TimeSpan { secs: 5, nanos: 0 });

    let mut builder = fresh(&mut ids);
    builder.mailbox_capacity(2);
    builder.actor_shutdown_timeout(TimeSpan { secs: 0, nanos: 100_000_000 });
    builder.actor("worker", UNITS, 0, "drain");
    let graph = builder.build(&mut ids).expect("valid graph");
    assert_eq!(graph.mailbox_capacity(), 2);
    assert_eq!(
        graph.actor_shutdown_timeout(),
        TimeSpan { secs: 0, nanos: 100_000_000 }
    );
}

#[test]
fn equal_type_names_are_numbered() {
    let mut ids = IdSource::new();
    let mut builder = fresh(&mut ids);
    assert_eq!(builder.add("demo::Worker", UNITS, 0, "a"), "Worker");
    assert_eq!(builder.add("demo::Worker", UNITS, 1, "b"), "Worker-2");
    assert_eq!(builder.add("other::Worker<u8>", UNITS, 2, "c"), "Worker-3");
    builder.actor("Sink-2", UNITS, 3, "d");
    assert_eq!(builder.add("Sink", UNITS, 4, "e"), "Sink");
    assert_eq!(builder.add("Sink", UNITS, 5, "f"), "Sink-3");
    let graph = builder.build(&mut ids).expect("valid graph");
    let names: Vec<&str> = graph
        .actors()
        .iter()
        .map(|actor| actor.actor_id.as_str())
        .collect();
    assert_eq!(
        names,
        vec!["Worker", "Worker-2", "Worker-3", "Sink-2", "Sink", "Sink-3"]
    );
}

#[test]
fn slots_are_filled_in_any_order() {
    let mut ids = IdSource::new();
    let mut builder = fresh(&mut ids);
    let ping: ActorSlot<u32> = builder.slot("ping", NUMBERS, 1);
    let pong: ActorSlot<u32> = builder.slot("pong", NUMBERS, 2);
    builder.define(pong, "pong runner");
    builder.define(ping, "ping runner");
    let graph = builder.build(&mut ids).expect("valid graph");
    assert_eq!(graph.actors()[0].actor_id, "ping");
    assert_eq!(graph.actors()[0].runner, "ping runner");
    assert_eq!(graph.actors()[1].actor_id, "pong");
    assert_eq!(graph.actors()[1].runner, "pong runner");
}

#[test]
fn slots_of_other_builders_are_rejected() {
    let mut ids = IdSource::new();
    let mut other = fresh(&mut ids);
    let foreign: ActorSlot<u32> = other.slot("worker", NUMBERS, 0);
    let mut builder = fresh(&mut ids);
    builder.actor("worker", NUMBERS, 0, "drain");
    builder.define(foreign, "drain");
    assert_eq!(
        builder.build(&mut ids).err(),
        Some(GraphBuildError::InvalidConfig(
            "actor slot belongs to a different graph builder"
        ))
    );
}

#[test]
fn refused_slots_are_ignored_and_reported_once() {
    let mut ids = IdSource::new();
    let mut builder = fresh(&mut ids);
    let refused: ActorSlot<u32> = builder.slot("", NUMBERS, 0);
    builder.define(refused, "drain");
    builder.actor("worker", NUMBERS, 0, "drain");
    let error = builder.build(&mut ids).err().expect("empty id is refused");
    assert_eq!(
        error,
        GraphBuildError::InvalidConfig("actor id must not be empty")
    );
    assert_eq!(error.message(), "actor id must not be empty");
}

#[test]
fn build_errors_display_their_actor() {
    let duplicate = GraphBuildError::DuplicateActorId {
        actor_id: "a".to_owned(),
    };
    assert_eq!(duplicate.message(), "duplicate actor id `a`");
    let missing = GraphBuildError::MissingActor {
        actor_id: "b".to_owned(),
    };
    assert_eq!(missing.message(), "actor `b` slot was opened but never filled");
    assert_eq!(
        GraphBuildError::EmptyGraph.message(),
        "graph must contain at least one actor"
    );
    let mismatch = LookupError::MessageTypeMismatch {
        actor_id: "c".to_owned(),
        registered: "u32",
        requested: "u8",
    };
    assert_eq!(
        mismatch.message(),
        "actor `c` has message type `u32`, not `u8`"
    );
    let unknown = LookupError::UnknownActor {
        actor_id: "d".to_owned(),
    };
    assert_eq!(unknown.message(), "unknown actor `d`");
}
