use tokio_otp::builder::{ActorSlot, GraphBuilder};
use tokio_otp::error::GraphBuildError;
use tokio_otp::graph::MessageType;
use tokio_otp::observability::IdSource;
use tokio_otp::topology::{
    check_shape, expand_topology, Body, FieldOption, FieldOptions, Site, StructOptions,
};

fn names(fields: &[&str]) -> Vec<String> {
    fields.iter().map(|name| (*name).to_owned()).collect()
}

#[test]
fn struct_options_are_read_once() {
    let mut options = StructOptions::new();
    assert!(!options.emit_metadata());
    assert_eq!(options.option(Some("other")), Err("expected `metadata`"));
    assert_eq!(options.option(None), Err("expected `metadata`"));
    assert_eq!(options.option(Some("metadata")), Ok(()));
    assert!(options.emit_metadata());
    assert_eq!(
        options.option(Some("metadata")),
        Err("duplicate `metadata` option")
    );
}

#[test]
fn only_plain_named_structs_are_topologies() {
    let named = "Topology can only be derived for structs with named fields";
    let problem = |is_generic, body| {
        check_shape(is_generic, body)
            .err()
            .map(|error| (error.site, error.message))
    };
    assert_eq!(problem(false, Body::Named(1)), None);
    assert_eq!(problem(false, Body::Tuple), Some((Site::Fields, named)));
    assert_eq!(problem(false, Body::Unit), Some((Site::Name, named)));
    assert_eq!(problem(false, Body::NotAStruct), Some((Site::Name, named)));
    assert_eq!(
        problem(false, Body::Named(0)),
        Some((Site::Name, "Topology requires at least one actor field"))
    );
    assert_eq!(
        problem(true, Body::Tuple),
        Some((
            Site::Generics,
            "Topology cannot be derived for generic structs"
        ))
    );
}

#[test]
fn field_options_become_a_plan() {
    let mut options = FieldOptions::new(true, names(&["frontend", "parser", "sink"]));
    assert_eq!(options.option(Some("sends_to")), Ok(FieldOption::SendsTo));
    assert_eq!(options.target(Some("parser")), Ok(()));
    assert_eq!(options.target(Some("parser")), Err("duplicate topology edge"));
    assert_eq!(
        options.target(Some("nope")),
        Err("unknown topology actor field")
    );
    assert_eq!(options.target(None), Err("expected an actor field name"));
    assert_eq!(options.end_targets(1), Ok(()));
    assert_eq!(
        options.end_targets(0),
        Err("expected at least one target actor field")
    );
    options.end_field();
    assert_eq!(options.option(Some("options")), Ok(FieldOption::Options));
    assert_eq!(
        options.option(Some("options")),
        Err("duplicate `options` option")
    );
    assert_eq!(options.option(Some("sends_to")), Ok(FieldOption::SendsTo));
    assert_eq!(
        options.target(Some("parser")),
        Err("expected another actor field")
    );
    assert_eq!(options.target(Some("sink")), Ok(()));
    options.end_field();
    assert_eq!(
        options.option(Some("size")),
        Err("expected `sends_to(...)` or `options = <expression>`")
    );
    assert_eq!(options.option(Some("options")), Ok(FieldOption::Options));
    options.end_field();

    let plan =
        expand_topology("Pipeline", false, Body::Named(3), options).expect("a topology");
    assert_eq!(plan.refs, "PipelineRefs");
    let fields: Vec<(&str, &str, bool)> = plan
        .fields
        .iter()
        .map(|field| (field.label.as_str(), field.slot.as_str(), field.with_options))
        .collect();
    assert_eq!(
        fields,
        vec![
            ("frontend", "frontend_slot", false),
            ("parser", "parser_slot", true),
            ("sink", "sink_slot", true),
        ]
    );
    let edges: Vec<(String, String, usize)> = plan
        .metadata
        .expect("metadata was asked for")
        .into_iter()
        .map(|edge| (edge.source_name, edge.target_name, edge.target_index))
        .collect();
    assert_eq!(
        edges,
        vec![
            ("frontend".to_owned(), "parser".to_owned(), 1),
            ("parser".to_owned(), "sink".to_owned(), 2),
        ]
    );
}

#[test]
fn fields_never_send_to_themselves() {
    let mut options = FieldOptions::new(true, names(&["a", "b"]));
    assert_eq!(options.option(Some("sends_to")), Ok(FieldOption::SendsTo));
    assert_eq!(options.target(Some("a")), Err("expected another actor field"));
    assert_eq!(options.target(Some("b")), Ok(()));
    options.end_field();
    assert_eq!(options.target(Some("b")), Err("expected another actor field"));
    assert_eq!(options.target(Some("a")), Ok(()));
}

#[test]
fn expansion_rejects_what_is_no_topology() {
    let rejected = |is_generic, body, fields: &[&str]| {
        let mut options = FieldOptions::new(false, names(fields));
        for _ in fields {
            options.end_field();
        }
        expand_topology("T", is_generic, body, options)
            .err()
            .map(|error| (error.site, error.message))
    };
    assert_eq!(rejected(false, Body::Named(1), &["a"]), None);
    assert_eq!(
        rejected(false, Body::Named(0), &[]),
        Some((Site::Name, "Topology requires at least one actor field"))
    );
    assert_eq!(
        rejected(true, Body::Named(1), &["a"]),
        Some((Site::Generics, "Topology cannot be derived for generic structs"))
    );
    let named = "Topology can only be derived for structs with named fields";
    assert_eq!(rejected(false, Body::Tuple, &[]), Some((Site::Fields, named)));
    assert_eq!(rejected(false, Body::Unit, &[]), Some((Site::Name, named)));
    assert_eq!(rejected(false, Body::NotAStruct, &[]), Some((Site::Name, named)));
}

#[test]
fn edges_need_metadata() {
    let mut options = FieldOptions::new(false, names(&["a"]));
    assert_eq!(
        options.option(Some("sends_to")),
        Err("`sends_to` requires `#[topology(metadata)]` on the topology struct")
    );
    options.end_field();
    let plan = expand_topology("T", false, Body::Named(1), options).expect("a topology");
    assert!(plan.metadata.is_none());
}

#[test]
fn planned_slots_wire_a_cyclic_graph() {
    let mut options = FieldOptions::new(false, names(&["ping", "pong"]));
    options.end_field();
    options.end_field();
    let plan = expand_topology("Rally", false, Body::Named(2), options).expect("a topology");

    let numbers = MessageType { key: 1, name: "u32" };
    let mut ids = IdSource::new();
    let mut builder: GraphBuilder<u8, &'static str> = GraphBuilder::new(&mut ids);
    let mut slots: Vec<ActorSlot<u32>> = Vec::new();
    for field in &plan.fields {
        slots.push(builder.slot(&field.label, numbers, 0));
    }
    for slot in slots {
        builder.define(slot, "actor");
    }
    let graph = builder.build(&mut ids).expect("valid graph");
    let labels: Vec<&str> = graph
        .actors()
        .iter()
        .map(|actor| actor.actor_id.as_str())
        .collect();
    assert_eq!(labels, vec!["ping", "pong"]);

    let mut taken: GraphBuilder<u8, &'static str> = GraphBuilder::new(&mut ids);
    taken.actor("ping", numbers, 0, "by hand");
    let slot: ActorSlot<u32> = taken.slot(&plan.fields[0].label, numbers, 0);
    taken.define(slot, "actor");
    assert!(matches!(
        taken.build(&mut ids),
        Err(GraphBuildError::DuplicateActorId { actor_id }) if actor_id == "ping"
    ));
}

#[test]
fn raw_identifiers_lose_their_mark_in_made_up_names() {
    let mut options = FieldOptions::new(false, names(&["r#type", "r", "plain"]));
    options.end_field();
    options.end_field();
    options.end_field();
    let plan = expand_topology("r#Loop", false, Body::Named(3), options).expect("a topology");
    assert_eq!(plan.refs, "LoopRefs");
    assert_eq!(plan.fields[0].label, "r#type");
    assert_eq!(plan.fields[0].slot, "type_slot");
    assert_eq!(plan.fields[1].slot, "r_slot");
    assert_eq!(plan.fields[2].slot, "plain_slot");
}

fn body_of(source: &str) -> (bool, Body) {
    let input: syn::DeriveInput = syn::parse_str(source).expect("a type definition");
    let body = match input.data {
        syn::Data::Struct(data) => match data.fields {
            syn::Fields::Named(fields) => Body::Named(fields.named.len()),
            syn::Fields::Unnamed(_) => Body::Tuple,
            syn::Fields::Unit => Body::Unit,
        },
        _ => Body::NotAStruct,
    };
    (!input.generics.params.is_empty(), body)
}

#[test]
fn topology_errors_are_readable() {
    let (is_generic, body) = body_of("struct TupleTopology(Worker);");
    let error = check_shape(is_generic, body).expect_err("tuple structs have no labels");
    assert_eq!(error.site, Site::Fields);
    assert_eq!(
        error.message,
        "Topology can only be derived for structs with named fields"
    );

    let (is_generic, body) = body_of("struct BadTopology { worker: NotActor }");
    assert!(check_shape(is_generic, body).is_ok());
    let (is_generic, body) = body_of("struct Generic<T> { worker: T }");
    assert!(check_shape(is_generic, body).is_err());
    let (is_generic, body) = body_of("enum Shape { Tcp, Udp }");
    assert!(check_shape(is_generic, body).is_err());
}
