use tokio_otp::observability::{
    anonymous_graph_name, send_status_label, ActorExitStatus, Emission, FieldValue, Fields,
    GraphObservability, GraphRunStatus, GraphShutdownCause, IdSource, Level, MessageOperation,
    MetricAction, MetricUpdate, SendRejection,
};
use tokio_otp::time::TimeSpan;

fn millis(count: u32) -> TimeSpan {
    TimeSpan {
        secs: 0,
        nanos: count * 1_000_000,
    }
}

fn shown(fields: &Fields) -> String {
    let mut text = String::new();
    for field in &fields.entries {
        let value = match &field.value {
            FieldValue::Text(text) => format!("\"{text}\""),
            FieldValue::Count(count) => format!("{count}"),
            FieldValue::Seconds(span) => format!("{}.{:09}", span.secs, span.nanos),
        };
        text.push_str(&format!("\"{}\":{value},", field.name));
    }
    text
}

fn assert_output(emission: Emission, expected_fragments: &[&str]) {
    let output = format!("{} {}", emission.log.message, shown(&emission.log.fields));
    for expected in expected_fragments {
        assert!(
            output.contains(expected),
            "expected output to contain `{expected}`, got: {output}"
        );
    }
}

#[test]
fn anonymous_graph_names_are_unique() {
    let mut ids = IdSource::new();
    let first = anonymous_graph_name(&mut ids);
    let second = anonymous_graph_name(&mut ids);

    assert_ne!(first, second);
    assert!(first.starts_with("graph-"));
    assert!(second.starts_with("graph-"));
    assert_eq!(first, "graph-1");
    assert_eq!(second, "graph-2");
}

#[test]
fn actor_exit_running_count_saturates_at_zero() {
    let mut observability = GraphObservability::new("orders".to_owned());

    observability.emit_actor_exited("worker", ActorExitStatus::Cancelled, None);

    assert_eq!(observability.running_actors(), 0);
}

#[test]
fn running_count_follows_starts_and_exits() {
    let mut observability = GraphObservability::new("orders".to_owned());
    observability.emit_actor_started("a");
    observability.emit_actor_started("b");
    assert_eq!(observability.running_actors(), 2);
    let exited = observability.emit_actor_exited("a", ActorExitStatus::Shutdown, Some("quiet"));
    assert_eq!(observability.running_actors(), 1);
    assert_eq!(exited.log.level, Level::Debug);
    assert!(!shown(&exited.log.fields).contains("error"));
    assert_eq!(observability.graph_name(), "orders");
}

#[test]
fn tracing_output_covers_graph_actor_mailbox_and_message_events() {
    let mut observability = GraphObservability::new("orders".to_owned());
    let frontend = "frontend";
    let worker = "worker";

    assert_output(
        observability.emit_graph_started(2, 64),
        &[
            "graph started",
            r#""graph":"orders""#,
            r#""actor_count":2"#,
            r#""mailbox_capacity":64"#,
        ],
    );
    assert_output(
        observability.emit_shutdown_requested(GraphShutdownCause::ActorFailed),
        &[
            "graph shutdown requested",
            r#""graph":"orders""#,
            r#""cause":"actor_failed""#,
        ],
    );
    assert_output(
        observability.emit_actor_started(frontend),
        &[
            "actor started",
            r#""graph":"orders""#,
            r#""actor_id":"frontend""#,
        ],
    );
    assert_output(
        observability.emit_actor_exited(frontend, ActorExitStatus::Failed, Some("boom")),
        &[
            "actor exited",
            r#""actor_id":"frontend""#,
            r#""status":"failed""#,
            r#""error":"boom""#,
        ],
    );
    assert_output(
        observability.emit_mailbox_bound(frontend),
        &["actor mailbox bound", r#""actor_id":"frontend""#],
    );
    assert_output(
        observability.emit_mailbox_cleared(frontend),
        &["actor mailbox cleared", r#""actor_id":"frontend""#],
    );
    assert_output(
        observability.emit_actor_message(
            Some("frontend"),
            worker,
            MessageOperation::Send,
            millis(2),
            None,
        ),
        &[
            "message sent",
            r#""source_actor_id":"frontend""#,
            r#""actor_id":"worker""#,
        ],
    );
    assert_output(
        observability.emit_actor_message(
            Some("frontend"),
            worker,
            MessageOperation::TrySend,
            millis(1),
            Some(SendRejection::MailboxFull),
        ),
        &[
            "message rejected",
            r#""operation":"try_send""#,
            r#""reason":"mailbox_full""#,
        ],
    );
    assert_output(
        observability.emit_message_received(worker),
        &["message received", r#""actor_id":"worker""#],
    );
    assert_output(
        observability.emit_actor_message(None, frontend, MessageOperation::Send, millis(3), None),
        &["message sent", r#""actor_id":"frontend""#],
    );
    assert_output(
        observability.emit_actor_message(
            None,
            frontend,
            MessageOperation::Send,
            millis(1),
            Some(SendRejection::NotRunning),
        ),
        &["message rejected", r#""reason":"not_running""#],
    );
    assert_output(
        observability.emit_graph_stopped(
            millis(10),
            GraphRunStatus::Failed,
            Some("actor `worker` returned an error"),
        ),
        &[
            "graph stopped",
            r#""status":"failed""#,
            r#""graph":"orders""#,
        ],
    );
}

#[test]
fn tracing_output_covers_graph_and_actor_spans() {
    let observability = GraphObservability::new("orders".to_owned());

    let graph_span = observability.graph_span(2, 64);
    let actor_span = observability.actor_span("frontend");
    let output = format!(
        "\"name\":\"{}\",{}\"name\":\"{}\",{}",
        graph_span.name,
        shown(&graph_span.fields),
        actor_span.name,
        shown(&actor_span.fields)
    );

    for expected in [
        r#""name":"actor_graph""#,
        r#""graph":"orders""#,
        r#""actor_count":2"#,
        r#""name":"actor""#,
        r#""actor_id":"frontend""#,
    ] {
        assert!(
            output.contains(expected),
            "expected tracing output to contain `{expected}`, got: {output}"
        );
    }
}

fn matching<'a>(
    metrics: &'a [MetricUpdate],
    name: &str,
    labels: &[(&str, &str)],
) -> Vec<&'a MetricUpdate> {
    metrics
        .iter()
        .filter(|update| {
            update.name == name
                && labels.iter().all(|(key, value)| {
                    update
                        .labels
                        .iter()
                        .any(|label| label.name == *key && label.value == *value)
                })
        })
        .collect()
}

fn assert_counter(metrics: &[MetricUpdate], name: &str, labels: &[(&str, &str)], expected: usize) {
    let found = matching(metrics, name, labels);
    assert_eq!(found.len(), expected, "updates of `{name}`");
    assert!(found
        .iter()
        .all(|update| update.action == MetricAction::Increment));
}

fn assert_gauge(metrics: &[MetricUpdate], name: &str, labels: &[(&str, &str)], expected: usize) {
    let found = matching(metrics, name, labels);
    let last = found.last().expect("gauge was set");
    assert_eq!(last.action, MetricAction::SetTo(expected));
}

fn assert_histogram_len(
    metrics: &[MetricUpdate],
    name: &str,
    labels: &[(&str, &str)],
    expected: usize,
) {
    let found = matching(metrics, name, labels);
    assert_eq!(found.len(), expected, "records of `{name}`");
    assert!(found
        .iter()
        .all(|update| matches!(update.action, MetricAction::Record(_))));
}

#[test]
fn metrics_cover_run_actor_message_and_mailbox_series() {
    let mut observability = GraphObservability::new("orders".to_owned());
    let frontend = "frontend";
    let worker = "worker";
    let emissions = vec![
        observability.emit_graph_started(2, 64),
        observability.emit_actor_started(frontend),
        observability.emit_actor_message(
            Some("frontend"),
            worker,
            MessageOperation::Send,
            millis(2),
            None,
        ),
        observability.emit_actor_message(
            Some("frontend"),
            worker,
            MessageOperation::TrySend,
            millis(1),
            Some(SendRejection::MailboxFull),
        ),
        observability.emit_message_received(worker),
        observability.emit_mailbox_bound(frontend),
        observability.emit_actor_message(None, frontend, MessageOperation::Send, millis(3), None),
        observability.emit_actor_message(
            None,
            frontend,
            MessageOperation::Send,
            millis(1),
            Some(SendRejection::NotRunning),
        ),
        observability.emit_actor_exited(frontend, ActorExitStatus::Shutdown, None),
        observability.emit_mailbox_cleared(frontend),
        observability.emit_graph_stopped(millis(10), GraphRunStatus::Completed, None),
    ];
    let metrics: Vec<MetricUpdate> = emissions
        .into_iter()
        .flat_map(|emission| emission.metrics)
        .collect();

    assert_counter(&metrics, "actor_graph.runs.started", &[("graph", "orders")], 1);
    assert_counter(
        &metrics,
        "actor_graph.runs.stopped",
        &[("graph", "orders"), ("status", "ok")],
        1,
    );
    assert_counter(
        &metrics,
        "actor_graph.actors.started",
        &[("graph", "orders"), ("actor_id", "frontend")],
        1,
    );
    assert_counter(
        &metrics,
        "actor_graph.actors.exited",
        &[
            ("graph", "orders"),
            ("actor_id", "frontend"),
            ("status", "shutdown"),
        ],
        1,
    );
    assert_counter(
        &metrics,
        "actor_graph.messages.sent",
        &[
            ("graph", "orders"),
            ("actor_id", "worker"),
            ("operation", "send"),
        ],
        1,
    );
    assert_counter(
        &metrics,
        "actor_graph.messages.rejected",
        &[
            ("graph", "orders"),
            ("actor_id", "worker"),
            ("operation", "try_send"),
            ("reason", "mailbox_full"),
        ],
        1,
    );
    assert_counter(
        &metrics,
        "actor_graph.messages.received",
        &[("graph", "orders"), ("actor_id", "worker")],
        1,
    );
    assert_counter(
        &metrics,
        "actor_graph.messages.sent",
        &[
            ("graph", "orders"),
            ("actor_id", "frontend"),
            ("operation", "send"),
        ],
        1,
    );
    assert_counter(
        &metrics,
        "actor_graph.messages.rejected",
        &[
            ("graph", "orders"),
            ("actor_id", "frontend"),
            ("operation", "send"),
            ("reason", "not_running"),
        ],
        1,
    );
    assert_gauge(&metrics, "actor_graph.actors.running", &[("graph", "orders")], 0);
    assert_gauge(
        &metrics,
        "actor_graph.mailbox.bound",
        &[("graph", "orders"), ("actor_id", "frontend")],
        0,
    );
    assert_histogram_len(
        &metrics,
        "actor_graph.run.duration",
        &[("graph", "orders"), ("status", "ok")],
        1,
    );
    assert_histogram_len(
        &metrics,
        "actor_graph.send.duration",
        &[
            ("graph", "orders"),
            ("source", "actor"),
            ("actor_id", "worker"),
            ("operation", "send"),
            ("status", "ok"),
        ],
        1,
    );
    assert_histogram_len(
        &metrics,
        "actor_graph.send.duration",
        &[
            ("graph", "orders"),
            ("source", "external"),
            ("actor_id", "frontend"),
            ("operation", "send"),
            ("status", "ok"),
        ],
        1,
    );
}

#[test]
fn metrics_running_actor_gauge_saturates_at_zero() {
    let mut observability = GraphObservability::new("orders".to_owned());
    let emission = observability.emit_actor_exited("worker", ActorExitStatus::Cancelled, None);

    assert_gauge(
        &emission.metrics,
        "actor_graph.actors.running",
        &[("graph", "orders")],
        0,
    );
}

#[test]
fn levels_and_error_fields_follow_the_outcome() {
    let mut observability = GraphObservability::new("orders".to_owned());
    let ok = observability.emit_graph_stopped(millis(1), GraphRunStatus::Completed, Some("x"));
    assert_eq!(ok.log.level, Level::Info);
    assert!(!shown(&ok.log.fields).contains("error"));
    let failed = observability.emit_graph_stopped(millis(1), GraphRunStatus::Failed, Some("x"));
    assert_eq!(failed.log.level, Level::Warn);
    assert!(shown(&failed.log.fields).contains(r#""error":"x""#));
    assert!(shown(&failed.log.fields).contains(r#""duration_secs":0.001000000"#));
    let exited = observability.emit_actor_exited("a", ActorExitStatus::Stopped, None);
    assert_eq!(exited.log.level, Level::Warn);
    let detached =
        observability.emit_task_detached("a", "7", Some("import"), TimeSpan::from_secs(5));
    assert_eq!(detached.log.level, Level::Warn);
    assert_eq!(
        detached.log.message,
        "blocking task did not stop before shutdown timeout; detaching task"
    );
    assert!(shown(&detached.log.fields).contains(r#""task_id":"7","task_name":"import""#));
    assert!(detached.metrics.is_empty());
}

#[test]
fn labels_are_snake_case() {
    assert_eq!(GraphRunStatus::Completed.as_str(), "ok");
    assert_eq!(GraphRunStatus::Failed.as_str(), "failed");
    assert_eq!(GraphShutdownCause::External.as_str(), "external");
    assert_eq!(GraphShutdownCause::ActorStopped.as_str(), "actor_stopped");
    assert_eq!(GraphShutdownCause::ActorPanicked.as_str(), "actor_panicked");
    assert_eq!(GraphShutdownCause::ActorCancelled.as_str(), "actor_cancelled");
    assert_eq!(ActorExitStatus::Panicked.as_str(), "panicked");
    assert_eq!(ActorExitStatus::Cancelled.as_str(), "cancelled");
    assert_eq!(ActorExitStatus::Stopped.as_str(), "stopped");
    assert_eq!(SendRejection::MailboxClosed.as_str(), "mailbox_closed");
    assert_eq!(SendRejection::ActorTerminated.as_str(), "actor_terminated");
    assert_eq!(send_status_label(None), "ok");
    assert_eq!(
        send_status_label(Some(SendRejection::MailboxFull)),
        "rejected"
    );
}
