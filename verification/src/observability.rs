//! What the runtime reports: structured log records, spans and metric updates.
//!
//! Nothing is written from here. Each `emit_*` method returns the record and
//! the metric updates of one event, for a subscriber and a recorder to take.
use vstd::prelude::*;
use crate::text::{decimal_text, joined};
use crate::time::TimeSpan;

verus! {

// ---------------------------------------------------------------------------
// Names of unnamed graphs
// ---------------------------------------------------------------------------

/// A source of process-wide ids, counting up from one.
#[derive(Debug)]
pub struct IdSource {
    next: u64,
}

impl View for IdSource {
    type V = u64;

    closed spec fn view(&self) -> u64 {
        self.next
    }
}

impl IdSource {
    /// A source whose first id is one.
    pub fn new() -> (ids: IdSource)
        ensures
            ids@ == 1,
    {
        IdSource { next: 1 }
    }

    /// Hands out the next id. Past the last `u64` the ids start over at zero.
    pub fn next_id(&mut self) -> (id: u64)
        ensures
            id == old(self)@,
            final(self)@ == old(self)@.wrapping_add(1),
    {
        let id: u64 = self.next;
        self.next = id.wrapping_add(1);
        id
    }
}

/// The name given to the graph that drew `id`.
pub open spec fn anonymous_name(id: u64) -> Seq<char> {
    "graph-"@ + crate::text::decimal(id as nat)
}

/// Names a graph that was given no name of its own.
pub fn anonymous_graph_name(ids: &mut IdSource) -> (name: String)
    ensures
        name@ == anonymous_name(old(ids)@),
        final(ids)@ == old(ids)@.wrapping_add(1),
{
    let id: u64 = ids.next_id();
    let digits = decimal_text(id as u128);
    joined("graph-", digits.as_str())
}

/// Graphs that drew different ids have different anonymous names.
pub proof fn anonymous_names_are_unique(a: u64, b: u64)
    requires
        a != b,
    ensures
        anonymous_name(a) != anonymous_name(b),
{
    if anonymous_name(a) == anonymous_name(b) {
        let prefix = "graph-"@;
        let n = prefix.len() as int;
        assert(anonymous_name(a).skip(n) =~= crate::text::decimal(a as nat));
        assert(anonymous_name(b).skip(n) =~= crate::text::decimal(b as nat));
        crate::text::decimal_is_injective(a as nat, b as nat);
    }
}

/// Every anonymous name starts with `graph-`.
pub proof fn anonymous_names_share_a_prefix(id: u64)
    ensures
        "graph-"@.is_prefix_of(anonymous_name(id)),
{
    let prefix = "graph-"@;
    assert(anonymous_name(id).take(prefix.len() as int) =~= prefix);
}

// ---------------------------------------------------------------------------
// Labels
// ---------------------------------------------------------------------------

/// How a graph run ended.
#[derive(Debug, Clone, Copy, PartialEq, Eq, Structural)]
pub enum GraphRunStatus {
    Completed,
    Failed,
}

impl GraphRunStatus {
    /// The label of this status.
    pub open spec fn label(self) -> Seq<char> {
        match self {
            GraphRunStatus::Completed => "ok"@,
            GraphRunStatus::Failed => "failed"@,
        }
    }

    /// Returns the label of this status.
    pub fn as_str(self) -> (label: &'static str)
        ensures
            label@ == self.label(),
    {
        match self {
            GraphRunStatus::Completed => "ok",
            GraphRunStatus::Failed => "failed",
        }
    }
}

/// Why a graph was asked to shut down.
#[derive(Debug, Clone, Copy, PartialEq, Eq, Structural)]
pub enum GraphShutdownCause {
    External,
    ActorStopped,
    ActorFailed,
    ActorPanicked,
    ActorCancelled,
}

impl GraphShutdownCause {
    /// The label of this cause.
    pub open spec fn label(self) -> Seq<char> {
        match self {
            GraphShutdownCause::External => "external"@,
            GraphShutdownCause::ActorStopped => "actor_stopped"@,
            GraphShutdownCause::ActorFailed => "actor_failed"@,
            GraphShutdownCause::ActorPanicked => "actor_panicked"@,
            GraphShutdownCause::ActorCancelled => "actor_cancelled"@,
        }
    }

    /// Returns the label of this cause.
    pub fn as_str(self) -> (label: &'static str)
        ensures
            label@ == self.label(),
    {
        match self {
            GraphShutdownCause::External => "external",
            GraphShutdownCause::ActorStopped => "actor_stopped",
            GraphShutdownCause::ActorFailed => "actor_failed",
            GraphShutdownCause::ActorPanicked => "actor_panicked",
            GraphShutdownCause::ActorCancelled => "actor_cancelled",
        }
    }
}

/// How an actor run ended.
#[derive(Debug, Clone, Copy, PartialEq, Eq, Structural)]
pub enum ActorExitStatus {
    Shutdown,
    Stopped,
    Failed,
    Panicked,
    Cancelled,
}

impl ActorExitStatus {
    /// The label of this status.
    pub open spec fn label(self) -> Seq<char> {
        match self {
            ActorExitStatus::Shutdown => "shutdown"@,
            ActorExitStatus::Stopped => "stopped"@,
            ActorExitStatus::Failed => "failed"@,
            ActorExitStatus::Panicked => "panicked"@,
            ActorExitStatus::Cancelled => "cancelled"@,
        }
    }

    /// Returns the label of this status.
    pub fn as_str(self) -> (label: &'static str)
        ensures
            label@ == self.label(),
    {
        match self {
            ActorExitStatus::Shutdown => "shutdown",
            ActorExitStatus::Stopped => "stopped",
            ActorExitStatus::Failed => "failed",
            ActorExitStatus::Panicked => "panicked",
            ActorExitStatus::Cancelled => "cancelled",
        }
    }
}

/// Which kind of send put a message into a mailbox.
#[derive(Debug, Clone, Copy, PartialEq, Eq, Structural)]
pub enum MessageOperation {
    Send,
    TrySend,
}

impl MessageOperation {
    /// The label of this operation.
    pub open spec fn label(self) -> Seq<char> {
        match self {
            MessageOperation::Send => "send"@,
            MessageOperation::TrySend => "try_send"@,
        }
    }

    /// Returns the label of this operation.
    pub fn as_str(self) -> (label: &'static str)
        ensures
            label@ == self.label(),
    {
        match self {
            MessageOperation::Send => "send",
            MessageOperation::TrySend => "try_send",
        }
    }
}

/// Why a message was not accepted.
#[derive(Debug, Clone, Copy, PartialEq, Eq, Structural)]
pub enum SendRejection {
    MailboxFull,
    MailboxClosed,
    NotRunning,
    ActorTerminated,
}

impl SendRejection {
    /// The label of this reason.
    pub open spec fn label(self) -> Seq<char> {
        match self {
            SendRejection::MailboxFull => "mailbox_full"@,
            SendRejection::MailboxClosed => "mailbox_closed"@,
            SendRejection::NotRunning => "not_running"@,
            SendRejection::ActorTerminated => "actor_terminated"@,
        }
    }

    /// Returns the label of this reason.
    pub fn as_str(self) -> (label: &'static str)
        ensures
            label@ == self.label(),
    {
        match self {
            SendRejection::MailboxFull => "mailbox_full",
            SendRejection::MailboxClosed => "mailbox_closed",
            SendRejection::NotRunning => "not_running",
            SendRejection::ActorTerminated => "actor_terminated",
        }
    }
}

/// The `status` label of a send that was rejected for `rejection`, or accepted.
pub open spec fn send_status(rejection: Option<SendRejection>) -> Seq<char> {
    match rejection {
        Some(_) => "rejected"@,
        None => "ok"@,
    }
}

/// Returns the `status` label of a send.
pub fn send_status_label(rejection: Option<SendRejection>) -> (label: &'static str)
    ensures
        label@ == send_status(rejection),
{
    match rejection {
        Some(_) => "rejected",
        None => "ok",
    }
}

// ---------------------------------------------------------------------------
// Records
// ---------------------------------------------------------------------------

/// Severity of a log record.
#[derive(Debug, Clone, Copy, PartialEq, Eq, Structural)]
pub enum Level {
    Trace,
    Debug,
    Info,
    Warn,
}

/// Value of a record's field.
#[derive(Debug, Clone, PartialEq, Eq)]
pub enum FieldValue {
    Text(String),
    Count(usize),
    Seconds(TimeSpan),
}

/// What a [`FieldValue`] says.
#[verifier::ext_equal]
pub enum FieldValueView {
    Text(Seq<char>),
    Count(int),
    Seconds(TimeSpan),
}

impl View for FieldValue {
    type V = FieldValueView;

    open spec fn view(&self) -> FieldValueView {
        match *self {
            FieldValue::Text(text) => FieldValueView::Text(text@),
            FieldValue::Count(count) => FieldValueView::Count(count as int),
            FieldValue::Seconds(span) => FieldValueView::Seconds(span),
        }
    }
}

/// A named field of a record.
#[derive(Debug, Clone, PartialEq, Eq)]
pub struct Field {
    pub name: &'static str,
    pub value: FieldValue,
}

/// The names and values of a record's fields, in order.
pub type FieldsView = Seq<(Seq<char>, FieldValueView)>;

/// A text field, as a contract writes it.
pub open spec fn text_field(name: Seq<char>, value: Seq<char>) -> (Seq<char>, FieldValueView) {
    (name, FieldValueView::Text(value))
}

/// A counting field, as a contract writes it.
pub open spec fn count_field(name: Seq<char>, value: int) -> (Seq<char>, FieldValueView) {
    (name, FieldValueView::Count(value))
}

/// A field that holds a length of time, as a contract writes it.
pub open spec fn span_field(name: Seq<char>, value: TimeSpan) -> (Seq<char>, FieldValueView) {
    (name, FieldValueView::Seconds(value))
}

/// The fields of a record, in order.
#[derive(Debug, Clone, PartialEq, Eq)]
pub struct Fields {
    pub entries: Vec<Field>,
}

impl View for Fields {
    type V = FieldsView;

    open spec fn view(&self) -> FieldsView {
        self.entries@.map_values(|field: Field| (field.name@, field.value@))
    }
}

impl Fields {
    fn new() -> (fields: Fields)
        ensures
            fields@ == Seq::<(Seq<char>, FieldValueView)>::empty(),
    {
        let fields = Fields { entries: Vec::new() };
        assert(fields@ =~= Seq::empty());
        fields
    }

    fn push(&mut self, name: &'static str, value: FieldValue)
        ensures
            final(self)@ == old(self)@.push((name@, value@)),
    {
        self.entries.push(Field { name, value });
        assert(self@ =~= old(self)@.push((name@, value@)));
    }

    fn text(&mut self, name: &'static str, value: &str)
        ensures
            final(self)@ == old(self)@.push(text_field(name@, value@)),
    {
        self.push(name, FieldValue::Text(value.to_owned()));
    }

    fn count(&mut self, name: &'static str, value: usize)
        ensures
            final(self)@ == old(self)@.push(count_field(name@, value as int)),
    {
        self.push(name, FieldValue::Count(value));
    }

    fn span(&mut self, name: &'static str, value: TimeSpan)
        ensures
            final(self)@ == old(self)@.push(span_field(name@, value)),
    {
        self.push(name, FieldValue::Seconds(value));
    }
}

/// One structured log record.
#[derive(Debug, Clone, PartialEq, Eq)]
pub struct LogRecord {
    pub level: Level,
    pub message: &'static str,
    pub fields: Fields,
}

/// What a [`LogRecord`] says.
#[verifier::ext_equal]
pub struct LogView {
    pub level: Level,
    pub message: Seq<char>,
    pub fields: FieldsView,
}

impl View for LogRecord {
    type V = LogView;

    open spec fn view(&self) -> LogView {
        LogView { level: self.level, message: self.message@, fields: self.fields@ }
    }
}

/// A span around a graph or an actor run.
#[derive(Debug, Clone, PartialEq, Eq)]
pub struct SpanRecord {
    pub name: &'static str,
    pub fields: Fields,
}

/// What a metric update does to its series.
#[derive(Debug, Clone, Copy, PartialEq, Eq, Structural)]
pub enum MetricAction {
    /// Adds one to a counter.
    Increment,
    /// Sets a gauge.
    SetTo(usize),
    /// Records a duration in a histogram.
    Record(TimeSpan),
}

/// One label of a metric series.
#[derive(Debug, Clone, PartialEq, Eq)]
pub struct Label {
    pub name: &'static str,
    pub value: String,
}

/// One update of one metric series.
#[derive(Debug, Clone, PartialEq, Eq)]
pub struct MetricUpdate {
    pub name: &'static str,
    pub labels: Vec<Label>,
    pub action: MetricAction,
}

/// What a [`MetricUpdate`] says.
#[verifier::ext_equal]
pub struct MetricView {
    pub name: Seq<char>,
    pub labels: Seq<(Seq<char>, Seq<char>)>,
    pub action: MetricAction,
}

impl View for MetricUpdate {
    type V = MetricView;

    open spec fn view(&self) -> MetricView {
        MetricView {
            name: self.name@,
            labels: self.labels@.map_values(|label: Label| (label.name@, label.value@)),
            action: self.action,
        }
    }
}

impl MetricUpdate {
    fn new(name: &'static str, action: MetricAction) -> (update: MetricUpdate)
        ensures
            update@ == (MetricView { name: name@, labels: Seq::empty(), action }),
    {
        let update = MetricUpdate { name, labels: Vec::new(), action };
        assert(update@.labels =~= Seq::empty());
        update
    }

    fn label(&mut self, name: &'static str, value: &str)
        ensures
            final(self)@ == (MetricView {
                labels: old(self)@.labels.push((name@, value@)),
                ..old(self)@
            }),
    {
        self.labels.push(Label { name, value: value.to_owned() });
        assert(self@.labels =~= old(self)@.labels.push((name@, value@)));
    }
}

/// The record and the metric updates of one event.
#[derive(Debug, Clone, PartialEq, Eq)]
pub struct Emission {
    pub log: LogRecord,
    pub metrics: Vec<MetricUpdate>,
}

/// What an [`Emission`] says.
#[verifier::ext_equal]
pub struct EmissionView {
    pub log: LogView,
    pub metrics: Seq<MetricView>,
}

impl View for Emission {
    type V = EmissionView;

    open spec fn view(&self) -> EmissionView {
        EmissionView {
            log: self.log@,
            metrics: self.metrics@.map_values(|update: MetricUpdate| update@),
        }
    }
}

impl Emission {
    fn new(level: Level, message: &'static str, fields: Fields) -> (emission: Emission)
        ensures
            emission@ == (EmissionView {
                log: LogView { level, message: message@, fields: fields@ },
                metrics: Seq::empty(),
            }),
    {
        let emission = Emission {
            log: LogRecord { level, message, fields },
            metrics: Vec::new(),
        };
        assert(emission@.metrics =~= Seq::empty());
        emission
    }

    fn metric(&mut self, update: MetricUpdate)
        ensures
            final(self)@ == (EmissionView {
                metrics: old(self)@.metrics.push(update@),
                ..old(self)@
            }),
    {
        self.metrics.push(update);
        assert(self@.metrics =~= old(self)@.metrics.push(update@));
    }
}

// ---------------------------------------------------------------------------
// Events of one graph
// ---------------------------------------------------------------------------

/// Reports the events of one graph under its name, and counts the actors that
/// are running in it.
#[derive(Debug)]
pub struct GraphObservability {
    graph_name: String,
    running_actors: usize,
}

/// What a [`GraphObservability`] knows.
pub struct GraphObservabilityView {
    pub graph_name: Seq<char>,
    pub running_actors: int,
}

impl View for GraphObservability {
    type V = GraphObservabilityView;

    closed spec fn view(&self) -> GraphObservabilityView {
        GraphObservabilityView {
            graph_name: self.graph_name@,
            running_actors: self.running_actors as int,
        }
    }
}

/// `base`, followed by a text field where there is a value for it.
pub open spec fn with_optional_text(
    base: FieldsView,
    name: Seq<char>,
    value: Option<Seq<char>>,
) -> FieldsView {
    match value {
        Some(value) => base.push(text_field(name, value)),
        None => base,
    }
}

/// The characters of an optional string slice.
pub open spec fn optional_chars(value: Option<&str>) -> Option<Seq<char>> {
    match value {
        Some(value) => Some(value@),
        None => None,
    }
}

/// The report of a graph run that ended after `duration`.
pub open spec fn graph_stopped(
    graph: Seq<char>,
    duration: TimeSpan,
    status: GraphRunStatus,
    error: Option<Seq<char>>,
) -> EmissionView {
    let labels = seq![("graph"@, graph), ("status"@, status.label())];
    let identity = seq![text_field("graph"@, graph), text_field("status"@, status.label())];
    let shown = if status == GraphRunStatus::Completed {
        None
    } else {
        error
    };
    EmissionView {
        log: LogView {
            level: if status == GraphRunStatus::Completed {
                Level::Info
            } else {
                Level::Warn
            },
            message: "graph stopped"@,
            fields: with_optional_text(identity, "error"@, shown).push(
                span_field("duration_secs"@, duration),
            ),
        },
        metrics: seq![
            MetricView {
                name: "actor_graph.runs.stopped"@,
                labels,
                action: MetricAction::Increment,
            },
            MetricView {
                name: "actor_graph.run.duration"@,
                labels,
                action: MetricAction::Record(duration),
            },
        ],
    }
}

/// The report of an actor that exited and left `running` actors behind.
pub open spec fn actor_exited(
    graph: Seq<char>,
    actor_id: Seq<char>,
    status: ActorExitStatus,
    error: Option<Seq<char>>,
    running: usize,
) -> EmissionView {
    let identity = seq![
        text_field("graph"@, graph),
        text_field("actor_id"@, actor_id),
        text_field("status"@, status.label()),
    ];
    let shown = if status == ActorExitStatus::Shutdown {
        None
    } else {
        error
    };
    EmissionView {
        log: LogView {
            level: if status == ActorExitStatus::Shutdown {
                Level::Debug
            } else {
                Level::Warn
            },
            message: "actor exited"@,
            fields: with_optional_text(identity, "error"@, shown).push(
                count_field("running_actors"@, running as int),
            ),
        },
        metrics: seq![
            MetricView {
                name: "actor_graph.actors.exited"@,
                labels: seq![
                    ("graph"@, graph),
                    ("actor_id"@, actor_id),
                    ("status"@, status.label()),
                ],
                action: MetricAction::Increment,
            },
            MetricView {
                name: "actor_graph.actors.running"@,
                labels: seq![("graph"@, graph)],
                action: MetricAction::SetTo(running),
            },
        ],
    }
}

/// The report that an actor's mailbox was bound.
pub open spec fn mailbox_bound(graph: Seq<char>, actor_id: Seq<char>) -> EmissionView {
    EmissionView {
        log: LogView {
            level: Level::Info,
            message: "actor mailbox bound"@,
            fields: seq![text_field("graph"@, graph), text_field("actor_id"@, actor_id)],
        },
        metrics: seq![
            MetricView {
                name: "actor_graph.mailbox.bound"@,
                labels: seq![("graph"@, graph), ("actor_id"@, actor_id)],
                action: MetricAction::SetTo(1),
            },
        ],
    }
}

/// The report that an actor's mailbox binding was cleared.
pub open spec fn mailbox_cleared(graph: Seq<char>, actor_id: Seq<char>) -> EmissionView {
    EmissionView {
        log: LogView {
            level: Level::Debug,
            message: "actor mailbox cleared"@,
            fields: seq![text_field("graph"@, graph), text_field("actor_id"@, actor_id)],
        },
        metrics: seq![
            MetricView {
                name: "actor_graph.mailbox.bound"@,
                labels: seq![("graph"@, graph), ("actor_id"@, actor_id)],
                action: MetricAction::SetTo(0),
            },
        ],
    }
}

/// The report that an actor took a message out of its mailbox.
pub open spec fn message_received(graph: Seq<char>, actor_id: Seq<char>) -> EmissionView {
    EmissionView {
        log: LogView {
            level: Level::Trace,
            message: "message received"@,
            fields: seq![text_field("graph"@, graph), text_field("actor_id"@, actor_id)],
        },
        metrics: seq![
            MetricView {
                name: "actor_graph.messages.received"@,
                labels: seq![("graph"@, graph), ("actor_id"@, actor_id)],
                action: MetricAction::Increment,
            },
        ],
    }
}

/// The report of a message that was accepted, or rejected for `rejection`.
pub open spec fn actor_message(
    graph: Seq<char>,
    source: Option<Seq<char>>,
    target: Seq<char>,
    operation: MessageOperation,
    duration: TimeSpan,
    rejection: Option<SendRejection>,
) -> EmissionView {
    let base = with_optional_text(
        seq![text_field("graph"@, graph)],
        "source_actor_id"@,
        source,
    );
    let named = base.push(text_field("actor_id"@, target)).push(
        text_field("operation"@, operation.label()),
    );
    let reason = match rejection {
        Some(rejection) => Some(rejection.label()),
        None => None,
    };
    let addressed = seq![
        ("graph"@, graph),
        ("actor_id"@, target),
        ("operation"@, operation.label()),
    ];
    EmissionView {
        log: LogView {
            level: Level::Trace,
            message: match rejection {
                Some(_) => "message rejected"@,
                None => "message sent"@,
            },
            fields: with_optional_text(named, "reason"@, reason).push(
                span_field("duration_secs"@, duration),
            ),
        },
        metrics: seq![
            match rejection {
                Some(rejection) => MetricView {
                    name: "actor_graph.messages.rejected"@,
                    labels: addressed.push(("reason"@, rejection.label())),
                    action: MetricAction::Increment,
                },
                None => MetricView {
                    name: "actor_graph.messages.sent"@,
                    labels: addressed,
                    action: MetricAction::Increment,
                },
            },
            MetricView {
                name: "actor_graph.send.duration"@,
                labels: seq![
                    ("graph"@, graph),
                    (
                        "source"@,
                        match source {
                            Some(_) => "actor"@,
                            None => "external"@,
                        },
                    ),
                    ("actor_id"@, target),
                    ("operation"@, operation.label()),
                    ("status"@, send_status(rejection)),
                ],
                action: MetricAction::Record(duration),
            },
        ],
    }
}

/// The report of a blocking task that outlasted shutdown.
pub open spec fn task_detached(
    graph: Seq<char>,
    actor_id: Seq<char>,
    task_id: Seq<char>,
    task_name: Option<Seq<char>>,
    shutdown_timeout: TimeSpan,
) -> EmissionView {
    let identity = seq![
        text_field("graph"@, graph),
        text_field("actor_id"@, actor_id),
        text_field("task_id"@, task_id),
    ];
    EmissionView {
        log: LogView {
            level: Level::Warn,
            message: "blocking task did not stop before shutdown timeout; detaching task"@,
            fields: with_optional_text(identity, "task_name"@, task_name).push(
                span_field("shutdown_timeout_secs"@, shutdown_timeout),
            ),
        },
        metrics: Seq::empty(),
    }
}

/// What the runtime counts as running after one actor more exited.
pub open spec fn one_less(running: int) -> int {
    if running == 0 {
        0
    } else {
        running - 1
    }
}

impl GraphObservability {
    /// Reports for the graph of the given name, with no actor running yet.
    pub fn new(graph_name: String) -> (observability: GraphObservability)
        ensures
            observability@ == (GraphObservabilityView {
                graph_name: graph_name@,
                running_actors: 0,
            }),
    {
        GraphObservability { graph_name, running_actors: 0 }
    }

    /// Returns the name of the graph.
    pub fn graph_name(&self) -> (name: &str)
        ensures
            name@ == self@.graph_name,
    {
        self.graph_name.as_str()
    }

    /// Returns how many actors are running.
    pub fn running_actors(&self) -> (running: usize)
        ensures
            running == self@.running_actors,
    {
        self.running_actors
    }

    /// The span around a whole graph run.
    pub fn graph_span(&self, actor_count: usize, mailbox_capacity: usize) -> (span: SpanRecord)
        ensures
            span.name@ == "actor_graph"@,
            span.fields@ == seq![
                text_field("graph"@, self@.graph_name),
                count_field("actor_count"@, actor_count as int),
                count_field("mailbox_capacity"@, mailbox_capacity as int),
            ],
    {
        let mut fields = Fields::new();
        fields.text("graph", self.graph_name.as_str());
        fields.count("actor_count", actor_count);
        fields.count("mailbox_capacity", mailbox_capacity);
        SpanRecord { name: "actor_graph", fields }
    }

    /// The span around one actor's run.
    pub fn actor_span(&self, actor_id: &str) -> (span: SpanRecord)
        ensures
            span.name@ == "actor"@,
            span.fields@ == seq![
                text_field("graph"@, self@.graph_name),
                text_field("actor_id"@, actor_id@),
            ],
    {
        let mut fields = Fields::new();
        fields.text("graph", self.graph_name.as_str());
        fields.text("actor_id", actor_id);
        SpanRecord { name: "actor", fields }
    }

    /// Reports that a graph run started.
    pub fn emit_graph_started(&self, actor_count: usize, mailbox_capacity: usize) -> (emission:
        Emission)
        ensures
            emission@ =~~= (EmissionView {
                log: LogView {
                    level: Level::Info,
                    message: "graph started"@,
                    fields: seq![
                        text_field("graph"@, self@.graph_name),
                        count_field("actor_count"@, actor_count as int),
                        count_field("mailbox_capacity"@, mailbox_capacity as int),
                    ],
                },
                metrics: seq![
                    MetricView {
                        name: "actor_graph.runs.started"@,
                        labels: seq![("graph"@, self@.graph_name)],
                        action: MetricAction::Increment,
                    },
                ],
            }),
    {
        let mut fields = Fields::new();
        fields.text("graph", self.graph_name.as_str());
        fields.count("actor_count", actor_count);
        fields.count("mailbox_capacity", mailbox_capacity);
        let mut emission = Emission::new(Level::Info, "graph started", fields);
        let mut started = MetricUpdate::new("actor_graph.runs.started", MetricAction::Increment);
        started.label("graph", self.graph_name.as_str());
        emission.metric(started);
        emission
    }

    /// Reports that a graph run ended.
    pub fn emit_graph_stopped(
        &self,
        duration: TimeSpan,
        status: GraphRunStatus,
        error: Option<&str>,
    ) -> (emission: Emission)
        ensures
            emission@ =~~= graph_stopped(self@.graph_name, duration, status, optional_chars(error)),
    {
        let mut fields = Fields::new();
        fields.text("graph", self.graph_name.as_str());
        fields.text("status", status.as_str());
        let level = if status == GraphRunStatus::Completed {
            Level::Info
        } else {
            if let Some(error) = error {
                fields.text("error", error);
            }
            Level::Warn
        };
        fields.span("duration_secs", duration);
        let mut emission = Emission::new(level, "graph stopped", fields);
        let mut stopped = MetricUpdate::new("actor_graph.runs.stopped", MetricAction::Increment);
        stopped.label("graph", self.graph_name.as_str());
        stopped.label("status", status.as_str());
        emission.metric(stopped);
        let mut timing = MetricUpdate::new(
            "actor_graph.run.duration",
            MetricAction::Record(duration),
        );
        timing.label("graph", self.graph_name.as_str());
        timing.label("status", status.as_str());
        emission.metric(timing);
        emission
    }

    /// Reports that the graph was asked to shut down.
    pub fn emit_shutdown_requested(&self, cause: GraphShutdownCause) -> (emission: Emission)
        ensures
            emission@ =~~= (EmissionView {
                log: LogView {
                    level: Level::Debug,
                    message: "graph shutdown requested"@,
                    fields: seq![
                        text_field("graph"@, self@.graph_name),
                        text_field("cause"@, cause.label()),
                    ],
                },
                metrics: Seq::empty(),
            }),
    {
        let mut fields = Fields::new();
        fields.text("graph", self.graph_name.as_str());
        fields.text("cause", cause.as_str());
        Emission::new(Level::Debug, "graph shutdown requested", fields)
    }

    /// Counts one actor more as running, and reports its start.
    pub fn emit_actor_started(&mut self, actor_id: &str) -> (emission: Emission)
        requires
            old(self)@.running_actors < usize::MAX,
        ensures
            final(self)@ == (GraphObservabilityView {
                running_actors: old(self)@.running_actors + 1,
                ..old(self)@
            }),
            emission@ =~~= (EmissionView {
                log: LogView {
                    level: Level::Info,
                    message: "actor started"@,
                    fields: seq![
                        text_field("graph"@, old(self)@.graph_name),
                        text_field("actor_id"@, actor_id@),
                        count_field("running_actors"@, old(self)@.running_actors + 1),
                    ],
                },
                metrics: seq![
                    MetricView {
                        name: "actor_graph.actors.started"@,
                        labels: seq![
                            ("graph"@, old(self)@.graph_name),
                            ("actor_id"@, actor_id@),
                        ],
                        action: MetricAction::Increment,
                    },
                    MetricView {
                        name: "actor_graph.actors.running"@,
                        labels: seq![("graph"@, old(self)@.graph_name)],
                        action: MetricAction::SetTo((old(self)@.running_actors + 1) as usize),
                    },
                ],
            }),
    {
        let running: usize = self.running_actors + 1;
        self.running_actors = running;
        let mut fields = Fields::new();
        fields.text("graph", self.graph_name.as_str());
        fields.text("actor_id", actor_id);
        fields.count("running_actors", running);
        let mut emission = Emission::new(Level::Info, "actor started", fields);
        let mut started = MetricUpdate::new("actor_graph.actors.started", MetricAction::Increment);
        started.label("graph", self.graph_name.as_str());
        started.label("actor_id", actor_id);
        emission.metric(started);
        let mut gauge = MetricUpdate::new(
            "actor_graph.actors.running",
            MetricAction::SetTo(running),
        );
        gauge.label("graph", self.graph_name.as_str());
        emission.metric(gauge);
        emission
    }

    /// Counts one actor less as running, never below zero, and reports how it
    /// exited. A clean shutdown is reported quietly and without an error.
    pub fn emit_actor_exited(
        &mut self,
        actor_id: &str,
        status: ActorExitStatus,
        error: Option<&str>,
    ) -> (emission: Emission)
        ensures
            final(self)@ == (GraphObservabilityView {
                running_actors: one_less(old(self)@.running_actors),
                ..old(self)@
            }),
            emission@ =~~= actor_exited(
                old(self)@.graph_name,
                actor_id@,
                status,
                optional_chars(error),
                one_less(old(self)@.running_actors) as usize,
            ),
    {
        let running: usize = if self.running_actors == 0 {
            0
        } else {
            self.running_actors - 1
        };
        self.running_actors = running;
        let mut fields = Fields::new();
        fields.text("graph", self.graph_name.as_str());
        fields.text("actor_id", actor_id);
        fields.text("status", status.as_str());
        let level = if status == ActorExitStatus::Shutdown {
            Level::Debug
        } else {
            if let Some(error) = error {
                fields.text("error", error);
            }
            Level::Warn
        };
        fields.count("running_actors", running);
        let mut emission = Emission::new(level, "actor exited", fields);
        let mut exited = MetricUpdate::new("actor_graph.actors.exited", MetricAction::Increment);
        exited.label("graph", self.graph_name.as_str());
        exited.label("actor_id", actor_id);
        exited.label("status", status.as_str());
        emission.metric(exited);
        let mut gauge = MetricUpdate::new(
            "actor_graph.actors.running",
            MetricAction::SetTo(running),
        );
        gauge.label("graph", self.graph_name.as_str());
        emission.metric(gauge);
        emission
    }

    /// Reports that an actor's mailbox was bound.
    pub fn emit_mailbox_bound(&self, actor_id: &str) -> (emission: Emission)
        ensures
            emission@ =~~= mailbox_bound(self@.graph_name, actor_id@),
    {
        let mut fields = Fields::new();
        fields.text("graph", self.graph_name.as_str());
        fields.text("actor_id", actor_id);
        let mut emission = Emission::new(Level::Info, "actor mailbox bound", fields);
        let mut gauge = MetricUpdate::new("actor_graph.mailbox.bound", MetricAction::SetTo(1));
        gauge.label("graph", self.graph_name.as_str());
        gauge.label("actor_id", actor_id);
        emission.metric(gauge);
        emission
    }

    /// Reports that an actor's mailbox binding was cleared.
    pub fn emit_mailbox_cleared(&self, actor_id: &str) -> (emission: Emission)
        ensures
            emission@ =~~= mailbox_cleared(self@.graph_name, actor_id@),
    {
        let mut fields = Fields::new();
        fields.text("graph", self.graph_name.as_str());
        fields.text("actor_id", actor_id);
        let mut emission = Emission::new(Level::Debug, "actor mailbox cleared", fields);
        let mut gauge = MetricUpdate::new("actor_graph.mailbox.bound", MetricAction::SetTo(0));
        gauge.label("graph", self.graph_name.as_str());
        gauge.label("actor_id", actor_id);
        emission.metric(gauge);
        emission
    }

    /// Reports a message that was accepted, or rejected for `rejection`.
    pub fn emit_actor_message(
        &self,
        source_actor_id: Option<&str>,
        target_actor_id: &str,
        operation: MessageOperation,
        duration: TimeSpan,
        rejection: Option<SendRejection>,
    ) -> (emission: Emission)
        ensures
            emission@ =~~= actor_message(
                self@.graph_name,
                optional_chars(source_actor_id),
                target_actor_id@,
                operation,
                duration,
                rejection,
            ),
    {
        let mut emission = self.trace_actor_message(
            source_actor_id,
            target_actor_id,
            operation,
            duration,
            rejection,
        );
        let mut counted = match rejection {
            Some(_) => {
                MetricUpdate::new("actor_graph.messages.rejected", MetricAction::Increment)
            },
            None => MetricUpdate::new("actor_graph.messages.sent", MetricAction::Increment),
        };
        counted.label("graph", self.graph_name.as_str());
        counted.label("actor_id", target_actor_id);
        counted.label("operation", operation.as_str());
        if let Some(rejection) = rejection {
            counted.label("reason", rejection.as_str());
        }
        emission.metric(counted);
        let mut timing = MetricUpdate::new(
            "actor_graph.send.duration",
            MetricAction::Record(duration),
        );
        timing.label("graph", self.graph_name.as_str());
        timing.label(
            "source",
            if source_actor_id.is_some() {
                "actor"
            } else {
                "external"
            },
        );
        timing.label("actor_id", target_actor_id);
        timing.label("operation", operation.as_str());
        timing.label("status", send_status_label(rejection));
        emission.metric(timing);
        emission
    }

    /// Reports that an actor took a message out of its mailbox.
    pub fn emit_message_received(&self, actor_id: &str) -> (emission: Emission)
        ensures
            emission@ =~~= message_received(self@.graph_name, actor_id@),
    {
        let mut fields = Fields::new();
        fields.text("graph", self.graph_name.as_str());
        fields.text("actor_id", actor_id);
        let mut emission = Emission::new(Level::Trace, "message received", fields);
        let mut counted = MetricUpdate::new(
            "actor_graph.messages.received",
            MetricAction::Increment,
        );
        counted.label("graph", self.graph_name.as_str());
        counted.label("actor_id", actor_id);
        emission.metric(counted);
        emission
    }

    /// Reports a blocking task that outlasted shutdown and is left to itself.
    pub fn emit_task_detached(
        &self,
        actor_id: &str,
        task_id: &str,
        task_name: Option<&str>,
        shutdown_timeout: TimeSpan,
    ) -> (emission: Emission)
        ensures
            emission@ =~~= task_detached(
                self@.graph_name,
                actor_id@,
                task_id@,
                optional_chars(task_name),
                shutdown_timeout,
            ),
    {
        let mut fields = Fields::new();
        fields.text("graph", self.graph_name.as_str());
        fields.text("actor_id", actor_id);
        fields.text("task_id", task_id);
        if let Some(task_name) = task_name {
            fields.text("task_name", task_name);
        }
        fields.span("shutdown_timeout_secs", shutdown_timeout);
        Emission::new(
            Level::Warn,
            "blocking task did not stop before shutdown timeout; detaching task",
            fields,
        )
    }

    fn trace_actor_message(
        &self,
        source_actor_id: Option<&str>,
        target_actor_id: &str,
        operation: MessageOperation,
        duration: TimeSpan,
        rejection: Option<SendRejection>,
    ) -> (emission: Emission)
        ensures
            emission@ =~~= (EmissionView {
                metrics: Seq::empty(),
                ..actor_message(
                    self@.graph_name,
                    optional_chars(source_actor_id),
                    target_actor_id@,
                    operation,
                    duration,
                    rejection,
                )
            }),
    {
        let mut fields = Fields::new();
        fields.text("graph", self.graph_name.as_str());
        if let Some(source_actor_id) = source_actor_id {
            fields.text("source_actor_id", source_actor_id);
        }
        fields.text("actor_id", target_actor_id);
        fields.text("operation", operation.as_str());
        let message = match rejection {
            Some(rejection) => {
                fields.text("reason", rejection.as_str());
                "message rejected"
            },
            None => "message sent",
        };
        fields.span("duration_secs", duration);
        Emission::new(Level::Trace, message, fields)
    }
}

// ---------------------------------------------------------------------------
// What follows
// ---------------------------------------------------------------------------

/// Each status, cause, operation and reason has a label of its own.
pub proof fn labels_tell_values_apart(
    run: GraphRunStatus,
    cause: GraphShutdownCause,
    exit: ActorExitStatus,
    operation: MessageOperation,
    rejection: SendRejection,
)
    ensures
        run.label() == (if run == GraphRunStatus::Completed {
            "ok"@
        } else {
            "failed"@
        }),
        cause.label() == (if cause == GraphShutdownCause::External {
            "external"@
        } else if cause == GraphShutdownCause::ActorStopped {
            "actor_stopped"@
        } else if cause == GraphShutdownCause::ActorFailed {
            "actor_failed"@
        } else if cause == GraphShutdownCause::ActorPanicked {
            "actor_panicked"@
        } else {
            "actor_cancelled"@
        }),
        exit.label() == (if exit == ActorExitStatus::Shutdown {
            "shutdown"@
        } else if exit == ActorExitStatus::Stopped {
            "stopped"@
        } else if exit == ActorExitStatus::Failed {
            "failed"@
        } else if exit == ActorExitStatus::Panicked {
            "panicked"@
        } else {
            "cancelled"@
        }),
        operation.label() == (if operation == MessageOperation::Send {
            "send"@
        } else {
            "try_send"@
        }),
        rejection.label() == (if rejection == SendRejection::MailboxFull {
            "mailbox_full"@
        } else if rejection == SendRejection::MailboxClosed {
            "mailbox_closed"@
        } else if rejection == SendRejection::NotRunning {
            "not_running"@
        } else {
            "actor_terminated"@
        }),
        send_status(Some(rejection)) == "rejected"@,
        send_status(None) == "ok"@,
{
}

/// An optional text is shown exactly where there is one, behind what was there.
pub proof fn optional_fields_are_shown_where_given(
    base: FieldsView,
    name: Seq<char>,
    value: Seq<char>,
    text: &str,
)
    ensures
        with_optional_text(base, name, None) == base,
        with_optional_text(base, name, Some(value)) == base.push(
            (name, FieldValueView::Text(value)),
        ),
        optional_chars(Some(text)) == Some(text@),
        optional_chars(None) is None,
{
}

/// A stopped graph is reported with its name, its status and the time it took;
/// a failed one as a warning and with its error. It is counted and timed under
/// its name and status.
pub proof fn stopped_graphs_are_counted_and_timed(
    graph: Seq<char>,
    duration: TimeSpan,
    status: GraphRunStatus,
    error: Option<Seq<char>>,
)
    ensures
        ({
            let report = graph_stopped(graph, duration, status, error);
            let failed = status == GraphRunStatus::Failed;
            let labels = seq![("graph"@, graph), ("status"@, status.label())];
            &&& report.log.level == (if failed {
                Level::Warn
            } else {
                Level::Info
            })
            &&& report.log.message == "graph stopped"@
            &&& report.log.fields[0] == ("graph"@, FieldValueView::Text(graph))
            &&& report.log.fields[1] == ("status"@, FieldValueView::Text(status.label()))
            &&& report.log.fields.last() == ("duration_secs"@, FieldValueView::Seconds(duration))
            &&& failed ==> (error matches Some(error) ==> report.log.fields.len() == 4
                && report.log.fields[2] == ("error"@, FieldValueView::Text(error)))
            &&& !failed || error is None ==> report.log.fields.len() == 3
            &&& report.metrics.len() == 2
            &&& report.metrics[0].name == "actor_graph.runs.stopped"@
            &&& report.metrics[0].action == MetricAction::Increment
            &&& report.metrics[0].labels == labels
            &&& report.metrics[1].name == "actor_graph.run.duration"@
            &&& report.metrics[1].action == MetricAction::Record(duration)
            &&& report.metrics[1].labels == labels
        }),
{
}

/// An exited actor is reported with its graph, its id and how it left; anything
/// but a requested shutdown as a warning and with its error. It is counted, and
/// the number of actors that still run is shown.
pub proof fn exited_actors_are_counted(
    graph: Seq<char>,
    actor_id: Seq<char>,
    status: ActorExitStatus,
    error: Option<Seq<char>>,
    running: usize,
)
    ensures
        ({
            let report = actor_exited(graph, actor_id, status, error, running);
            let asked = status == ActorExitStatus::Shutdown;
            &&& report.log.level == (if asked {
                Level::Debug
            } else {
                Level::Warn
            })
            &&& report.log.message == "actor exited"@
            &&& report.log.fields[0] == ("graph"@, FieldValueView::Text(graph))
            &&& report.log.fields[1] == ("actor_id"@, FieldValueView::Text(actor_id))
            &&& report.log.fields[2] == ("status"@, FieldValueView::Text(status.label()))
            &&& report.log.fields.last() == (
                "running_actors"@,
                FieldValueView::Count(running as int),
            )
            &&& !asked ==> (error matches Some(error) ==> report.log.fields.len() == 5
                && report.log.fields[3] == ("error"@, FieldValueView::Text(error)))
            &&& asked || error is None ==> report.log.fields.len() == 4
            &&& report.metrics.len() == 2
            &&& report.metrics[0].name == "actor_graph.actors.exited"@
            &&& report.metrics[0].action == MetricAction::Increment
            &&& report.metrics[0].labels == seq![
                ("graph"@, graph),
                ("actor_id"@, actor_id),
                ("status"@, status.label()),
            ]
            &&& report.metrics[1].name == "actor_graph.actors.running"@
            &&& report.metrics[1].action == MetricAction::SetTo(running)
            &&& report.metrics[1].labels == seq![("graph"@, graph)]
        }),
{
}

/// A mailbox is shown as bound while it is: binding sets the actor's gauge and
/// clearing resets the same one. Each received message is counted.
pub proof fn mailboxes_are_shown_while_bound(graph: Seq<char>, actor_id: Seq<char>)
    ensures
        ({
            let bound = mailbox_bound(graph, actor_id);
            let cleared = mailbox_cleared(graph, actor_id);
            let received = message_received(graph, actor_id);
            let named = seq![
                ("graph"@, FieldValueView::Text(graph)),
                ("actor_id"@, FieldValueView::Text(actor_id)),
            ];
            let labels = seq![("graph"@, graph), ("actor_id"@, actor_id)];
            &&& bound.metrics.len() == 1 && cleared.metrics.len() == 1 && received.metrics.len()
                == 1
            &&& bound.metrics[0].name == "actor_graph.mailbox.bound"@
            &&& cleared.metrics[0].name == bound.metrics[0].name
            &&& bound.metrics[0].action == MetricAction::SetTo(1)
            &&& cleared.metrics[0].action == MetricAction::SetTo(0)
            &&& bound.metrics[0].labels == labels && cleared.metrics[0].labels == labels
            &&& received.metrics[0].name == "actor_graph.messages.received"@
            &&& received.metrics[0].action == MetricAction::Increment
            &&& received.metrics[0].labels == labels
            &&& bound.log.fields == named && cleared.log.fields == named && received.log.fields
                == named
            &&& bound.log.level == Level::Info && cleared.log.level == Level::Debug
                && received.log.level == Level::Trace
            &&& bound.log.message == "actor mailbox bound"@
            &&& cleared.log.message == "actor mailbox cleared"@
            &&& received.log.message == "message received"@
        }),
{
    let named = seq![
        ("graph"@, FieldValueView::Text(graph)),
        ("actor_id"@, FieldValueView::Text(actor_id)),
    ];
    assert(mailbox_bound(graph, actor_id).log.fields =~= named);
    assert(mailbox_cleared(graph, actor_id).log.fields =~= named);
    assert(message_received(graph, actor_id).log.fields =~= named);
}

/// A send is reported with its target, its operation and how long it took, and
/// with the actor that sent it where one did; a rejected one with its reason.
/// It is counted as sent or as rejected, and timed under its outcome.
pub proof fn sends_are_counted_and_timed(
    graph: Seq<char>,
    source: Option<Seq<char>>,
    target: Seq<char>,
    operation: MessageOperation,
    duration: TimeSpan,
    rejection: Option<SendRejection>,
)
    ensures
        ({
            let report = actor_message(graph, source, target, operation, duration, rejection);
            let fields = report.log.fields;
            let at: int = if source is Some {
                2
            } else {
                1
            };
            let counted = report.metrics[0];
            let timed = report.metrics[1];
            &&& report.log.level == Level::Trace
            &&& report.log.message == (if rejection is Some {
                "message rejected"@
            } else {
                "message sent"@
            })
            &&& fields[0] == ("graph"@, FieldValueView::Text(graph))
            &&& source matches Some(source) ==> fields[1] == (
                "source_actor_id"@,
                FieldValueView::Text(source),
            )
            &&& fields[at] == ("actor_id"@, FieldValueView::Text(target))
            &&& fields[at + 1] == ("operation"@, FieldValueView::Text(operation.label()))
            &&& rejection matches Some(rejection) ==> fields.len() == at + 4 && fields[at + 2] == (
                "reason"@,
                FieldValueView::Text(rejection.label()),
            )
            &&& rejection is None ==> fields.len() == at + 3
            &&& fields.last() == ("duration_secs"@, FieldValueView::Seconds(duration))
            &&& report.metrics.len() == 2
            &&& counted.action == MetricAction::Increment
            &&& counted.name == (if rejection is Some {
                "actor_graph.messages.rejected"@
            } else {
                "actor_graph.messages.sent"@
            })
            &&& counted.labels[0] == ("graph"@, graph)
            &&& counted.labels[1] == ("actor_id"@, target)
            &&& counted.labels[2] == ("operation"@, operation.label())
            &&& rejection matches Some(rejection) ==> counted.labels.len() == 4 && counted.labels[3]
                == ("reason"@, rejection.label())
            &&& rejection is None ==> counted.labels.len() == 3
            &&& timed.name == "actor_graph.send.duration"@
            &&& timed.action == MetricAction::Record(duration)
            &&& timed.labels == seq![
                ("graph"@, graph),
                (
                    "source"@,
                    if source is Some {
                        "actor"@
                    } else {
                        "external"@
                    },
                ),
                ("actor_id"@, target),
                ("operation"@, operation.label()),
                (
                    "status"@,
                    if rejection is Some {
                        "rejected"@
                    } else {
                        "ok"@
                    },
                ),
            ]
        }),
{
}

/// A task that is left to itself is warned of, with its actor, its id, its name
/// where it has one, and how long it was waited for.
pub proof fn detached_tasks_are_warned_of(
    graph: Seq<char>,
    actor_id: Seq<char>,
    task_id: Seq<char>,
    task_name: Option<Seq<char>>,
    shutdown_timeout: TimeSpan,
)
    ensures
        ({
            let report = task_detached(graph, actor_id, task_id, task_name, shutdown_timeout);
            let fields = report.log.fields;
            &&& report.log.level == Level::Warn
            &&& fields[0] == ("graph"@, FieldValueView::Text(graph))
            &&& fields[1] == ("actor_id"@, FieldValueView::Text(actor_id))
            &&& fields[2] == ("task_id"@, FieldValueView::Text(task_id))
            &&& task_name matches Some(name) ==> fields.len() == 5 && fields[3] == (
                "task_name"@,
                FieldValueView::Text(name),
            )
            &&& task_name is None ==> fields.len() == 4
            &&& fields.last() == (
                "shutdown_timeout_secs"@,
                FieldValueView::Seconds(shutdown_timeout),
            )
            &&& report.metrics.len() == 0
        }),
{
}

/// An exit takes one from the number of running actors, which never falls below
/// zero.
pub proof fn exits_count_down_to_zero(running: int)
    requires
        0 <= running,
    ensures
        running > 0 ==> one_less(running) == running - 1,
        one_less(0) == 0,
        one_less(running) >= 0,
{
}

/// The fields of a record are what they were made with.
pub proof fn fields_hold_what_they_were_made_with(
    name: Seq<char>,
    value: Seq<char>,
    count: int,
    span: TimeSpan,
    text: String,
)
    ensures
        text_field(name, value) == (name, FieldValueView::Text(value)),
        count_field(name, count) == (name, FieldValueView::Count(count)),
        span_field(name, span) == (name, FieldValueView::Seconds(span)),
        FieldValue::Text(text)@ == FieldValueView::Text(text@),
        FieldValue::Seconds(span)@ == FieldValueView::Seconds(span),
{
}

/// A graph without a name of its own is called by a number that was not used
/// before: the name ends in the number drawn, and the next one differs.
pub proof fn unnamed_graphs_are_numbered(
    first: &mut IdSource,
    second: &mut IdSource,
    earlier: String,
    later: String,
)
    requires
        call_ensures(anonymous_graph_name, (first,), earlier),
        *old(second) == *final(first),
        call_ensures(anonymous_graph_name, (second,), later),
        old(first)@ < u64::MAX,
    ensures
        earlier@.take(6) == "graph-"@,
        crate::text::number_shown(earlier@.skip(6)) == old(first)@,
        crate::text::number_shown(later@.skip(6)) == old(first)@ + 1,
        earlier@ != later@,
{
    reveal_strlit("graph-");
    let front = "graph-"@;
    assert(front.len() == 6);
    assert(earlier@.take(6) =~= front);
    assert(earlier@.skip(6) =~= crate::text::decimal(old(first)@ as nat));
    assert(later@.skip(6) =~= crate::text::decimal(old(second)@ as nat));
    crate::text::decimals_read_back(old(first)@ as nat);
    crate::text::decimals_read_back(old(second)@ as nat);
}

/// Ids are drawn one after the other, so that none is drawn twice before they
/// are used up.
pub proof fn ids_are_drawn_in_order(
    first: &mut IdSource,
    second: &mut IdSource,
    earlier: u64,
    later: u64,
)
    requires
        call_ensures(IdSource::next_id, (first,), earlier),
        *old(second) == *final(first),
        call_ensures(IdSource::next_id, (second,), later),
        earlier < u64::MAX,
    ensures
        earlier == old(first)@,
        later == earlier + 1,
{
}

/// An actor that started is one more running and, once it exited, one less: both
/// reports say how many run, in the log and as the gauge, and name the actor.
pub proof fn running_actors_are_counted(
    starting: &mut GraphObservability,
    exiting: &mut GraphObservability,
    actor_id: &str,
    status: ActorExitStatus,
    error: Option<&str>,
    started: Emission,
    exited: Emission,
)
    requires
        old(starting)@.running_actors < usize::MAX,
        call_ensures(GraphObservability::emit_actor_started, (starting, actor_id), started),
        *old(exiting) == *final(starting),
        call_ensures(
            GraphObservability::emit_actor_exited,
            (exiting, actor_id, status, error),
            exited,
        ),
    ensures
        final(starting)@.running_actors == old(starting)@.running_actors + 1,
        old(starting)@.running_actors >= 0 ==> final(exiting)@.running_actors
            == old(starting)@.running_actors,
        final(exiting)@.graph_name == old(starting)@.graph_name,
        started@.log.level == Level::Info,
        started@.log.message == "actor started"@,
        started@.log.fields =~= seq![
            ("graph"@, FieldValueView::Text(old(starting)@.graph_name)),
            ("actor_id"@, FieldValueView::Text(actor_id@)),
            ("running_actors"@, FieldValueView::Count(old(starting)@.running_actors + 1)),
        ],
        started@.metrics.len() == 2,
        started@.metrics[0].name == "actor_graph.actors.started"@,
        started@.metrics[0].action == MetricAction::Increment,
        started@.metrics[0].labels =~= seq![
            ("graph"@, old(starting)@.graph_name),
            ("actor_id"@, actor_id@),
        ],
        started@.metrics[1].name == exited@.metrics[1].name,
        started@.metrics[1].labels =~= exited@.metrics[1].labels,
        started@.metrics[1].action == MetricAction::SetTo(
            (old(starting)@.running_actors + 1) as usize,
        ),
        old(starting)@.running_actors >= 0 ==> exited@.metrics[1].action == MetricAction::SetTo(
            old(starting)@.running_actors as usize,
        ),
{
    exits_count_down_to_zero(old(starting)@.running_actors + 1);
    exited_actors_are_counted(
        old(starting)@.graph_name,
        actor_id@,
        status,
        optional_chars(error),
        one_less(old(exiting)@.running_actors) as usize,
    );
}

/// A graph that starts is counted under its name, and the report and the span of
/// its run say how many actors it has and how much its mailboxes hold.
pub proof fn started_graphs_are_described(
    observability: &GraphObservability,
    actor_count: usize,
    mailbox_capacity: usize,
    span: SpanRecord,
    emission: Emission,
)
    requires
        call_ensures(
            GraphObservability::graph_span,
            (observability, actor_count, mailbox_capacity),
            span,
        ),
        call_ensures(
            GraphObservability::emit_graph_started,
            (observability, actor_count, mailbox_capacity),
            emission,
        ),
    ensures
        span.name@ == "actor_graph"@,
        span.fields@ =~= seq![
            ("graph"@, FieldValueView::Text(observability@.graph_name)),
            ("actor_count"@, FieldValueView::Count(actor_count as int)),
            ("mailbox_capacity"@, FieldValueView::Count(mailbox_capacity as int)),
        ],
        emission@.log.fields =~= span.fields@,
        emission@.log.level == Level::Info,
        emission@.log.message == "graph started"@,
        emission@.metrics.len() == 1,
        emission@.metrics[0].name == "actor_graph.runs.started"@,
        emission@.metrics[0].action == MetricAction::Increment,
        emission@.metrics[0].labels =~= seq![("graph"@, observability@.graph_name)],
{
}

/// A request to shut down is reported with its cause and counts nothing; an
/// actor's span names the graph and the actor.
pub proof fn shutdown_requests_name_their_cause(
    observability: &GraphObservability,
    cause: GraphShutdownCause,
    actor_id: &str,
    emission: Emission,
    span: SpanRecord,
)
    requires
        call_ensures(
            GraphObservability::emit_shutdown_requested,
            (observability, cause),
            emission,
        ),
        call_ensures(GraphObservability::actor_span, (observability, actor_id), span),
    ensures
        emission@.log.level == Level::Debug,
        emission@.log.message == "graph shutdown requested"@,
        emission@.log.fields =~= seq![
            ("graph"@, FieldValueView::Text(observability@.graph_name)),
            ("cause"@, FieldValueView::Text(cause.label())),
        ],
        emission@.metrics.len() == 0,
        span.name@ == "actor"@,
        span.fields@ =~= seq![
            ("graph"@, FieldValueView::Text(observability@.graph_name)),
            ("actor_id"@, FieldValueView::Text(actor_id@)),
        ],
{
}

} // verus!
