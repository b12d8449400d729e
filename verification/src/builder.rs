//! Building and validating actor graphs.
use std::marker::PhantomData;
use vstd::prelude::*;
use vstd::string::StrSliceExecFns;
use crate::error::{GraphBuildError, GraphBuildErrorView};
use crate::graph::{Graph, GraphActor, GraphActorView, GraphState, GraphView, MessageType};
use crate::observability::{anonymous_graph_name, IdSource};
use crate::text::{chars_of, decimal_text, same_text};
use crate::time::TimeSpan;

verus! {

/// How many messages a mailbox queues unless the builder is told otherwise.
pub const DEFAULT_MAILBOX_CAPACITY: usize = 64;

/// How many seconds shutdown waits for an actor unless the builder is told
/// otherwise.
pub const DEFAULT_ACTOR_SHUTDOWN_SECS: u64 = 5;

/// Unfilled position for one actor in a graph builder.
///
/// Slots are created by [`GraphBuilder::slot`] and consumed by
/// [`GraphBuilder::define`]. A slot cannot be cloned, so it is filled once.
#[verifier::reject_recursive_types(M)]
pub struct ActorSlot<M> {
    builder_id: u64,
    index: Option<usize>,
    message: PhantomData<M>,
}

impl<M> ActorSlot<M> {
    /// The builder that opened the slot.
    pub closed spec fn owner(self) -> u64 {
        self.builder_id
    }

    /// Where the actor goes, unless opening the slot failed.
    pub closed spec fn place(self) -> Option<usize> {
        self.index
    }

    fn new(builder_id: u64, index: Option<usize>) -> (slot: Self)
        ensures
            slot.owner() == builder_id,
            slot.place() == index,
    {
        ActorSlot { builder_id, index, message: PhantomData }
    }

    /// Whether the slot is waiting for an actor: it is not where its id was
    /// empty or taken.
    pub fn is_open(&self) -> (open: bool)
        ensures
            open == (self.place() is Some),
    {
        self.index.is_some()
    }
}

struct Slot<B, R> {
    actor_id: String,
    message_type: MessageType,
    binding: B,
    runner: Option<R>,
}

/// A position of a builder.
pub struct SlotView<B, R> {
    pub actor_id: Seq<char>,
    pub message_type: MessageType,
    pub binding: B,
    pub runner: Option<R>,
}

impl<B, R> Slot<B, R> {
    spec fn shown(self) -> SlotView<B, R> {
        SlotView {
            actor_id: self.actor_id@,
            message_type: self.message_type,
            binding: self.binding,
            runner: self.runner,
        }
    }
}

/// Builder for constructing a validated actor graph.
///
/// `B` is what refs to an actor read, `R` what starts it. Mistakes are
/// collected while actors are registered and reported by
/// [`build`](Self::build).
pub struct GraphBuilder<B, R> {
    builder_id: u64,
    name: Option<String>,
    slots: Vec<Slot<B, R>>,
    errors: Vec<GraphBuildError>,
    mailbox_capacity: usize,
    actor_shutdown_timeout: TimeSpan,
}

/// What a [`GraphBuilder`] holds.
#[verifier::ext_equal]
pub struct GraphBuilderView<B, R> {
    pub builder_id: u64,
    pub name: Option<Seq<char>>,
    pub slots: Seq<SlotView<B, R>>,
    pub errors: Seq<GraphBuildErrorView>,
    pub mailbox_capacity: usize,
    pub actor_shutdown_timeout: TimeSpan,
}

impl<B, R> View for GraphBuilder<B, R> {
    type V = GraphBuilderView<B, R>;

    closed spec fn view(&self) -> GraphBuilderView<B, R> {
        GraphBuilderView {
            builder_id: self.builder_id,
            name: crate::context::optional_text(self.name),
            slots: self.slots@.map_values(|slot: Slot<B, R>| slot.shown()),
            errors: self.errors@.map_values(|error: GraphBuildError| error@),
            mailbox_capacity: self.mailbox_capacity,
            actor_shutdown_timeout: self.actor_shutdown_timeout,
        }
    }
}

impl<B, R> GraphBuilderView<B, R> {
    /// The ids of the positions, in order.
    pub open spec fn ids(self) -> Seq<Seq<char>> {
        self.slots.map_values(|slot: SlotView<B, R>| slot.actor_id)
    }

    /// What every builder keeps: no position without an id, and no id twice.
    pub open spec fn is_consistent(self) -> bool {
        &&& self.ids().no_duplicates()
        &&& forall|i: int| 0 <= i < self.slots.len() ==> #[trigger] self.slots[i].actor_id.len() > 0
    }

    /// The builder with one more mistake to report.
    pub open spec fn with_error(self, error: GraphBuildErrorView) -> Self {
        GraphBuilderView { errors: self.errors.push(error), ..self }
    }

    /// The mistake in opening a position under the given id, if it is one: an
    /// empty id, or an id that is taken.
    pub open spec fn id_problem(self, actor_id: Seq<char>) -> Option<GraphBuildErrorView> {
        if actor_id.len() == 0 {
            Some(GraphBuildErrorView::InvalidConfig { reason: "actor id must not be empty"@ })
        } else if self.ids().contains(actor_id) {
            Some(GraphBuildErrorView::DuplicateActorId { actor_id })
        } else {
            None
        }
    }

    /// The builder after a position was asked for.
    pub open spec fn with_slot(self, slot: SlotView<B, R>) -> Self {
        match self.id_problem(slot.actor_id) {
            Some(error) => self.with_error(error),
            None => GraphBuilderView { slots: self.slots.push(slot), ..self },
        }
    }

    /// The builder after the position at `index` was filled.
    pub open spec fn with_runner(self, index: int, runner: R) -> Self {
        GraphBuilderView {
            slots: self.slots.update(
                index,
                SlotView { runner: Some(runner), ..self.slots[index] },
            ),
            ..self
        }
    }
}

// ---------------------------------------------------------------------------
// Names of actor types
// ---------------------------------------------------------------------------

/// How many characters stand before the first `<`.
pub open spec fn before_generics(name: Seq<char>) -> int
    decreases name.len(),
{
    if name.len() == 0 || name[0] == '<' {
        0
    } else {
        1 + before_generics(name.skip(1))
    }
}

/// Where the last path segment of the first `end` characters starts: right
/// behind the last `::`, or at the front.
pub open spec fn segment_start(name: Seq<char>, end: int) -> int
    decreases end,
{
    if end < 2 {
        0
    } else if name[end - 1] == ':' && name[end - 2] == ':' {
        end
    } else {
        segment_start(name, end - 1)
    }
}

/// The unqualified name of a type: without its generic arguments and without
/// its path.
pub open spec fn short_name(name: Seq<char>) -> Seq<char> {
    let end = before_generics(name);
    name.subrange(segment_start(name, end), end)
}

proof fn before_generics_from(name: Seq<char>, i: int)
    requires
        0 <= i <= name.len(),
        forall|j: int| 0 <= j < i ==> name[j] != '<',
    ensures
        before_generics(name) == i + before_generics(name.skip(i)),
    decreases i,
{
    if i > 0 {
        let rest = name.skip(1);
        assert forall|j: int| 0 <= j < i - 1 implies rest[j] != '<' by {
            assert(rest[j] == name[j + 1]);
        }
        before_generics_from(rest, i - 1);
        assert(rest.skip(i - 1) =~= name.skip(i));
    } else {
        assert(name.skip(0) =~= name);
    }
}

/// Returns the unqualified name of a type.
pub fn short_type_name(full_name: &str) -> (short: &str)
    ensures
        short@ == short_name(full_name@),
{
    let chars = chars_of(full_name);
    let mut end: usize = 0;
    while end < chars.len() && chars[end] != '<'
        invariant
            chars@ == full_name@,
            end <= chars@.len(),
            forall|j: int| 0 <= j < end ==> chars@[j] != '<',
        decreases chars@.len() - end,
    {
        end += 1;
    }
    proof {
        before_generics_from(full_name@, end as int);
        assert(before_generics(full_name@.skip(end as int)) == 0);
    }
    let mut start: usize = end;
    while start >= 2 && !(chars[start - 1] == ':' && chars[start - 2] == ':')
        invariant
            chars@ == full_name@,
            start <= end <= chars@.len(),
            segment_start(full_name@, end as int) == segment_start(full_name@, start as int),
        decreases start,
    {
        start -= 1;
    }
    if start < 2 {
        start = 0;
    }
    full_name.substring_char(start, end)
}

// ---------------------------------------------------------------------------
// Ids derived from type names
// ---------------------------------------------------------------------------

/// The id that the `n`-th actor named `base` gets: `base`, `base-2`, `base-3`
/// and so on.
pub open spec fn numbered(base: Seq<char>, n: nat) -> Seq<char> {
    if n <= 1 {
        base
    } else {
        base + "-"@ + crate::text::decimal(n)
    }
}

/// Whether `n` is the smallest number under which `base` is not taken.
pub open spec fn is_first_free(ids: Seq<Seq<char>>, base: Seq<char>, n: nat) -> bool {
    &&& n >= 1
    &&& !ids.contains(numbered(base, n))
    &&& forall|k: nat| 1 <= k < n ==> ids.contains(#[trigger] numbered(base, k))
}

proof fn numbered_is_injective(base: Seq<char>, a: nat, b: nat)
    requires
        1 <= a,
        1 <= b,
        numbered(base, a) == numbered(base, b),
    ensures
        a == b,
{
    reveal_strlit("-");
    let front = base + "-"@;
    let n = front.len() as int;
    if a > 1 && b > 1 {
        assert(numbered(base, a).skip(n) =~= crate::text::decimal(a));
        assert(numbered(base, b).skip(n) =~= crate::text::decimal(b));
        crate::text::decimal_is_injective(a, b);
    } else if a > 1 {
        assert(numbered(base, a).len() >= base.len() + 1);
    } else if b > 1 {
        assert(numbered(base, b).len() >= base.len() + 1);
    }
}

/// However many actors share a name, there is a number left for the next one.
pub proof fn taken_numbers_are_few(ids: Seq<Seq<char>>, base: Seq<char>, n: nat)
    requires
        forall|k: nat| 1 <= k <= n ==> ids.contains(#[trigger] numbered(base, k)),
    ensures
        n <= ids.len(),
{
    let names = Seq::new(n, |i: int| numbered(base, (i + 1) as nat));
    assert forall|i: int, j: int| 0 <= i < names.len() && 0 <= j < names.len() && i
        != j implies names[i] != names[j] by {
        if names[i] == names[j] {
            numbered_is_injective(base, (i + 1) as nat, (j + 1) as nat);
        }
    }
    assert(names.no_duplicates());
    names.unique_seq_to_set();
    ids.lemma_cardinality_of_set();
    assert(names.to_set().subset_of(ids.to_set())) by {
        assert forall|name: Seq<char>| names.to_set().contains(name) implies ids.to_set().contains(
            name,
        ) by {
            let i = choose|i: int| 0 <= i < names.len() && names[i] == name;
            assert(ids.contains(numbered(base, (i + 1) as nat)));
        }
    }
    vstd::set_lib::lemma_len_subset(names.to_set(), ids.to_set());
}

// ---------------------------------------------------------------------------
// Building
// ---------------------------------------------------------------------------

/// Whether every position before `end` is filled.
pub open spec fn filled<B, R>(slots: Seq<SlotView<B, R>>, end: int) -> bool {
    forall|i: int| 0 <= i < end ==> (#[trigger] slots[i]).runner is Some
}

/// The first position at or after `from` that is not filled, or how many
/// positions there are.
pub open spec fn first_unfilled<B, R>(slots: Seq<SlotView<B, R>>, from: int) -> int
    decreases slots.len() - from,
{
    if from < 0 || from >= slots.len() {
        slots.len() as int
    } else if slots[from].runner is None {
        from
    } else {
        first_unfilled(slots, from + 1)
    }
}

/// The actor that a filled position becomes.
pub open spec fn as_actor<B, R>(slot: SlotView<B, R>) -> GraphActorView<B, R> {
    GraphActorView {
        actor_id: slot.actor_id,
        message_type: slot.message_type,
        binding: slot.binding,
        runner: slot.runner.unwrap(),
    }
}

/// What is wrong with a graph, if anything. Of several things the first in
/// this order is reported: an empty name, a mistake made while registering
/// actors, no actors at all, mailboxes without room, an unfilled position.
pub open spec fn build_problem<B, R>(builder: GraphBuilderView<B, R>) -> Option<
    GraphBuildErrorView,
> {
    let unfilled = first_unfilled(builder.slots, 0);
    if builder.name matches Some(name) && name.len() == 0 {
        Some(GraphBuildErrorView::InvalidConfig { reason: "graph name must not be empty"@ })
    } else if builder.errors.len() > 0 {
        Some(builder.errors[0])
    } else if builder.slots.len() == 0 {
        Some(GraphBuildErrorView::EmptyGraph)
    } else if builder.mailbox_capacity == 0 {
        Some(GraphBuildErrorView::InvalidConfig { reason: "mailbox capacity must be non-zero"@ })
    } else if unfilled < builder.slots.len() {
        Some(GraphBuildErrorView::MissingActor { actor_id: builder.slots[unfilled].actor_id })
    } else {
        None
    }
}

/// The graph that a builder without problems builds. Without a name of its
/// own, it gets `fallback`.
pub open spec fn built<B, R>(builder: GraphBuilderView<B, R>, fallback: Seq<char>) -> GraphView<
    B,
    R,
> {
    GraphView {
        name: match builder.name {
            Some(name) => name,
            None => fallback,
        },
        actors: builder.slots.map_values(|slot: SlotView<B, R>| as_actor(slot)),
        mailbox_capacity: builder.mailbox_capacity,
        actor_shutdown_timeout: builder.actor_shutdown_timeout,
        state: GraphState::Idle,
    }
}

pub(crate) proof fn unfilled_skips<B, R>(slots: Seq<SlotView<B, R>>, from: int, to: int)
    requires
        0 <= from <= to <= slots.len(),
        filled(slots, to),
    ensures
        first_unfilled(slots, from) == first_unfilled(slots, to),
    decreases to - from,
{
    if from < to {
        assert(slots[from].runner is Some);
        unfilled_skips(slots, from + 1, to);
    }
}

pub(crate) proof fn unfilled_is_first<B, R>(slots: Seq<SlotView<B, R>>, from: int)
    requires
        0 <= from <= slots.len(),
    ensures
        from <= first_unfilled(slots, from) <= slots.len(),
        forall|i: int|
            from <= i < first_unfilled(slots, from) ==> (#[trigger] slots[i]).runner is Some,
        first_unfilled(slots, from) < slots.len() ==> slots[first_unfilled(
            slots,
            from,
        )].runner is None,
    decreases slots.len() - from,
{
    if from < slots.len() && slots[from].runner is Some {
        unfilled_is_first(slots, from + 1);
    }
}

/// A builder builds a graph exactly when its name, if it has one, is not
/// empty, nothing went wrong while registering, mailboxes have room, and there
/// are actors for all of its positions and at least one.
pub proof fn builds_exactly_when_complete<B, R>(builder: GraphBuilderView<B, R>)
    ensures
        build_problem(builder) is None <==> {
            &&& builder.name matches Some(name) ==> name.len() > 0
            &&& builder.errors.len() == 0
            &&& builder.slots.len() > 0
            &&& builder.mailbox_capacity > 0
            &&& filled(builder.slots, builder.slots.len() as int)
        },
{
    unfilled_is_first(builder.slots, 0);
    if filled(builder.slots, builder.slots.len() as int) {
        unfilled_skips(builder.slots, 0, builder.slots.len() as int);
    }
}

/// What a builder builds is a valid graph: its ids are distinct, and its
/// actors stand in the order in which their positions were opened.
pub proof fn built_graphs_are_valid<B, R>(builder: GraphBuilderView<B, R>, fallback: Seq<char>)
    requires
        builder.is_consistent(),
        build_problem(builder) is None,
        fallback.len() > 0,
    ensures
        built(builder, fallback).is_valid(),
        built(builder, fallback).actors.len() == builder.slots.len(),
        forall|i: int|
            0 <= i < builder.slots.len() ==> (#[trigger] built(
                builder,
                fallback,
            ).actors[i]).actor_id == builder.slots[i].actor_id,
{
    builds_exactly_when_complete(builder);
    let actors = built(builder, fallback).actors;
    assert forall|i: int, j: int| 0 <= i < j < actors.len() implies #[trigger] actors[i].actor_id
        != #[trigger] actors[j].actor_id by {
        assert(builder.ids()[i] != builder.ids()[j]);
    }
}

impl<B, R> GraphBuilder<B, R> {
    /// What holds of every value.
    #[verifier::type_invariant]
    pub closed spec fn is_valid(self) -> bool {
        self@.is_consistent()
    }

    /// Creates a new builder with no actors and a default mailbox capacity of
    /// 64 messages per actor.
    pub fn new(ids: &mut IdSource) -> (builder: Self)
        ensures
            final(ids)@ == old(ids)@.wrapping_add(1),
            builder@ == (GraphBuilderView::<B, R> {
                builder_id: old(ids)@,
                name: None,
                slots: Seq::empty(),
                errors: Seq::empty(),
                mailbox_capacity: 64,
                actor_shutdown_timeout: TimeSpan { secs: 5, nanos: 0 },
            }),
            builder@.is_consistent(),
    {
        let builder = GraphBuilder {
            builder_id: ids.next_id(),
            name: None,
            slots: Vec::new(),
            errors: Vec::new(),
            mailbox_capacity: DEFAULT_MAILBOX_CAPACITY,
            actor_shutdown_timeout: TimeSpan::from_secs(DEFAULT_ACTOR_SHUTDOWN_SECS),
        };
        assert(builder@.slots =~= Seq::empty());
        assert(builder@.errors =~= Seq::empty());
        builder
    }

    /// Sets the graph name used in tracing fields and metric labels.
    ///
    /// If omitted, an anonymous name is generated by [`build`](Self::build).
    pub fn name(&mut self, name: &str)
        ensures
            final(self)@ == (GraphBuilderView { name: Some(name@), ..old(self)@ }),
    {
        proof {
            use_type_invariant(&*self);
        }
        self.name = Some(name.to_owned());
    }

    /// Sets the bounded mailbox capacity used for every actor in the graph.
    pub fn mailbox_capacity(&mut self, capacity: usize)
        ensures
            final(self)@ == (GraphBuilderView { mailbox_capacity: capacity, ..old(self)@ }),
    {
        proof {
            use_type_invariant(&*self);
        }
        self.mailbox_capacity = capacity;
    }

    /// Sets how long shutdown waits for an actor task to stop after
    /// cancellation is requested.
    pub fn actor_shutdown_timeout(&mut self, timeout: TimeSpan)
        ensures
            final(self)@ == (GraphBuilderView { actor_shutdown_timeout: timeout, ..old(self)@ }),
    {
        proof {
            use_type_invariant(&*self);
        }
        self.actor_shutdown_timeout = timeout;
    }

    fn is_taken(&self, actor_id: &str) -> (taken: bool)
        ensures
            taken == self@.ids().contains(actor_id@),
    {
        for i in 0..self.slots.len()
            invariant
                forall|j: int| 0 <= j < i ==> #[trigger] self@.ids()[j] != actor_id@,
        {
            assert(self@.slots[i as int] == self.slots@[i as int].shown());
            assert(self@.ids()[i as int] == self.slots@[i as int].actor_id@);
            if same_text(self.slots[i].actor_id.as_str(), actor_id) {
                return true;
            }
        }
        assert(self@.ids().len() == self.slots@.len());
        false
    }

    fn push_error(&mut self, error: GraphBuildError)
        ensures
            final(self)@ == old(self)@.with_error(error@),
    {
        proof {
            use_type_invariant(&*self);
        }
        let mut errors: Vec<GraphBuildError> = Vec::new();
        std::mem::swap(&mut errors, &mut self.errors);
        errors.push(error);
        self.errors = errors;
        assert(self@.errors =~= old(self)@.errors.push(error@));
    }

    /// Opens a position. Returns where it is, unless the id is refused.
    fn push_slot(
        &mut self,
        actor_id: &str,
        message_type: MessageType,
        binding: B,
        runner: Option<R>,
    ) -> (index: Option<usize>)
        ensures
            final(self)@.is_consistent(),
            final(self)@ == old(self)@.with_slot(
                SlotView { actor_id: actor_id@, message_type, binding, runner },
            ),
            match old(self)@.id_problem(actor_id@) {
                Some(_) => index is None,
                None => index matches Some(place) && place == old(self)@.slots.len(),
            },
    {
        proof {
            use_type_invariant(&*self);
        }
        if actor_id.unicode_len() == 0 {
            self.push_error(GraphBuildError::InvalidConfig("actor id must not be empty"));
            assert(self@.ids() =~= old(self)@.ids());
            return None;
        }
        if self.is_taken(actor_id) {
            self.push_error(GraphBuildError::DuplicateActorId { actor_id: actor_id.to_owned() });
            assert(self@.ids() =~= old(self)@.ids());
            return None;
        }
        let index: usize = self.slots.len();
        let slot = Slot { actor_id: actor_id.to_owned(), message_type, binding, runner };
        let ghost shown = slot.shown();
        let mut slots: Vec<Slot<B, R>> = Vec::new();
        std::mem::swap(&mut slots, &mut self.slots);
        slots.push(slot);
        proof {
            let after = old(self)@.with_slot(shown);
            assert(slots@.map_values(|slot: Slot<B, R>| slot.shown()) =~= after.slots);
            assert(after.ids() =~= old(self)@.ids().push(actor_id@));
            assert(after.is_consistent());
        }
        self.slots = slots;
        Some(index)
    }

    /// Opens a named slot and returns its fill token.
    ///
    /// This enables cyclic wiring: open all slots first, hand refs to their
    /// bindings to the actors, then consume each [`ActorSlot`] with
    /// [`define`](Self::define).
    pub fn slot<M>(&mut self, actor_id: &str, message_type: MessageType, binding: B) -> (slot:
        ActorSlot<M>)
        ensures
            final(self)@.is_consistent(),
            final(self)@ == old(self)@.with_slot(
                SlotView { actor_id: actor_id@, message_type, binding, runner: None },
            ),
            slot.owner() == old(self)@.builder_id,
            match old(self)@.id_problem(actor_id@) {
                Some(_) => slot.place() is None,
                None => slot.place() matches Some(place) && place == old(self)@.slots.len(),
            },
    {
        let index = self.push_slot(actor_id, message_type, binding, None);
        ActorSlot::new(self.builder_id, index)
    }

    /// Fills a previously opened actor slot.
    ///
    /// A slot of another builder is a mistake; a slot whose opening failed is
    /// ignored, as that mistake was recorded already.
    pub fn define<M>(&mut self, slot: ActorSlot<M>, runner: R)
        ensures
            final(self)@.is_consistent(),
            final(self)@ == if slot.owner() != old(self)@.builder_id {
                old(self)@.with_error(
                    GraphBuildErrorView::InvalidConfig {
                        reason: "actor slot belongs to a different graph builder"@,
                    },
                )
            } else {
                match slot.place() {
                    None => old(self)@,
                    Some(index) => if index < old(self)@.slots.len() {
                        old(self)@.with_runner(index as int, runner)
                    } else {
                        old(self)@.with_error(
                            GraphBuildErrorView::InvalidConfig {
                                reason: "actor slot is detached"@,
                            },
                        )
                    },
                }
            },
    {
        proof {
            use_type_invariant(&*self);
        }
        if slot.builder_id != self.builder_id {
            self.push_error(
                GraphBuildError::InvalidConfig("actor slot belongs to a different graph builder"),
            );
            assert(self@.ids() =~= old(self)@.ids());
            return ;
        }
        let index: usize = match slot.index {
            Some(index) => index,
            None => {
                return ;
            },
        };
        if index >= self.slots.len() {
            self.push_error(GraphBuildError::InvalidConfig("actor slot is detached"));
            assert(self@.ids() =~= old(self)@.ids());
            return ;
        }
        let mut slots: Vec<Slot<B, R>> = Vec::new();
        std::mem::swap(&mut slots, &mut self.slots);
        slots[index].runner = Some(runner);
        proof {
            let after = old(self)@.with_runner(index as int, runner);
            assert(slots@.map_values(|slot: Slot<B, R>| slot.shown()) =~= after.slots);
            assert(after.ids() =~= old(self)@.ids());
            assert(after.is_consistent());
        }
        self.slots = slots;
    }

    /// Registers an actor. Returns its position, unless its id is refused.
    pub fn actor(
        &mut self,
        actor_id: &str,
        message_type: MessageType,
        binding: B,
        runner: R,
    ) -> (index: Option<usize>)
        ensures
            final(self)@.is_consistent(),
            final(self)@ == old(self)@.with_slot(
                SlotView { actor_id: actor_id@, message_type, binding, runner: Some(runner) },
            ),
            match old(self)@.id_problem(actor_id@) {
                Some(_) => index is None,
                None => index matches Some(place) && place == old(self)@.slots.len(),
            },
    {
        self.push_slot(actor_id, message_type, binding, Some(runner))
    }

    /// The id that an actor of the given type is registered under: its
    /// unqualified type name, numbered from two on where the name is taken.
    pub fn id_for_type(&self, full_name: &str) -> (actor_id: String)
        ensures
            exists|n: nat| #[trigger]
                is_first_free(self@.ids(), short_name(full_name@), n) && actor_id@ == numbered(
                    short_name(full_name@),
                    n,
                ),
    {
        let base = short_type_name(full_name);
        let mut actor_id = base.to_owned();
        let mut number: u128 = 1;
        let count: usize = self.slots.len();
        while self.is_taken(actor_id.as_str())
            invariant
                base@ == short_name(full_name@),
                self@.ids().len() == count,
                1 <= number <= count + 1,
                actor_id@ == numbered(base@, number as nat),
                forall|k: nat|
                    1 <= k < number ==> self@.ids().contains(#[trigger] numbered(base@, k)),
            decreases count + 1 - number,
        {
            proof {
                taken_numbers_are_few(self@.ids(), base@, number as nat);
            }
            number += 1;
            let digits = decimal_text(number);
            actor_id = base.to_owned();
            actor_id.append("-");
            actor_id.append(digits.as_str());
        }
        assert(is_first_free(self@.ids(), base@, number as nat));
        actor_id
    }

    /// Registers an actor under its unqualified type name.
    ///
    /// If multiple actors have the same type name, later registrations receive
    /// `-2`, `-3`, and so on. Returns the id.
    pub fn add(
        &mut self,
        full_name: &str,
        message_type: MessageType,
        binding: B,
        runner: R,
    ) -> (actor_id: String)
        ensures
            final(self)@.is_consistent(),
            exists|n: nat| #[trigger]
                is_first_free(old(self)@.ids(), short_name(full_name@), n) && actor_id@ == numbered(
                    short_name(full_name@),
                    n,
                ),
            final(self)@ == old(self)@.with_slot(
                SlotView { actor_id: actor_id@, message_type, binding, runner: Some(runner) },
            ),
    {
        let actor_id = self.id_for_type(full_name);
        let _ = self.actor(actor_id.as_str(), message_type, binding, runner);
        actor_id
    }

    /// Validates the graph and returns it. A graph without a name draws an
    /// anonymous one from `ids`.
    pub fn build(self, ids: &mut IdSource) -> (result: Result<Graph<B, R>, GraphBuildError>)
        ensures
            match build_problem(self@) {
                Some(problem) => result matches Err(error) && error@ == problem,
                None => result matches Ok(graph) && graph@ =~= built(
                    self@,
                    crate::observability::anonymous_name(old(ids)@),
                ) && graph@.is_valid(),
            },
            final(ids)@ == if self@.name is None {
                old(ids)@.wrapping_add(1)
            } else {
                old(ids)@
            },
    {
        proof {
            use_type_invariant(&self);
        }
        let ghost before = self@;
        let GraphBuilder {
            builder_id: _,
            name,
            slots,
            mut errors,
            mailbox_capacity,
            actor_shutdown_timeout,
        } = self;
        let graph_name = match name {
            Some(name) => {
                if name.as_str().unicode_len() == 0 {
                    return Err(GraphBuildError::InvalidConfig("graph name must not be empty"));
                }
                name
            },
            None => anonymous_graph_name(ids),
        };
        if errors.len() > 0 {
            return Err(errors.remove(0));
        }
        if slots.len() == 0 {
            return Err(GraphBuildError::EmptyGraph);
        }
        if mailbox_capacity == 0 {
            return Err(GraphBuildError::InvalidConfig("mailbox capacity must be non-zero"));
        }
        let ghost all = slots@;
        let mut remaining = slots;
        let mut actors: Vec<GraphActor<B, R>> = Vec::new();
        while remaining.len() > 0
            invariant
                before == self@,
                ids@ == if before.name is None {
                    old(ids)@.wrapping_add(1)
                } else {
                    old(ids)@
                },
                before.slots == all.map_values(|slot: Slot<B, R>| slot.shown()),
                actors@.len() + remaining@.len() == all.len(),
                remaining@ == all.skip(actors@.len() as int),
                filled(before.slots, actors@.len() as int),
                forall|i: int|
                    0 <= i < actors@.len() ==> (#[trigger] actors@[i])@ == as_actor(
                        before.slots[i],
                    ),
                before.errors.len() == 0,
                before.slots.len() > 0,
                before.mailbox_capacity > 0,
                before.name matches Some(name) ==> name.len() > 0,
            decreases remaining@.len(),
        {
            let ghost done = actors@.len() as int;
            let slot = remaining.remove(0);
            assert(slot.shown() == before.slots[done]);
            assert(remaining@ =~= all.skip(done + 1));
            let runner = match slot.runner {
                Some(runner) => runner,
                None => {
                    proof {
                        unfilled_skips(before.slots, 0, done);
                    }
                    return Err(GraphBuildError::MissingActor { actor_id: slot.actor_id });
                },
            };
            let actor = GraphActor {
                actor_id: slot.actor_id,
                message_type: slot.message_type,
                binding: slot.binding,
                runner,
            };
            actors.push(actor);
        }
        proof {
            unfilled_skips(before.slots, 0, before.slots.len() as int);
            let fallback = crate::observability::anonymous_name(old(ids)@);
            reveal_strlit("graph-");
            built_graphs_are_valid(before, fallback);
            assert(actors@.map_values(|actor: GraphActor<B, R>| actor@) =~= built(
                before,
                fallback,
            ).actors);
        }
        Ok(Graph::new(graph_name, actors, mailbox_capacity, actor_shutdown_timeout))
    }
}

/// Registering an actor under a fresh, non-empty id makes no mistake, and
/// never touches what was registered before.
pub proof fn fresh_ids_are_accepted<B, R>(builder: GraphBuilderView<B, R>, slot: SlotView<B, R>)
    requires
        builder.is_consistent(),
        slot.actor_id.len() > 0,
        !builder.ids().contains(slot.actor_id),
    ensures
        builder.with_slot(slot).errors == builder.errors,
        builder.with_slot(slot).slots == builder.slots.push(slot),
        builder.with_slot(slot).is_consistent(),
{
    let after = builder.with_slot(slot);
    assert(after.ids() =~= builder.ids().push(slot.actor_id));
}

/// The first mistake made while registering is the one that is reported,
/// whatever follows it.
pub proof fn first_mistake_is_reported<B, R>(
    builder: GraphBuilderView<B, R>,
    slot: SlotView<B, R>,
    error: GraphBuildErrorView,
)
    requires
        builder.errors.len() > 0,
        builder.name matches Some(name) ==> name.len() > 0,
    ensures
        build_problem(builder) == Some(builder.errors[0]),
        build_problem(builder.with_error(error)) == build_problem(builder),
        build_problem(builder.with_slot(slot)) == build_problem(builder),
{
}

proof fn before_generics_stops_at_the_first(name: Seq<char>)
    ensures
        0 <= before_generics(name) <= name.len(),
        forall|i: int| 0 <= i < before_generics(name) ==> name[i] != '<',
        before_generics(name) < name.len() ==> name[before_generics(name)] == '<',
    decreases name.len(),
{
    if name.len() > 0 && name[0] != '<' {
        let rest = name.skip(1);
        before_generics_stops_at_the_first(rest);
        assert forall|i: int| 0 <= i < before_generics(name) implies name[i] != '<' by {
            if i > 0 {
                assert(rest[i - 1] == name[i]);
            }
        }
    }
}

proof fn segments_start_behind_the_last_separator(name: Seq<char>, end: int)
    requires
        0 <= end <= name.len(),
    ensures
        0 <= segment_start(name, end) <= end,
        segment_start(name, end) == 0 || (segment_start(name, end) >= 2 && name[segment_start(
            name,
            end,
        ) - 1] == ':' && name[segment_start(name, end) - 2] == ':'),
        forall|i: int|
            segment_start(name, end) <= i < end - 1 ==> !(#[trigger] name[i] == ':' && name[i + 1]
                == ':'),
    decreases end,
{
    if end >= 2 && !(name[end - 1] == ':' && name[end - 2] == ':') {
        segments_start_behind_the_last_separator(name, end - 1);
    }
}

/// The short name of a type is the last path segment of what stands before its
/// generic arguments: it holds no `::`, nothing follows it but the end or a
/// `<`, nothing before its end is a `<`, and nothing stands before it but a
/// path that ends with `::`.
pub proof fn short_names_are_last_segments(name: Seq<char>)
    ensures
        exists|start: int, end: int|
            {
                &&& 0 <= start <= end <= name.len()
                &&& short_name(name) == #[trigger] name.subrange(start, end)
                &&& forall|i: int| 0 <= i < end ==> name[i] != '<'
                &&& end < name.len() ==> name[end] == '<'
                &&& start == 0 || (start >= 2 && name[start - 1] == ':' && name[start - 2] == ':')
            },
        forall|i: int|
            0 <= i < short_name(name).len() - 1 ==> !(#[trigger] short_name(name)[i] == ':'
                && short_name(name)[i + 1] == ':'),
        forall|i: int| 0 <= i < short_name(name).len() ==> short_name(name)[i] != '<',
{
    let end = before_generics(name);
    before_generics_stops_at_the_first(name);
    segments_start_behind_the_last_separator(name, end);
    let start = segment_start(name, end);
    assert(short_name(name) == name.subrange(start, end));
    assert forall|i: int| 0 <= i < short_name(name).len() - 1 implies !(#[trigger] short_name(
        name,
    )[i] == ':' && short_name(name)[i + 1] == ':') by {
        assert(name[start + i] == short_name(name)[i]);
    }
}

/// A name without path and generic arguments is its own short name, and a path
/// or generic arguments around it change nothing.
pub proof fn paths_and_generics_are_dropped(path: Seq<char>, name: Seq<char>, generics: Seq<char>)
    requires
        forall|i: int| 0 <= i < name.len() ==> name[i] != '<' && name[i] != ':',
        forall|i: int| 0 <= i < path.len() ==> path[i] != '<',
        generics.len() > 0 ==> generics[0] == '<',
    ensures
        short_name(name) == name,
        short_name(path + seq![':', ':'] + name + generics) == name,
{
    before_generics_stops_at_the_first(name);
    segments_start_behind_the_last_separator(name, name.len() as int);
    assert(before_generics(name) == name.len());
    assert(short_name(name) =~= name);
    let full = path + seq![':', ':'] + name + generics;
    let start = path.len() + 2;
    let end = start + name.len();
    before_generics_stops_at_the_first(full);
    let found = before_generics(full);
    assert forall|i: int| 0 <= i < end implies full[i] != '<' by {
        if i < path.len() {
            assert(full[i] == path[i]);
        } else if i >= start {
            assert(full[i] == name[i - start]);
        }
    }
    if generics.len() > 0 {
        assert(full[end as int] == generics[0]);
    }
    assert(found == end);
    segments_start_behind_the_last_separator(full, end as int);
    let begin = segment_start(full, end as int);
    assert(full[start - 1] == ':' && full[start - 2] == ':');
    if begin > start {
        assert(full[begin - 1] == name[begin - 1 - start]);
    }
    if begin < start {
        assert(full[start - 2] == ':' && full[start - 1] == ':');
        if begin == start - 1 {
            if name.len() > 0 {
                behind_a_separator(full, end as int, start as int);
            } else {
                behind_a_separator(full, end as int, start as int);
            }
        }
    }
    assert(begin == start);
    assert(full.subrange(begin, end as int) =~= name);
}

proof fn behind_a_separator(name: Seq<char>, end: int, start: int)
    requires
        2 <= start <= end <= name.len(),
        name[start - 1] == ':' && name[start - 2] == ':',
    ensures
        segment_start(name, end) >= start,
    decreases end,
{
    if end > start && !(name[end - 1] == ':' && name[end - 2] == ':') {
        behind_a_separator(name, end - 1, start);
    }
}

/// The first actor of a name gets the name itself, and the next ones the name,
/// a dash and their number.
pub proof fn equal_names_are_numbered(base: Seq<char>, n: nat)
    ensures
        numbered(base, 1) == base,
        n >= 2 ==> {
            &&& numbered(base, n).len() > base.len() + 1
            &&& numbered(base, n).take(base.len() as int) == base
            &&& numbered(base, n)[base.len() as int] == '-'
            &&& crate::text::number_shown(numbered(base, n).skip(base.len() as int + 1)) == n
        },
{
    reveal_strlit("-");
    if n >= 2 {
        crate::text::decimals_read_back(n);
        assert(numbered(base, n).take(base.len() as int) =~= base);
        assert(numbered(base, n).skip(base.len() as int + 1) =~= crate::text::decimal(n));
    }
}

/// The number that an actor gets is the smallest one that is free: the bare
/// name where nobody has it, and there is exactly one such number.
pub proof fn the_smallest_free_number_is_given(
    ids: Seq<Seq<char>>,
    base: Seq<char>,
    n: nat,
    other: nat,
)
    requires
        is_first_free(ids, base, n),
    ensures
        !ids.contains(numbered(base, n)),
        n == 1 <==> !ids.contains(base),
        is_first_free(ids, base, other) ==> other == n,
        1 <= other < n ==> ids.contains(numbered(base, other)),
{
    assert(numbered(base, 1) == base);
    if is_first_free(ids, base, other) {
        if other < n {
            assert(ids.contains(numbered(base, other)));
        } else if n < other {
            assert(ids.contains(numbered(base, n)));
        }
    }
}

/// Asking for a position opens one at the end, or records the one mistake that
/// was made, and never both: an empty id, or one that a position has already.
/// Nothing else of the builder changes.
pub proof fn positions_are_opened_or_refused<B, R>(
    builder: GraphBuilderView<B, R>,
    slot: SlotView<B, R>,
)
    ensures
        ({
            let after = builder.with_slot(slot);
            let taken = exists|i: int|
                0 <= i < builder.slots.len() && (#[trigger] builder.slots[i]).actor_id
                    == slot.actor_id;
            &&& slot.actor_id.len() > 0 && !taken ==> after.slots == builder.slots.push(slot)
                && after.errors == builder.errors
            &&& slot.actor_id.len() == 0 ==> after.slots == builder.slots && after.errors
                == builder.errors.push(
                GraphBuildErrorView::InvalidConfig { reason: "actor id must not be empty"@ },
            )
            &&& slot.actor_id.len() > 0 && taken ==> after.slots == builder.slots && after.errors
                == builder.errors.push(
                GraphBuildErrorView::DuplicateActorId { actor_id: slot.actor_id },
            )
            &&& after.builder_id == builder.builder_id
            &&& after.name == builder.name
            &&& after.mailbox_capacity == builder.mailbox_capacity
            &&& after.actor_shutdown_timeout == builder.actor_shutdown_timeout
        }),
{
    let ids = builder.ids();
    if ids.contains(slot.actor_id) {
        let i = choose|i: int| 0 <= i < ids.len() && ids[i] == slot.actor_id;
        assert(builder.slots[i].actor_id == slot.actor_id);
    }
    if exists|i: int|
        0 <= i < builder.slots.len() && (#[trigger] builder.slots[i]).actor_id == slot.actor_id {
        let i = choose|i: int|
            0 <= i < builder.slots.len() && (#[trigger] builder.slots[i]).actor_id == slot.actor_id;
        assert(ids[i] == slot.actor_id);
    }
}

/// Filling a position gives it that actor, and changes nothing else of it nor
/// of any other.
pub proof fn filling_touches_one_position<B, R>(
    builder: GraphBuilderView<B, R>,
    index: int,
    runner: R,
    other: int,
)
    requires
        0 <= index < builder.slots.len(),
        0 <= other < builder.slots.len(),
    ensures
        ({
            let after = builder.with_runner(index, runner);
            &&& after.slots.len() == builder.slots.len()
            &&& after.slots[index].runner == Some(runner)
            &&& after.slots[index].actor_id == builder.slots[index].actor_id
            &&& after.slots[index].message_type == builder.slots[index].message_type
            &&& after.slots[index].binding == builder.slots[index].binding
            &&& other != index ==> after.slots[other] == builder.slots[other]
            &&& after.errors == builder.errors
            &&& after.name == builder.name
            &&& after.mailbox_capacity == builder.mailbox_capacity
            &&& after.actor_shutdown_timeout == builder.actor_shutdown_timeout
            &&& after.builder_id == builder.builder_id
        }),
{
}

/// Of the things that are wrong with a graph, the first in this order is
/// reported: an empty name, the first mistake made while registering, no
/// actors, mailboxes without room, the first position without an actor.
pub proof fn problems_are_reported_in_order<B, R>(builder: GraphBuilderView<B, R>, index: int)
    ensures
        ({
            let named = builder.name matches Some(name) ==> name.len() > 0;
            let problem = build_problem(builder);
            &&& !named ==> problem == Some(
                GraphBuildErrorView::InvalidConfig { reason: "graph name must not be empty"@ },
            )
            &&& named && builder.errors.len() > 0 ==> problem == Some(builder.errors[0])
            &&& named && builder.errors.len() == 0 && builder.slots.len() == 0 ==> problem == Some(
                GraphBuildErrorView::EmptyGraph,
            )
            &&& named && builder.errors.len() == 0 && builder.slots.len() > 0
                && builder.mailbox_capacity == 0 ==> problem == Some(
                GraphBuildErrorView::InvalidConfig { reason: "mailbox capacity must be non-zero"@ },
            )
            &&& named && builder.errors.len() == 0 && builder.mailbox_capacity > 0 && 0 <= index
                < builder.slots.len() && builder.slots[index].runner is None && (forall|i: int|
                0 <= i < index ==> (#[trigger] builder.slots[i]).runner is Some) ==> problem
                == Some(
                GraphBuildErrorView::MissingActor { actor_id: builder.slots[index].actor_id },
            )
        }),
{
    if 0 <= index < builder.slots.len() && (forall|i: int|
        0 <= i < index ==> (#[trigger] builder.slots[i]).runner is Some) {
        unfilled_skips(builder.slots, 0, index);
    }
}

/// A built graph holds what the builder was told: its name, or the fallback
/// where it has none, its capacity and timeout, and for each position the actor
/// with its id, message type, binding and runner. It is idle.
pub proof fn built_graphs_hold_what_was_told<B, R>(
    builder: GraphBuilderView<B, R>,
    fallback: Seq<char>,
    index: int,
)
    requires
        0 <= index < builder.slots.len(),
        builder.slots[index].runner is Some,
    ensures
        ({
            let graph = built(builder, fallback);
            let actor = graph.actors[index];
            &&& builder.name matches Some(name) ==> graph.name == name
            &&& builder.name is None ==> graph.name == fallback
            &&& graph.mailbox_capacity == builder.mailbox_capacity
            &&& graph.actor_shutdown_timeout == builder.actor_shutdown_timeout
            &&& graph.state == GraphState::Idle
            &&& graph.actors.len() == builder.slots.len()
            &&& actor.actor_id == builder.slots[index].actor_id
            &&& actor.message_type == builder.slots[index].message_type
            &&& actor.binding == builder.slots[index].binding
            &&& Some(actor.runner) == builder.slots[index].runner
        }),
{
}

/// The short name of a type stands right before its generics, behind the last
/// `::` of its path: it holds neither `::` nor `<`.
pub proof fn types_are_called_by_their_last_segment(full_name: &str, short: &str)
    requires
        call_ensures(short_type_name, (full_name,), short),
    ensures
        exists|start: int, end: int|
            {
                &&& 0 <= start <= end <= full_name@.len()
                &&& short@ == #[trigger] full_name@.subrange(start, end)
                &&& forall|i: int| 0 <= i < end ==> full_name@[i] != '<'
                &&& end < full_name@.len() ==> full_name@[end] == '<'
                &&& start == 0 || (start >= 2 && full_name@[start - 1] == ':' && full_name@[start
                    - 2] == ':')
            },
        forall|i: int|
            0 <= i < short@.len() - 1 ==> !(#[trigger] short@[i] == ':' && short@[i + 1] == ':'),
        forall|i: int| 0 <= i < short@.len() ==> short@[i] != '<',
{
    short_names_are_last_segments(full_name@);
}

/// The id of an added actor was free and is its type's short name, or that name,
/// a hyphen and a number; the plain name is given exactly where it was free. A
/// position with that id, message type, binding and runner is opened, unless the
/// id is empty.
pub proof fn added_actors_get_a_free_id<B, R>(
    builder: &mut GraphBuilder<B, R>,
    full_name: &str,
    short: &str,
    message_type: MessageType,
    binding: B,
    runner: R,
    actor_id: String,
)
    requires
        call_ensures(short_type_name, (full_name,), short),
        call_ensures(
            GraphBuilder::<B, R>::add,
            (builder, full_name, message_type, binding, runner),
            actor_id,
        ),
    ensures
        forall|i: int|
            0 <= i < old(builder)@.slots.len() ==> (#[trigger] old(builder)@.slots[i]).actor_id
                != actor_id@,
        actor_id@ == short@ <==> (forall|i: int|
            0 <= i < old(builder)@.slots.len() ==> (#[trigger] old(builder)@.slots[i]).actor_id
                != short@),
        actor_id@ != short@ ==> {
            &&& actor_id@.len() > short@.len() + 1
            &&& actor_id@.take(short@.len() as int) == short@
            &&& actor_id@[short@.len() as int] == '-'
            &&& crate::text::number_shown(actor_id@.skip(short@.len() as int + 1)) >= 2
        },
        actor_id@.len() > 0 ==> {
            &&& final(builder)@.slots == old(builder)@.slots.push(
                SlotView { actor_id: actor_id@, message_type, binding, runner: Some(runner) },
            )
            &&& final(builder)@.errors == old(builder)@.errors
        },
        final(builder)@.builder_id == old(builder)@.builder_id,
        final(builder)@.name == old(builder)@.name,
{
    let ids = old(builder)@.ids();
    let base = short_name(full_name@);
    let n = choose|n: nat| #[trigger] is_first_free(ids, base, n) && actor_id@ == numbered(base, n);
    the_smallest_free_number_is_given(ids, base, n, n);
    equal_names_are_numbered(base, n);
    assert forall|i: int| 0 <= i < old(builder)@.slots.len() implies (
    #[trigger] old(builder)@.slots[i]).actor_id != actor_id@ by {
        assert(ids[i] == old(builder)@.slots[i].actor_id);
    }
    if ids.contains(base) {
        let i = choose|i: int| 0 <= i < ids.len() && ids[i] == base;
        assert(old(builder)@.slots[i].actor_id == base);
    } else {
        assert forall|i: int| 0 <= i < old(builder)@.slots.len() implies (
        #[trigger] old(builder)@.slots[i]).actor_id != short@ by {
            assert(ids[i] == old(builder)@.slots[i].actor_id);
        }
    }
    positions_are_opened_or_refused(
        old(builder)@,
        SlotView { actor_id: actor_id@, message_type, binding, runner: Some(runner) },
    );
}

/// Two actors of one type added one after the other get different ids.
pub proof fn actors_of_one_type_differ<B, R>(
    first: &mut GraphBuilder<B, R>,
    second: &mut GraphBuilder<B, R>,
    full_name: &str,
    types: (MessageType, MessageType),
    bindings: (B, B),
    runners: (R, R),
    earlier: String,
    later: String,
)
    requires
        call_ensures(
            GraphBuilder::<B, R>::add,
            (first, full_name, types.0, bindings.0, runners.0),
            earlier,
        ),
        earlier@.len() > 0,
        *old(second) == *final(first),
        call_ensures(
            GraphBuilder::<B, R>::add,
            (second, full_name, types.1, bindings.1, runners.1),
            later,
        ),
    ensures
        earlier@ != later@,
        final(second)@.slots.len() == old(first)@.slots.len() + 2,
        final(second)@.errors == old(first)@.errors,
{
    let ids = old(first)@.ids();
    assert(!ids.contains(earlier@));
    let opened = SlotView {
        actor_id: earlier@,
        message_type: types.0,
        binding: bindings.0,
        runner: Some(runners.0),
    };
    positions_are_opened_or_refused(old(first)@, opened);
    if exists|i: int|
        0 <= i < old(first)@.slots.len() && (#[trigger] old(first)@.slots[i]).actor_id
            == earlier@ {
        let i = choose|i: int|
            0 <= i < old(first)@.slots.len() && (#[trigger] old(first)@.slots[i]).actor_id
                == earlier@;
        assert(ids[i] == earlier@);
    }
    let place = old(first)@.slots.len() as int;
    assert(old(second)@.slots[place] == opened);
    assert(old(second)@.ids()[place] == earlier@);
    assert(!old(second)@.ids().contains(later@));
    let base = short_name(full_name@);
    assert(later@.len() > 0) by {
        let n = choose|n: nat| #[trigger]
            is_first_free(old(second)@.ids(), base, n) && later@ == numbered(base, n);
        equal_names_are_numbered(base, n);
        if n <= 1 {
            let m = choose|m: nat| #[trigger]
                is_first_free(ids, base, m) && earlier@ == numbered(base, m);
            equal_names_are_numbered(base, m);
            the_smallest_free_number_is_given(ids, base, m, 1);
            if m > 1 {
                assert(ids.contains(numbered(base, 1)));
                let i = choose|i: int| 0 <= i < ids.len() && ids[i] == base;
                assert(old(second)@.ids()[i] == base);
            }
        }
    }
    positions_are_opened_or_refused(
        old(second)@,
        SlotView {
            actor_id: later@,
            message_type: types.1,
            binding: bindings.1,
            runner: Some(runners.1),
        },
    );
}

/// An opened position that is then filled holds what both calls told: a free id
/// gets a new last position with the runner, and no mistake is noted. A position
/// that was refused is noted once, and filling it changes nothing.
pub proof fn opened_positions_are_filled<B, R, M>(
    opening: &mut GraphBuilder<B, R>,
    filling: &mut GraphBuilder<B, R>,
    actor_id: &str,
    message_type: MessageType,
    binding: B,
    slot: ActorSlot<M>,
    runner: R,
    done: (),
)
    requires
        old(opening)@.slots.len() < usize::MAX,
        call_ensures(
            GraphBuilder::<B, R>::slot::<M>,
            (opening, actor_id, message_type, binding),
            slot,
        ),
        *old(filling) == *final(opening),
        call_ensures(GraphBuilder::<B, R>::define::<M>, (filling, slot, runner), done),
    ensures
        ({
            let free = actor_id@.len() > 0 && forall|i: int|
                0 <= i < old(opening)@.slots.len() ==> (#[trigger] old(opening)@.slots[i]).actor_id
                    != actor_id@;
            &&& free ==> final(filling)@.slots =~= old(opening)@.slots.push(
                SlotView { actor_id: actor_id@, message_type, binding, runner: Some(runner) },
            ) && final(filling)@.errors == old(opening)@.errors
            &&& !free ==> final(filling)@.slots == old(opening)@.slots
                && final(filling)@.errors.len() == old(opening)@.errors.len() + 1
            &&& !free && actor_id@.len() > 0 ==> final(filling)@.errors.last()
                == (GraphBuildErrorView::DuplicateActorId { actor_id: actor_id@ })
        }),
{
    positions_are_opened_or_refused(
        old(opening)@,
        SlotView { actor_id: actor_id@, message_type, binding, runner: None },
    );
    if let Some(_) = old(opening)@.id_problem(actor_id@) {
    } else {
        let index = slot.place().unwrap() as int;
        filling_touches_one_position(old(filling)@, index, runner, index);
    }
    if old(opening)@.ids().contains(actor_id@) {
        let i = choose|i: int|
            0 <= i < old(opening)@.ids().len() && old(opening)@.ids()[i] == actor_id@;
        assert(old(opening)@.slots[i].actor_id == actor_id@);
    } else {
        assert forall|i: int| 0 <= i < old(opening)@.slots.len() implies (
        #[trigger] old(opening)@.slots[i]).actor_id != actor_id@ by {
            assert(old(opening)@.ids()[i] == old(opening)@.slots[i].actor_id);
        }
    }
}

/// A position of another builder is not filled but noted as a mistake.
pub proof fn positions_stay_with_their_builder<B, R, M>(
    builder: &mut GraphBuilder<B, R>,
    slot: ActorSlot<M>,
    runner: R,
    done: (),
)
    requires
        slot.owner() != old(builder)@.builder_id,
        call_ensures(GraphBuilder::<B, R>::define::<M>, (builder, slot, runner), done),
    ensures
        final(builder)@.slots == old(builder)@.slots,
        final(builder)@.errors == old(builder)@.errors.push(
            GraphBuildErrorView::InvalidConfig {
                reason: "actor slot belongs to a different graph builder"@,
            },
        ),
{
}

/// A graph is built exactly where its name is not empty, no mistake was noted,
/// there are positions and each is filled, and mailboxes hold something. It has
/// the actors as they were told, and a fresh name is drawn only where none was
/// given.
pub proof fn complete_descriptions_build<B, R>(
    builder: GraphBuilder<B, R>,
    ids: &mut crate::observability::IdSource,
    result: Result<Graph<B, R>, GraphBuildError>,
    index: int,
)
    requires
        call_ensures(GraphBuilder::<B, R>::build, (builder, ids), result),
    ensures
        result is Ok <==> {
            &&& builder@.name matches Some(name) ==> name.len() > 0
            &&& builder@.errors.len() == 0
            &&& builder@.slots.len() > 0
            &&& builder@.mailbox_capacity > 0
            &&& forall|i: int|
                0 <= i < builder@.slots.len() ==> (#[trigger] builder@.slots[i]).runner is Some
        },
        result matches Ok(graph) ==> {
            &&& builder@.name matches Some(name) ==> graph@.name == name
            &&& graph@.actors.len() == builder@.slots.len()
            &&& graph@.mailbox_capacity == builder@.mailbox_capacity
            &&& graph@.actor_shutdown_timeout == builder@.actor_shutdown_timeout
            &&& graph@.state is Idle
            &&& 0 <= index < builder@.slots.len() ==> {
                &&& graph@.actors[index].actor_id == builder@.slots[index].actor_id
                &&& graph@.actors[index].message_type == builder@.slots[index].message_type
                &&& graph@.actors[index].binding == builder@.slots[index].binding
                &&& Some(graph@.actors[index].runner) == builder@.slots[index].runner
            }
        },
        builder@.name is Some ==> final(ids)@ == old(ids)@,
        builder@.name is None ==> final(ids)@ == old(ids)@.wrapping_add(1),
        result matches Err(error) ==> builder@.errors.len() > 0 && !(
        builder@.name matches Some(name) && name.len() == 0) ==> error@ == builder@.errors[0],
{
    builds_exactly_when_complete(builder@);
    problems_are_reported_in_order(builder@, index);
    if result is Ok && 0 <= index < builder@.slots.len() {
        built_graphs_hold_what_was_told(
            builder@,
            crate::observability::anonymous_name(old(ids)@),
            index,
        );
    }
    if result is Ok {
        built_graphs_hold_what_was_told(
            builder@,
            crate::observability::anonymous_name(old(ids)@),
            0,
        );
    }
}

/// A builder starts with no actors, mailboxes of 64 messages and five seconds to
/// shut down; what is set afterwards is what a graph is built with.
pub proof fn settings_reach_the_graph<B, R>(
    drawing: &mut crate::observability::IdSource,
    made: GraphBuilder<B, R>,
    naming: &mut GraphBuilder<B, R>,
    sizing: &mut GraphBuilder<B, R>,
    timing: &mut GraphBuilder<B, R>,
    name: &str,
    capacity: usize,
    timeout: TimeSpan,
    done: ((), (), ()),
    ids: &mut crate::observability::IdSource,
    result: Result<Graph<B, R>, GraphBuildError>,
)
    requires
        call_ensures(GraphBuilder::<B, R>::new, (drawing,), made),
        call_ensures(GraphBuilder::<B, R>::name, (naming, name), done.0),
        *old(sizing) == *final(naming),
        call_ensures(GraphBuilder::<B, R>::mailbox_capacity, (sizing, capacity), done.1),
        *old(timing) == *final(sizing),
        call_ensures(GraphBuilder::<B, R>::actor_shutdown_timeout, (timing, timeout), done.2),
        call_ensures(GraphBuilder::<B, R>::build, (*final(timing), ids), result),
    ensures
        made@.slots.len() == 0,
        made@.errors.len() == 0,
        made@.name is None,
        made@.mailbox_capacity == 64,
        made@.actor_shutdown_timeout == (TimeSpan { secs: 5, nanos: 0 }),
        made@.builder_id == old(drawing)@,
        final(timing)@.slots == old(naming)@.slots,
        final(timing)@.errors == old(naming)@.errors,
        final(timing)@.builder_id == old(naming)@.builder_id,
        result matches Ok(graph) ==> {
            &&& graph@.name == name@
            &&& graph@.mailbox_capacity == capacity
            &&& graph@.actor_shutdown_timeout == timeout
        },
        name@.len() == 0 ==> result is Err,
        capacity == 0 ==> result is Err,
{
    complete_descriptions_build(*final(timing), ids, result, 0);
}

/// An actor that is added under a free id of its own has the new last position,
/// with its runner; a taken or empty id opens none and is noted.
pub proof fn actors_are_added_under_their_id<B, R>(
    builder: &mut GraphBuilder<B, R>,
    actor_id: &str,
    message_type: MessageType,
    binding: B,
    runner: R,
    index: Option<usize>,
)
    requires
        call_ensures(
            GraphBuilder::<B, R>::actor,
            (builder, actor_id, message_type, binding, runner),
            index,
        ),
    ensures
        index is Some <==> actor_id@.len() > 0 && forall|i: int|
            0 <= i < old(builder)@.slots.len() ==> (#[trigger] old(builder)@.slots[i]).actor_id
                != actor_id@,
        index matches Some(place) ==> place == old(builder)@.slots.len()
            && final(builder)@.slots == old(builder)@.slots.push(
            SlotView { actor_id: actor_id@, message_type, binding, runner: Some(runner) },
        ) && final(builder)@.errors == old(builder)@.errors,
        index is None ==> final(builder)@.slots == old(builder)@.slots
            && final(builder)@.errors.len() == old(builder)@.errors.len() + 1,
{
    positions_are_opened_or_refused(
        old(builder)@,
        SlotView { actor_id: actor_id@, message_type, binding, runner: Some(runner) },
    );
    if old(builder)@.ids().contains(actor_id@) {
        let i = choose|i: int|
            0 <= i < old(builder)@.ids().len() && old(builder)@.ids()[i] == actor_id@;
        assert(old(builder)@.slots[i].actor_id == actor_id@);
    } else {
        assert forall|i: int| 0 <= i < old(builder)@.slots.len() implies (
        #[trigger] old(builder)@.slots[i]).actor_id != actor_id@ by {
            assert(old(builder)@.ids()[i] == old(builder)@.slots[i].actor_id);
        }
    }
}

/// A built graph has a name, actors, mailboxes that hold something, and no id
/// twice.
pub proof fn built_graphs_are_usable<B, R>(
    builder: GraphBuilder<B, R>,
    ids: &mut crate::observability::IdSource,
    result: Result<Graph<B, R>, GraphBuildError>,
)
    requires
        call_ensures(GraphBuilder::<B, R>::build, (builder, ids), result),
        result is Ok,
    ensures
        result->Ok_0@.name.len() > 0,
        result->Ok_0@.mailbox_capacity > 0,
        result->Ok_0@.actors.len() > 0,
        forall|i: int, j: int|
            0 <= i < j < result->Ok_0@.actors.len() ==> (
            #[trigger] result->Ok_0@.actors[i]).actor_id != (
            #[trigger] result->Ok_0@.actors[j]).actor_id,
{
}

/// Whatever a builder is told, it has no position without an id and no id twice.
pub proof fn positions_have_their_own_ids<B, R, M>(
    opening: &mut GraphBuilder<B, R>,
    filling: &mut GraphBuilder<B, R>,
    actor_id: &str,
    message_type: MessageType,
    binding: B,
    runner: R,
    opened: ActorSlot<M>,
    slot: ActorSlot<M>,
    done: (),
)
    requires
        call_ensures(
            GraphBuilder::<B, R>::slot::<M>,
            (opening, actor_id, message_type, binding),
            opened,
        ),
        call_ensures(GraphBuilder::<B, R>::define::<M>, (filling, slot, runner), done),
    ensures
        forall|i: int|
            0 <= i < final(opening)@.slots.len() ==> (
            #[trigger] final(opening)@.slots[i]).actor_id.len() > 0,
        forall|i: int, j: int|
            0 <= i < j < final(opening)@.slots.len() ==> (
            #[trigger] final(opening)@.slots[i]).actor_id != (
            #[trigger] final(opening)@.slots[j]).actor_id,
        forall|i: int|
            0 <= i < final(filling)@.slots.len() ==> (
            #[trigger] final(filling)@.slots[i]).actor_id.len() > 0,
        forall|i: int, j: int|
            0 <= i < j < final(filling)@.slots.len() ==> (
            #[trigger] final(filling)@.slots[i]).actor_id != (
            #[trigger] final(filling)@.slots[j]).actor_id,
{
    distinct_ids(final(opening)@);
    distinct_ids(final(filling)@);
}

proof fn distinct_ids<B, R>(builder: GraphBuilderView<B, R>)
    requires
        builder.is_consistent(),
    ensures
        forall|i: int, j: int|
            0 <= i < j < builder.slots.len() ==> (#[trigger] builder.slots[i]).actor_id != (
            #[trigger] builder.slots[j]).actor_id,
{
    assert forall|i: int, j: int| 0 <= i < j < builder.slots.len() implies (
    #[trigger] builder.slots[i]).actor_id != (#[trigger] builder.slots[j]).actor_id by {
        assert(builder.ids()[i] == builder.slots[i].actor_id);
        assert(builder.ids()[j] == builder.slots[j].actor_id);
    }
}

/// The id that a type's next actor would get is free, and is the one that the
/// actor gets when it is added.
pub proof fn ids_are_foretold<B, R>(
    builder: &mut GraphBuilder<B, R>,
    full_name: &str,
    message_type: MessageType,
    binding: B,
    runner: R,
    foretold: String,
    given: String,
)
    requires
        call_ensures(GraphBuilder::<B, R>::id_for_type, (old(builder), full_name), foretold),
        call_ensures(
            GraphBuilder::<B, R>::add,
            (builder, full_name, message_type, binding, runner),
            given,
        ),
    ensures
        foretold@ == given@,
        !old(builder)@.ids().contains(foretold@),
{
    let ids = old(builder)@.ids();
    let base = short_name(full_name@);
    let n = choose|n: nat| #[trigger] is_first_free(ids, base, n) && foretold@ == numbered(base, n);
    let m = choose|m: nat| #[trigger] is_first_free(ids, base, m) && given@ == numbered(base, m);
    the_smallest_free_number_is_given(ids, base, n, m);
}

/// A position is open exactly where its id was accepted. One that its builder
/// does not have is noted as detached when it is filled.
pub proof fn detached_positions_are_noted<B, R, M>(
    builder: &mut GraphBuilder<B, R>,
    slot: ActorSlot<M>,
    open: bool,
    runner: R,
    done: (),
)
    requires
        call_ensures(ActorSlot::<M>::is_open, (&slot,), open),
        slot.owner() == old(builder)@.builder_id,
        call_ensures(GraphBuilder::<B, R>::define::<M>, (builder, slot, runner), done),
    ensures
        open <==> slot.place() is Some,
        !open ==> final(builder)@ == old(builder)@,
        open && slot.place().unwrap() >= old(builder)@.slots.len() ==> final(builder)@.slots
            == old(builder)@.slots && final(builder)@.errors == old(builder)@.errors.push(
            GraphBuildErrorView::InvalidConfig { reason: "actor slot is detached"@ },
        ),
        open && slot.place().unwrap() < old(builder)@.slots.len()
            ==> final(builder)@.slots[slot.place().unwrap() as int].runner == Some(runner)
            && final(builder)@.errors == old(builder)@.errors,
{
}

/// Two builders that draw from one source have different ids, so that neither
/// takes the other's positions for its own.
pub proof fn builders_differ<B, R>(
    first: &mut crate::observability::IdSource,
    second: &mut crate::observability::IdSource,
    earlier: GraphBuilder<B, R>,
    later: GraphBuilder<B, R>,
)
    requires
        old(first)@ < u64::MAX,
        call_ensures(GraphBuilder::<B, R>::new, (first,), earlier),
        *old(second) == *final(first),
        call_ensures(GraphBuilder::<B, R>::new, (second,), later),
    ensures
        later@.builder_id == earlier@.builder_id + 1,
{
}

} // verus!
