//! Building and validating typed graphs.
use vstd::prelude::*;
use crate::graph::{GraphActor, MessageType};
use crate::text::same_text;
use crate::typed::error::{BuildError, BuildErrorView};
use crate::typed::graph::{Graph, GraphView};
use crate::builder::{as_actor, filled, first_unfilled, SlotView};

verus! {

/// How many messages a mailbox queues unless the builder is told otherwise.
pub const DEFAULT_MAILBOX_CAPACITY: usize = 64;

struct Slot<B, R> {
    actor_id: String,
    message_type: MessageType,
    binding: B,
    runner: Option<R>,
}

impl<B, R> Slot<B, R> {
    spec fn shown(self) -> SlotView<B, R> {
        SlotView {
            actor_id: self.actor_id@,
            message_type: self.message_type,
            binding: self.binding,
            runner: self.runner,
        }
    }
}

/// Constructs and validates a typed actor graph.
///
/// `B` is what refs to an actor read, `R` what starts it. Errors (duplicate
/// ids, message-type mismatches, declared-but-missing actors) are collected
/// and reported by [`build`](Self::build).
pub struct GraphBuilder<B, R> {
    name: String,
    slots: Vec<Slot<B, R>>,
    errors: Vec<BuildError>,
    mailbox_capacity: usize,
}

/// What a [`GraphBuilder`] holds.
#[verifier::ext_equal]
pub struct GraphBuilderView<B, R> {
    pub name: Seq<char>,
    pub slots: Seq<SlotView<B, R>>,
    pub errors: Seq<BuildErrorView>,
    pub mailbox_capacity: usize,
}

impl<B, R> View for GraphBuilder<B, R> {
    type V = GraphBuilderView<B, R>;

    closed spec fn view(&self) -> GraphBuilderView<B, R> {
        GraphBuilderView {
            name: self.name@,
            slots: self.slots@.map_values(|slot: Slot<B, R>| slot.shown()),
            errors: self.errors@.map_values(|error: BuildError| error@),
            mailbox_capacity: self.mailbox_capacity,
        }
    }
}

impl<B, R> GraphBuilderView<B, R> {
    /// What every builder keeps: no id stands twice, and mailboxes have room.
    pub open spec fn is_consistent(self) -> bool {
        &&& self.mailbox_capacity > 0
        &&& forall|i: int, j: int|
            0 <= i < j < self.slots.len() ==> #[trigger] self.slots[i].actor_id
                != #[trigger] self.slots[j].actor_id
    }

    /// Where the given id stands at or after `from`, or how many positions
    /// there are.
    pub open spec fn place(self, actor_id: Seq<char>, from: int) -> int
        decreases self.slots.len() - from,
    {
        if from < 0 || from >= self.slots.len() {
            self.slots.len() as int
        } else if self.slots[from].actor_id == actor_id {
            from
        } else {
            self.place(actor_id, from + 1)
        }
    }

    /// Whether the id is used with another message type already.
    pub open spec fn is_mismatch(self, actor_id: Seq<char>, message_type: MessageType) -> bool {
        let place = self.place(actor_id, 0);
        place < self.slots.len() && self.slots[place].message_type.key != message_type.key
    }

    /// The builder after the id was referenced with the given message type: a
    /// new id gets a position with `fresh` as its binding, a known one keeps
    /// its own, and a type that differs from the first one is a mistake.
    pub open spec fn referenced(
        self,
        actor_id: Seq<char>,
        message_type: MessageType,
        fresh: B,
    ) -> Self {
        let place = self.place(actor_id, 0);
        if place == self.slots.len() {
            GraphBuilderView {
                slots: self.slots.push(
                    SlotView { actor_id, message_type, binding: fresh, runner: None },
                ),
                ..self
            }
        } else if self.slots[place].message_type.key == message_type.key {
            self
        } else {
            GraphBuilderView {
                errors: self.errors.push(
                    BuildErrorView::MessageTypeMismatch {
                        actor_id,
                        registered: self.slots[place].message_type.name@,
                        requested: message_type.name@,
                    },
                ),
                ..self
            }
        }
    }

    /// The builder after an implementation was registered under an id that
    /// has been referenced.
    pub open spec fn implemented(
        self,
        actor_id: Seq<char>,
        message_type: MessageType,
        runner: R,
    ) -> Self {
        let place = self.place(actor_id, 0);
        let slot = self.slots[place];
        if slot.message_type.key != message_type.key {
            self
        } else if slot.runner is Some {
            GraphBuilderView {
                errors: self.errors.push(BuildErrorView::DuplicateActor { actor_id }),
                ..self
            }
        } else {
            GraphBuilderView {
                slots: self.slots.update(place, SlotView { runner: Some(runner), ..slot }),
                ..self
            }
        }
    }
}

proof fn place_is_in_range<B, R>(builder: GraphBuilderView<B, R>, actor_id: Seq<char>, from: int)
    requires
        0 <= from <= builder.slots.len(),
    ensures
        from <= builder.place(actor_id, from) <= builder.slots.len(),
        builder.place(actor_id, from) < builder.slots.len() ==> builder.slots[builder.place(
            actor_id,
            from,
        )].actor_id == actor_id,
        forall|i: int|
            from <= i < builder.place(actor_id, from) ==> #[trigger] builder.slots[i].actor_id
                != actor_id,
    decreases builder.slots.len() - from,
{
    if from < builder.slots.len() && builder.slots[from].actor_id != actor_id {
        place_is_in_range(builder, actor_id, from + 1);
    }
}

proof fn pushed_is_placed_last<B, R>(
    builder: GraphBuilderView<B, R>,
    slot: SlotView<B, R>,
    from: int,
)
    requires
        0 <= from <= builder.slots.len(),
        forall|i: int|
            from <= i < builder.slots.len() ==> #[trigger] builder.slots[i].actor_id
                != slot.actor_id,
    ensures
        (GraphBuilderView { slots: builder.slots.push(slot), ..builder }).place(
            slot.actor_id,
            from,
        ) == builder.slots.len(),
    decreases builder.slots.len() - from,
{
    if from < builder.slots.len() {
        assert(builder.slots.push(slot)[from] == builder.slots[from]);
        pushed_is_placed_last(builder, slot, from + 1);
    }
}

/// What is wrong with a graph, if anything. Of several things the first in
/// this order is reported: a mistake made while registering actors, no actors
/// at all, a position without an implementation.
pub open spec fn build_problem<B, R>(builder: GraphBuilderView<B, R>) -> Option<BuildErrorView> {
    let unfilled = first_unfilled(builder.slots, 0);
    if builder.errors.len() > 0 {
        Some(builder.errors[0])
    } else if builder.slots.len() == 0 {
        Some(BuildErrorView::EmptyGraph)
    } else if unfilled < builder.slots.len() {
        Some(BuildErrorView::MissingActor { actor_id: builder.slots[unfilled].actor_id })
    } else {
        None
    }
}

/// The graph that a builder without problems builds.
pub open spec fn built<B, R>(builder: GraphBuilderView<B, R>) -> GraphView<B, R> {
    GraphView {
        name: builder.name,
        mailbox_capacity: builder.mailbox_capacity,
        actors: builder.slots.map_values(|slot: SlotView<B, R>| as_actor(slot)),
    }
}

impl<B, R> GraphBuilder<B, R> {
    /// What holds of every value.
    #[verifier::type_invariant]
    pub closed spec fn is_valid(self) -> bool {
        self@.is_consistent()
    }

    /// Creates a new builder with default settings.
    pub fn new() -> (builder: Self)
        ensures
            builder@ == (GraphBuilderView::<B, R> {
                name: "graph"@,
                slots: Seq::empty(),
                errors: Seq::empty(),
                mailbox_capacity: 64,
            }),
            builder@.is_consistent(),
    {
        let builder = GraphBuilder {
            name: "graph".to_owned(),
            slots: Vec::new(),
            errors: Vec::new(),
            mailbox_capacity: DEFAULT_MAILBOX_CAPACITY,
        };
        assert(builder@.slots =~= Seq::empty());
        assert(builder@.errors =~= Seq::empty());
        builder
    }

    /// Sets the graph name.
    pub fn name(&mut self, name: &str)
        ensures
            final(self)@ == (GraphBuilderView { name: name@, ..old(self)@ }),
    {
        proof {
            use_type_invariant(&*self);
        }
        self.name = name.to_owned();
    }

    /// Sets the per-actor mailbox capacity (default 64, minimum 1).
    pub fn mailbox_capacity(&mut self, capacity: usize)
        ensures
            final(self)@ == (GraphBuilderView {
                mailbox_capacity: if capacity == 0 {
                    1
                } else {
                    capacity
                },
                ..old(self)@
            }),
    {
        proof {
            use_type_invariant(&*self);
        }
        self.mailbox_capacity = if capacity == 0 {
            1
        } else {
            capacity
        };
    }

    fn find(&self, actor_id: &str) -> (index: usize)
        ensures
            index == self@.place(actor_id@, 0),
            index <= self.slots@.len(),
            self@.slots.len() == self.slots@.len(),
            index < self.slots@.len() ==> self@.slots[index as int]
                == self.slots@[index as int].shown(),
    {
        let mut index: usize = 0;
        while index < self.slots.len()
            invariant
                index <= self.slots@.len(),
                self@.slots.len() == self.slots@.len(),
                self@.place(actor_id@, 0) == self@.place(actor_id@, index as int),
            decreases self.slots@.len() - index,
        {
            assert(self@.slots[index as int] == self.slots@[index as int].shown());
            if same_text(self.slots[index].actor_id.as_str(), actor_id) {
                return index;
            }
            index += 1;
        }
        index
    }

    fn push_error(&mut self, error: BuildError)
        ensures
            final(self)@ == (GraphBuilderView {
                errors: old(self)@.errors.push(error@),
                ..old(self)@
            }),
    {
        proof {
            use_type_invariant(&*self);
        }
        let mut errors: Vec<BuildError> = Vec::new();
        std::mem::swap(&mut errors, &mut self.errors);
        errors.push(error);
        self.errors = errors;
        assert(self@.errors =~= old(self)@.errors.push(error@));
    }

    /// References an id with a message type, opening a position for a new id.
    /// Returns where the position is, unless the type differs from the first.
    fn slot_ref(&mut self, actor_id: &str, message_type: MessageType, fresh: B) -> (index: Option<
        usize,
    >)
        ensures
            final(self)@.is_consistent(),
            final(self)@ == old(self)@.referenced(actor_id@, message_type, fresh),
            match index {
                None => old(self)@.is_mismatch(actor_id@, message_type),
                Some(place) => !old(self)@.is_mismatch(actor_id@, message_type) && place
                    == old(self)@.place(actor_id@, 0),
            },
    {
        proof {
            use_type_invariant(&*self);
        }
        let index: usize = self.find(actor_id);
        proof {
            place_is_in_range(self@, actor_id@, 0);
        }
        if index < self.slots.len() {
            let registered = self.slots[index].message_type;
            if registered.key == message_type.key {
                return Some(index);
            }
            let error = BuildError::MessageTypeMismatch {
                actor_id: actor_id.to_owned(),
                registered: registered.name,
                requested: message_type.name,
            };
            self.push_error(error);
            return None;
        }
        let slot = Slot { actor_id: actor_id.to_owned(), message_type, binding: fresh, runner: None };
        let ghost shown = slot.shown();
        let mut slots: Vec<Slot<B, R>> = Vec::new();
        std::mem::swap(&mut slots, &mut self.slots);
        slots.push(slot);
        proof {
            let after = GraphBuilderView { slots: old(self)@.slots.push(shown), ..old(self)@ };
            assert(slots@.map_values(|slot: Slot<B, R>| slot.shown()) =~= after.slots);
            assert(after.is_consistent());
        }
        self.slots = slots;
        Some(index)
    }

    /// Mints a reference to an actor that will be registered later.
    ///
    /// This enables cyclic wiring: declare an actor, hand a ref to its binding
    /// to another actor, then register the declared actor.
    pub fn declare(&mut self, actor_id: &str, message_type: MessageType, fresh: B) -> (index: Option<
        usize,
    >)
        ensures
            final(self)@.is_consistent(),
            final(self)@ == old(self)@.referenced(actor_id@, message_type, fresh),
            match index {
                None => old(self)@.is_mismatch(actor_id@, message_type),
                Some(place) => !old(self)@.is_mismatch(actor_id@, message_type) && place
                    == old(self)@.place(actor_id@, 0),
            },
    {
        self.slot_ref(actor_id, message_type, fresh)
    }

    /// Returns what refs to the actor at the given position read.
    pub fn binding(&self, index: usize) -> (binding: Option<&B>)
        ensures
            match binding {
                Some(binding) => index < self@.slots.len() && *binding
                    == self@.slots[index as int].binding,
                None => index >= self@.slots.len(),
            },
    {
        if index < self.slots.len() {
            assert(self@.slots[index as int] == self.slots@[index as int].shown());
            Some(&self.slots[index].binding)
        } else {
            None
        }
    }

    /// Registers an actor. Returns its position, unless it is registered with
    /// a message type that differs from the first.
    pub fn actor(&mut self, actor_id: &str, message_type: MessageType, fresh: B, runner: R) -> (index:
        Option<usize>)
        ensures
            final(self)@.is_consistent(),
            final(self)@ == old(self)@.referenced(actor_id@, message_type, fresh).implemented(
                actor_id@,
                message_type,
                runner,
            ),
            match index {
                None => old(self)@.is_mismatch(actor_id@, message_type),
                Some(place) => !old(self)@.is_mismatch(actor_id@, message_type) && place
                    == old(self)@.place(actor_id@, 0),
            },
    {
        proof {
            use_type_invariant(&*self);
        }
        let found = self.slot_ref(actor_id, message_type, fresh);
        let ghost middle = self@;
        proof {
            place_is_in_range(old(self)@, actor_id@, 0);
            if old(self)@.place(actor_id@, 0) == old(self)@.slots.len() {
                let slot = SlotView::<B, R> {
                    actor_id: actor_id@,
                    message_type,
                    binding: fresh,
                    runner: None,
                };
                pushed_is_placed_last(old(self)@, slot, 0);
            } else {
                same_slots_same_place(old(self)@, middle, actor_id@, 0);
            }
            place_is_in_range(middle, actor_id@, 0);
        }
        let index: usize = match found {
            Some(index) => index,
            None => {
                return None;
            },
        };
        assert(self@.slots[index as int] == self.slots@[index as int].shown());
        if self.slots[index].runner.is_some() {
            let error = BuildError::DuplicateActor { actor_id: actor_id.to_owned() };
            self.push_error(error);
            return Some(index);
        }
        proof {
            use_type_invariant(&*self);
        }
        let mut slots: Vec<Slot<B, R>> = Vec::new();
        std::mem::swap(&mut slots, &mut self.slots);
        slots[index].runner = Some(runner);
        proof {
            let after = middle.implemented(actor_id@, message_type, runner);
            assert(slots@.map_values(|slot: Slot<B, R>| slot.shown()) =~= after.slots);
            assert(after.is_consistent());
        }
        self.slots = slots;
        Some(index)
    }

    /// Validates the graph and returns the rerunnable spec.
    pub fn build(self) -> (result: Result<Graph<B, R>, BuildError>)
        ensures
            match build_problem(self@) {
                Some(problem) => result matches Err(error) && error@ == problem,
                None => result matches Ok(graph) && graph@ =~= built(self@),
            },
    {
        proof {
            use_type_invariant(&self);
        }
        let ghost before = self@;
        let GraphBuilder { name, slots, mut errors, mailbox_capacity } = self;
        if errors.len() > 0 {
            return Err(errors.remove(0));
        }
        if slots.len() == 0 {
            return Err(BuildError::EmptyGraph);
        }
        let ghost all = slots@;
        let mut remaining = slots;
        let mut actors: Vec<GraphActor<B, R>> = Vec::new();
        while remaining.len() > 0
            invariant
                before == self@,
                before.slots == all.map_values(|slot: Slot<B, R>| slot.shown()),
                actors@.len() + remaining@.len() == all.len(),
                remaining@ == all.skip(actors@.len() as int),
                filled(before.slots, actors@.len() as int),
                forall|i: int|
                    0 <= i < actors@.len() ==> (#[trigger] actors@[i])@ == as_actor(
                        before.slots[i],
                    ),
                before.errors.len() == 0,
                before.slots.len() > 0,
            decreases remaining@.len(),
        {
            let ghost done = actors@.len() as int;
            let slot = remaining.remove(0);
            assert(slot.shown() == before.slots[done]);
            assert(remaining@ =~= all.skip(done + 1));
            let runner = match slot.runner {
                Some(runner) => runner,
                None => {
                    proof {
                        crate::builder::unfilled_skips(before.slots, 0, done);
                    }
                    return Err(BuildError::MissingActor { actor_id: slot.actor_id });
                },
            };
            let actor = GraphActor {
                actor_id: slot.actor_id,
                message_type: slot.message_type,
                binding: slot.binding,
                runner,
            };
            actors.push(actor);
        }
        proof {
            crate::builder::unfilled_skips(before.slots, 0, before.slots.len() as int);
            assert(actors@.map_values(|actor: GraphActor<B, R>| actor@) =~= built(before).actors);
        }
        Ok(Graph::new(name, mailbox_capacity, actors))
    }
}

proof fn same_slots_same_place<B, R>(
    a: GraphBuilderView<B, R>,
    b: GraphBuilderView<B, R>,
    actor_id: Seq<char>,
    from: int,
)
    requires
        a.slots == b.slots,
    ensures
        a.place(actor_id, from) == b.place(actor_id, from),
    decreases a.slots.len() - from,
{
    if 0 <= from < a.slots.len() && a.slots[from].actor_id != actor_id {
        same_slots_same_place(a, b, actor_id, from + 1);
    }
}

/// A builder builds a graph exactly when nothing went wrong while registering
/// and there are implementations for all referenced ids and at least one.
pub proof fn builds_exactly_when_complete<B, R>(builder: GraphBuilderView<B, R>)
    ensures
        build_problem(builder) is None <==> {
            &&& builder.errors.len() == 0
            &&& builder.slots.len() > 0
            &&& filled(builder.slots, builder.slots.len() as int)
        },
{
    crate::builder::unfilled_is_first(builder.slots, 0);
    if filled(builder.slots, builder.slots.len() as int) {
        crate::builder::unfilled_skips(builder.slots, 0, builder.slots.len() as int);
    }
}

/// Registering an implementation twice under one id is a mistake that the
/// build reports, unless an earlier mistake comes first.
pub proof fn duplicates_are_rejected<B, R>(
    builder: GraphBuilderView<B, R>,
    actor_id: Seq<char>,
    message_type: MessageType,
    runner: R,
)
    requires
        builder.errors.len() == 0,
        builder.place(actor_id, 0) < builder.slots.len(),
        builder.slots[builder.place(actor_id, 0)].message_type.key == message_type.key,
        builder.slots[builder.place(actor_id, 0)].runner is Some,
    ensures
        build_problem(builder.implemented(actor_id, message_type, runner)) == Some(
            BuildErrorView::DuplicateActor { actor_id },
        ),
{
}

/// An id that was declared and never registered is reported by the build,
/// where nothing else went wrong and every id before it is implemented.
pub proof fn declared_but_missing_is_rejected<B, R>(builder: GraphBuilderView<B, R>, index: int)
    requires
        builder.errors.len() == 0,
        0 <= index < builder.slots.len(),
        builder.slots[index].runner is None,
        filled(builder.slots, index),
    ensures
        build_problem(builder) == Some(
            BuildErrorView::MissingActor { actor_id: builder.slots[index].actor_id },
        ),
{
    crate::builder::unfilled_skips(builder.slots, 0, index);
}

/// The actors of a built graph have distinct ids and stand in the order in
/// which their ids were first referenced.
pub proof fn built_ids_are_distinct<B, R>(builder: GraphBuilderView<B, R>)
    requires
        builder.is_consistent(),
    ensures
        crate::graph::ids_are_distinct(built(builder).actors),
        built(builder).actors.len() == builder.slots.len(),
        forall|i: int|
            0 <= i < builder.slots.len() ==> (#[trigger] built(builder).actors[i]).actor_id
                == builder.slots[i].actor_id,
{
    let actors = built(builder).actors;
    assert forall|i: int, j: int| 0 <= i < j < actors.len() implies #[trigger] actors[i].actor_id
        != #[trigger] actors[j].actor_id by {
        assert(builder.slots[i].actor_id != builder.slots[j].actor_id);
    }
}

/// Referencing an id opens a position for a new one and changes nothing for a
/// known one of the same message type. Another type is a mistake that names
/// both, the first one as registered. The other positions stay.
pub proof fn references_open_or_match<B, R>(
    builder: GraphBuilderView<B, R>,
    actor_id: Seq<char>,
    message_type: MessageType,
    fresh: B,
    index: int,
)
    requires
        builder.is_consistent(),
        0 <= index <= builder.slots.len(),
        index < builder.slots.len() ==> builder.slots[index].actor_id == actor_id,
        index == builder.slots.len() ==> forall|i: int|
            0 <= i < builder.slots.len() ==> (#[trigger] builder.slots[i]).actor_id != actor_id,
    ensures
        ({
            let after = builder.referenced(actor_id, message_type, fresh);
            &&& builder.place(actor_id, 0) == index
            &&& index == builder.slots.len() ==> after.errors == builder.errors && after.slots
                == builder.slots.push(
                SlotView { actor_id, message_type, binding: fresh, runner: None },
            ) && !builder.is_mismatch(actor_id, message_type)
            &&& index < builder.slots.len() ==> after.slots == builder.slots
            &&& index < builder.slots.len() && builder.slots[index].message_type.key
                == message_type.key ==> after.errors == builder.errors && !builder.is_mismatch(
                actor_id,
                message_type,
            )
            &&& index < builder.slots.len() && builder.slots[index].message_type.key
                != message_type.key ==> after.errors == builder.errors.push(
                BuildErrorView::MessageTypeMismatch {
                    actor_id,
                    registered: builder.slots[index].message_type.name@,
                    requested: message_type.name@,
                },
            ) && builder.is_mismatch(actor_id, message_type)
            &&& after.name == builder.name
            &&& after.mailbox_capacity == builder.mailbox_capacity
        }),
{
    place_is_in_range(builder, actor_id, 0);
    let place = builder.place(actor_id, 0);
    if place < builder.slots.len() && index < builder.slots.len() && place != index {
        assert(builder.slots[place].actor_id == builder.slots[index].actor_id);
    }
}

/// Registering an implementation fills the position of its id, once: a second
/// one is a mistake, and one with another message type changes nothing.
pub proof fn implementations_fill_their_position<B, R>(
    builder: GraphBuilderView<B, R>,
    message_type: MessageType,
    runner: R,
    index: int,
    other: int,
)
    requires
        builder.is_consistent(),
        0 <= index < builder.slots.len(),
        0 <= other < builder.slots.len(),
    ensures
        ({
            let slot = builder.slots[index];
            let after = builder.implemented(slot.actor_id, message_type, runner);
            let matches_type = slot.message_type.key == message_type.key;
            &&& matches_type && slot.runner is None ==> after.slots[index] == (SlotView {
                runner: Some(runner),
                ..slot
            }) && after.errors == builder.errors
            &&& matches_type && slot.runner is Some ==> after.slots == builder.slots && after.errors
                == builder.errors.push(BuildErrorView::DuplicateActor { actor_id: slot.actor_id })
            &&& !matches_type ==> after == builder
            &&& after.slots.len() == builder.slots.len()
            &&& other != index ==> after.slots[other] == builder.slots[other]
            &&& after.name == builder.name
            &&& after.mailbox_capacity == builder.mailbox_capacity
        }),
{
    let actor_id = builder.slots[index].actor_id;
    place_is_in_range(builder, actor_id, 0);
    let place = builder.place(actor_id, 0);
    if place != index {
        assert(builder.slots[place].actor_id == builder.slots[index].actor_id);
    }
}

/// Of the things that are wrong with a graph, the first in this order is
/// reported: the first mistake made while registering, no actors, the first id
/// without an implementation.
pub proof fn typed_problems_are_reported_in_order<B, R>(
    builder: GraphBuilderView<B, R>,
    index: int,
)
    ensures
        builder.errors.len() > 0 ==> build_problem(builder) == Some(builder.errors[0]),
        builder.errors.len() == 0 && builder.slots.len() == 0 ==> build_problem(builder) == Some(
            BuildErrorView::EmptyGraph,
        ),
        builder.errors.len() == 0 && 0 <= index < builder.slots.len()
            && builder.slots[index].runner is None && (forall|i: int|
            0 <= i < index ==> (#[trigger] builder.slots[i]).runner is Some) ==> build_problem(
            builder,
        ) == Some(BuildErrorView::MissingActor { actor_id: builder.slots[index].actor_id }),
        builder.errors.len() == 0 && builder.slots.len() > 0 && (forall|i: int|
            0 <= i < builder.slots.len() ==> (#[trigger] builder.slots[i]).runner is Some)
            ==> build_problem(builder) is None,
{
    if 0 <= index < builder.slots.len() && (forall|i: int|
        0 <= i < index ==> (#[trigger] builder.slots[i]).runner is Some) {
        crate::builder::unfilled_skips(builder.slots, 0, index);
    }
    if forall|i: int|
        0 <= i < builder.slots.len() ==> (#[trigger] builder.slots[i]).runner is Some {
        crate::builder::unfilled_skips(builder.slots, 0, builder.slots.len() as int);
    }
}

/// A built graph holds what the builder was told: its name and capacity, and
/// for each position the actor with its id, message type, binding and runner.
pub proof fn typed_graphs_hold_what_was_told<B, R>(builder: GraphBuilderView<B, R>, index: int)
    requires
        0 <= index < builder.slots.len(),
        builder.slots[index].runner is Some,
    ensures
        ({
            let graph = built(builder);
            let actor = graph.actors[index];
            &&& graph.name == builder.name
            &&& graph.mailbox_capacity == builder.mailbox_capacity
            &&& graph.actors.len() == builder.slots.len()
            &&& actor.actor_id == builder.slots[index].actor_id
            &&& actor.message_type == builder.slots[index].message_type
            &&& actor.binding == builder.slots[index].binding
            &&& Some(actor.runner) == builder.slots[index].runner
        }),
{
}

/// An actor that is implemented where it was declared with the same message type
/// fills the declared position, keeps the binding that the declaration gave, and
/// notes no mistake; a second implementation is noted as a duplicate.
pub proof fn declared_actors_are_implemented<B, R>(
    declaring: &mut GraphBuilder<B, R>,
    first: &mut GraphBuilder<B, R>,
    second: &mut GraphBuilder<B, R>,
    actor_id: &str,
    message_type: MessageType,
    bindings: (B, B, B),
    runners: (R, R),
    declared: Option<usize>,
    implemented: Option<usize>,
    repeated: Option<usize>,
)
    requires
        old(declaring)@.is_consistent(),
        forall|i: int|
            0 <= i < old(declaring)@.slots.len() ==> (#[trigger] old(declaring)@.slots[i]).actor_id
                != actor_id@,
        call_ensures(
            GraphBuilder::<B, R>::declare,
            (declaring, actor_id, message_type, bindings.0),
            declared,
        ),
        *old(first) == *final(declaring),
        call_ensures(
            GraphBuilder::<B, R>::actor,
            (first, actor_id, message_type, bindings.1, runners.0),
            implemented,
        ),
        *old(second) == *final(first),
        call_ensures(
            GraphBuilder::<B, R>::actor,
            (second, actor_id, message_type, bindings.2, runners.1),
            repeated,
        ),
    ensures
        declared is Some && declared.unwrap() == old(declaring)@.slots.len(),
        implemented == declared,
        final(first)@.slots =~= old(declaring)@.slots.push(
            SlotView {
                actor_id: actor_id@,
                message_type,
                binding: bindings.0,
                runner: Some(runners.0),
            },
        ),
        final(first)@.errors == old(declaring)@.errors,
        final(second)@.slots == final(first)@.slots,
        final(second)@.errors == final(first)@.errors.push(
            BuildErrorView::DuplicateActor { actor_id: actor_id@ },
        ),
{
    let index = old(declaring)@.slots.len() as int;
    references_open_or_match(old(declaring)@, actor_id@, message_type, bindings.0, index);
    let opened = final(declaring)@;
    assert(opened.slots[index].actor_id == actor_id@);
    references_open_or_match(opened, actor_id@, message_type, bindings.1, index);
    let referenced = opened.referenced(actor_id@, message_type, bindings.1);
    assert(referenced.slots == opened.slots);
    assert forall|other: int| 0 <= other < referenced.slots.len() && other != index implies (
    #[trigger] final(first)@.slots[other]) == old(declaring)@.slots[other] by {
        implementations_fill_their_position(referenced, message_type, runners.0, index, other);
    }
    implementations_fill_their_position(referenced, message_type, runners.0, index, index);
    let filled = final(first)@;
    assert(filled.slots[index].runner is Some);
    references_open_or_match(filled, actor_id@, message_type, bindings.2, index);
    let again = filled.referenced(actor_id@, message_type, bindings.2);
    assert(again.slots == filled.slots);
    implementations_fill_their_position(again, message_type, runners.1, index, index);
}

/// A graph is built exactly where no mistake was noted, there are actors and each
/// is implemented. It has the actors as they were told; the first mistake is what
/// is reported.
pub proof fn implemented_graphs_build<B, R>(
    builder: GraphBuilder<B, R>,
    result: Result<Graph<B, R>, BuildError>,
    index: int,
)
    requires
        call_ensures(GraphBuilder::<B, R>::build, (builder,), result),
    ensures
        result is Ok <==> {
            &&& builder@.errors.len() == 0
            &&& builder@.slots.len() > 0
            &&& forall|i: int|
                0 <= i < builder@.slots.len() ==> (#[trigger] builder@.slots[i]).runner is Some
        },
        result matches Ok(graph) ==> {
            &&& graph@.name == builder@.name
            &&& graph@.mailbox_capacity == builder@.mailbox_capacity
            &&& graph@.actors.len() == builder@.slots.len()
            &&& 0 <= index < builder@.slots.len() ==> {
                &&& graph@.actors[index].actor_id == builder@.slots[index].actor_id
                &&& graph@.actors[index].message_type == builder@.slots[index].message_type
                &&& graph@.actors[index].binding == builder@.slots[index].binding
                &&& Some(graph@.actors[index].runner) == builder@.slots[index].runner
            }
        },
        result matches Err(error) ==> (builder@.errors.len() > 0 ==> error@ == builder@.errors[0]),
{
    builds_exactly_when_complete(builder@);
    typed_problems_are_reported_in_order(builder@, index);
    if result is Ok {
        typed_graphs_hold_what_was_told(builder@, 0);
        if 0 <= index < builder@.slots.len() {
            typed_graphs_hold_what_was_told(builder@, index);
        }
    }
}

/// A builder starts as `graph` with mailboxes of 64 messages; what is set
/// afterwards is what a graph is built with, but for an empty mailbox, which
/// holds one message.
pub proof fn settings_reach_the_graph<B, R>(
    made: GraphBuilder<B, R>,
    naming: &mut GraphBuilder<B, R>,
    sizing: &mut GraphBuilder<B, R>,
    name: &str,
    capacity: usize,
    done: ((), ()),
    result: Result<Graph<B, R>, BuildError>,
)
    requires
        call_ensures(GraphBuilder::<B, R>::new, (), made),
        call_ensures(GraphBuilder::<B, R>::name, (naming, name), done.0),
        *old(sizing) == *final(naming),
        call_ensures(GraphBuilder::<B, R>::mailbox_capacity, (sizing, capacity), done.1),
        call_ensures(GraphBuilder::<B, R>::build, (*final(sizing),), result),
    ensures
        made@.name == "graph"@,
        made@.mailbox_capacity == 64,
        made@.slots.len() == 0,
        made@.errors.len() == 0,
        final(sizing)@.slots == old(naming)@.slots,
        final(sizing)@.errors == old(naming)@.errors,
        result matches Ok(graph) ==> {
            &&& graph@.name == name@
            &&& capacity > 0 ==> graph@.mailbox_capacity == capacity
            &&& capacity == 0 ==> graph@.mailbox_capacity == 1
        },
{
    implemented_graphs_build(*final(sizing), result, 0);
}

/// A position's binding is what the first reference to its actor gave.
pub proof fn bindings_stay_with_their_position<B, R>(
    first: &mut GraphBuilder<B, R>,
    second: &mut GraphBuilder<B, R>,
    actor_id: &str,
    message_type: MessageType,
    bindings: (B, B),
    earlier: Option<usize>,
    later: Option<usize>,
    found: Option<&B>,
)
    requires
        old(first)@.is_consistent(),
        forall|i: int|
            0 <= i < old(first)@.slots.len() ==> (#[trigger] old(first)@.slots[i]).actor_id
                != actor_id@,
        call_ensures(
            GraphBuilder::<B, R>::declare,
            (first, actor_id, message_type, bindings.0),
            earlier,
        ),
        *old(second) == *final(first),
        call_ensures(
            GraphBuilder::<B, R>::declare,
            (second, actor_id, message_type, bindings.1),
            later,
        ),
        call_ensures(GraphBuilder::<B, R>::binding, (final(second), later.unwrap()), found),
    ensures
        earlier is Some && later == earlier,
        found is Some && *found.unwrap() == bindings.0,
        final(second)@.slots == final(first)@.slots,
        final(second)@.errors == old(first)@.errors,
{
    let index = old(first)@.slots.len() as int;
    references_open_or_match(old(first)@, actor_id@, message_type, bindings.0, index);
    assert(final(first)@.slots[index].actor_id == actor_id@);
    references_open_or_match(final(first)@, actor_id@, message_type, bindings.1, index);
}

/// Whatever a builder is told, no id stands twice and mailboxes hold something.
pub proof fn typed_positions_have_their_own_ids<B, R>(
    builder: &mut GraphBuilder<B, R>,
    actor_id: &str,
    message_type: MessageType,
    fresh: B,
    runner: R,
    index: Option<usize>,
)
    requires
        call_ensures(
            GraphBuilder::<B, R>::actor,
            (builder, actor_id, message_type, fresh, runner),
            index,
        ),
    ensures
        final(builder)@.mailbox_capacity > 0,
        forall|i: int, j: int|
            0 <= i < j < final(builder)@.slots.len() ==> (
            #[trigger] final(builder)@.slots[i]).actor_id != (
            #[trigger] final(builder)@.slots[j]).actor_id,
{
}

} // verus!
