//! What the `Topology` derive accepts, and what it generates for it.
//!
//! A topology is a struct whose fields are actors. The derive reads its
//! attributes and its shape, one item after the other, and then generates
//! wiring code from a [`TopologyPlan`].
use vstd::prelude::*;
use crate::builder::{build_problem, filled, GraphBuilderView, SlotView};
use crate::text::{chars_of, joined, same_text, slice, string_of};

verus! {

// ---------------------------------------------------------------------------
// Attributes of the struct
// ---------------------------------------------------------------------------

/// The options in the struct's own `#[topology(..)]` attributes.
#[derive(Debug)]
pub struct StructOptions {
    emit_metadata: bool,
}

impl View for StructOptions {
    type V = bool;

    closed spec fn view(&self) -> bool {
        self.emit_metadata
    }
}

/// Why an option of the struct is rejected, if it is, where `seen` says
/// whether metadata was asked for before.
pub open spec fn struct_option_problem(seen: bool, name: Option<Seq<char>>) -> Option<Seq<char>> {
    if name != Some("metadata"@) {
        Some("expected `metadata`"@)
    } else if seen {
        Some("duplicate `metadata` option"@)
    } else {
        None
    }
}

impl StructOptions {
    /// No options yet.
    pub fn new() -> (options: Self)
        ensures
            !options@,
    {
        StructOptions { emit_metadata: false }
    }

    /// Reads one option. `name` is its name, where it is a single word.
    pub fn option(&mut self, name: Option<&str>) -> (result: Result<(), &'static str>)
        ensures
            match struct_option_problem(old(self)@, crate::observability::optional_chars(name)) {
                Some(problem) => {
                    &&& result matches Err(message)
                    &&& message@ == problem
                    &&& final(self)@ == old(self)@
                },
                None => result is Ok && final(self)@,
            },
    {
        let is_metadata = match name {
            Some(name) => same_text(name, "metadata"),
            None => false,
        };
        if !is_metadata {
            return Err("expected `metadata`");
        }
        if self.emit_metadata {
            return Err("duplicate `metadata` option");
        }
        self.emit_metadata = true;
        Ok(())
    }

    /// Returns whether metadata is generated.
    pub fn emit_metadata(&self) -> (emit: bool)
        ensures
            emit == self@,
    {
        self.emit_metadata
    }
}

// ---------------------------------------------------------------------------
// Shape of the item
// ---------------------------------------------------------------------------

/// The body of the item that the derive stands on.
#[derive(Debug, Clone, Copy, PartialEq, Eq, Structural)]
pub enum Body {
    /// A struct with this many named fields.
    Named(usize),
    /// A tuple struct.
    Tuple,
    /// A unit struct.
    Unit,
    /// An enum or a union.
    NotAStruct,
}

/// The part of the item that a rejection points at.
#[derive(Debug, Clone, Copy, PartialEq, Eq, Structural)]
pub enum Site {
    Generics,
    Fields,
    Name,
}

/// Why an item is rejected, and where.
#[derive(Debug)]
pub struct ShapeError {
    pub site: Site,
    pub message: &'static str,
}

/// The site and the message of the rejection of an item, if it is rejected.
pub open spec fn shape_problem(is_generic: bool, body: Body) -> Option<(Site, Seq<char>)> {
    if is_generic {
        Some((Site::Generics, "Topology cannot be derived for generic structs"@))
    } else {
        match body {
            Body::Named(count) => if count == 0 {
                Some((Site::Name, "Topology requires at least one actor field"@))
            } else {
                None
            },
            Body::Tuple => Some(
                (Site::Fields, "Topology can only be derived for structs with named fields"@),
            ),
            Body::Unit | Body::NotAStruct => Some(
                (Site::Name, "Topology can only be derived for structs with named fields"@),
            ),
        }
    }
}

/// Accepts structs with named fields and without generics, and nothing else.
pub fn check_shape(is_generic: bool, body: Body) -> (result: Result<(), ShapeError>)
    ensures
        match shape_problem(is_generic, body) {
            Some((site, message)) => {
                &&& result matches Err(error)
                &&& error.site == site
                &&& error.message@ == message
            },
            None => result is Ok,
        },
{
    if is_generic {
        return Err(
            ShapeError {
                site: Site::Generics,
                message: "Topology cannot be derived for generic structs",
            },
        );
    }
    match body {
        Body::Named(count) => if count == 0 {
            Err(
                ShapeError {
                    site: Site::Name,
                    message: "Topology requires at least one actor field",
                },
            )
        } else {
            Ok(())
        },
        Body::Tuple => Err(
            ShapeError {
                site: Site::Fields,
                message: "Topology can only be derived for structs with named fields",
            },
        ),
        Body::Unit | Body::NotAStruct => Err(
            ShapeError {
                site: Site::Name,
                message: "Topology can only be derived for structs with named fields",
            },
        ),
    }
}

// ---------------------------------------------------------------------------
// Attributes of the fields
// ---------------------------------------------------------------------------

/// A declared message flow between two fields.
#[derive(Debug)]
pub struct Edge {
    pub source_name: String,
    pub target_name: String,
    pub target_index: usize,
}

/// What an [`Edge`] says.
pub struct EdgeView {
    pub source: Seq<char>,
    pub target: Seq<char>,
    pub target_index: usize,
}

impl View for Edge {
    type V = EdgeView;

    open spec fn view(&self) -> EdgeView {
        EdgeView {
            source: self.source_name@,
            target: self.target_name@,
            target_index: self.target_index,
        }
    }
}

/// What follows the name of a field's option.
#[derive(Debug, Clone, Copy, PartialEq, Eq, Structural)]
pub enum FieldOption {
    /// `= <expression>`.
    Options,
    /// `(target, ...)`.
    SendsTo,
}

/// The options in the `#[topology(..)]` attributes of the fields, read field
/// by field.
#[derive(Debug)]
pub struct FieldOptions {
    emit_metadata: bool,
    names: Vec<String>,
    with_options: Vec<bool>,
    has_options: bool,
    edges: Vec<Edge>,
}

/// What a [`FieldOptions`] holds.
#[verifier::ext_equal]
pub struct FieldOptionsView {
    /// Whether metadata is generated.
    pub emit_metadata: bool,
    /// The names of all fields.
    pub names: Seq<Seq<char>>,
    /// For each field that was read, whether it sets actor options.
    pub with_options: Seq<bool>,
    /// Whether the field that is being read sets actor options so far.
    pub has_options: bool,
    /// The edges declared so far.
    pub edges: Seq<EdgeView>,
}

impl View for FieldOptions {
    type V = FieldOptionsView;

    closed spec fn view(&self) -> FieldOptionsView {
        FieldOptionsView {
            emit_metadata: self.emit_metadata,
            names: self.names@.map_values(|name: String| name@),
            with_options: self.with_options@,
            has_options: self.has_options,
            edges: self.edges@.map_values(|edge: Edge| edge@),
        }
    }
}

/// Where the name stands at or after `from`, or how many names there are.
pub open spec fn name_place(names: Seq<Seq<char>>, name: Seq<char>, from: int) -> int
    decreases names.len() - from,
{
    if from < 0 || from >= names.len() {
        names.len() as int
    } else if names[from] == name {
        from
    } else {
        name_place(names, name, from + 1)
    }
}

proof fn name_place_is_in_range(names: Seq<Seq<char>>, name: Seq<char>, from: int)
    requires
        0 <= from <= names.len(),
    ensures
        from <= name_place(names, name, from) <= names.len(),
        name_place(names, name, from) < names.len() ==> names[name_place(names, name, from)] == name,
    decreases names.len() - from,
{
    if from < names.len() && names[from] != name {
        name_place_is_in_range(names, name, from + 1);
    }
}

impl FieldOptionsView {
    /// The name of the field that is being read.
    pub open spec fn current(self) -> Seq<char> {
        self.names[self.with_options.len() as int]
    }

    /// Whether a field is being read.
    pub open spec fn is_reading(self) -> bool {
        self.with_options.len() < self.names.len()
    }

    /// Whether the edge is declared.
    pub open spec fn has_edge(self, source: Seq<char>, target: Seq<char>) -> bool {
        exists|i: int|
            0 <= i < self.edges.len() && (#[trigger] self.edges[i]).source == source
                && self.edges[i].target == target
    }

    /// What always holds of the edges: both ends are fields and not the same
    /// one, the index is the target's, no edge stands twice, and there are none
    /// without metadata.
    pub open spec fn is_consistent(self) -> bool {
        &&& self.with_options.len() <= self.names.len()
        &&& forall|i: int|
            0 <= i < self.edges.len() ==> {
                let edge = #[trigger] self.edges[i];
                &&& edge.target_index < self.names.len()
                &&& self.names[edge.target_index as int] == edge.target
                &&& self.names.contains(edge.source)
                &&& edge.source != edge.target
            }
        &&& forall|i: int, j: int|
            0 <= i < j < self.edges.len() ==> !((#[trigger] self.edges[i]).source == (
            #[trigger] self.edges[j]).source && self.edges[i].target == self.edges[j].target)
        &&& !self.emit_metadata ==> self.edges.len() == 0
    }

    /// Why an option of the current field is rejected, if it is.
    pub open spec fn option_problem(self, name: Option<Seq<char>>) -> Option<Seq<char>> {
        if name == Some("options"@) {
            if self.has_options {
                Some("duplicate `options` option"@)
            } else {
                None
            }
        } else if name != Some("sends_to"@) {
            Some("expected `sends_to(...)` or `options = <expression>`"@)
        } else if !self.emit_metadata {
            Some("`sends_to` requires `#[topology(metadata)]` on the topology struct"@)
        } else {
            None
        }
    }

    /// Why a target of the current field is rejected, if it is: it has to name
    /// another field, once.
    pub open spec fn target_problem(self, target: Option<Seq<char>>) -> Option<Seq<char>> {
        match target {
            None => Some("expected an actor field name"@),
            Some(target) => if name_place(self.names, target, 0) == self.names.len() {
                Some("unknown topology actor field"@)
            } else if target == self.current() {
                Some("expected another actor field"@)
            } else if self.has_edge(self.current(), target) {
                Some("duplicate topology edge"@)
            } else {
                None
            },
        }
    }

    /// The options after one more edge from the current field.
    pub open spec fn with_edge(self, target: Seq<char>) -> Self {
        FieldOptionsView {
            edges: self.edges.push(
                EdgeView {
                    source: self.current(),
                    target,
                    target_index: name_place(self.names, target, 0) as usize,
                },
            ),
            ..self
        }
    }
}

impl FieldOptions {
    /// What holds of every value.
    #[verifier::type_invariant]
    pub closed spec fn is_valid(self) -> bool {
        self@.is_consistent()
    }

    /// Begins to read the options of the fields with the given names.
    pub fn new(emit_metadata: bool, names: Vec<String>) -> (options: Self)
        ensures
            options@ == (FieldOptionsView {
                emit_metadata,
                names: names@.map_values(|name: String| name@),
                with_options: Seq::empty(),
                has_options: false,
                edges: Seq::empty(),
            }),
            options@.is_consistent(),
    {
        let options = FieldOptions {
            emit_metadata,
            names,
            with_options: Vec::new(),
            has_options: false,
            edges: Vec::new(),
        };
        assert(options@.edges =~= Seq::empty());
        options
    }

    /// Reads the name of one option of the current field, and says what has
    /// to follow it. `name` is its name, where it is a single word.
    pub fn option(&mut self, name: Option<&str>) -> (result: Result<FieldOption, &'static str>)
        ensures
            final(self)@.is_consistent(),
            match old(self)@.option_problem(crate::observability::optional_chars(name)) {
                Some(problem) => {
                    &&& result matches Err(message)
                    &&& message@ == problem
                    &&& final(self)@ == old(self)@
                },
                None => if name.unwrap()@ == "options"@ {
                    &&& result == Ok::<FieldOption, &'static str>(FieldOption::Options)
                    &&& final(self)@ == (FieldOptionsView { has_options: true, ..old(self)@ })
                } else {
                    &&& result == Ok::<FieldOption, &'static str>(FieldOption::SendsTo)
                    &&& final(self)@ == old(self)@
                },
            },
    {
        proof {
            use_type_invariant(&*self);
        }
        let (is_options, is_sends_to) = match name {
            Some(name) => (same_text(name, "options"), same_text(name, "sends_to")),
            None => (false, false),
        };
        if is_options {
            if self.has_options {
                return Err("duplicate `options` option");
            }
            self.has_options = true;
            return Ok(FieldOption::Options);
        }
        if !is_sends_to {
            return Err("expected `sends_to(...)` or `options = <expression>`");
        }
        if !self.emit_metadata {
            return Err("`sends_to` requires `#[topology(metadata)]` on the topology struct");
        }
        Ok(FieldOption::SendsTo)
    }

    fn find(&self, name: &str) -> (index: usize)
        ensures
            index == name_place(self@.names, name@, 0),
            index <= self.names@.len(),
            self@.names.len() == self.names@.len(),
    {
        let mut index: usize = 0;
        while index < self.names.len()
            invariant
                index <= self.names@.len(),
                self@.names.len() == self.names@.len(),
                name_place(self@.names, name@, 0) == name_place(self@.names, name@, index as int),
            decreases self.names@.len() - index,
        {
            assert(self@.names[index as int] == self.names@[index as int]@);
            if same_text(self.names[index].as_str(), name) {
                return index;
            }
            index += 1;
        }
        index
    }

    fn is_declared(&self, source: &str, target: &str) -> (declared: bool)
        ensures
            declared == self@.has_edge(source@, target@),
    {
        for i in 0..self.edges.len()
            invariant
                forall|j: int|
                    0 <= j < i ==> !((#[trigger] self@.edges[j]).source == source@
                        && self@.edges[j].target == target@),
        {
            assert(self@.edges[i as int] == self.edges@[i as int]@);
            if same_text(self.edges[i].source_name.as_str(), source) && same_text(
                self.edges[i].target_name.as_str(),
                target,
            ) {
                return true;
            }
        }
        assert(self@.edges.len() == self.edges@.len());
        false
    }

    /// Reads one target of the current field's `sends_to`. `target` is its
    /// name, where it is a single word.
    pub fn target(&mut self, target: Option<&str>) -> (result: Result<(), &'static str>)
        requires
            old(self)@.is_reading(),
            old(self)@.emit_metadata,
        ensures
            final(self)@.is_consistent(),
            match old(self)@.target_problem(crate::observability::optional_chars(target)) {
                Some(problem) => {
                    &&& result matches Err(message)
                    &&& message@ == problem
                    &&& final(self)@ == old(self)@
                },
                None => {
                    &&& result is Ok
                    &&& final(self)@ == old(self)@.with_edge(target.unwrap()@)
                },
            },
    {
        proof {
            use_type_invariant(&*self);
        }
        let target = match target {
            Some(target) => target,
            None => {
                return Err("expected an actor field name");
            },
        };
        let target_index: usize = self.find(target);
        if target_index >= self.names.len() {
            return Err("unknown topology actor field");
        }
        let current: usize = self.with_options.len();
        assert(self@.names[current as int] == self.names@[current as int]@);
        let source = self.names[current].clone();
        if same_text(source.as_str(), target) {
            return Err("expected another actor field");
        }
        if self.is_declared(source.as_str(), target) {
            return Err("duplicate topology edge");
        }
        let edge = Edge { source_name: source, target_name: target.to_owned(), target_index };
        let mut edges: Vec<Edge> = Vec::new();
        std::mem::swap(&mut edges, &mut self.edges);
        edges.push(edge);
        proof {
            name_place_is_in_range(old(self)@.names, target@, 0);
            assert(old(self)@.names.contains(old(self)@.current()));
            assert(edges@.map_values(|edge: Edge| edge@) =~= old(self)@.edges.push(edge@));
        }
        self.edges = edges;
        Ok(())
    }

    /// Ends one `sends_to`, for which `targets` targets were read.
    pub fn end_targets(&self, targets: usize) -> (result: Result<(), &'static str>)
        ensures
            if targets == 0 {
                result matches Err(message) && message@
                    == "expected at least one target actor field"@
            } else {
                result is Ok
            },
    {
        if targets == 0 {
            Err("expected at least one target actor field")
        } else {
            Ok(())
        }
    }

    /// Ends the current field and goes on to the next one.
    pub fn end_field(&mut self)
        requires
            old(self)@.is_reading(),
        ensures
            final(self)@.is_consistent(),
            final(self)@ == (FieldOptionsView {
                with_options: old(self)@.with_options.push(old(self)@.has_options),
                has_options: false,
                ..old(self)@
            }),
    {
        proof {
            use_type_invariant(&*self);
        }
        let mut with_options: Vec<bool> = Vec::new();
        std::mem::swap(&mut with_options, &mut self.with_options);
        with_options.push(self.has_options);
        self.with_options = with_options;
        self.has_options = false;
    }
}

// ---------------------------------------------------------------------------
// The generated code
// ---------------------------------------------------------------------------

/// What is generated for one field.
#[derive(Debug)]
pub struct FieldPlan {
    /// The label of the actor.
    pub label: String,
    /// The variable that holds the field's open slot.
    pub slot: String,
    /// Whether the slot is opened with actor options.
    pub with_options: bool,
}

/// What a [`FieldPlan`] says.
pub struct FieldPlanView {
    pub label: Seq<char>,
    pub slot: Seq<char>,
    pub with_options: bool,
}

impl View for FieldPlan {
    type V = FieldPlanView;

    open spec fn view(&self) -> FieldPlanView {
        FieldPlanView {
            label: self.label@,
            slot: self.slot@,
            with_options: self.with_options,
        }
    }
}

/// What is generated for a topology.
#[derive(Debug)]
pub struct TopologyPlan {
    /// The name of the struct that holds the refs.
    pub refs: String,
    /// One plan per field, in field order.
    pub fields: Vec<FieldPlan>,
    /// The edges of the metadata, where metadata is generated.
    pub metadata: Option<Vec<Edge>>,
}

/// What a [`TopologyPlan`] says.
#[verifier::ext_equal]
pub struct TopologyPlanView {
    pub refs: Seq<char>,
    pub fields: Seq<FieldPlanView>,
    pub metadata: Option<Seq<EdgeView>>,
}

impl View for TopologyPlan {
    type V = TopologyPlanView;

    open spec fn view(&self) -> TopologyPlanView {
        TopologyPlanView {
            refs: self.refs@,
            fields: self.fields@.map_values(|field: FieldPlan| field@),
            metadata: match self.metadata {
                Some(edges) => Some(edges@.map_values(|edge: Edge| edge@)),
                None => None,
            },
        }
    }
}

/// Whether an identifier carries the mark of a raw one.
pub open spec fn is_raw(name: Seq<char>) -> bool {
    name.len() >= 2 && name[0] == 'r' && name[1] == '#'
}

/// An identifier without the mark of a raw one. Names that are made from
/// identifiers are made from this part.
pub open spec fn bare(name: Seq<char>) -> Seq<char> {
    if is_raw(name) {
        name.skip(2)
    } else {
        name
    }
}

fn bare_name(name: &str) -> (part: String)
    ensures
        part@ == bare(name@),
{
    let chars = chars_of(name);
    if chars.len() >= 2 && chars[0] == 'r' && chars[1] == '#' {
        let rest = slice(&chars, 2, chars.len());
        assert(rest@ =~= name@.skip(2));
        string_of(&rest)
    } else {
        name.to_owned()
    }
}

/// The plan of one field: its name is its label, verbatim.
pub open spec fn field_plan(name: Seq<char>, with_options: bool) -> FieldPlanView {
    FieldPlanView { label: name, slot: bare(name) + "_slot"@, with_options }
}

/// The plan of a topology whose fields were all read.
pub open spec fn planned(topology: Seq<char>, options: FieldOptionsView) -> TopologyPlanView {
    TopologyPlanView {
        refs: bare(topology) + "Refs"@,
        fields: Seq::new(
            options.names.len(),
            |i: int| field_plan(options.names[i], options.with_options[i]),
        ),
        metadata: if options.emit_metadata {
            Some(options.edges)
        } else {
            None
        },
    }
}

/// Plans what is generated for the topology of the given name, once all of its
/// fields were read. Items of another shape than a topology's are rejected.
pub fn expand_topology(topology: &str, is_generic: bool, body: Body, options: FieldOptions) -> (result:
    Result<TopologyPlan, ShapeError>)
    requires
        !options@.is_reading(),
        body matches Body::Named(count) ==> count == options@.names.len(),
    ensures
        match shape_problem(is_generic, body) {
            Some((site, message)) => {
                &&& result matches Err(error)
                &&& error.site == site
                &&& error.message@ == message
            },
            None => {
                &&& result matches Ok(plan)
                &&& plan@ =~= planned(topology@, options@)
            },
        },
{
    proof {
        use_type_invariant(&options);
    }
    if let Err(error) = check_shape(is_generic, body) {
        return Err(error);
    }
    let ghost before = options@;
    let FieldOptions { emit_metadata, names, with_options, has_options: _, edges } = options;
    let mut fields: Vec<FieldPlan> = Vec::new();
    for i in 0..names.len()
        invariant
            before.names == names@.map_values(|name: String| name@),
            before.with_options == with_options@,
            before.with_options.len() == before.names.len(),
            fields@.len() == i,
            forall|j: int|
                0 <= j < i ==> (#[trigger] fields@[j])@ == field_plan(
                    before.names[j],
                    before.with_options[j],
                ),
    {
        let slot = joined(bare_name(names[i].as_str()).as_str(), "_slot");
        fields.push(FieldPlan { label: names[i].clone(), slot, with_options: with_options[i] });
    }
    let metadata = if emit_metadata {
        Some(edges)
    } else {
        None
    };
    let plan = TopologyPlan { refs: joined(bare_name(topology).as_str(), "Refs"), fields, metadata };
    assert(plan@.fields =~= planned(topology@, before).fields);
    Ok(plan)
}

/// A plan has one slot per field, in field order, each labelled with the
/// field's name, and fields whose names differ in more than the mark of a raw
/// identifier have different slots.
pub proof fn plans_cover_every_field(topology: Seq<char>, options: FieldOptionsView, i: int, j: int)
    requires
        0 <= i < options.names.len(),
        0 <= j < options.names.len(),
        bare(options.names[i]) != bare(options.names[j]),
    ensures
        planned(topology, options).fields.len() == options.names.len(),
        planned(topology, options).fields[i].label == options.names[i],
        planned(topology, options).fields[i].slot != planned(topology, options).fields[j].slot,
{
    let a = bare(options.names[i]);
    let b = bare(options.names[j]);
    let suffix = "_slot"@;
    if a + suffix == b + suffix {
        assert((a + suffix).len() == (b + suffix).len());
        assert((a + suffix).take(a.len() as int) =~= a);
        assert((b + suffix).take(b.len() as int) =~= b);
    }
}

/// In a plan with metadata every edge leads from one field to another, which it
/// gives by name and index, and no edge stands twice.
pub proof fn planned_edges_are_valid(topology: Seq<char>, options: FieldOptionsView, i: int, j: int)
    requires
        options.is_consistent(),
        options.emit_metadata,
        0 <= i < options.edges.len(),
        0 <= j < options.edges.len(),
        i != j,
    ensures
        planned(topology, options).metadata matches Some(edges) && {
            &&& edges[i].target_index < options.names.len()
            &&& options.names[edges[i].target_index as int] == edges[i].target
            &&& options.names.contains(edges[i].source)
            &&& edges[i].source != edges[i].target
            &&& edges[i].source != edges[j].source || edges[i].target != edges[j].target
        },
{
    if i < j {
        assert(options.edges[i].source != options.edges[j].source || options.edges[i].target
            != options.edges[j].target);
    } else {
        assert(options.edges[j].source != options.edges[i].source || options.edges[j].target
            != options.edges[i].target);
    }
}

// ---------------------------------------------------------------------------
// Wiring
// ---------------------------------------------------------------------------

/// The builder after the generated code opened the given slots, one by one.
pub open spec fn opened<B, R>(
    builder: GraphBuilderView<B, R>,
    slots: Seq<SlotView<B, R>>,
) -> GraphBuilderView<B, R>
    decreases slots.len(),
{
    if slots.len() == 0 {
        builder
    } else {
        opened(builder, slots.drop_last()).with_slot(slots.last())
    }
}

/// The builder after the generated code filled the slots from `base` on, one
/// by one.
pub open spec fn defined<B, R>(
    builder: GraphBuilderView<B, R>,
    base: int,
    runners: Seq<R>,
) -> GraphBuilderView<B, R>
    decreases runners.len(),
{
    if runners.len() == 0 {
        builder
    } else {
        defined(builder, base, runners.drop_last()).with_runner(
            base + runners.len() - 1,
            runners.last(),
        )
    }
}

/// Whether the slots carry distinct labels that are not empty and that the
/// builder does not know.
pub open spec fn labels_are_fresh<B, R>(
    builder: GraphBuilderView<B, R>,
    slots: Seq<SlotView<B, R>>,
) -> bool {
    &&& forall|i: int|
        0 <= i < slots.len() ==> (#[trigger] slots[i]).actor_id.len() > 0 && !builder.ids().contains(
            slots[i].actor_id,
        )
    &&& forall|i: int, j: int|
        0 <= i < j < slots.len() ==> (#[trigger] slots[i]).actor_id != (
        #[trigger] slots[j]).actor_id
}

proof fn opening_appends<B, R>(builder: GraphBuilderView<B, R>, slots: Seq<SlotView<B, R>>)
    requires
        builder.is_consistent(),
        labels_are_fresh(builder, slots),
    ensures
        opened(builder, slots) == (GraphBuilderView { slots: builder.slots + slots, ..builder }),
        opened(builder, slots).is_consistent(),
    decreases slots.len(),
{
    if slots.len() == 0 {
        assert(builder.slots + slots =~= builder.slots);
    } else {
        let rest = slots.drop_last();
        let last = slots.last();
        assert forall|i: int| 0 <= i < rest.len() implies (#[trigger] rest[i]).actor_id.len() > 0
            && !builder.ids().contains(rest[i].actor_id) by {
            assert(rest[i] == slots[i]);
        }
        assert(labels_are_fresh(builder, rest));
        opening_appends(builder, rest);
        let before = opened(builder, rest);
        assert(slots[slots.len() - 1] == last);
        assert(!before.ids().contains(last.actor_id)) by {
            if before.ids().contains(last.actor_id) {
                let k = choose|k: int|
                    0 <= k < before.ids().len() && before.ids()[k] == last.actor_id;
                if k < builder.slots.len() {
                    assert(builder.ids()[k] == last.actor_id);
                } else {
                    assert(before.slots[k] == rest[k - builder.slots.len()]);
                    assert(slots[k - builder.slots.len()].actor_id != slots[slots.len()
                        - 1].actor_id);
                }
            }
        }
        crate::builder::fresh_ids_are_accepted(before, last);
        assert((builder.slots + rest).push(last) =~= builder.slots + slots);
    }
}

proof fn defining_fills<B, R>(builder: GraphBuilderView<B, R>, base: int, runners: Seq<R>)
    requires
        0 <= base,
        base + runners.len() <= builder.slots.len(),
    ensures
        ({
            let after = defined(builder, base, runners);
            &&& after == (GraphBuilderView { slots: after.slots, ..builder })
            &&& after.slots.len() == builder.slots.len()
            &&& forall|i: int|
                0 <= i < builder.slots.len() ==> #[trigger] after.slots[i] == (if base <= i < base
                    + runners.len() {
                    SlotView { runner: Some(runners[i - base]), ..builder.slots[i] }
                } else {
                    builder.slots[i]
                })
        }),
    decreases runners.len(),
{
    if runners.len() > 0 {
        defining_fills(builder, base, runners.drop_last());
    }
}

/// Wiring a topology always works: opening a slot for every field, in a
/// builder that knows none of the names and whose own slots are filled, and
/// filling each with its actor leaves nothing for the build to reject. The
/// actors stand behind those of the builder, in field order and under the
/// field names, whatever refs they hold on each other.
pub proof fn wired_topologies_build<B, R>(
    builder: GraphBuilderView<B, R>,
    slots: Seq<SlotView<B, R>>,
    runners: Seq<R>,
)
    requires
        builder.is_consistent(),
        builder.errors.len() == 0,
        builder.name matches Some(name) ==> name.len() > 0,
        builder.mailbox_capacity > 0,
        filled(builder.slots, builder.slots.len() as int),
        slots.len() > 0,
        runners.len() == slots.len(),
        labels_are_fresh(builder, slots),
    ensures
        ({
            let wired = defined(opened(builder, slots), builder.slots.len() as int, runners);
            &&& build_problem(wired) is None
            &&& wired.slots.len() == builder.slots.len() + slots.len()
            &&& forall|i: int|
                0 <= i < slots.len() ==> (#[trigger] wired.slots[builder.slots.len() + i])
                    == (SlotView { runner: Some(runners[i]), ..slots[i] })
        }),
{
    opening_appends(builder, slots);
    let open = opened(builder, slots);
    let base = builder.slots.len() as int;
    defining_fills(open, base, runners);
    let wired = defined(open, base, runners);
    assert forall|i: int| 0 <= i < wired.slots.len() implies (
    #[trigger] wired.slots[i]).runner is Some by {
        if i < base {
            assert(open.slots[i] == builder.slots[i]);
        }
    }
    crate::builder::builds_exactly_when_complete(wired);
    assert forall|i: int| 0 <= i < slots.len() implies (#[trigger] wired.slots[base + i]) == (
    SlotView { runner: Some(runners[i]), ..slots[i] }) by {
        assert(open.slots[base + i] == slots[i]);
    }
}

// ---------------------------------------------------------------------------
// What is accepted
// ---------------------------------------------------------------------------

proof fn name_place_is_the_first(names: Seq<Seq<char>>, name: Seq<char>, from: int)
    requires
        0 <= from <= names.len(),
    ensures
        forall|i: int| from <= i < name_place(names, name, from) ==> #[trigger] names[i] != name,
    decreases names.len() - from,
{
    if from < names.len() && names[from] != name {
        name_place_is_the_first(names, name, from + 1);
    }
}

/// A target that names another field is accepted exactly where the current
/// field does not send to it yet. What other fields send to makes no
/// difference.
pub proof fn only_repeated_edges_are_duplicates(options: FieldOptionsView, target: Seq<char>)
    requires
        options.is_reading(),
        options.names.contains(target),
        target != options.names[options.with_options.len() as int],
    ensures
        options.target_problem(Some(target)) is None <==> forall|i: int|
            0 <= i < options.edges.len() ==> !((#[trigger] options.edges[i]).source
                == options.names[options.with_options.len() as int] && options.edges[i].target
                == target),
        options.target_problem(Some(target)) is Some ==> options.target_problem(Some(target))
            == Some("duplicate topology edge"@),
{
    let k = choose|k: int| 0 <= k < options.names.len() && options.names[k] == target;
    name_place_is_in_range(options.names, target, 0);
    name_place_is_the_first(options.names, target, 0);
    assert(options.names[k] == target);
}

/// A target is no word, no field or the field itself: each is rejected for
/// what it is.
pub proof fn targets_name_another_field(options: FieldOptionsView, target: Seq<char>)
    requires
        options.is_reading(),
    ensures
        options.target_problem(None) == Some("expected an actor field name"@),
        !options.names.contains(target) ==> options.target_problem(Some(target)) == Some(
            "unknown topology actor field"@,
        ),
        target == options.names[options.with_options.len() as int] ==> options.target_problem(
            Some(target),
        ) == Some("expected another actor field"@),
{
    name_place_is_in_range(options.names, target, 0);
    name_place_is_the_first(options.names, target, 0);
    if target == options.names[options.with_options.len() as int] {
        assert(options.names[options.with_options.len() as int] == target);
    }
}

/// An accepted target adds one edge behind the others: from the current field
/// to the field of that name, given by its index too.
pub proof fn accepted_targets_are_recorded(options: FieldOptionsView, target: Seq<char>, i: int)
    requires
        options.is_reading(),
        options.names.len() <= usize::MAX,
        options.names.contains(target),
        0 <= i < options.edges.len(),
    ensures
        ({
            let after = options.with_edge(target);
            let edge = after.edges.last();
            &&& after.edges.len() == options.edges.len() + 1
            &&& after.edges[i] == options.edges[i]
            &&& edge.source == options.names[options.with_options.len() as int]
            &&& edge.target == target
            &&& edge.target_index < options.names.len()
            &&& options.names[edge.target_index as int] == target
            &&& after.names == options.names
            &&& after.with_options == options.with_options
            &&& after.has_options == options.has_options
            &&& after.emit_metadata == options.emit_metadata
        }),
{
    let k = choose|k: int| 0 <= k < options.names.len() && options.names[k] == target;
    name_place_is_in_range(options.names, target, 0);
    name_place_is_the_first(options.names, target, 0);
    assert(options.names[k] == target);
}

/// A field takes its actor options once and its targets only in a topology with
/// metadata; every other word is rejected.
pub proof fn fields_take_two_options(options: FieldOptionsView, name: Option<Seq<char>>)
    ensures
        options.option_problem(name) is None <==> (name == Some("options"@)
            && !options.has_options) || (name == Some("sends_to"@) && options.emit_metadata),
        name == Some("options"@) && options.has_options ==> options.option_problem(name) == Some(
            "duplicate `options` option"@,
        ),
        name == Some("sends_to"@) && !options.emit_metadata ==> options.option_problem(name)
            == Some("`sends_to` requires `#[topology(metadata)]` on the topology struct"@),
        name != Some("options"@) && name != Some("sends_to"@) ==> options.option_problem(name)
            == Some("expected `sends_to(...)` or `options = <expression>`"@),
{
    reveal_strlit("options");
    reveal_strlit("sends_to");
    assert("options"@.len() != "sends_to"@.len());
}

/// A struct takes one option, once.
pub proof fn structs_take_metadata_once(seen: bool, name: Option<Seq<char>>)
    ensures
        struct_option_problem(seen, name) is None <==> name == Some("metadata"@) && !seen,
        name == Some("metadata"@) && seen ==> struct_option_problem(seen, name) == Some(
            "duplicate `metadata` option"@,
        ),
        name != Some("metadata"@) ==> struct_option_problem(seen, name) == Some(
            "expected `metadata`"@,
        ),
{
}

/// A topology is a struct with at least one field, all of them named, and
/// without generics; whatever is not is rejected for what it lacks.
pub proof fn topologies_are_plain_structs(is_generic: bool, body: Body)
    ensures
        shape_problem(is_generic, body) is None <==> !is_generic && (body matches Body::Named(count)
            && count > 0),
        is_generic ==> shape_problem(is_generic, body) == Some(
            (Site::Generics, "Topology cannot be derived for generic structs"@),
        ),
        !is_generic && body == Body::Named(0) ==> shape_problem(is_generic, body) == Some(
            (Site::Name, "Topology requires at least one actor field"@),
        ),
        !is_generic && !(body is Named) ==> shape_problem(is_generic, body) == Some(
            (
                if body is Tuple {
                    Site::Fields
                } else {
                    Site::Name
                },
                "Topology can only be derived for structs with named fields"@,
            ),
        ),
{
}

/// An identifier loses the mark of a raw one, and nothing else.
pub proof fn raw_marks_are_dropped(name: Seq<char>)
    ensures
        bare(seq!['r', '#'] + name) == name,
        (name.len() < 2 || name[0] != 'r' || name[1] != '#') ==> bare(name) == name,
{
    let marked = seq!['r', '#'] + name;
    assert(marked[0] == 'r' && marked[1] == '#');
    assert(marked.skip(2) =~= name);
}

/// A plan follows the declaration: a slot for each field in order, under the
/// field's name and with its options, the refs struct named after the topology,
/// and the edges exactly where metadata was asked for.
pub proof fn plans_follow_the_declaration(topology: Seq<char>, options: FieldOptionsView, i: int)
    requires
        0 <= i < options.names.len(),
        options.with_options.len() == options.names.len(),
    ensures
        ({
            let plan = planned(topology, options);
            &&& plan.fields.len() == options.names.len()
            &&& plan.fields[i].label == options.names[i]
            &&& plan.fields[i].with_options == options.with_options[i]
            &&& plan.fields[i].slot == bare(options.names[i]) + "_slot"@
            &&& plan.refs == bare(topology) + "Refs"@
            &&& options.emit_metadata ==> plan.metadata == Some(options.edges)
            &&& !options.emit_metadata ==> plan.metadata is None
        }),
{
}

/// A target is accepted exactly where it names another field that the current
/// field does not send to yet. It is then recorded behind the earlier edges,
/// under the current field and with its own place among the fields; a rejected
/// target leaves everything as it was.
pub proof fn targets_are_recorded_or_rejected(
    options: &mut FieldOptions,
    target: Option<&str>,
    result: Result<(), &'static str>,
)
    requires
        old(options)@.is_reading(),
        call_ensures(FieldOptions::target, (options, target), result),
    ensures
        ({
            let before = old(options)@;
            let after = final(options)@;
            let source = before.names[before.with_options.len() as int];
            &&& result is Ok <==> {
                &&& target is Some
                &&& before.names.contains(target.unwrap()@)
                &&& target.unwrap()@ != source
                &&& forall|i: int|
                    0 <= i < before.edges.len() ==> !((#[trigger] before.edges[i]).source == source
                        && before.edges[i].target == target.unwrap()@)
            }
            &&& result is Ok ==> {
                &&& after.edges.len() == before.edges.len() + 1
                &&& after.edges.drop_last() =~= before.edges
                &&& after.edges.last().source == source
                &&& after.edges.last().target == target.unwrap()@
                &&& after.edges.last().target_index < before.names.len()
                &&& before.names[after.edges.last().target_index as int] == target.unwrap()@
            }
            &&& result is Err ==> after == before
            &&& after.names == before.names
            &&& after.with_options == before.with_options
            &&& after.has_options == before.has_options
            &&& after.emit_metadata == before.emit_metadata
        }),
{
    let before = old(options)@;
    assert(before.names.len() == old(options).names.len());
    if let Some(target) = target {
        targets_name_another_field(before, target@);
        name_place_is_in_range(before.names, target@, 0);
        if before.names.contains(target@) && target@
            != before.names[before.with_options.len() as int] {
            only_repeated_edges_are_duplicates(before, target@);
        }
    }
}

/// The same target is rejected the second time a field names it, and accepted
/// again from the next field where that is another one and has not sent to it.
pub proof fn repeated_targets_are_rejected(
    first: &mut FieldOptions,
    second: &mut FieldOptions,
    ending: &mut FieldOptions,
    third: &mut FieldOptions,
    target: &str,
    accepted: Result<(), &'static str>,
    repeated: Result<(), &'static str>,
    done: (),
    next: Result<(), &'static str>,
)
    requires
        old(first)@.is_reading(),
        call_ensures(FieldOptions::target, (first, Some(target)), accepted),
        accepted is Ok,
        *old(second) == *final(first),
        call_ensures(FieldOptions::target, (second, Some(target)), repeated),
        *old(ending) == *final(second),
        call_ensures(FieldOptions::end_field, (ending,), done),
        *old(third) == *final(ending),
        old(third)@.is_reading(),
        call_ensures(FieldOptions::target, (third, Some(target)), next),
        forall|i: int|
            0 <= i < old(first)@.edges.len() ==> (#[trigger] old(first)@.edges[i]).source
                != old(third)@.names[old(third)@.with_options.len() as int],
        old(third)@.names[old(third)@.with_options.len() as int]
            != old(first)@.names[old(first)@.with_options.len() as int],
    ensures
        repeated is Err && repeated->Err_0@ == "duplicate topology edge"@,
        final(second)@ == old(second)@,
        next is Ok <==> target@ != old(third)@.names[old(third)@.with_options.len() as int],
{
    targets_are_recorded_or_rejected(first, Some(target), accepted);
    targets_are_recorded_or_rejected(second, Some(target), repeated);
    targets_are_recorded_or_rejected(third, Some(target), next);
    let before = old(first)@;
    let after = final(first)@;
    let last = after.edges[after.edges.len() - 1];
    assert(last.source == before.names[before.with_options.len() as int]);
    only_repeated_edges_are_duplicates(after, target@);
    assert forall|i: int| 0 <= i < old(third)@.edges.len() implies !((
    #[trigger] old(third)@.edges[i]).source
        == old(third)@.names[old(third)@.with_options.len() as int] && old(third)@.edges[i].target
        == target@) by {
        if i < before.edges.len() {
            assert(after.edges.drop_last()[i] == before.edges[i]);
        }
    }
}

/// A field that ended is the next one that was read, with the option it set, and
/// the next field starts without one.
pub proof fn fields_are_read_one_by_one(options: &mut FieldOptions, done: ())
    requires
        call_ensures(FieldOptions::end_field, (options,), done),
    ensures
        final(options)@.with_options.len() == old(options)@.with_options.len() + 1,
        final(options)@.with_options.drop_last() =~= old(options)@.with_options,
        final(options)@.with_options.last() == old(options)@.has_options,
        !final(options)@.has_options,
        final(options)@.edges == old(options)@.edges,
        final(options)@.names == old(options)@.names,
        final(options)@.emit_metadata == old(options)@.emit_metadata,
{
}

/// A field sets its options at most once, and sends to others only where
/// metadata was asked for; no other option is known.
pub proof fn field_options_are_set_once(
    options: &mut FieldOptions,
    name: Option<&str>,
    result: Result<FieldOption, &'static str>,
)
    requires
        call_ensures(FieldOptions::option, (options, name), result),
    ensures
        result matches Ok(option) && option is Options <==> name is Some && name.unwrap()@
            == "options"@ && !old(options)@.has_options,
        result matches Ok(option) && option is SendsTo <==> name is Some && name.unwrap()@
            == "sends_to"@ && old(options)@.emit_metadata,
        final(options)@.has_options == (old(options)@.has_options || (
        result matches Ok(option) && option is Options)),
        final(options)@.edges == old(options)@.edges,
        final(options)@.with_options == old(options)@.with_options,
        final(options)@.names == old(options)@.names,
        final(options)@.emit_metadata == old(options)@.emit_metadata,
{
    reveal_strlit("options");
    reveal_strlit("sends_to");
    assert("options"@.len() != "sends_to"@.len());
    fields_take_two_options(old(options)@, crate::observability::optional_chars(name));
}

/// `metadata` is the one option of the struct, and is given once.
pub proof fn metadata_is_asked_for_once(
    first: &mut StructOptions,
    second: &mut StructOptions,
    name: Option<&str>,
    earlier: Result<(), &'static str>,
    later: Result<(), &'static str>,
    emit: bool,
)
    requires
        !old(first)@,
        call_ensures(StructOptions::option, (first, name), earlier),
        *old(second) == *final(first),
        call_ensures(StructOptions::option, (second, name), later),
        call_ensures(StructOptions::emit_metadata, (final(second),), emit),
    ensures
        earlier is Ok <==> name is Some && name.unwrap()@ == "metadata"@,
        later is Err,
        emit == (earlier is Ok),
        earlier is Ok ==> later->Err_0@ == "duplicate `metadata` option"@,
        earlier is Err ==> earlier->Err_0@ == "expected `metadata`"@,
{
    structs_take_metadata_once(old(first)@, crate::observability::optional_chars(name));
    structs_take_metadata_once(old(second)@, crate::observability::optional_chars(name));
}

/// A plan is made exactly for a struct without generics and with named fields,
/// at least one. It covers the fields in order, and the edges where metadata was
/// asked for.
pub proof fn plain_structs_are_planned(
    topology: &str,
    is_generic: bool,
    body: Body,
    options: FieldOptions,
    result: Result<TopologyPlan, ShapeError>,
    i: int,
)
    requires
        options@.with_options.len() == options@.names.len(),
        call_ensures(expand_topology, (topology, is_generic, body, options), result),
    ensures
        result is Ok <==> !is_generic && (body matches Body::Named(count) && count > 0),
        result matches Ok(plan) ==> {
            &&& plan@.fields.len() == options@.names.len()
            &&& plan@.metadata is Some <==> options@.emit_metadata
            &&& options@.emit_metadata ==> plan@.metadata == Some(options@.edges)
            &&& 0 <= i < options@.names.len() ==> plan@.fields[i].label == options@.names[i]
                && plan@.fields[i].with_options == options@.with_options[i]
        },
        result matches Err(error) ==> (error.site is Generics <==> is_generic),
{
    topologies_are_plain_structs(is_generic, body);
    if 0 <= i < options@.names.len() {
        plans_follow_the_declaration(topology@, options@, i);
    }
}

/// A list of targets is not empty.
pub proof fn target_lists_are_not_empty(
    options: &FieldOptions,
    targets: usize,
    result: Result<(), &'static str>,
)
    requires
        call_ensures(FieldOptions::end_targets, (options, targets), result),
    ensures
        result is Ok <==> targets > 0,
        result matches Err(message) ==> message@ == "expected at least one target actor field"@,
{
}

/// Every recorded edge goes from one field to another, says where the target
/// stands, and stands once; without metadata there is none.
pub proof fn recorded_edges_are_sound(
    options: &mut FieldOptions,
    target: Option<&str>,
    result: Result<(), &'static str>,
    i: int,
    j: int,
)
    requires
        call_ensures(FieldOptions::target, (options, target), result),
        0 <= i < final(options)@.edges.len(),
        0 <= j < final(options)@.edges.len(),
    ensures
        ({
            let names = final(options)@.names;
            let edge = final(options)@.edges[i];
            let other = final(options)@.edges[j];
            &&& final(options)@.emit_metadata
            &&& names.contains(edge.source)
            &&& edge.target_index < names.len()
            &&& names[edge.target_index as int] == edge.target
            &&& edge.source != edge.target
            &&& i != j ==> edge.source != other.source || edge.target != other.target
        }),
{
    let edges = final(options)@.edges;
    assert(edges[i].source == edges[i].source && edges[j].source == edges[j].source);
}

} // verus!
