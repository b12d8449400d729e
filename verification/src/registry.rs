//! Runtime lookup of actors by id.
use vstd::prelude::*;
use crate::error::{LookupError, LookupErrorView};
use crate::graph::{looked_up, position, GraphActor, GraphActorView, MessageType};
use crate::text::{same_text, wrapped};

verus! {

/// Errors returned when the entries of a registry change.
#[derive(Debug, Clone, PartialEq, Eq)]
pub enum RegistryError {
    /// The id is registered already.
    AlreadyRegistered { actor_id: String },
    /// The id is not registered.
    NotRegistered { actor_id: String },
}

/// What a [`RegistryError`] says.
pub enum RegistryErrorView {
    AlreadyRegistered { actor_id: Seq<char> },
    NotRegistered { actor_id: Seq<char> },
}

impl View for RegistryError {
    type V = RegistryErrorView;

    open spec fn view(&self) -> RegistryErrorView {
        match *self {
            RegistryError::AlreadyRegistered { actor_id } => {
                RegistryErrorView::AlreadyRegistered { actor_id: actor_id@ }
            },
            RegistryError::NotRegistered { actor_id } => {
                RegistryErrorView::NotRegistered { actor_id: actor_id@ }
            },
        }
    }
}

impl RegistryErrorView {
    /// The text shown to users.
    pub open spec fn text(self) -> Seq<char> {
        match self {
            RegistryErrorView::AlreadyRegistered { actor_id } => {
                "actor `"@ + actor_id + "` is already registered"@
            },
            RegistryErrorView::NotRegistered { actor_id } => {
                "actor `"@ + actor_id + "` is not registered"@
            },
        }
    }
}

impl RegistryError {
    /// Returns the text shown to users.
    pub fn message(&self) -> (message: String)
        ensures
            message@ == self@.text(),
    {
        match self {
            RegistryError::AlreadyRegistered { actor_id } => {
                wrapped("actor `", actor_id.as_str(), "` is already registered")
            },
            RegistryError::NotRegistered { actor_id } => {
                wrapped("actor `", actor_id.as_str(), "` is not registered")
            },
        }
    }
}

/// The registered actors, in the order of their registration.
#[derive(Debug)]
pub struct ActorRegistry<B> {
    entries: Vec<GraphActor<B, ()>>,
}

impl<B> View for ActorRegistry<B> {
    type V = Seq<GraphActorView<B, ()>>;

    closed spec fn view(&self) -> Seq<GraphActorView<B, ()>> {
        self.entries@.map_values(|entry: GraphActor<B, ()>| entry@)
    }
}

/// Whether an entry has the given id.
pub open spec fn is_registered<B>(entries: Seq<GraphActorView<B, ()>>, actor_id: Seq<char>) -> bool {
    position(entries, actor_id, 0) < entries.len()
}

/// The entries without the one of the given id.
pub open spec fn deregistered<B>(
    entries: Seq<GraphActorView<B, ()>>,
    actor_id: Seq<char>,
) -> Seq<GraphActorView<B, ()>> {
    if is_registered(entries, actor_id) {
        entries.remove(position(entries, actor_id, 0))
    } else {
        entries
    }
}

impl<B> ActorRegistry<B> {
    /// What holds of every value: no id stands twice.
    #[verifier::type_invariant]
    pub closed spec fn is_valid(self) -> bool {
        crate::graph::ids_are_distinct(self@)
    }

    /// A registry without entries.
    pub fn new() -> (registry: Self)
        ensures
            registry@ == Seq::<GraphActorView<B, ()>>::empty(),
    {
        let registry = ActorRegistry { entries: Vec::new() };
        assert(registry@ =~= Seq::empty());
        registry
    }

    fn find(&self, actor_id: &str) -> (index: usize)
        ensures
            index == position(self@, actor_id@, 0),
            index <= self.entries@.len(),
            self@.len() == self.entries@.len(),
    {
        let mut index: usize = 0;
        while index < self.entries.len()
            invariant
                index <= self.entries@.len(),
                self@.len() == self.entries@.len(),
                position(self@, actor_id@, 0) == position(self@, actor_id@, index as int),
            decreases self.entries@.len() - index,
        {
            assert(self@[index as int] == self.entries@[index as int]@);
            if same_text(self.entries[index].actor_id.as_str(), actor_id) {
                return index;
            }
            index += 1;
        }
        index
    }

    /// Whether an actor with the given id is registered.
    pub fn contains(&self, actor_id: &str) -> (registered: bool)
        ensures
            registered == is_registered(self@, actor_id@),
    {
        self.find(actor_id) < self.entries.len()
    }

    /// Returns the ids of the registered actors.
    pub fn actor_ids(&self) -> (ids: Vec<String>)
        ensures
            ids@.len() == self@.len(),
            forall|i: int| 0 <= i < self@.len() ==> (#[trigger] ids@[i])@ == self@[i].actor_id,
    {
        let mut ids: Vec<String> = Vec::new();
        for i in 0..self.entries.len()
            invariant
                ids@.len() == i,
                forall|j: int|
                    0 <= j < i ==> (#[trigger] ids@[j])@ == self.entries@[j].actor_id@,
        {
            ids.push(self.entries[i].actor_id.clone());
        }
        ids
    }

    /// Returns the bindings of the registered actors.
    pub fn bindings(&self) -> (bindings: Vec<&B>)
        ensures
            bindings@.len() == self@.len(),
            forall|i: int| 0 <= i < self@.len() ==> *(#[trigger] bindings@[i]) == self@[i].binding,
    {
        let mut bindings: Vec<&B> = Vec::new();
        for i in 0..self.entries.len()
            invariant
                bindings@.len() == i,
                forall|j: int|
                    0 <= j < i ==> *(#[trigger] bindings@[j]) == self.entries@[j].binding,
        {
            bindings.push(&self.entries[i].binding);
        }
        bindings
    }

    /// Registers an actor under its id, unless the id is taken.
    pub fn register(&mut self, actor_id: &str, message_type: MessageType, binding: B) -> (result:
        Result<(), RegistryError>)
        ensures
            if is_registered(old(self)@, actor_id@) {
                &&& result matches Err(error)
                &&& error@ == (RegistryErrorView::AlreadyRegistered { actor_id: actor_id@ })
                &&& final(self)@ == old(self)@
            } else {
                &&& result is Ok
                &&& final(self)@ == old(self)@.push(
                    GraphActorView { actor_id: actor_id@, message_type, binding, runner: () },
                )
            },
    {
        proof {
            use_type_invariant(&*self);
        }
        if self.contains(actor_id) {
            return Err(RegistryError::AlreadyRegistered { actor_id: actor_id.to_owned() });
        }
        let entry = GraphActor { actor_id: actor_id.to_owned(), message_type, binding, runner: () };
        let mut entries: Vec<GraphActor<B, ()>> = Vec::new();
        std::mem::swap(&mut entries, &mut self.entries);
        entries.push(entry);
        proof {
            let after = entries@.map_values(|entry: GraphActor<B, ()>| entry@);
            assert(after =~= old(self)@.push(entry@));
            registered_actors_are_found(old(self)@, entry@, message_type);
        }
        self.entries = entries;
        Ok(())
    }

    /// Removes the actor with the given id.
    pub fn deregister(&mut self, actor_id: &str) -> (result: Result<(), RegistryError>)
        ensures
            final(self)@ == deregistered(old(self)@, actor_id@),
            if is_registered(old(self)@, actor_id@) {
                result is Ok
            } else {
                result matches Err(error) && error@ == (RegistryErrorView::NotRegistered {
                    actor_id: actor_id@,
                })
            },
    {
        proof {
            use_type_invariant(&*self);
        }
        let index: usize = self.find(actor_id);
        if index >= self.entries.len() {
            return Err(RegistryError::NotRegistered { actor_id: actor_id.to_owned() });
        }
        proof {
            crate::graph::position_is_in_range(self@, actor_id@, 0);
        }
        let mut entries: Vec<GraphActor<B, ()>> = Vec::new();
        std::mem::swap(&mut entries, &mut self.entries);
        let _ = entries.remove(index);
        proof {
            let after = entries@.map_values(|entry: GraphActor<B, ()>| entry@);
            assert(after =~= old(self)@.remove(index as int));
        }
        self.entries = entries;
        Ok(())
    }

    /// Returns the binding of the actor with the given id, provided that its
    /// message type is the requested one.
    pub fn actor_ref(&self, actor_id: &str, requested: MessageType) -> (found: Result<
        &B,
        LookupError,
    >)
        ensures
            match found {
                Ok(binding) => looked_up(self@, actor_id@, requested) == Ok::<B, LookupErrorView>(
                    *binding,
                ),
                Err(error) => looked_up(self@, actor_id@, requested) == Err::<B, LookupErrorView>(
                    error@,
                ),
            },
    {
        let index: usize = self.find(actor_id);
        if index >= self.entries.len() {
            return Err(LookupError::UnknownActor { actor_id: actor_id.to_owned() });
        }
        let entry = &self.entries[index];
        assert(self@[index as int] == entry@);
        if entry.message_type.key != requested.key {
            return Err(
                LookupError::MessageTypeMismatch {
                    actor_id: actor_id.to_owned(),
                    registered: entry.message_type.name,
                    requested: requested.name,
                },
            );
        }
        Ok(&entry.binding)
    }
}

/// Registering keeps the ids distinct, and makes the actor findable under its
/// message type without hiding any other.
pub proof fn registered_actors_are_found<B>(
    entries: Seq<GraphActorView<B, ()>>,
    entry: GraphActorView<B, ()>,
    requested: MessageType,
)
    requires
        crate::graph::ids_are_distinct(entries),
        !is_registered(entries, entry.actor_id),
    ensures
        crate::graph::ids_are_distinct(entries.push(entry)),
        is_registered(entries.push(entry), entry.actor_id),
        requested.key == entry.message_type.key ==> looked_up(
            entries.push(entry),
            entry.actor_id,
            requested,
        ) == Ok::<B, LookupErrorView>(entry.binding),
{
    let after = entries.push(entry);
    crate::graph::position_is_in_range(entries, entry.actor_id, 0);
    assert(crate::graph::ids_are_distinct(after));
    assert(after[entries.len() as int] == entry);
    crate::graph::actors_are_found_by_id(after, entries.len() as int, requested);
    crate::graph::position_is_in_range(after, entry.actor_id, 0);
}

/// A deregistered actor is unknown from then on, under every message type.
pub proof fn deregistered_actors_are_unknown<B>(
    entries: Seq<GraphActorView<B, ()>>,
    actor_id: Seq<char>,
    requested: MessageType,
)
    requires
        crate::graph::ids_are_distinct(entries),
        is_registered(entries, actor_id),
    ensures
        crate::graph::ids_are_distinct(deregistered(entries, actor_id)),
        !is_registered(deregistered(entries, actor_id), actor_id),
        looked_up(deregistered(entries, actor_id), actor_id, requested) == Err::<
            B,
            LookupErrorView,
        >(LookupErrorView::UnknownActor { actor_id }),
{
    let index = position(entries, actor_id, 0);
    crate::graph::position_is_in_range(entries, actor_id, 0);
    let after = entries.remove(index);
    assert forall|i: int| 0 <= i < after.len() implies #[trigger] after[i].actor_id != actor_id by {
        if i < index {
            assert(after[i] == entries[i]);
        } else {
            assert(after[i] == entries[i + 1]);
        }
        assert(entries[index].actor_id == actor_id);
    }
    crate::graph::other_ids_are_unknown(after, actor_id, requested);
    crate::graph::position_is_in_range(after, actor_id, 0);
}

/// An id is registered exactly where an entry has it. Registering adds an entry
/// and keeps the others; deregistering takes that entry out and keeps the
/// others.
pub proof fn entries_come_and_go_one_by_one<B>(
    entries: Seq<GraphActorView<B, ()>>,
    actor_id: Seq<char>,
    other: int,
)
    requires
        crate::graph::ids_are_distinct(entries),
        0 <= other < entries.len(),
    ensures
        is_registered(entries, actor_id) <==> exists|i: int|
            0 <= i < entries.len() && (#[trigger] entries[i]).actor_id == actor_id,
        deregistered(entries, actor_id).len() == (if is_registered(entries, actor_id) {
            entries.len() - 1
        } else {
            entries.len() as int
        }),
        entries[other].actor_id != actor_id ==> deregistered(entries, actor_id).contains(
            entries[other],
        ),
        !is_registered(entries, actor_id) ==> deregistered(entries, actor_id) == entries,
        !(exists|i: int|
            0 <= i < deregistered(entries, actor_id).len() && (#[trigger] deregistered(
                entries,
                actor_id,
            )[i]).actor_id == actor_id),
{
    let index = position(entries, actor_id, 0);
    crate::graph::position_is_in_range(entries, actor_id, 0);
    if is_registered(entries, actor_id) {
        assert(entries[index].actor_id == actor_id);
        let after = entries.remove(index);
        if entries[other].actor_id != actor_id {
            if other < index {
                assert(after[other] == entries[other]);
            } else {
                assert(after[other - 1] == entries[other]);
            }
        }
        assert forall|i: int| 0 <= i < after.len() implies (#[trigger] after[i]).actor_id
            != actor_id by {
            if i < index {
                assert(after[i] == entries[i]);
            } else {
                assert(after[i] == entries[i + 1]);
            }
        }
    }
}

/// The text of an error names the actor and what is wrong.
pub proof fn registry_errors_name_the_actor(actor_id: Seq<char>)
    ensures
        (RegistryErrorView::AlreadyRegistered { actor_id }).text() == "actor `"@ + actor_id
            + "` is already registered"@,
        (RegistryErrorView::NotRegistered { actor_id }).text() == "actor `"@ + actor_id
            + "` is not registered"@,
{
}

/// An actor is registered under its id once: it is then found there with its
/// binding, and a second registration is refused and changes nothing. Once it was
/// deregistered it is not found, and the registry is as it was before.
pub proof fn registered_actors_come_and_go<B>(
    adding: &mut ActorRegistry<B>,
    repeating: &mut ActorRegistry<B>,
    removing: &mut ActorRegistry<B>,
    actor_id: &str,
    message_type: MessageType,
    bindings: (B, B),
    added: Result<(), RegistryError>,
    found: Result<&B, LookupError>,
    repeated: Result<(), RegistryError>,
    removed: Result<(), RegistryError>,
    contained: (bool, bool, bool),
)
    requires
        crate::graph::ids_are_distinct(old(adding)@),
        call_ensures(ActorRegistry::<B>::contains, (old(adding), actor_id), contained.0),
        call_ensures(
            ActorRegistry::<B>::register,
            (adding, actor_id, message_type, bindings.0),
            added,
        ),
        call_ensures(ActorRegistry::<B>::contains, (final(adding), actor_id), contained.1),
        call_ensures(
            ActorRegistry::<B>::actor_ref,
            (final(adding), actor_id, message_type),
            found,
        ),
        *old(repeating) == *final(adding),
        call_ensures(
            ActorRegistry::<B>::register,
            (repeating, actor_id, message_type, bindings.1),
            repeated,
        ),
        *old(removing) == *final(repeating),
        call_ensures(ActorRegistry::<B>::deregister, (removing, actor_id), removed),
        call_ensures(ActorRegistry::<B>::contains, (final(removing), actor_id), contained.2),
    ensures
        added is Ok <==> !contained.0,
        contained.0 <==> exists|i: int|
            0 <= i < old(adding)@.len() && (#[trigger] old(adding)@[i]).actor_id == actor_id@,
        added is Err ==> final(adding)@ == old(adding)@ && added->Err_0@
            == (RegistryErrorView::AlreadyRegistered { actor_id: actor_id@ }),
        contained.1,
        added is Ok ==> found is Ok && *found->Ok_0 == bindings.0,
        repeated is Err && repeated->Err_0@ == (RegistryErrorView::AlreadyRegistered {
            actor_id: actor_id@,
        }),
        final(repeating)@ == final(adding)@,
        removed is Ok,
        !contained.2,
        added is Ok ==> final(removing)@ =~= old(adding)@,
{
    let entry = GraphActorView {
        actor_id: actor_id@,
        message_type,
        binding: bindings.0,
        runner: (),
    };
    let before = old(adding)@;
    if before.len() > 0 {
        entries_come_and_go_one_by_one(before, actor_id@, 0);
    }
    if !is_registered(before, actor_id@) {
        registered_actors_are_found(before, entry, message_type);
        let after = before.push(entry);
        assert(after.last() == entry);
        crate::graph::ids_are_placed_at_their_first_actor(
            after,
            actor_id@,
            before.len() as int,
        );
    }
    deregistered_actors_are_unknown(old(removing)@, actor_id@, message_type);
}

/// An id that is not registered cannot be deregistered, and nothing changes.
pub proof fn unknown_actors_are_not_deregistered<B>(
    registry: &mut ActorRegistry<B>,
    actor_id: &str,
    contained: bool,
    removed: Result<(), RegistryError>,
)
    requires
        call_ensures(ActorRegistry::<B>::contains, (old(registry), actor_id), contained),
        call_ensures(ActorRegistry::<B>::deregister, (registry, actor_id), removed),
    ensures
        removed is Ok <==> contained,
        !contained ==> final(registry)@ == old(registry)@ && removed->Err_0@
            == (RegistryErrorView::NotRegistered { actor_id: actor_id@ }),
{
}

} // verus!
