//! Mailbox bindings of typed graphs.
use tokio::sync::{mpsc, watch};
use vstd::prelude::*;
use crate::binding::MailboxRef;
use crate::sync::{mpsc_channel, watch_channel, watch_held, watch_replace, Inlet, Published};

verus! {

/// A mailbox that messages go to.
#[verifier::reject_recursive_types(M)]
pub struct BoundMailbox<M> {
    pub owner: Seq<char>,
    pub channel: mpsc::Sender<M>,
    /// How many messages the mailbox can queue.
    pub limit: int,
}

/// The mailbox that messages go to while `mailbox` is published.
pub open spec fn bound_mailbox<M>(mailbox: Option<MailboxRef<M>>) -> Option<BoundMailbox<M>> {
    match mailbox {
        Some(mailbox) => Some(
            BoundMailbox {
                owner: mailbox.owner(),
                channel: mailbox.channel(),
                limit: mailbox.limit(),
            },
        ),
        None => None,
    }
}

/// Long-lived binding slot for one actor's current mailbox.
///
/// Actor refs subscribe to this slot, so they follow the current mailbox
/// across graph reruns.
#[verifier::reject_recursive_types(M)]
pub struct BindingCore<M> {
    actor_id: String,
    current: Published<Option<MailboxRef<M>>>,
}

/// What a [`BindingCore`] holds.
#[verifier::reject_recursive_types(M)]
pub struct BindingCoreView<M> {
    pub actor_id: Seq<char>,
    /// What the readers of the slot read.
    pub binding: watch::Receiver<Option<MailboxRef<M>>>,
    /// The mailbox that was published last, which the readers of the slot
    /// find.
    pub bound: Option<BoundMailbox<M>>,
}

impl<M> View for BindingCore<M> {
    type V = BindingCoreView<M>;

    closed spec fn view(&self) -> BindingCoreView<M> {
        BindingCoreView {
            actor_id: self.actor_id@,
            binding: self.current.readers(),
            bound: bound_mailbox(self.current.current()),
        }
    }
}

impl<M> BindingCore<M> {
    /// A slot for the given actor, which has not run yet.
    pub fn new(actor_id: String) -> (core: Self)
        ensures
            core@.actor_id == actor_id@,
            core@.bound is None,
    {
        BindingCore { actor_id, current: watch_channel(None) }
    }

    /// Returns the id of the actor.
    pub fn actor_id(&self) -> (id: &str)
        ensures
            id@ == self@.actor_id,
    {
        self.actor_id.as_str()
    }

    /// Returns whether a mailbox is bound.
    pub fn is_bound(&self) -> (bound: bool)
        ensures
            bound == (self@.bound is Some),
    {
        watch_held(&self.current).is_some()
    }

    /// A new reader of the slot, to which the current state is nothing new.
    pub fn subscribe(&self) -> (reader: watch::Receiver<Option<MailboxRef<M>>>)
        ensures
            reader == self@.binding,
    {
        self.current.subscribe()
    }

    /// Sends the actor's messages to `mailbox` from now on.
    pub fn bind(&mut self, mailbox: MailboxRef<M>)
        ensures
            final(self)@ == (BindingCoreView { bound: bound_mailbox(Some(mailbox)), ..old(self)@ }),
    {
        watch_replace(&mut self.current, Some(mailbox));
    }

    /// Leaves the actor without a mailbox.
    pub fn clear(&mut self)
        ensures
            final(self)@ == (BindingCoreView { bound: None, ..old(self)@ }),
    {
        watch_replace(&mut self.current, None);
    }

    /// Starts a run: makes a fresh mailbox of the given capacity and binds it.
    /// The receiving half, which what is sent to the actor from now on arrives
    /// at, is the actor's to read.
    pub fn start_run(&mut self, mailbox_capacity: usize) -> (mailbox: Inlet<M>)
        requires
            0 < mailbox_capacity <= crate::sync::max_permits(),
        ensures
            mailbox.fed_by() is Some,
            !mailbox.is_closed(),
            final(self)@ == (BindingCoreView {
                bound: Some(
                    BoundMailbox {
                        owner: old(self)@.actor_id,
                        channel: mailbox.fed_by().unwrap(),
                        limit: mailbox_capacity as int,
                    },
                ),
                ..old(self)@
            }),
    {
        let (outlet, mailbox) = mpsc_channel(mailbox_capacity);
        let owner = self.actor_id.clone();
        self.bind(MailboxRef::new(owner, outlet));
        mailbox
    }
}

/// What is published of a mailbox is that mailbox: its owner, its channel and
/// how much it can queue.
pub proof fn published_mailboxes_are_shown<M>(mailbox: MailboxRef<M>)
    ensures
        bound_mailbox(Some(mailbox)) matches Some(bound) && bound.owner == mailbox.owner()
            && bound.channel == mailbox.channel() && bound.limit == mailbox.limit(),
        bound_mailbox::<M>(None) is None,
{
}

/// A binding shows the mailbox of the run that started last until it is cleared,
/// to the readers that it had.
pub proof fn typed_bindings_show_what_was_done_last<M>(
    actor_id: String,
    fresh: BindingCore<M>,
    named: &str,
    starting: &mut BindingCore<M>,
    clearing: &mut BindingCore<M>,
    mailbox_capacity: usize,
    mailbox: Inlet<M>,
    done: (),
    bound: (bool, bool, bool),
    readers: (
        watch::Receiver<Option<MailboxRef<M>>>,
        watch::Receiver<Option<MailboxRef<M>>>,
    ),
)
    requires
        call_ensures(BindingCore::<M>::new, (actor_id,), fresh),
        call_ensures(BindingCore::<M>::actor_id, (&fresh,), named),
        call_ensures(BindingCore::<M>::is_bound, (&fresh,), bound.0),
        call_ensures(BindingCore::<M>::subscribe, (old(starting),), readers.0),
        call_ensures(BindingCore::<M>::start_run, (starting, mailbox_capacity), mailbox),
        call_ensures(BindingCore::<M>::is_bound, (final(starting),), bound.1),
        *old(clearing) == *final(starting),
        call_ensures(BindingCore::<M>::clear, (clearing,), done),
        call_ensures(BindingCore::<M>::is_bound, (final(clearing),), bound.2),
        call_ensures(BindingCore::<M>::subscribe, (final(clearing),), readers.1),
    ensures
        named@ == actor_id@,
        bound == (false, true, false),
        final(starting)@.bound matches Some(shown) && shown.owner == old(starting)@.actor_id
            && Some(shown.channel) == mailbox.fed_by() && shown.limit == mailbox_capacity,
        readers.0 == readers.1,
        final(clearing)@.actor_id == old(starting)@.actor_id,
{
}

} // verus!
