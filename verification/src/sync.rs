//! The channels, watched values, tokens and permits that actors are wired
//! with.
//!
//! A handle to a channel, a watched value, a token or a semaphore stands, in
//! contracts, for what it leads to: two handles of a kind are equal exactly
//! when they lead to the same thing.
//!
//! What is queued in a channel, what a reader of a watched value finds, and
//! whether a token is cancelled by now changes under other holders' hands.
//! Such a thing is asked for, and the answer says what was asked:
//! [`SendAttempt`], [`Taken`], [`RoomReading`], [`Seen`], [`SourceReading`],
//! [`TokenReading`]. What has happened for good is stated of the values
//! themselves: how many messages a channel can queue and which receiver it
//! feeds, that a receiver was closed, what the only writer of a watched value
//! published last, that a token was cancelled, and how many permits a
//! semaphore was made with. The values that carry such facts can be made by
//! the functions of this module alone.
use std::sync::Arc;
use tokio::sync::{mpsc, oneshot, watch, OwnedSemaphorePermit, Semaphore};
use tokio_util::sync::CancellationToken;
use vstd::prelude::*;

verus! {

/// `tokio::sync::mpsc::Sender`: the sending half of a bounded channel.
#[verifier::external_type_specification]
#[verifier::external_body]
#[verifier::reject_recursive_types(T)]
pub struct ExMpscSender<T>(mpsc::Sender<T>);

/// `tokio::sync::mpsc::Receiver`: the receiving half of a bounded channel.
#[verifier::external_type_specification]
#[verifier::external_body]
#[verifier::reject_recursive_types(T)]
pub struct ExMpscReceiver<T>(mpsc::Receiver<T>);

/// `tokio::sync::watch::Sender`: the writing half of a watched value.
#[verifier::external_type_specification]
#[verifier::external_body]
#[verifier::reject_recursive_types(T)]
pub struct ExWatchSender<T>(watch::Sender<T>);

/// `tokio::sync::watch::Receiver`: a reader of a watched value.
#[verifier::external_type_specification]
#[verifier::external_body]
#[verifier::reject_recursive_types(T)]
pub struct ExWatchReceiver<T>(watch::Receiver<T>);

/// `tokio::sync::oneshot::Sender`: the sending half of a one-value channel.
#[verifier::external_type_specification]
#[verifier::external_body]
#[verifier::reject_recursive_types(T)]
pub struct ExOneshotSender<T>(oneshot::Sender<T>);

/// `tokio::sync::Semaphore`: a counter of permits.
#[verifier::external_type_specification]
#[verifier::external_body]
pub struct ExSemaphore(Semaphore);

/// `tokio::sync::OwnedSemaphorePermit`: one permit, given back when dropped.
#[verifier::external_type_specification]
#[verifier::external_body]
pub struct ExOwnedSemaphorePermit(OwnedSemaphorePermit);

/// `tokio_util::sync::CancellationToken`: a flag that is raised once for all
/// of its holders.
#[verifier::external_type_specification]
#[verifier::external_body]
pub struct ExCancellationToken(CancellationToken);

/// The largest number of messages that a mailbox can hold, and of permits that
/// a semaphore can count.
pub open spec fn max_permits() -> int {
    usize::MAX as int / 8
}

// ---------------------------------------------------------------------------
// Bounded channels
// ---------------------------------------------------------------------------

/// A handle for sending into a bounded channel.
#[verifier::reject_recursive_types(M)]
pub struct Outlet<M> {
    sender: mpsc::Sender<M>,
    limit: Ghost<int>,
}

impl<M> Outlet<M> {
    /// The channel that the handle sends into.
    pub closed spec fn channel(self) -> mpsc::Sender<M> {
        self.sender
    }

    /// How many messages the channel can queue, as it was made.
    pub closed spec fn limit(self) -> int {
        self.limit@
    }

    /// Returns the sender itself, for waiting on room.
    pub fn sender(&self) -> (sender: &mpsc::Sender<M>)
        ensures
            *sender == self.channel(),
    {
        &self.sender
    }
}

/// The receiving half of a bounded channel.
#[verifier::reject_recursive_types(M)]
pub struct Inlet<M> {
    receiver: mpsc::Receiver<M>,
    made: Ghost<(mpsc::Receiver<M>, mpsc::Sender<M>)>,
    closed: Ghost<Option<mpsc::Receiver<M>>>,
}

impl<M> Inlet<M> {
    /// The receiver that messages are taken out of.
    pub closed spec fn queue(self) -> mpsc::Receiver<M> {
        self.receiver
    }

    /// The channel whose messages arrive at the receiver, as long as it is the
    /// one that the channel was made with.
    pub closed spec fn fed_by(self) -> Option<mpsc::Sender<M>> {
        if self.made@.0 == self.receiver {
            Some(self.made@.1)
        } else {
            None
        }
    }

    /// Whether the receiver was closed: its channel turns away every send.
    pub closed spec fn is_closed(self) -> bool {
        self.closed@ == Some(self.receiver)
    }

    /// Lends the receiver itself, for waiting on messages.
    pub fn receiver(&mut self) -> (receiver: &mut mpsc::Receiver<M>)
        ensures
            *receiver == old(self).queue(),
            final(self).queue() == *final(receiver),
            *final(receiver) == *receiver ==> *final(self) == *old(self),
    {
        &mut self.receiver
    }
}

/// `mpsc::channel`: makes a bounded channel. It panics on a capacity of zero
/// and on one above the largest number of permits of a semaphore. The channel
/// queues up to `capacity` messages, and what is sent into it arrives at the
/// receiver that it was made with, which is open.
#[verifier::external_body]
pub(crate) fn mpsc_channel<M>(capacity: usize) -> (pair: (Outlet<M>, Inlet<M>))
    requires
        0 < capacity <= max_permits(),
    ensures
        pair.0.limit() == capacity,
        pair.1.fed_by() == Some(pair.0.channel()),
        !pair.1.is_closed(),
{
    let (sender, receiver) = mpsc::channel(capacity);
    let outlet = Outlet { sender, limit: Ghost(capacity as int) };
    let inlet = Inlet { receiver, made: Ghost((receiver, sender)), closed: Ghost(None) };
    (outlet, inlet)
}

/// How an attempt to queue a message without waiting came out.
pub enum TrySend<M> {
    /// The message was queued.
    Sent,
    /// The mailbox had no room: the message comes back.
    Full(M),
    /// The receiver is gone: the message comes back.
    Closed(M),
}

/// An attempt to queue a message in a channel, and how it came out.
#[verifier::reject_recursive_types(M)]
pub struct SendAttempt<M> {
    outcome: TrySend<M>,
    channel: Ghost<mpsc::Sender<M>>,
    message: Ghost<M>,
}

impl<M> SendAttempt<M> {
    /// How the attempt came out.
    pub closed spec fn found(self) -> TrySend<M> {
        self.outcome
    }

    /// The channel that the message was to be queued in.
    pub closed spec fn channel(self) -> mpsc::Sender<M> {
        self.channel@
    }

    /// The message.
    pub closed spec fn message(self) -> M {
        self.message@
    }

    /// Returns how the attempt came out.
    pub fn outcome(&self) -> (outcome: &TrySend<M>)
        ensures
            *outcome == self.found(),
    {
        &self.outcome
    }
}

/// `mpsc::Sender::try_send`: queues the message in the channel, or hands it
/// back with the reason. A message that comes back is the one that was handed
/// in. Which of the three happens depends on the other holders of the channel.
#[verifier::external_body]
pub(crate) fn mpsc_try_send<M>(outlet: &Outlet<M>, message: M) -> (attempt: SendAttempt<M>)
    ensures
        attempt.channel() == outlet.channel(),
        attempt.message() == message,
        match attempt.found() {
            TrySend::Sent => true,
            TrySend::Full(returned) => returned == message,
            TrySend::Closed(returned) => returned == message,
        },
{
    let outcome = match outlet.sender.try_send(message) {
        Ok(()) => TrySend::Sent,
        Err(mpsc::error::TrySendError::Full(message)) => TrySend::Full(message),
        Err(mpsc::error::TrySendError::Closed(message)) => TrySend::Closed(message),
    };
    SendAttempt { outcome, channel: Ghost(outlet.sender), message: Ghost(message) }
}

/// `mpsc::Sender::clone`: a second handle to the same channel.
#[verifier::external_body]
pub(crate) fn mpsc_clone<M>(outlet: &Outlet<M>) -> (clone: Outlet<M>)
    ensures
        clone.channel() == outlet.channel(),
        clone.limit() == outlet.limit(),
{
    Outlet { sender: outlet.sender.clone(), limit: Ghost(outlet.limit@) }
}

/// `mpsc::Sender::same_channel`: whether two handles lead to the same channel.
#[verifier::external_body]
pub(crate) fn mpsc_same_channel<M>(a: &Outlet<M>, b: &Outlet<M>) -> (same: bool)
    ensures
        same == (a.channel() == b.channel()),
{
    a.sender.same_channel(&b.sender)
}

/// `mpsc::Sender::max_capacity`: how many messages the channel can queue, as
/// it was made.
#[verifier::external_body]
pub(crate) fn mpsc_max_capacity<M>(outlet: &Outlet<M>) -> (capacity: usize)
    ensures
        capacity == outlet.limit(),
{
    outlet.sender.max_capacity()
}

/// How much room a channel was found to have.
#[verifier::reject_recursive_types(M)]
pub struct RoomReading<M> {
    free: usize,
    channel: Ghost<mpsc::Sender<M>>,
}

impl<M> RoomReading<M> {
    /// How many more messages the channel had room for.
    pub closed spec fn found_free(self) -> usize {
        self.free
    }

    /// The channel that was looked at.
    pub closed spec fn channel(self) -> mpsc::Sender<M> {
        self.channel@
    }

    /// Returns how many more messages the channel had room for.
    pub fn free(&self) -> (free: usize)
        ensures
            free == self.found_free(),
    {
        self.free
    }
}

/// `mpsc::Sender::capacity`: how many more messages the channel has room for
/// right now, which is no more than it can queue.
#[verifier::external_body]
pub(crate) fn mpsc_capacity<M>(outlet: &Outlet<M>) -> (room: RoomReading<M>)
    ensures
        room.channel() == outlet.channel(),
        room.found_free() <= outlet.limit(),
{
    RoomReading { free: outlet.sender.capacity(), channel: Ghost(outlet.sender) }
}

/// How an attempt to take a message without waiting came out.
#[derive(Debug, Clone, PartialEq, Eq)]
pub enum TryReceive<M> {
    /// A message was queued.
    Message(M),
    /// No message is queued right now.
    Empty,
    /// No message is queued and none can follow.
    Disconnected,
}

/// An attempt to take a message out of a queue, and how it came out.
#[verifier::reject_recursive_types(M)]
pub struct Taken<M> {
    outcome: TryReceive<M>,
    queue: Ghost<mpsc::Receiver<M>>,
}

impl<M> Taken<M> {
    /// How the attempt came out.
    pub closed spec fn found(self) -> TryReceive<M> {
        self.outcome
    }

    /// The receiver that the message was to be taken out of.
    pub closed spec fn queue(self) -> mpsc::Receiver<M> {
        self.queue@
    }

    /// Returns how the attempt came out.
    pub fn outcome(&self) -> (outcome: &TryReceive<M>)
        ensures
            *outcome == self.found(),
    {
        &self.outcome
    }

    /// Returns how the attempt came out.
    pub fn into_outcome(self) -> (outcome: TryReceive<M>)
        ensures
            outcome == self.found(),
    {
        self.outcome
    }
}

/// `mpsc::Receiver::try_recv`: takes the oldest message out of the receiver's
/// queue, if there is one. Which of the outcomes comes depends on what others
/// have sent. The receiver is the same as before.
#[verifier::external_body]
pub(crate) fn mpsc_try_recv<M>(inlet: &mut Inlet<M>) -> (taken: Taken<M>)
    ensures
        taken.queue() == old(inlet).queue(),
        *final(inlet) == *old(inlet),
{
    let outcome = match inlet.receiver.try_recv() {
        Ok(message) => TryReceive::Message(message),
        Err(mpsc::error::TryRecvError::Empty) => TryReceive::Empty,
        Err(mpsc::error::TryRecvError::Disconnected) => TryReceive::Disconnected,
    };
    Taken { outcome, queue: Ghost(inlet.receiver) }
}

/// `mpsc::Receiver::close`: closes the receiver, for good. The receiver is the
/// same as before, so what is queued already can still be taken out of it.
#[verifier::external_body]
pub(crate) fn mpsc_close<M>(inlet: &mut Inlet<M>)
    ensures
        final(inlet).is_closed(),
        final(inlet).queue() == old(inlet).queue(),
        final(inlet).fed_by() == old(inlet).fed_by(),
{
    inlet.receiver.close()
}

// ---------------------------------------------------------------------------
// Watched values
// ---------------------------------------------------------------------------

/// A watched value, held by its only writer.
#[verifier::reject_recursive_types(T)]
pub struct Published<T> {
    sender: watch::Sender<T>,
    reader: watch::Receiver<T>,
    value: Ghost<T>,
}

impl<T> Published<T> {
    /// The value that was published last, which its readers find.
    pub closed spec fn current(self) -> T {
        self.value@
    }

    /// What the readers of the value read.
    pub closed spec fn readers(self) -> watch::Receiver<T> {
        self.reader
    }

    /// A new reader, to which the current value is nothing new.
    pub fn subscribe(&self) -> (reader: watch::Receiver<T>)
        ensures
            reader == self.readers(),
    {
        let mut reader = watch_clone(&self.reader);
        watch_mark_seen(&mut reader);
        reader
    }
}

/// `watch::channel`: a watched value that starts as `initial`, and its first
/// reader.
#[verifier::external_body]
pub(crate) fn watch_channel<T>(initial: T) -> (published: Published<T>)
    ensures
        published.current() == initial,
{
    let (sender, reader) = watch::channel(initial);
    Published { sender, reader, value: Ghost(initial) }
}

/// `watch::Sender::send_replace`: makes `value` the watched value and tells
/// every reader, which read the same as before. The value that it replaces is
/// dropped.
#[verifier::external_body]
pub(crate) fn watch_replace<T>(published: &mut Published<T>, value: T)
    ensures
        final(published).current() == value,
        final(published).readers() == old(published).readers(),
{
    let _ = published.sender.send_replace(value);
}

/// `watch::Sender::borrow`: a clone of the watched value, as its only writer
/// published it.
#[verifier::external_body]
pub(crate) fn watch_held<T: Clone>(published: &Published<T>) -> (value: T)
    ensures
        cloned(published.current(), value),
{
    published.sender.borrow().clone()
}

/// What a reader of a watched value found in it.
#[verifier::reject_recursive_types(T)]
pub struct Seen<T> {
    value: T,
    reader: Ghost<watch::Receiver<T>>,
}

impl<T> Seen<T> {
    /// The value that was found.
    pub closed spec fn content(self) -> T {
        self.value
    }

    /// The reader that found it.
    pub closed spec fn reader(self) -> watch::Receiver<T> {
        self.reader@
    }

    /// Returns the value that was found.
    pub fn value(&self) -> (value: &T)
        ensures
            *value == self.content(),
    {
        &self.value
    }
}

/// `watch::Receiver::borrow`: a clone of the watched value as it is right now.
#[verifier::external_body]
pub(crate) fn watch_current<T: Clone>(receiver: &watch::Receiver<T>) -> (seen: Seen<T>)
    ensures
        seen.reader() == *receiver,
{
    Seen { value: receiver.borrow().clone(), reader: Ghost(*receiver) }
}

/// Whether the writing half of a watched value was found dropped.
#[verifier::reject_recursive_types(T)]
pub struct SourceReading<T> {
    dropped: bool,
    reader: Ghost<watch::Receiver<T>>,
}

impl<T> SourceReading<T> {
    /// Whether the writing half was gone by then.
    pub closed spec fn found_dropped(self) -> bool {
        self.dropped
    }

    /// The reader that looked.
    pub closed spec fn reader(self) -> watch::Receiver<T> {
        self.reader@
    }

    /// Returns whether the writing half was gone by then.
    pub fn is_dropped(&self) -> (dropped: bool)
        ensures
            dropped == self.found_dropped(),
    {
        self.dropped
    }
}

/// `watch::Receiver::has_changed`: fails once the writing half has been
/// dropped, which is all that is asked of it here.
#[verifier::external_body]
pub(crate) fn watch_source_dropped<T>(receiver: &watch::Receiver<T>) -> (source: SourceReading<T>)
    ensures
        source.reader() == *receiver,
{
    SourceReading { dropped: receiver.has_changed().is_err(), reader: Ghost(*receiver) }
}

/// `watch::Receiver::clone`: a second reader of the same watched value.
#[verifier::external_body]
pub(crate) fn watch_clone<T>(receiver: &watch::Receiver<T>) -> (clone: watch::Receiver<T>)
    ensures
        clone == *receiver,
{
    receiver.clone()
}

/// `watch::Receiver::mark_unchanged`: counts the watched value as seen by this
/// reader. It reads the same value as before.
#[verifier::external_body]
pub(crate) fn watch_mark_seen<T>(receiver: &mut watch::Receiver<T>)
    ensures
        *final(receiver) == *old(receiver),
{
    receiver.mark_unchanged()
}

// ---------------------------------------------------------------------------
// One-value channels
// ---------------------------------------------------------------------------

/// A value that was handed to a one-value channel.
#[verifier::reject_recursive_types(T)]
pub struct Replied<T> {
    channel: Ghost<oneshot::Sender<T>>,
    value: Ghost<T>,
}

impl<T> Replied<T> {
    /// The channel that the value was handed to.
    pub closed spec fn channel(self) -> oneshot::Sender<T> {
        self.channel@
    }

    /// The value.
    pub closed spec fn value(self) -> T {
        self.value@
    }
}

/// `oneshot::Sender::send`: hands the value to the channel. Where the receiver
/// is gone, the value is dropped; whether it is depends on its holder.
#[verifier::external_body]
pub(crate) fn oneshot_send<T>(sender: oneshot::Sender<T>, value: T) -> (sent: Replied<T>)
    ensures
        sent.channel() == sender,
        sent.value() == value,
{
    let _ = sender.send(value);
    Replied { channel: Ghost(sender), value: Ghost(value) }
}

// ---------------------------------------------------------------------------
// Cancellation tokens
// ---------------------------------------------------------------------------

/// A token that was just made: nobody else holds or has cancelled it.
pub struct FreshToken {
    token: CancellationToken,
}

impl FreshToken {
    /// The token.
    pub closed spec fn token(self) -> CancellationToken {
        self.token
    }

    /// Hands out the token.
    pub fn into_token(self) -> (token: CancellationToken)
        ensures
            token == self.token(),
    {
        self.token
    }
}

/// `CancellationToken::new`: a token that nobody else holds. That it differs
/// from every other token is what its type stands for.
#[verifier::external_body]
pub(crate) fn token_new() -> FreshToken
{
    FreshToken { token: CancellationToken::new() }
}

/// `CancellationToken::clone`: a second handle to the same token.
#[verifier::external_body]
pub(crate) fn token_clone(token: &CancellationToken) -> (clone: CancellationToken)
    ensures
        clone == *token,
{
    token.clone()
}

/// The token that a child token was made from.
pub uninterp spec fn parent_token(child: CancellationToken) -> CancellationToken;

/// `CancellationToken::child_token`: a token that is cancelled with its
/// parent, and whose own cancellation leaves the parent alone. What is stated
/// is which token the parent is.
#[verifier::external_body]
pub(crate) fn token_child(token: &CancellationToken) -> (child: CancellationToken)
    ensures
        parent_token(child) == *token,
{
    token.child_token()
}

/// That a token was cancelled, which it stays.
pub struct Cancellation {
    token: Ghost<CancellationToken>,
}

impl Cancellation {
    /// The token that was cancelled.
    pub closed spec fn of(self) -> CancellationToken {
        self.token@
    }
}

/// `CancellationToken::cancel`: cancels the token and its children for good.
#[verifier::external_body]
pub(crate) fn token_cancel(token: &CancellationToken) -> (done: Cancellation)
    ensures
        done.of() == *token,
{
    token.cancel();
    Cancellation { token: Ghost(*token) }
}

/// Whether a token was found cancelled.
pub struct TokenReading {
    cancelled: bool,
    token: Ghost<CancellationToken>,
}

impl TokenReading {
    /// The token that was looked at.
    pub closed spec fn of(self) -> CancellationToken {
        self.token@
    }

    /// Whether it was cancelled by then.
    pub closed spec fn found_cancelled(self) -> bool {
        self.cancelled
    }

    /// Returns whether the token was cancelled by then.
    pub fn is_cancelled(&self) -> (cancelled: bool)
        ensures
            cancelled == self.found_cancelled(),
    {
        self.cancelled
    }
}

/// `CancellationToken::is_cancelled`: whether any holder has cancelled the
/// token by now.
#[verifier::external_body]
pub(crate) fn token_is_cancelled(token: &CancellationToken) -> (reading: TokenReading)
    ensures
        reading.of() == *token,
{
    TokenReading { cancelled: token.is_cancelled(), token: Ghost(*token) }
}

/// A token, and whether this holder has cancelled it.
pub struct StopSwitch {
    token: CancellationToken,
    done: Option<Cancellation>,
}

impl StopSwitch {
    /// The token behind the switch.
    pub closed spec fn token(self) -> CancellationToken {
        self.token
    }

    /// Whether the token was cancelled through the switch.
    pub closed spec fn is_thrown(self) -> bool {
        self.done is Some
    }

    #[verifier::type_invariant]
    spec fn thrown_means_cancelled(self) -> bool {
        self.done matches Some(done) ==> done.of() == self.token
    }

    /// A switch that has not been thrown, for the given token.
    pub fn new(token: CancellationToken) -> (switch: Self)
        ensures
            switch.token() == token,
            !switch.is_thrown(),
    {
        StopSwitch { token, done: None }
    }

    /// A switch for the given token that is thrown at once: the token is
    /// cancelled.
    pub fn cancelled(token: CancellationToken) -> (switch: Self)
        ensures
            switch.token() == token,
            switch.is_thrown(),
    {
        let done = token_cancel(&token);
        StopSwitch { token, done: Some(done) }
    }

    /// Returns the token behind the switch.
    pub fn get(&self) -> (token: &CancellationToken)
        ensures
            *token == self.token(),
    {
        &self.token
    }

    /// Returns whether the token was cancelled through the switch.
    pub fn thrown(&self) -> (thrown: bool)
        ensures
            thrown == self.is_thrown(),
    {
        self.done.is_some()
    }

    /// Cancels the token. Doing so again changes nothing.
    pub fn throw(&mut self)
        ensures
            final(self).is_thrown(),
            final(self).token() == old(self).token(),
    {
        let done = token_cancel(&self.token);
        self.done = Some(done);
    }
}

// ---------------------------------------------------------------------------
// Permits
// ---------------------------------------------------------------------------

/// A fixed number of permits to give out. Nobody else holds the semaphore, so
/// permits are only ever taken and given back.
pub struct Permits {
    semaphore: Arc<Semaphore>,
    total: Ghost<int>,
}

impl Permits {
    /// The semaphore that counts the permits.
    pub closed spec fn source(self) -> Semaphore {
        *self.semaphore
    }

    /// How many permits there are, free or in use.
    pub closed spec fn total(self) -> int {
        self.total@
    }
}

/// One permit in use, given back when dropped.
pub struct Permit {
    permit: OwnedSemaphorePermit,
    source: Ghost<Semaphore>,
    others: Ghost<int>,
}

impl Permit {
    /// The semaphore that the permit was taken from.
    pub closed spec fn source(self) -> Semaphore {
        self.source@
    }

    /// How many other permits of the semaphore were in use when this one was
    /// taken.
    pub closed spec fn others(self) -> int {
        self.others@
    }
}

/// That a semaphore was found without a free permit.
pub struct Exhausted {
    source: Ghost<Semaphore>,
    in_use: Ghost<int>,
}

impl Exhausted {
    /// The semaphore that was asked.
    pub closed spec fn source(self) -> Semaphore {
        self.source@
    }

    /// How many of its permits were in use then.
    pub closed spec fn in_use(self) -> int {
        self.in_use@
    }
}

/// `Semaphore::new`: a semaphore with the given number of permits. It panics
/// above the largest number that a semaphore can count.
#[verifier::external_body]
pub(crate) fn semaphore_new(permits: usize) -> (made: Permits)
    requires
        permits <= max_permits(),
    ensures
        made.total() == permits,
{
    Permits { semaphore: Arc::new(Semaphore::new(permits)), total: Ghost(permits as int) }
}

/// `Semaphore::try_acquire_owned`: a permit of the semaphore, if one is free
/// right now. There is one as long as fewer permits are in use than the
/// semaphore was made with.
#[verifier::external_body]
pub(crate) fn semaphore_try_acquire(permits: &Permits) -> (outcome: Result<Permit, Exhausted>)
    ensures
        match outcome {
            Ok(permit) => permit.source() == permits.source() && 0 <= permit.others()
                < permits.total(),
            Err(found) => found.source() == permits.source() && found.in_use() == permits.total(),
        },
{
    match permits.semaphore.clone().try_acquire_owned() {
        Ok(permit) => Ok(Permit { permit, source: Ghost(*permits.semaphore), others: Ghost(arbitrary()) }),
        Err(_) => Err(Exhausted { source: Ghost(*permits.semaphore), in_use: Ghost(permits.total@) }),
    }
}

/// A mailbox and a semaphore count up to an eighth of what a `usize` holds.
pub proof fn permits_are_bounded()
    ensures
        8 * max_permits() <= usize::MAX < 8 * max_permits() + 8,
{
}

} // verus!
