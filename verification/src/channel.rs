//! Bounded message channels that never block.
//!
//! A channel is a `crossbeam_channel` of fixed capacity. It comes in two
//! shapes. A [`MessageChannel`] has both ends in one hand, so that what it
//! holds is known after every call; that is where the order of messages can
//! be stated. Split, it becomes a pair of handles that may be cloned and sent
//! to other threads. A handle and its copies belong to one channel, and two
//! sending handles are equal if they do. What a handle finds when it pushes
//! or pops depends on what the other holders did, and nothing is promised of
//! that but that the call returns at once.

use vstd::prelude::*;
use crate::message::{PopMessage, PushMessage, ToProcessor};
use crate::CHANNEL_CAPACITY;

verus! {

/// The largest capacity that a message channel is made with.
///
/// A channel sets aside all its places when it is made, a few tens of bytes
/// for each, and does not come back where that fails. Its own limit, the
/// overflow of its index, lies far above what memory holds, so it is no
/// guide. This one is a thousand times what the engine uses and costs some
/// tens of megabytes, which a machine that runs audio has to spare.
pub const MAX_CHANNEL_CAPACITY: usize = 1048576;

/// `crossbeam_channel::Sender`, of which nothing is known but its name.
#[verifier::external_type_specification]
#[verifier::external_body]
#[verifier::reject_recursive_types(T)]
pub struct ExSender<T>(crossbeam_channel::Sender<T>);

/// `crossbeam_channel::Receiver`, of which nothing is known but its name.
#[verifier::external_type_specification]
#[verifier::external_body]
#[verifier::reject_recursive_types(T)]
pub struct ExReceiver<T>(crossbeam_channel::Receiver<T>);

/// A bounded channel of commands whose two ends are held together.
pub struct MessageChannel {
    sender: crossbeam_channel::Sender<ToProcessor>,
    receiver: crossbeam_channel::Receiver<ToProcessor>,
}

/// The messages that wait in the channel, oldest first.
pub uninterp spec fn queued_messages(channel: MessageChannel) -> Seq<ToProcessor>;

/// The capacity that the channel was made with.
pub uninterp spec fn message_limit(channel: MessageChannel) -> nat;

/// Whether two sending ends belong to one channel.
pub uninterp spec fn shares_channel(
    first: crossbeam_channel::Sender<ToProcessor>,
    second: crossbeam_channel::Sender<ToProcessor>,
) -> bool;

/// Whether two receiving ends belong to one channel.
pub uninterp spec fn receives_from_one_channel(
    first: crossbeam_channel::Receiver<ToProcessor>,
    second: crossbeam_channel::Receiver<ToProcessor>,
) -> bool;

/// Why an attempt to send left the message outside the channel. Either way
/// the message comes back.
#[derive(Debug, PartialEq, Eq)]
pub enum SendFailure<M> {
    /// The channel had no room.
    Full(M),
    /// No receiving end is left.
    Disconnected(M),
}

/// Why an attempt to receive brought no message.
#[derive(Clone, Copy, Debug, PartialEq, Eq, Structural)]
pub enum ReceiveFailure {
    /// No message waited.
    Empty,
    /// No message waited, and no sending end is left to bring one.
    Disconnected,
}

impl<M> SendFailure<M> {
    /// The message that did not go in.
    pub open spec fn message(self) -> M {
        match self {
            SendFailure::Full(message) => message,
            SendFailure::Disconnected(message) => message,
        }
    }
}

/// Whether a queue of `capacity` places has room for one more message.
pub open spec fn accepts<M>(queue: Seq<M>, capacity: nat) -> bool {
    queue.len() < capacity
}

/// The queue after an attempt to push `message`: the message goes to the
/// back if there is room, and is dropped if there is none.
pub open spec fn after_push<M>(queue: Seq<M>, capacity: nat, message: M) -> Seq<M> {
    if accepts(queue, capacity) {
        queue.push(message)
    } else {
        queue
    }
}

/// The message that a pop hands out: the oldest, if there is any.
pub open spec fn popped<M>(queue: Seq<M>) -> Option<M> {
    if queue.len() > 0 {
        Some(queue[0])
    } else {
        None
    }
}

/// The queue after a pop.
pub open spec fn after_pop<M>(queue: Seq<M>) -> Seq<M> {
    if queue.len() > 0 {
        queue.drop_first()
    } else {
        queue
    }
}

/// The queue after attempts to push each of `messages` in turn.
pub open spec fn after_pushes<M>(queue: Seq<M>, capacity: nat, messages: Seq<M>) -> Seq<M>
    decreases messages.len(),
{
    if messages.len() == 0 {
        queue
    } else {
        after_push(after_pushes(queue, capacity, messages.drop_last()), capacity, messages.last())
    }
}

/// The queue after `count` pops.
pub open spec fn after_pops<M>(queue: Seq<M>, count: nat) -> Seq<M>
    decreases count,
{
    if count == 0 {
        queue
    } else {
        after_pop(after_pops(queue, (count - 1) as nat))
    }
}

/// Calls `crossbeam_channel::bounded`. The channel it makes is empty and
/// holds at most `capacity` messages; no end of it exists outside the value
/// returned.
#[verifier::external_body]
fn open_channel(capacity: usize) -> (channel: MessageChannel)
    requires
        capacity <= MAX_CHANNEL_CAPACITY,
    ensures
        queued_messages(channel) == Seq::<ToProcessor>::empty(),
        message_limit(channel) == capacity,
{
    let (sender, receiver) = crossbeam_channel::bounded(capacity);
    MessageChannel { sender, receiver }
}

/// Calls `Sender::try_send` on a channel whose ends nobody else holds. The
/// message is added behind those that wait if fewer than the capacity wait,
/// and is dropped otherwise; the call says which.
#[verifier::external_body]
fn send_in_hand(channel: &mut MessageChannel, message: ToProcessor) -> (sent: bool)
    ensures
        sent == accepts(queued_messages(*old(channel)), message_limit(*old(channel))),
        queued_messages(*final(channel)) == after_push(
            queued_messages(*old(channel)),
            message_limit(*old(channel)),
            message,
        ),
        message_limit(*final(channel)) == message_limit(*old(channel)),
{
    channel.sender.try_send(message).is_ok()
}

/// Calls `Receiver::try_recv` on a channel whose ends nobody else holds. The
/// oldest waiting message is taken out and returned; where none waits,
/// nothing changes.
#[verifier::external_body]
fn receive_in_hand(channel: &mut MessageChannel) -> (message: Option<ToProcessor>)
    ensures
        message == popped(queued_messages(*old(channel))),
        queued_messages(*final(channel)) == after_pop(queued_messages(*old(channel))),
        message_limit(*final(channel)) == message_limit(*old(channel)),
{
    channel.receiver.try_recv().ok()
}

/// Calls `Sender::try_send` on an end that others may share. It does not
/// wait. Whether there is room depends on what the other holders did, so
/// nothing is claimed of which outcome it is; a failure hands back the
/// message that was given.
#[verifier::external_body]
fn try_send<M>(sender: &crossbeam_channel::Sender<M>, message: M) -> (outcome: Result<
    (),
    SendFailure<M>,
>)
    ensures
        outcome matches Err(failure) ==> failure.message() == message,
{
    match sender.try_send(message) {
        Ok(()) => Ok(()),
        Err(crossbeam_channel::TrySendError::Full(message)) => Err(SendFailure::Full(message)),
        Err(crossbeam_channel::TrySendError::Disconnected(message)) => Err(
            SendFailure::Disconnected(message),
        ),
    }
}

/// Calls `Receiver::try_recv` on an end that others may share. It does not
/// wait. Whether a message waits depends on what the other holders did, so
/// nothing is claimed of the outcome.
#[verifier::external_body]
fn try_receive<M>(receiver: &crossbeam_channel::Receiver<M>) -> (outcome: Result<
    M,
    ReceiveFailure,
>) {
    match receiver.try_recv() {
        Ok(message) => Ok(message),
        Err(crossbeam_channel::TryRecvError::Empty) => Err(ReceiveFailure::Empty),
        Err(crossbeam_channel::TryRecvError::Disconnected) => Err(ReceiveFailure::Disconnected),
    }
}

/// Calls `Sender::same_channel`, which tells whether two ends belong to one
/// channel. The answer depends on the two ends alone; it is given a name.
#[verifier::external_body]
fn same_sender(
    first: &crossbeam_channel::Sender<ToProcessor>,
    second: &crossbeam_channel::Sender<ToProcessor>,
) -> (same: bool)
    ensures
        same == shares_channel(*first, *second),
{
    first.same_channel(second)
}

/// Calls `Receiver::same_channel`, which tells whether two ends belong to
/// one channel. The answer depends on the two ends alone; it is given a name.
#[verifier::external_body]
fn same_receiver(
    first: &crossbeam_channel::Receiver<ToProcessor>,
    second: &crossbeam_channel::Receiver<ToProcessor>,
) -> (same: bool)
    ensures
        same == receives_from_one_channel(*first, *second),
{
    first.same_channel(second)
}

/// Calls `Sender::clone` on an end of a channel of commands. The copy is
/// another end of the same channel: `Sender::same_channel` holds of the two.
#[verifier::external_body]
fn clone_command_sender(sender: &crossbeam_channel::Sender<ToProcessor>) -> (copy:
    crossbeam_channel::Sender<ToProcessor>)
    ensures
        shares_channel(*sender, copy),
{
    sender.clone()
}

/// Calls `Receiver::clone` on an end of a channel of commands. The copy is
/// another end of the same channel: `Receiver::same_channel` holds of the
/// two.
#[verifier::external_body]
fn clone_command_receiver(receiver: &crossbeam_channel::Receiver<ToProcessor>) -> (copy:
    crossbeam_channel::Receiver<ToProcessor>)
    ensures
        receives_from_one_channel(*receiver, copy),
{
    receiver.clone()
}

/// Calls `Sender::clone`, which makes another end of the same channel.
/// Where the messages are of any type there is no name to say so by, and
/// nothing is claimed of the copy.
#[verifier::external_body]
fn clone_sender<M>(sender: &crossbeam_channel::Sender<M>) -> (copy: crossbeam_channel::Sender<M>) {
    sender.clone()
}

/// Calls `Receiver::clone`, which makes another end of the same channel.
/// Where the messages are of any type there is no name to say so by, and
/// nothing is claimed of the copy.
#[verifier::external_body]
fn clone_receiver<M>(receiver: &crossbeam_channel::Receiver<M>) -> (copy:
    crossbeam_channel::Receiver<M>) {
    receiver.clone()
}

impl View for MessageChannel {
    type V = Seq<ToProcessor>;

    /// The messages that wait, oldest first.
    open spec fn view(&self) -> Seq<ToProcessor> {
        queued_messages(*self)
    }
}

impl MessageChannel {
    /// The number of messages that the channel holds at most.
    pub open spec fn capacity(&self) -> nat {
        message_limit(*self)
    }

    /// Makes an empty channel that holds at most `capacity` messages.
    pub fn bounded(capacity: usize) -> (channel: MessageChannel)
        requires
            capacity <= MAX_CHANNEL_CAPACITY,
        ensures
            channel@ == Seq::<ToProcessor>::empty(),
            channel.capacity() == capacity,
    {
        open_channel(capacity)
    }

    /// Attempts to enqueue `message`. A full channel drops it and says so by
    /// returning `false`; what waits is never overwritten or reordered.
    pub fn push(&mut self, message: ToProcessor) -> (sent: bool)
        ensures
            sent == accepts(old(self)@, old(self).capacity()),
            final(self)@ == after_push(old(self)@, old(self).capacity(), message),
            final(self).capacity() == old(self).capacity(),
    {
        send_in_hand(self, message)
    }

    /// Attempts to dequeue the oldest message.
    pub fn pop(&mut self) -> (message: Option<ToProcessor>)
        ensures
            message == popped(old(self)@),
            final(self)@ == after_pop(old(self)@),
            final(self).capacity() == old(self).capacity(),
    {
        receive_in_hand(self)
    }

    /// Pushes each of `messages` in turn and counts those that went in.
    pub fn push_all(&mut self, messages: &[ToProcessor]) -> (sent: usize)
        ensures
            final(self)@ == after_pushes(old(self)@, old(self).capacity(), messages@),
            final(self).capacity() == old(self).capacity(),
            sent == final(self)@.len() - old(self)@.len(),
    {
        let mut sent: usize = 0;
        let mut next: usize = 0;
        while next < messages.len()
            invariant
                next <= messages@.len(),
                sent <= next,
                self.capacity() == old(self).capacity(),
                self@ == after_pushes(
                    old(self)@,
                    old(self).capacity(),
                    messages@.subrange(0, next as int),
                ),
                sent == self@.len() - old(self)@.len(),
            decreases messages@.len() - next,
        {
            proof {
                let done = messages@.subrange(0, next as int);
                let grown = messages@.subrange(0, next + 1);
                assert(grown.drop_last() =~= done);
                assert(grown.last() == messages@[next as int]);
            }
            if self.push(messages[next]) {
                sent += 1;
            }
            next += 1;
        }
        proof {
            assert(messages@.subrange(0, next as int) =~= messages@);
        }
        sent
    }

    /// Pops until nothing waits, and returns what came out, oldest first.
    pub fn drain(&mut self) -> (messages: Vec<ToProcessor>)
        ensures
            messages@ == old(self)@,
            final(self)@ == Seq::<ToProcessor>::empty(),
            final(self).capacity() == old(self).capacity(),
    {
        let mut messages: Vec<ToProcessor> = Vec::new();
        loop
            invariant
                self.capacity() == old(self).capacity(),
                messages@ + self@ == old(self)@,
            ensures
                self.capacity() == old(self).capacity(),
                messages@ == old(self)@,
                self@ == Seq::<ToProcessor>::empty(),
            decreases self@.len(),
        {
            let ghost waiting = self@;
            let ghost taken = messages@;
            match self.pop() {
                Some(message) => {
                    messages.push(message);
                    assert(messages@ + self@ =~= taken + waiting);
                },
                None => {
                    assert(messages@ =~= messages@ + self@);
                    assert(self@ =~= Seq::<ToProcessor>::empty());
                    break ;
                },
            }
        }
        messages
    }

    /// Parts the two ends, so that each can go to a thread of its own. The
    /// handles hold the ends of this very channel, and at the moment of
    /// parting all that waited in it still waits. What the handles and their
    /// copies do from then on is not told by the channel that was parted.
    pub fn split(self) -> (ends: (ToProcessorSender, ToProcessorReceiver))
        ensures
            channel_when_parted(ends.0, ends.1) == self,
    {
        (ToProcessorSender(self.sender), ToProcessorReceiver(self.receiver))
    }
}

/// The channel that the two ends made up while they were in one hand, as it
/// was when they were parted.
///
/// What it holds is what waited at that moment. Handles work on the channel
/// behind a shared reference, so that a push or a pop through one of them
/// leaves this value as it is: it tells how the handles began, never how the
/// channel stands now.
pub closed spec fn channel_when_parted(
    sender: ToProcessorSender,
    receiver: ToProcessorReceiver,
) -> MessageChannel {
    MessageChannel { sender: sender.0, receiver: receiver.0 }
}

/// Says whether an attempt to send put the message into the channel: it did
/// unless the channel was full or has no receiving end left.
pub fn went_in<M>(outcome: &Result<(), SendFailure<M>>) -> (sent: bool)
    ensures
        sent == (*outcome is Ok),
{
    match outcome {
        Ok(_) => true,
        Err(_) => false,
    }
}

/// Hands on the message that an attempt to receive brought, if it brought
/// one.
pub fn taken_out<M>(outcome: Result<M, ReceiveFailure>) -> (message: Option<M>)
    ensures
        message == match outcome {
            Ok(taken) => Some(taken),
            Err(_) => None,
        },
{
    match outcome {
        Ok(taken) => Some(taken),
        Err(_) => None,
    }
}

/// The number of `offered` messages that go into a queue of `waiting`
/// messages and `capacity` places.
pub open spec fn room(waiting: nat, capacity: nat, offered: nat) -> nat {
    if waiting >= capacity {
        0
    } else if offered <= capacity - waiting {
        offered
    } else {
        (capacity - waiting) as nat
    }
}

/// Pushing a run of messages appends as many of them as there is room for,
/// in the order in which they were pushed, and drops the rest. What waited
/// before stays where it was.
pub proof fn lemma_pushes_append_what_fits<M>(queue: Seq<M>, capacity: nat, messages: Seq<M>)
    ensures
        after_pushes(queue, capacity, messages) == queue + messages.take(
            room(queue.len(), capacity, messages.len()) as int,
        ),
    decreases messages.len(),
{
    let fits = room(queue.len(), capacity, messages.len()) as int;
    if messages.len() == 0 {
        assert(queue + messages.take(fits) =~= queue);
    } else {
        let earlier = messages.drop_last();
        lemma_pushes_append_what_fits(queue, capacity, earlier);
        let fitted = room(queue.len(), capacity, earlier.len()) as int;
        let before = queue + earlier.take(fitted);
        assert(after_pushes(queue, capacity, earlier) == before);
        if accepts(before, capacity) {
            assert(fitted == earlier.len());
            assert(fits == messages.len());
            assert(before.push(messages.last()) =~= queue + messages.take(fits));
        } else {
            assert(fits == fitted);
            assert(earlier.take(fitted) =~= messages.take(fits));
        }
    }
}

/// Popping `count` times takes the `count` oldest messages, or all of them
/// if there are fewer.
pub proof fn lemma_pops_take_the_oldest<M>(queue: Seq<M>, count: nat)
    ensures
        after_pops(queue, count) == queue.skip(
            if count <= queue.len() {
                count as int
            } else {
                queue.len() as int
            },
        ),
    decreases count,
{
    if count == 0 {
        assert(queue.skip(0) =~= queue);
    } else {
        lemma_pops_take_the_oldest(queue, (count - 1) as nat);
        if count <= queue.len() {
            assert(queue.skip(count - 1).drop_first() =~= queue.skip(count as int));
        } else {
            assert(queue.skip(queue.len() as int).len() == 0);
        }
    }
}

/// Messages pushed into an empty channel that has room for all of them come
/// out in the order in which they went in, and after the last of them
/// nothing comes out.
pub proof fn lemma_messages_come_out_in_order<M>(capacity: nat, messages: Seq<M>)
    requires
        messages.len() <= capacity,
    ensures
        after_pushes(Seq::<M>::empty(), capacity, messages) == messages,
        forall|sent: int|
            0 <= sent < messages.len() ==> accepts(
                #[trigger] after_pushes(Seq::<M>::empty(), capacity, messages.take(sent)),
                capacity,
            ),
        forall|taken: nat|
            taken < messages.len() ==> popped(#[trigger] after_pops(messages, taken)) == Some(
                messages[taken as int],
            ),
        forall|taken: nat|
            taken >= messages.len() ==> popped(#[trigger] after_pops(messages, taken))
                == None::<M>,
{
    let empty = Seq::<M>::empty();
    lemma_pushes_append_what_fits(empty, capacity, messages);
    assert(empty + messages.take(messages.len() as int) =~= messages);
    assert forall|sent: int| 0 <= sent < messages.len() implies accepts(
        #[trigger] after_pushes(empty, capacity, messages.take(sent)),
        capacity,
    ) by {
        lemma_pushes_append_what_fits(empty, capacity, messages.take(sent));
        assert(messages.take(sent).take(sent).len() == sent);
    }
    assert forall|taken: nat| taken < messages.len() implies popped(
        #[trigger] after_pops(messages, taken),
    ) == Some(messages[taken as int]) by {
        lemma_pops_take_the_oldest(messages, taken);
    }
    assert forall|taken: nat| taken >= messages.len() implies popped(
        #[trigger] after_pops(messages, taken),
    ) == None::<M> by {
        lemma_pops_take_the_oldest(messages, taken);
    }
}

/// A push into a full channel is turned down and leaves every waiting
/// message where it was; so does any run of further pushes.
pub proof fn lemma_full_channel_keeps_its_messages<M>(
    queue: Seq<M>,
    capacity: nat,
    message: M,
    further: Seq<M>,
)
    requires
        queue.len() >= capacity,
    ensures
        !accepts(queue, capacity),
        after_push(queue, capacity, message) == queue,
        after_pushes(queue, capacity, further) == queue,
{
    lemma_pushes_append_what_fits(queue, capacity, further);
    assert(queue + further.take(0) =~= queue);
}

/// Makes the channel that carries commands to the processor, of the
/// capacity that the engine uses, and parts its ends: they are the ends of
/// one channel of 1024 places in which nothing waited when they were parted.
/// What waits later depends on what is done with the handles.
pub fn control_channel() -> (ends: (ToProcessorSender, ToProcessorReceiver))
    ensures
        channel_when_parted(ends.0, ends.1)@ == Seq::<ToProcessor>::empty(),
        channel_when_parted(ends.0, ends.1).capacity() == CHANNEL_CAPACITY,
{
    MessageChannel::bounded(CHANNEL_CAPACITY).split()
}

/// The sending end of the channel that carries commands to the processor.
pub struct ToProcessorSender(crossbeam_channel::Sender<ToProcessor>);

impl ToProcessorSender {
    /// The end of the channel that the handle holds.
    pub closed spec fn end(&self) -> crossbeam_channel::Sender<ToProcessor> {
        self.0
    }

    pub fn new(sender: crossbeam_channel::Sender<ToProcessor>) -> (handle: Self)
        ensures
            handle.end() == sender,
    {
        Self(sender)
    }

    /// Whether both handles send into one channel.
    pub fn same_channel(&self, other: &Self) -> (same: bool)
        ensures
            same == shares_channel(self.end(), other.end()),
    {
        same_sender(&self.0, &other.0)
    }
}

impl Clone for ToProcessorSender {
    /// Makes another handle that sends into the same channel.
    fn clone(&self) -> (copy: Self)
        ensures
            shares_channel(self.end(), copy.end()),
    {
        Self(clone_command_sender(&self.0))
    }
}

impl PartialEq for ToProcessorSender {
    /// Two handles are equal if they send into one channel.
    fn eq(&self, other: &Self) -> (same: bool) {
        same_sender(&self.0, &other.0)
    }
}

impl vstd::std_specs::cmp::PartialEqSpecImpl for ToProcessorSender {
    open spec fn obeys_eq_spec() -> bool {
        true
    }

    open spec fn eq_spec(&self, other: &Self) -> bool {
        shares_channel(self.end(), other.end())
    }
}

impl PushMessage<ToProcessor> for ToProcessorSender {
    fn push(&self, message: ToProcessor) -> bool {
        went_in(&try_send(&self.0, message))
    }
}

/// The receiving end of the channel that carries commands to the processor.
pub struct ToProcessorReceiver(crossbeam_channel::Receiver<ToProcessor>);

impl ToProcessorReceiver {
    /// The end of the channel that the handle holds.
    pub closed spec fn end(&self) -> crossbeam_channel::Receiver<ToProcessor> {
        self.0
    }

    pub fn new(receiver: crossbeam_channel::Receiver<ToProcessor>) -> (handle: Self)
        ensures
            handle.end() == receiver,
    {
        Self(receiver)
    }

    /// Whether both handles receive from one channel.
    pub fn same_channel(&self, other: &Self) -> (same: bool)
        ensures
            same == receives_from_one_channel(self.end(), other.end()),
    {
        same_receiver(&self.0, &other.0)
    }
}

impl Clone for ToProcessorReceiver {
    /// Makes another handle that receives from the same channel.
    fn clone(&self) -> (copy: Self)
        ensures
            receives_from_one_channel(self.end(), copy.end()),
    {
        Self(clone_command_receiver(&self.0))
    }
}

impl PopMessage<ToProcessor> for ToProcessorReceiver {
    fn pop(&self) -> Option<ToProcessor> {
        taken_out(try_receive(&self.0))
    }
}

/// The sending end of the channel that carries the processor's messages.
#[verifier::reject_recursive_types(M)]
pub struct FromProcessorSender<M>(crossbeam_channel::Sender<M>);

impl<M> FromProcessorSender<M> {
    /// The end of the channel that the handle holds.
    pub closed spec fn end(&self) -> crossbeam_channel::Sender<M> {
        self.0
    }

    pub fn new(sender: crossbeam_channel::Sender<M>) -> (handle: Self)
        ensures
            handle.end() == sender,
    {
        Self(sender)
    }
}

impl<M> Clone for FromProcessorSender<M> {
    fn clone(&self) -> Self {
        Self(clone_sender(&self.0))
    }
}

impl<M: Send> PushMessage<M> for FromProcessorSender<M> {
    fn push(&self, message: M) -> bool {
        went_in(&try_send(&self.0, message))
    }
}

/// The receiving end of the channel that carries the processor's messages.
#[verifier::reject_recursive_types(M)]
pub struct FromProcessorReceiver<M>(crossbeam_channel::Receiver<M>);

impl<M> FromProcessorReceiver<M> {
    /// The end of the channel that the handle holds.
    pub closed spec fn end(&self) -> crossbeam_channel::Receiver<M> {
        self.0
    }

    pub fn new(receiver: crossbeam_channel::Receiver<M>) -> (handle: Self)
        ensures
            handle.end() == receiver,
    {
        Self(receiver)
    }
}

impl<M> Clone for FromProcessorReceiver<M> {
    fn clone(&self) -> Self {
        Self(clone_receiver(&self.0))
    }
}

impl<M: Send> PopMessage<M> for FromProcessorReceiver<M> {
    fn pop(&self) -> Option<M> {
        taken_out(try_receive(&self.0))
    }
}

} // verus!
