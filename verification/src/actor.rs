//! Actors and the handles through which they are sent messages and commands.
use vstd::prelude::*;

use crate::message::{oneshot_channel, BoxedActorMessage, Enveloper, Handler, MessageRequest};
use crate::ActorCommand;

verus! {

/// A value that can run as an actor. Its runtime hands it, one at a time,
/// each message it takes out of the mailbox. The mailbox is a flume channel,
/// first in first out; that order is the channel's, and is not part of the
/// contracts here.
pub trait Actor: Sized + Send + Sync + 'static {}

#[verifier::external_type_specification]
#[verifier::external_body]
#[verifier::reject_recursive_types(T)]
pub struct ExFlumeSender<T>(flume::Sender<T>);

#[verifier::external_type_specification]
#[verifier::external_body]
#[verifier::reject_recursive_types(T)]
pub struct ExFlumeReceiver<T>(flume::Receiver<T>);

/// `flume::Sender::is_disconnected`: whether every receiver of the channel is
/// gone. That is up to other handles of the channel, so nothing is claimed of
/// the answer.
#[verifier::external_body]
pub(crate) fn channel_is_disconnected<T>(tx: &flume::Sender<T>) -> bool {
    tx.is_disconnected()
}

/// `flume::Sender::try_send`: puts the value in the channel without waiting,
/// or gives it back unchanged when the channel is bounded and full or every
/// receiver is gone (flume's `TrySendError` unwrapped). On an unbounded
/// channel it behaves as `send`. Whether there is room and whether the
/// receivers are there is up to other handles, so the contract leaves open
/// which happens.
#[verifier::external_body]
pub(crate) fn channel_try_send<T>(tx: &flume::Sender<T>, value: T) -> (r: Result<(), T>)
    ensures
        r matches Err(v) ==> v == value,
{
    match tx.try_send(value) {
        Ok(()) => Ok(()),
        Err(flume::TrySendError::Full(v)) => Err(v),
        Err(flume::TrySendError::Disconnected(v)) => Err(v),
    }
}

/// The bound of the command channel that `tx` sends into, `None` when the
/// channel is unbounded; fixed when the channel is made.
pub uninterp spec fn command_bound(tx: flume::Sender<ActorCommand>) -> Option<usize>;

/// `flume::Sender::capacity` on a command sender: the bound of its channel,
/// `None` when unbounded.
#[verifier::external_body]
fn command_capacity(tx: &flume::Sender<ActorCommand>) -> (c: Option<usize>)
    ensures
        c == command_bound(*tx),
{
    tx.capacity()
}

/// `flume::Sender::send` on a sender into an unbounded command channel: puts
/// the command in, or gives it back unchanged when every receiver is gone.
/// On an unbounded channel flume's `send` never waits.
#[verifier::external_body]
fn command_send(tx: &flume::Sender<ActorCommand>, cmd: ActorCommand) -> (r: Result<(), ActorCommand>)
    requires
        command_bound(*tx) is None,
    ensures
        r matches Err(c) ==> c == cmd,
{
    match tx.send(cmd) {
        Ok(()) => Ok(()),
        Err(flume::SendError(c)) => Err(c),
    }
}

/// `flume::unbounded`: a fresh channel without a bound on what it holds.
/// Nothing is claimed of the two ends beyond their types.
#[verifier::external_body]
pub(crate) fn channel_unbounded<T>() -> (flume::Sender<T>, flume::Receiver<T>) {
    flume::unbounded()
}

/// `Clone::clone` on a `flume::Sender`: another sender into the same channel.
/// A sender's only field is an `Arc` of the channel's shared state, and the
/// clone holds a clone of that same `Arc`; so the clone is claimed equal to
/// the sender it was made from.
#[verifier::external_body]
pub(crate) fn channel_clone<T>(tx: &flume::Sender<T>) -> (r: flume::Sender<T>)
    ensures
        r == *tx,
{
    tx.clone()
}

/// A message that could not be delivered, handed back to the sender.
#[derive(Debug)]
pub struct SendError<M>(pub M);

/// Whether a message is let through to a channel that may be disconnected:
/// `Ok` with the message when the channel is connected, otherwise the message
/// comes back in a [SendError].
pub fn gate_message<M>(disconnected: bool, message: M) -> (r: Result<M, SendError<M>>)
    ensures
        disconnected ==> r == Err::<M, SendError<M>>(SendError(message)),
        !disconnected ==> r == Ok::<M, SendError<M>>(message),
{
    if disconnected {
        Err(SendError(message))
    } else {
        Ok(message)
    }
}

/// Sends `message` without a response channel into the mailbox `tx`, whose
/// disconnection was just checked and found to be `disconnected`. A
/// disconnected mailbox is sent nothing and the message comes back; otherwise
/// the message is packed and handed to the mailbox, and the send counts as
/// done.
pub fn send_gated<A: Actor + Handler<M> + Enveloper<A, M>, M: Send + Sync + 'static>(
    tx: &flume::Sender<BoxedActorMessage<A>>,
    disconnected: bool,
    message: M,
) -> (r: Result<(), SendError<M>>)
    ensures
        disconnected ==> r == Err::<(), SendError<M>>(SendError(message)),
        !disconnected ==> r is Ok,
{
    let gated = gate_message(disconnected, message);
    match gated {
        Err(e) => Err(e),
        Ok(message) => {
            let _ = channel_try_send(tx, A::pack(message, None));
            Ok(())
        },
    }
}

/// Sends `message` together with a fresh response channel into the mailbox
/// `tx`, whose disconnection was just checked and found to be
/// `disconnected`. A disconnected mailbox is sent nothing and the message
/// comes back; otherwise the packed message is handed to the mailbox and the
/// request awaiting its response is returned.
pub fn request_gated<A: Actor + Handler<M> + Enveloper<A, M>, M: Send + Sync + 'static>(
    tx: &flume::Sender<BoxedActorMessage<A>>,
    disconnected: bool,
    message: M,
) -> (r: Result<MessageRequest<A::Response>, SendError<M>>)
    ensures
        disconnected ==> r == Err::<MessageRequest<A::Response>, SendError<M>>(SendError(message)),
        !disconnected ==> r is Ok,
{
    let gated = gate_message(disconnected, message);
    match gated {
        Err(e) => Err(e),
        Ok(message) => {
            let (response_tx, response_rx) = oneshot_channel();
            let _ = channel_try_send(tx, A::pack(message, Some(response_tx)));
            Ok(MessageRequest { response_rx })
        },
    }
}

/// What a command send came to: `Ok` when the command channel took it,
/// otherwise the command back in a [SendError].
pub fn command_outcome(outcome: Result<(), ActorCommand>) -> (r: Result<(), SendError<ActorCommand>>)
    ensures
        outcome is Ok ==> r is Ok,
        outcome matches Err(c) ==> r == Err::<(), SendError<ActorCommand>>(SendError(c)),
{
    match outcome {
        Ok(()) => Ok(()),
        Err(c) => Err(SendError(c)),
    }
}

/// Sends a command into the command channel `tx`. On an unbounded channel
/// the send fails only when the runtime is gone; on a bounded one it does not
/// wait for room and fails on a full channel too. A command that is not taken
/// comes back unchanged.
fn send_command(tx: &flume::Sender<ActorCommand>, cmd: ActorCommand) -> (r: Result<(), SendError<ActorCommand>>)
    ensures
        r matches Err(SendError(c)) ==> c == cmd,
{
    match command_capacity(tx) {
        None => command_outcome(command_send(tx, cmd)),
        Some(_) => command_outcome(channel_try_send(tx, cmd)),
    }
}

/// A handle to a spawned actor, used to send it messages and commands.
#[verifier::reject_recursive_types(A)]
pub struct ActorHandle<A: Actor> {
    message_tx: flume::Sender<BoxedActorMessage<A>>,
    command_tx: flume::Sender<ActorCommand>,
}

impl<A: Actor> Clone for ActorHandle<A> {
    /// Another handle to the same actor: the same mailbox and command channel.
    fn clone(&self) -> (r: Self)
        ensures
            r.message_sender() == self.message_sender(),
            r.command_sender() == self.command_sender(),
    {
        ActorHandle {
            message_tx: channel_clone(&self.message_tx),
            command_tx: channel_clone(&self.command_tx),
        }
    }
}

impl<A: Actor> ActorHandle<A> {
    pub closed spec fn message_sender(&self) -> flume::Sender<BoxedActorMessage<A>> {
        self.message_tx
    }

    pub closed spec fn command_sender(&self) -> flume::Sender<ActorCommand> {
        self.command_tx
    }

    pub fn new(message_tx: flume::Sender<BoxedActorMessage<A>>, command_tx: flume::Sender<ActorCommand>) -> (h: Self)
        ensures
            h.message_sender() == message_tx,
            h.command_sender() == command_tx,
    {
        ActorHandle { message_tx, command_tx }
    }

    /// Sends a message to the actor together with a fresh response channel, and
    /// returns the [MessageRequest] through which the actor's response arrives.
    /// When the actor's mailbox is disconnected the message comes back
    /// unchanged instead.
    pub fn send_wait<M: Send + Sync + 'static>(&self, message: M) -> (r: Result<MessageRequest<A::Response>, SendError<M>>)
        where A: Handler<M> + Enveloper<A, M>,
        ensures
            r matches Err(SendError(m)) ==> m == message,
    {
        request_gated(&self.message_tx, channel_is_disconnected(&self.message_tx), message)
    }

    /// Sends a message to the actor without a response channel. When the
    /// actor's mailbox is disconnected the message comes back unchanged.
    pub fn send<M: Send + Sync + 'static>(&self, message: M) -> (r: Result<(), SendError<M>>)
        where A: Handler<M> + Enveloper<A, M>,
        ensures
            r matches Err(SendError(m)) ==> m == message,
    {
        send_gated(&self.message_tx, channel_is_disconnected(&self.message_tx), message)
    }

    /// Sends a message ignoring any error in the process.
    pub fn send_forget<M: Send + Sync + 'static>(&self, message: M)
        where A: Handler<M> + Enveloper<A, M>,
    {
        let _ = channel_try_send(&self.message_tx, A::pack(message, None));
    }

    /// Sends a command to the actor's runtime. When the runtime is gone (or a
    /// bounded command channel is full) the command comes back unchanged.
    pub fn send_cmd(&self, cmd: ActorCommand) -> (r: Result<(), SendError<ActorCommand>>)
        ensures
            r matches Err(SendError(c)) ==> c == cmd,
    {
        send_command(&self.command_tx, cmd)
    }

    /// A [Recipient] of messages of type `M` that sends into this actor's
    /// mailbox and command channel.
    pub fn recipient<M: Send + Sync + 'static>(&self) -> (r: Recipient<M>)
        where A: Handler<M> + Enveloper<A, M>,
        ensures
            r.command_sender() == self.command_sender(),
    {
        let message_tx: Box<dyn MessageSender<M>> = Box::new(channel_clone(&self.message_tx));
        Recipient {
            message_tx,
            command_tx: channel_clone(&self.command_tx),
        }
    }
}

impl<A: Actor + Handler<M> + Enveloper<A, M>, M: Send + Sync + 'static> From<ActorHandle<A>> for Recipient<M> {
    /// Just calls `ActorHandle::recipient`, i.e. clones the underlying
    /// channels into the recipient and boxes the message one.
    fn from(handle: ActorHandle<A>) -> (r: Self)
        ensures
            r.command_sender() == handle.command_sender(),
    {
        handle.recipient()
    }
}

/// A recipient made from a handle holds a freshly boxed sender into the
/// handle's mailbox, a value of its own; so the conversion is not claimed to
/// equal any given value.
impl<A: Actor + Handler<M> + Enveloper<A, M>, M: Send + Sync + 'static> vstd::std_specs::convert::FromSpecImpl<ActorHandle<A>> for Recipient<M> {
    open spec fn obeys_from_spec() -> bool {
        false
    }

    open spec fn from_spec(v: ActorHandle<A>) -> Self {
        arbitrary()
    }
}

/// Sends messages of type `M` into a mailbox whose actor type is erased.
pub trait MessageSender<M: Send> {
    /// Sends the message; when the mailbox is disconnected the message comes
    /// back unchanged.
    fn send(&self, message: M) -> (r: Result<(), SendError<M>>)
        ensures
            r matches Err(SendError(m)) ==> m == message;
}

impl<A: Actor + Handler<M> + Enveloper<A, M>, M: Send + Sync + 'static> MessageSender<M> for flume::Sender<BoxedActorMessage<A>> {
    fn send(&self, message: M) -> (r: Result<(), SendError<M>>) {
        send_gated(self, channel_is_disconnected(self), message)
    }
}

/// The same as an [ActorHandle], but tied only to the message type instead of
/// to a specific actor. Responses cannot be obtained through it.
#[verifier::reject_recursive_types(M)]
pub struct Recipient<M: Send> {
    message_tx: Box<dyn MessageSender<M>>,
    command_tx: flume::Sender<ActorCommand>,
}

impl<M: Send> Recipient<M> {
    /// The sender into the command channel of the actor this recipient
    /// reaches.
    pub closed spec fn command_sender(&self) -> flume::Sender<ActorCommand> {
        self.command_tx
    }

    /// Sends a message; when the mailbox is disconnected the message comes
    /// back unchanged.
    pub fn send(&self, message: M) -> (r: Result<(), SendError<M>>)
        ensures
            r matches Err(SendError(m)) ==> m == message,
    {
        self.message_tx.send(message)
    }

    /// Sends a message ignoring any error in the process.
    pub fn send_forget(&self, message: M) {
        let _ = self.message_tx.send(message);
    }

    /// Sends a command to the actor's runtime. When the runtime is gone (or a
    /// bounded command channel is full) the command comes back unchanged.
    pub fn send_cmd(&self, cmd: ActorCommand) -> (r: Result<(), SendError<ActorCommand>>)
        ensures
            r matches Err(SendError(c)) ==> c == cmd,
    {
        send_command(&self.command_tx, cmd)
    }
}

} // verus!
