//! Messages, the envelopes that carry them to an actor, and pending responses.
use vstd::prelude::*;

use crate::actor::Actor;
use crate::{Error, TryRecvError};

verus! {

/// The main trait to implement on an [Actor] to enable it to handle messages.
pub trait Handler<M>: Actor {
    type Response: Send;

    /// Whether handling `message` can take the actor from state `pre` to
    /// state `post` with `response`: what the implementation's `handle` does,
    /// as a relation.
    /// An implementation that states nothing of its handler keeps the
    /// default, which allows any change.
    open spec fn handled(pre: Self, message: M, post: Self, response: Self::Response) -> bool {
        true
    }

    fn handle(&mut self, message: &M) -> (response: Self::Response)
        ensures
            Self::handled(*old(self), *message, *final(self), response);
}

/// A message that can be handled by an actor of type `A`, with the message
/// type erased. Implemented by [Envelope]; the runtime calls `handle` on each
/// boxed message it takes out of the mailbox.
pub trait ActorMessage<A: Actor>: Send + Sync {
    /// Whether the message still carries a channel for its response.
    spec fn awaits_response(&self) -> bool;

    /// Whether handing this message to the actor can take it from state
    /// `pre` to state `post`: the actor's handler for the message, run once.
    spec fn delivers(&self, pre: A, post: A) -> bool;

    /// Hands the message to the actor's handler; a response channel it
    /// carried is used up by then.
    fn handle(&mut self, actor: &mut A)
        ensures
            old(self).delivers(*old(actor), *final(actor)),
            !final(self).awaits_response();
}

/// A type erased message, as it travels through an actor's mailbox.
pub type BoxedActorMessage<A> = Box<dyn ActorMessage<A>>;

#[verifier::external_type_specification]
#[verifier::external_body]
#[verifier::reject_recursive_types(T)]
pub struct ExOneshotSender<T>(tokio::sync::oneshot::Sender<T>);

/// Declared because the receiver's `Future` impl names it as its error;
/// Verus refuses the receiver type without it.
#[verifier::external_type_specification]
#[verifier::external_body]
pub struct ExOneshotRecvError(tokio::sync::oneshot::error::RecvError);

#[verifier::external_type_specification]
#[verifier::external_body]
#[verifier::reject_recursive_types(T)]
pub struct ExOneshotReceiver<T>(tokio::sync::oneshot::Receiver<T>);

/// `tokio::sync::oneshot::channel`: a fresh one-shot channel. Nothing is
/// claimed of the two halves beyond their types.
#[verifier::external_body]
pub(crate) fn oneshot_channel<T>() -> (tokio::sync::oneshot::Sender<T>, tokio::sync::oneshot::Receiver<T>) {
    tokio::sync::oneshot::channel()
}

/// `tokio::sync::oneshot::Sender::send`: hands the value to the receiver, or
/// gives it back unchanged when the receiver is gone. Whether the receiver is
/// still there is up to another task, so the contract leaves open which of the
/// two happens.
#[verifier::external_body]
pub(crate) fn oneshot_send<T>(tx: tokio::sync::oneshot::Sender<T>, value: T) -> (r: Result<(), T>)
    ensures
        r matches Err(v) ==> v == value,
{
    tx.send(value)
}

/// `tokio::sync::oneshot::Receiver::try_recv`: takes the value if one was
/// sent; otherwise reports `Empty` or `Closed`, converted to this library's
/// [TryRecvError] variant of the same name. Which outcome comes depends on the
/// sending task, so the contract states none of them.
#[verifier::external_body]
pub(crate) fn oneshot_try_recv<T>(rx: &mut tokio::sync::oneshot::Receiver<T>) -> Result<T, TryRecvError> {
    match rx.try_recv() {
        Ok(v) => Ok(v),
        Err(tokio::sync::oneshot::error::TryRecvError::Empty) => Err(TryRecvError::Empty),
        Err(tokio::sync::oneshot::error::TryRecvError::Closed) => Err(TryRecvError::Closed),
    }
}

/// Contains the message in transit and an optional response channel for the
/// message, present when the message was sent with `send_wait`.
#[verifier::reject_recursive_types(M)]
#[verifier::reject_recursive_types(A)]
pub struct Envelope<M, A: Handler<M>> {
    message: M,
    response_tx: Option<tokio::sync::oneshot::Sender<A::Response>>,
}

impl<M, A: Handler<M>> Envelope<M, A> {
    pub closed spec fn message(&self) -> M {
        self.message
    }

    /// Whether the envelope still carries a response channel.
    pub closed spec fn has_responder(&self) -> bool {
        self.response_tx is Some
    }

    pub fn new(message: M, tx: Option<tokio::sync::oneshot::Sender<A::Response>>) -> (e: Self)
        ensures
            e.message() == message,
            e.has_responder() == (tx is Some),
    {
        Envelope { message, response_tx: tx }
    }

    /// The envelope's text for debugging; the message itself is not shown.
    pub fn describe(&self) -> (text: String)
        ensures
            text@ == "Envelope { message: \"{{..}}\" }"@,
    {
        "Envelope { message: \"{{..}}\" }".to_owned()
    }

    /// Hands the message to the actor's handler and sends the handler's
    /// response back over the response channel, if there is one. The channel
    /// is used at most once: afterwards the envelope carries none.
    pub fn deliver(&mut self, actor: &mut A)
        ensures
            exists|response: A::Response| #[trigger] A::handled(*old(actor), old(self).message(), *final(actor), response),
            final(self).message() == old(self).message(),
            !final(self).has_responder(),
    {
        let result = actor.handle(&self.message);
        assert(A::handled(*old(actor), old(self).message(), *actor, result));
        let tx = self.response_tx.take();
        match tx {
            Some(res_tx) => {
                let _ = oneshot_send(res_tx, result);
            },
            None => {},
        }
    }
}

impl<M: Send + Sync, A: Handler<M>> ActorMessage<A> for Envelope<M, A> {
    open spec fn awaits_response(&self) -> bool {
        self.has_responder()
    }

    open spec fn delivers(&self, pre: A, post: A) -> bool {
        exists|response: A::Response| #[trigger] A::handled(pre, self.message(), post, response)
    }

    /// Delivers the message to the actor's handler; see [Envelope::deliver].
    fn handle(&mut self, actor: &mut A)
        ensures
            final(self).message() == old(self).message(),
    {
        self.deliver(actor);
    }
}

/// Used by actor handles to pack messages into envelopes.
pub trait Enveloper<A: Handler<M>, M: Send + Sync + 'static> {
    /// Wraps a message in an envelope with an optional response channel.
    fn pack(message: M, tx: Option<tokio::sync::oneshot::Sender<A::Response>>) -> Box<dyn ActorMessage<A>> {
        Box::new(Envelope::<M, A>::new(message, tx))
    }
}

impl<A: Handler<M>, M: Send + Sync + 'static> Enveloper<A, M> for A {}

/// The state of a request after one look at its response channel.
#[derive(Debug, PartialEq, Eq)]
pub enum RequestPoll<R> {
    /// The request is settled: the actor's response, or why none can come.
    Ready(Result<R, Error>),
    /// No response yet; look again later.
    Pending,
}

/// What one look at a response channel gives, as a [RequestPoll].
pub open spec fn resolved<R>(outcome: Result<R, TryRecvError>) -> RequestPoll<R> {
    match outcome {
        Ok(response) => RequestPoll::Ready(Ok(response)),
        Err(TryRecvError::Empty) => RequestPoll::Pending,
        Err(TryRecvError::Closed) => RequestPoll::Ready(Err(Error::ChannelClosed(TryRecvError::Closed))),
    }
}

/// Turns the outcome of one receive attempt into the state of the request.
pub fn resolve<R>(outcome: Result<R, TryRecvError>) -> (p: RequestPoll<R>)
    ensures
        p == resolved(outcome),
{
    match outcome {
        Ok(response) => RequestPoll::Ready(Ok(response)),
        Err(TryRecvError::Empty) => RequestPoll::Pending,
        Err(TryRecvError::Closed) => RequestPoll::Ready(Err(Error::ChannelClosed(TryRecvError::Closed))),
    }
}

/// A request whose response is awaited; obtained from `send_wait`.
#[verifier::reject_recursive_types(R)]
pub struct MessageRequest<R> {
    pub response_rx: tokio::sync::oneshot::Receiver<R>,
}

impl<R> MessageRequest<R> {
    /// Looks once at the response channel: `Pending` while the actor has not
    /// answered, then the response, or `ChannelClosed` if no answer can come.
    pub fn try_response(&mut self) -> (p: RequestPoll<R>)
        ensures
            exists|outcome: Result<R, TryRecvError>| p == resolved(outcome),
    {
        let outcome = oneshot_try_recv(&mut self.response_rx);
        let ghost o = outcome;
        let p = resolve(outcome);
        assert(p == resolved(o));
        p
    }
}

} // verus!
