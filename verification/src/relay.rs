//! Relay actors: actors fed by a stream (such as a websocket) whose responses
//! go out through a channel to a sink.
use vstd::prelude::*;

use crate::actor::{channel_try_send, channel_unbounded, Actor, ActorHandle};
use crate::message::BoxedActorMessage;
use crate::runtime::{command_step, end_of, ended_by, mailbox_step, on_command, on_message, Step};
use crate::{ActorCommand, Error};

verus! {

/// Processes the items of a relay's stream. A relay that returns `None`
/// forwards nothing; a relay that returns `Some(m)` has `m` forwarded to the
/// sink.
pub trait Relay<M>: Actor {
    /// Whether processing `message` can take the relay from state `pre` to
    /// state `post` with `response`: what the implementation's `process`
    /// does, as a relation. An implementation that states nothing of its
    /// relay keeps the default, which allows any outcome.
    open spec fn processed(pre: Self, message: M, post: Self, response: Option<M>) -> bool {
        true
    }

    fn process(&mut self, message: M) -> (response: Option<M>)
        ensures
            Self::processed(*old(self), message, *final(self), response);
}

/// An actor that is fed by a stream of type `Str` and answers through a
/// sender channel. `Error` is the error type of the stream's items.
pub trait RelayActor<M, Str>: Actor + Relay<M> {
    /// The error type of the underlying stream.
    type Error;
}

/// What became of a relay's response.
#[derive(Debug, PartialEq, Eq)]
pub enum Forwarded<M> {
    /// The relay had nothing to forward; nothing was sent.
    Nothing,
    /// The response was handed to the sink's channel.
    Sent,
    /// The sink's channel was disconnected; the response came back unsent.
    Returned(M),
}

/// Whether `f` is a faithful account of forwarding `response`: nothing for
/// `None`; for `Some(m)`, either sent or `m` handed back.
pub open spec fn forwards<M>(response: Option<M>, f: Forwarded<M>) -> bool {
    match response {
        None => f is Nothing,
        Some(m) => f is Sent || f == Forwarded::Returned(m),
    }
}

/// The step a relay runtime takes after forwarding a response: it goes on,
/// unless the response came back because the sink is gone.
pub open spec fn step_after<M>(f: Forwarded<M>) -> Step {
    match f {
        Forwarded::Returned(_) => Step::Finished(Err(Error::RelayDisconnected)),
        _ => Step::Continue,
    }
}

/// What a send of a response to the sink's channel came to: handed over, or
/// given back because the channel is disconnected.
pub fn sink_outcome<M>(outcome: Result<(), M>) -> (f: Forwarded<M>)
    ensures
        outcome is Ok ==> f is Sent,
        outcome matches Err(m) ==> f == Forwarded::Returned(m),
{
    match outcome {
        Ok(()) => Forwarded::Sent,
        Err(m) => Forwarded::Returned(m),
    }
}

/// The step a relay runtime takes after forwarding a response.
pub fn after_forward<M>(f: Forwarded<M>) -> (s: Step)
    ensures
        s == step_after(f),
{
    match f {
        Forwarded::Returned(_) => Step::Finished(Err(Error::RelayDisconnected)),
        _ => Step::Continue,
    }
}

/// Something that arrived for a relay runtime: a command, a mailbox message,
/// or an item of the stream. `None` stands for a channel or stream that ended.
#[verifier::reject_recursive_types(A)]
#[verifier::reject_recursive_types(M)]
#[verifier::reject_recursive_types(E)]
pub enum RelayEvent<A: Actor, M, E> {
    Command(Option<ActorCommand>),
    Message(Option<BoxedActorMessage<A>>),
    Stream(Option<Result<M, E>>),
}

/// The runtime of a relay actor: the actor, its stream, the sender towards
/// the sink, and its command channel and mailbox.
#[verifier::reject_recursive_types(A)]
#[verifier::reject_recursive_types(M)]
#[verifier::reject_recursive_types(Str)]
pub struct RelayRuntime<A: RelayActor<M, Str>, M, Str> {
    actor: A,
    /// The receiving end of the stream.
    stream: Str,
    /// The sending end towards the sink.
    sender: flume::Sender<M>,
    /// Actor command receiver.
    commands: flume::Receiver<ActorCommand>,
    /// Actor message receiver.
    mailbox: flume::Receiver<BoxedActorMessage<A>>,
    /// How the runtime finished, once it has.
    ended: Option<Result<(), Error>>,
}

impl<A: RelayActor<M, Str>, M, Str> RelayRuntime<A, M, Str> {
    pub closed spec fn actor(&self) -> A {
        self.actor
    }

    pub closed spec fn stream(&self) -> Str {
        self.stream
    }

    pub closed spec fn sender(&self) -> flume::Sender<M> {
        self.sender
    }

    pub closed spec fn command_receiver(&self) -> flume::Receiver<ActorCommand> {
        self.commands
    }

    pub closed spec fn mailbox_receiver(&self) -> flume::Receiver<BoxedActorMessage<A>> {
        self.mailbox
    }

    /// How the runtime finished, `None` while it runs.
    pub closed spec fn ended(&self) -> Option<Result<(), Error>> {
        self.ended
    }

    pub fn new(
        actor: A,
        command_rx: flume::Receiver<ActorCommand>,
        mailbox: flume::Receiver<BoxedActorMessage<A>>,
        stream: Str,
        sender: flume::Sender<M>,
    ) -> (r: Self)
        ensures
            r.actor() == actor,
            r.command_receiver() == command_rx,
            r.mailbox_receiver() == mailbox,
            r.stream() == stream,
            r.sender() == sender,
            r.ended() is None,
    {
        RelayRuntime { actor, sender, stream, mailbox, commands: command_rx, ended: None }
    }

    /// A runtime for the relay actor, fed by `stream` and answering through
    /// `sender`, with fresh command and mailbox channels, and the handle that
    /// sends into them. This is all of starting a relay but spawning its
    /// runtime.
    pub fn with_handle(actor: A, stream: Str, sender: flume::Sender<M>) -> (r: (Self, ActorHandle<A>))
        ensures
            r.0.actor() == actor,
            r.0.stream() == stream,
            r.0.sender() == sender,
            r.0.ended() is None,
    {
        let (message_tx, message_rx) = channel_unbounded();
        let (command_tx, command_rx) = channel_unbounded();
        (RelayRuntime::new(actor, command_rx, message_rx, stream, sender), ActorHandle::new(message_tx, command_tx))
    }

    /// The command channel, the mailbox and the stream, borrowed together so
    /// that the caller can wait on all three at once.
    pub fn sources(&mut self) -> (r: (&flume::Receiver<ActorCommand>, &flume::Receiver<BoxedActorMessage<A>>, &mut Str))
        ensures
            *r.0 == old(self).command_receiver(),
            *r.1 == old(self).mailbox_receiver(),
            *r.2 == old(self).stream(),
            final(self).stream() == *final(r.2),
            final(self).actor() == old(self).actor(),
            final(self).sender() == old(self).sender(),
            final(self).command_receiver() == old(self).command_receiver(),
            final(self).mailbox_receiver() == old(self).mailbox_receiver(),
    {
        (&self.commands, &self.mailbox, &mut self.stream)
    }

    /// Forwards a relay's response to the sink: nothing for `None`; for
    /// `Some(m)`, `m` is sent, or comes back when the sink's channel is gone
    /// (or, for a bounded channel, full: the send never waits).
    pub fn forward(&self, response: Option<M>) -> (f: Forwarded<M>)
        ensures
            forwards(response, f),
    {
        match response {
            None => Forwarded::Nothing,
            Some(m) => sink_outcome(channel_try_send(&self.sender, m)),
        }
    }

    /// Processes one item of the stream with the relay and forwards the
    /// relay's response; the runtime goes on unless the response came back
    /// because the sink is gone.
    pub fn relay_item(&mut self, message: M) -> (s: Step)
        ensures
            final(self).stream() == old(self).stream(),
            final(self).sender() == old(self).sender(),
            final(self).command_receiver() == old(self).command_receiver(),
            final(self).mailbox_receiver() == old(self).mailbox_receiver(),
            final(self).ended() == old(self).ended(),
            exists|response: Option<M>, f: Forwarded<M>|
                #[trigger] A::processed(old(self).actor(), message, final(self).actor(), response)
                    && forwards(response, f) && s == #[trigger] step_after(f),
    {
        let response = self.actor.process(message);
        let ghost r = response;
        let f = self.forward(response);
        let ghost g = f;
        let s = after_forward(f);
        assert(A::processed(old(self).actor(), message, self.actor(), r));
        assert(forwards(r, g) && s == step_after(g));
        s
    }

    /// Reacts to one event. Commands and mailbox messages are treated as by
    /// the default runtime. A stream item is processed by the relay and its
    /// response, if any, forwarded; an item that is an error is skipped; a
    /// stream that ended, or a sink that is gone, ends the runtime with
    /// `RelayDisconnected`. The channels, the stream and the sender are never
    /// replaced.
    pub fn step<E>(&mut self, event: RelayEvent<A, M, E>) -> (s: Step)
        ensures
            final(self).stream() == old(self).stream(),
            final(self).sender() == old(self).sender(),
            final(self).command_receiver() == old(self).command_receiver(),
            final(self).mailbox_receiver() == old(self).mailbox_receiver(),
            old(self).ended() matches Some(end) ==> s == Step::Finished(end)
                && final(self).actor() == old(self).actor()
                && final(self).ended() == old(self).ended(),
            old(self).ended() is None ==> final(self).ended() == ended_by(s) && match event {
                RelayEvent::Command(c) => s == command_step(c) && final(self).actor() == old(self).actor(),
                RelayEvent::Message(m) => s == mailbox_step(m is Some)
                    && (m is None ==> final(self).actor() == old(self).actor())
                    && (m matches Some(msg) ==> msg.delivers(old(self).actor(), final(self).actor())),
                RelayEvent::Stream(None) => s == Step::Finished(Err(Error::RelayDisconnected))
                    && final(self).actor() == old(self).actor(),
                RelayEvent::Stream(Some(Err(_))) => s == Step::Continue
                    && final(self).actor() == old(self).actor(),
                RelayEvent::Stream(Some(Ok(item))) => exists|response: Option<M>, f: Forwarded<M>|
                    #[trigger] A::processed(old(self).actor(), item, final(self).actor(), response)
                        && forwards(response, f) && s == #[trigger] step_after(f),
            },
            s matches Step::Finished(end) ==> final(self).ended() == Some(end),
            s is Continue ==> final(self).ended() is None,
            relay_stepped(*old(self), *final(self), s),
    {
        match self.ended {
            Some(end) => Step::Finished(end),
            None => {
                let s = match event {
                    RelayEvent::Command(command) => on_command(command),
                    RelayEvent::Message(message) => on_message(&mut self.actor, message),
                    RelayEvent::Stream(None) => Step::Finished(Err(Error::RelayDisconnected)),
                    RelayEvent::Stream(Some(Err(_))) => Step::Continue,
                    RelayEvent::Stream(Some(Ok(message))) => {
                        let s = self.relay_item(message);
                        let ghost response = choose|response: Option<M>| exists|f: Forwarded<M>|
                            #[trigger] A::processed(old(self).actor(), message, self.actor(), response)
                                && forwards(response, f) && s == step_after(f);
                        let ghost f = choose|f: Forwarded<M>|
                            A::processed(old(self).actor(), message, self.actor(), response)
                                && forwards(response, f) && s == #[trigger] step_after(f);
                        self.ended = end_of(s);
                        assert(A::processed(old(self).actor(), message, self.actor(), response));
                        assert(forwards(response, f) && s == step_after(f));
                        return s;
                    },
                };
                self.ended = end_of(s);
                s
            },
        }
    }
}

/// A step of a relay runtime, as `step` takes it, from `pre` to `post`
/// reporting `s`, as far as its end is concerned: a step that finishes
/// records its result, and a step taken after the end reports the same end
/// and leaves the relay's actor, stream and channels alone.
pub open spec fn relay_stepped<A: RelayActor<M, Str>, M, Str>(pre: RelayRuntime<A, M, Str>, post: RelayRuntime<A, M, Str>, s: Step) -> bool {
    &&& post.stream() == pre.stream()
    &&& post.sender() == pre.sender()
    &&& post.command_receiver() == pre.command_receiver()
    &&& post.mailbox_receiver() == pre.mailbox_receiver()
    &&& (s matches Step::Finished(end) ==> post.ended() == Some(end))
    &&& (s is Continue ==> post.ended() is None)
    &&& (pre.ended() matches Some(end) ==> s == Step::Finished(end) && post.actor() == pre.actor())
}

/// Nothing is processed or handled after a relay ends: once a step has
/// finished it, with any result (a `Stop`, a closed channel, an ended stream,
/// or a sink that is gone), the next step finishes with that same result and
/// leaves the relay's actor as it was, whatever the event.
pub proof fn lemma_relay_nothing_after_end<A: RelayActor<M, Str>, M, Str>(
    r1: RelayRuntime<A, M, Str>,
    r2: RelayRuntime<A, M, Str>,
    s1: Step,
    r3: RelayRuntime<A, M, Str>,
    s2: Step,
)
    requires
        relay_stepped(r1, r2, s1),
        s1 is Finished,
        relay_stepped(r2, r3, s2),
    ensures
        s2 == s1,
        r3.actor() == r2.actor(),
        r3.ended() == r2.ended(),
{
}

} // verus!
