//! The default actor runtime: what it does with each command and message that
//! arrives for its actor.
use vstd::prelude::*;

use crate::actor::{channel_unbounded, Actor, ActorHandle};
use crate::message::BoxedActorMessage;
use crate::{ActorCommand, Error};

verus! {

/// What a runtime does after an event: keep listening, or stop with a result.
#[derive(Debug, Clone, Copy, PartialEq, Eq)]
pub enum Step {
    Continue,
    Finished(Result<(), Error>),
}

/// Something that arrived for a runtime. `None` stands for a channel whose
/// senders are all gone.
#[verifier::reject_recursive_types(A)]
pub enum RuntimeEvent<A: Actor> {
    Command(Option<ActorCommand>),
    Message(Option<BoxedActorMessage<A>>),
}

/// The step a runtime takes on a command, or on a command channel that closed:
/// `Stop` ends it successfully, a closed channel ends it with
/// `ActorDisconnected`.
pub open spec fn command_step(command: Option<ActorCommand>) -> Step {
    match command {
        Some(ActorCommand::Stop) => Step::Finished(Ok(())),
        None => Step::Finished(Err(Error::ActorDisconnected)),
    }
}

/// The step a runtime takes on a mailbox event: a message is handled and the
/// runtime goes on; a closed mailbox ends it with `ActorDisconnected`.
pub open spec fn mailbox_step(delivered: bool) -> Step {
    if delivered {
        Step::Continue
    } else {
        Step::Finished(Err(Error::ActorDisconnected))
    }
}

/// How a runtime has ended after a step: the result it finished with, or
/// `None` if it goes on.
pub open spec fn ended_by(s: Step) -> Option<Result<(), Error>> {
    match s {
        Step::Finished(end) => Some(end),
        Step::Continue => None,
    }
}

/// How a runtime has ended after a step.
pub fn end_of(s: Step) -> (e: Option<Result<(), Error>>)
    ensures
        e == ended_by(s),
        s matches Step::Finished(end) ==> e == Some(end),
        s is Continue ==> e is None,
{
    match s {
        Step::Finished(end) => Some(end),
        Step::Continue => None,
    }
}

/// What a runtime does on a command or on a closed command channel.
pub fn on_command(command: Option<ActorCommand>) -> (s: Step)
    ensures
        s == command_step(command),
{
    match command {
        Some(ActorCommand::Stop) => Step::Finished(Ok(())),
        None => Step::Finished(Err(Error::ActorDisconnected)),
    }
}

/// Hands a message from the mailbox to the actor. Returns the step the
/// runtime takes next.
pub fn on_message<A: Actor>(actor: &mut A, message: Option<BoxedActorMessage<A>>) -> (s: Step)
    ensures
        s == mailbox_step(message is Some),
        message is None ==> *final(actor) == *old(actor),
        message matches Some(m) ==> m.delivers(*old(actor), *final(actor)),
{
    match message {
        Some(mut message) => {
            message.handle(actor);
            Step::Continue
        },
        None => Step::Finished(Err(Error::ActorDisconnected)),
    }
}

/// A runtime stops successfully exactly on a `Stop` command, and stops with an
/// error exactly when the command channel or the mailbox is disconnected; a
/// delivered message never stops it, and a command always does.
pub proof fn lemma_runtime_stops(command: Option<ActorCommand>, delivered: bool)
    ensures
        (command_step(command) == Step::Finished(Ok(()))) <==> command == Some(ActorCommand::Stop),
        (command_step(command) == Step::Finished(Err(Error::ActorDisconnected))) <==> command is None,
        command_step(command) is Finished,
        mailbox_step(delivered) is Continue <==> delivered,
        !delivered ==> mailbox_step(delivered) == Step::Finished(Err(Error::ActorDisconnected)),
{
    match command {
        Some(c) => assert(c == ActorCommand::Stop),
        None => {},
    }
}

/// The default actor runtime: an actor with its command channel and mailbox.
#[verifier::reject_recursive_types(A)]
pub struct ActorRuntime<A: Actor> {
    actor: A,
    commands: flume::Receiver<ActorCommand>,
    mailbox: flume::Receiver<BoxedActorMessage<A>>,
    /// How the runtime finished, once it has.
    ended: Option<Result<(), Error>>,
}

impl<A: Actor> ActorRuntime<A> {
    /// How the runtime finished, `None` while it runs.
    pub closed spec fn ended(&self) -> Option<Result<(), Error>> {
        self.ended
    }

    pub closed spec fn actor(&self) -> A {
        self.actor
    }

    pub closed spec fn command_receiver(&self) -> flume::Receiver<ActorCommand> {
        self.commands
    }

    pub closed spec fn mailbox_receiver(&self) -> flume::Receiver<BoxedActorMessage<A>> {
        self.mailbox
    }

    pub fn new(actor: A, command_rx: flume::Receiver<ActorCommand>, message_rx: flume::Receiver<BoxedActorMessage<A>>) -> (r: Self)
        ensures
            r.actor() == actor,
            r.command_receiver() == command_rx,
            r.mailbox_receiver() == message_rx,
            r.ended() is None,
    {
        ActorRuntime { actor, commands: command_rx, mailbox: message_rx, ended: None }
    }

    /// A runtime for the actor with fresh command and mailbox channels, and
    /// the handle that sends into them. This is all of starting an actor but
    /// spawning its runtime.
    pub fn with_handle(actor: A) -> (r: (Self, ActorHandle<A>))
        ensures
            r.0.actor() == actor,
            r.0.ended() is None,
    {
        let (message_tx, message_rx) = channel_unbounded();
        let (command_tx, command_rx) = channel_unbounded();
        (ActorRuntime::new(actor, command_rx, message_rx), ActorHandle::new(message_tx, command_tx))
    }

    /// The channel the runtime takes commands from.
    pub fn commands(&self) -> (c: &flume::Receiver<ActorCommand>)
        ensures
            *c == self.command_receiver(),
    {
        &self.commands
    }

    /// The channel the runtime takes messages from.
    pub fn mailbox(&self) -> (m: &flume::Receiver<BoxedActorMessage<A>>)
        ensures
            *m == self.mailbox_receiver(),
    {
        &self.mailbox
    }

    /// The actor this runtime drives.
    pub fn actor_ref(&self) -> (a: &A)
        ensures
            *a == self.actor(),
    {
        &self.actor
    }

    /// Gives the actor back, ending the runtime.
    pub fn into_actor(self) -> (a: A)
        ensures
            a == self.actor(),
    {
        self.actor
    }

    /// Reacts to one event: a `Stop` command ends the runtime with `Ok`, a
    /// message is handled by the actor, and a closed channel ends the runtime
    /// with `ActorDisconnected`. Only a message can change the actor; the
    /// channels are never replaced. Once the runtime has ended, nothing more
    /// is handled: every later event is dropped and gives the same end.
    pub fn step(&mut self, event: RuntimeEvent<A>) -> (s: Step)
        ensures
            final(self).command_receiver() == old(self).command_receiver(),
            final(self).mailbox_receiver() == old(self).mailbox_receiver(),
            old(self).ended() matches Some(end) ==> s == Step::Finished(end)
                && final(self).actor() == old(self).actor()
                && final(self).ended() == old(self).ended(),
            old(self).ended() is None ==> final(self).ended() == ended_by(s) && match event {
                RuntimeEvent::Command(c) => s == command_step(c) && final(self).actor() == old(self).actor(),
                RuntimeEvent::Message(m) => s == mailbox_step(m is Some)
                    && (m is None ==> final(self).actor() == old(self).actor())
                    && (m matches Some(msg) ==> msg.delivers(old(self).actor(), final(self).actor())),
            },
            s matches Step::Finished(end) ==> final(self).ended() == Some(end),
            s is Continue ==> final(self).ended() is None,
            runtime_stepped(*old(self), event, *final(self), s),
    {
        match self.ended {
            Some(end) => Step::Finished(end),
            None => {
                let s = match event {
                    RuntimeEvent::Command(command) => on_command(command),
                    RuntimeEvent::Message(message) => on_message(&mut self.actor, message),
                };
                self.ended = end_of(s);
                s
            },
        }
    }
}

/// A step of a runtime, as `step` takes it: from `pre`, on `event`, to `post`,
/// reporting `s`. A step that finishes records its result; a step taken after
/// the end reports the same end and leaves the actor alone; before the end, a
/// command or a closed channel leaves the actor alone, and a message is
/// delivered to it.
pub open spec fn runtime_stepped<A: Actor>(pre: ActorRuntime<A>, event: RuntimeEvent<A>, post: ActorRuntime<A>, s: Step) -> bool {
    &&& post.command_receiver() == pre.command_receiver()
    &&& post.mailbox_receiver() == pre.mailbox_receiver()
    &&& (s matches Step::Finished(end) ==> post.ended() == Some(end))
    &&& (s is Continue ==> post.ended() is None)
    &&& (pre.ended() matches Some(end) ==> s == Step::Finished(end) && post.actor() == pre.actor())
    &&& (pre.ended() is None ==> match event {
        RuntimeEvent::Command(c) => s == command_step(c) && post.actor() == pre.actor(),
        RuntimeEvent::Message(m) => s == mailbox_step(m is Some)
            && (m is None ==> post.actor() == pre.actor())
            && (m matches Some(msg) ==> msg.delivers(pre.actor(), post.actor())),
    })
}

/// Nothing is handled after a runtime ends: once a step has finished it, with
/// any result, Ok or an error, the next step finishes with that same result
/// and leaves the actor as it was, whatever the event.
pub proof fn lemma_nothing_after_end<A: Actor>(
    r1: ActorRuntime<A>,
    e1: RuntimeEvent<A>,
    r2: ActorRuntime<A>,
    s1: Step,
    e2: RuntimeEvent<A>,
    r3: ActorRuntime<A>,
    s2: Step,
)
    requires
        runtime_stepped(r1, e1, r2, s1),
        s1 is Finished,
        runtime_stepped(r2, e2, r3, s2),
    ensures
        s2 == s1,
        r3.actor() == r2.actor(),
        r3.ended() == r2.ended(),
{
}

/// A runtime's first step on a closed channel ends it with
/// `ActorDisconnected`, and from then on every event is answered with that
/// error and handled by nobody.
pub proof fn lemma_disconnect_is_final<A: Actor>(
    r1: ActorRuntime<A>,
    r2: ActorRuntime<A>,
    s1: Step,
    e2: RuntimeEvent<A>,
    r3: ActorRuntime<A>,
    s2: Step,
)
    requires
        r1.ended() is None,
        runtime_stepped(r1, RuntimeEvent::Command(None), r2, s1),
        runtime_stepped(r2, e2, r3, s2),
    ensures
        s1 == Step::Finished(Err(Error::ActorDisconnected)),
        s2 == Step::Finished(Err(Error::ActorDisconnected)),
        r3.actor() == r2.actor(),
        r2.actor() == r1.actor(),
{
}

} // verus!
