//! A dramatically minimal actor library.
//!
//! Actors receive type-erased messages through a mailbox channel and commands
//! through a command channel. The decisions that an actor's runtime takes on
//! each incoming event are verified here; the asynchronous plumbing that waits
//! for those events lives with the caller.
use vstd::prelude::*;

pub mod actor;
pub mod message;
pub mod relay;
pub mod runtime;
pub mod ws;

pub use actor::{Actor, ActorHandle, Recipient, SendError};
pub use message::{ActorMessage, Enveloper, Handler, MessageRequest, RequestPoll};



verus! {

/// Commands an actor's runtime understands besides messages.
#[derive(Debug, Clone, Copy, PartialEq, Eq, Structural)]
pub enum ActorCommand {
    Stop,
}

/// Why receiving a response from a one-shot channel did not produce a value.
#[derive(Debug, Clone, Copy, PartialEq, Eq, Structural)]
pub enum TryRecvError {
    /// No value has been sent yet.
    Empty,
    /// The sending half is gone, or the value was already taken.
    Closed,
}

/// The errors of this library.
#[derive(Debug, Clone, Copy, PartialEq, Eq, Structural)]
pub enum Error {
    /// The response channel of a request closed without a response.
    ChannelClosed(TryRecvError),
    /// A command or mailbox channel of an actor lost all its senders.
    ActorDisconnected,
    /// The stream feeding a relay ended, or its response sink went away.
    RelayDisconnected,
}

} // verus!
