//! The pair of channels between a front-end and the engine.
//!
//! Commands travel one way and status messages the other. Both channels are
//! unbounded: a send never waits, and the front-end looks for status messages
//! without waiting either.

use vstd::prelude::*;
use std::sync::mpsc::{Receiver, Sender};
use crate::protocol::{EngineCommand, EngineStatus};

verus! {

/// `std::sync::mpsc::Sender`, the sending end of a channel. Nothing is known of
/// what is inside.
#[verifier::external_type_specification]
#[verifier::external_body]
#[verifier::reject_recursive_types(T)]
pub struct ExSender<T>(Sender<T>);

/// `std::sync::mpsc::Receiver`, the receiving end of a channel. Nothing is known
/// of what is inside.
#[verifier::external_type_specification]
#[verifier::external_body]
#[verifier::reject_recursive_types(T)]
pub struct ExReceiver<T>(Receiver<T>);

/// `std::sync::mpsc::channel` makes the two ends of a new channel. Nothing is
/// claimed of them.
pub assume_specification<T>[ std::sync::mpsc::channel::<T> ]() -> (ends: (Sender<T>, Receiver<T>))
;

/// Calls `Sender::send`, which puts the item on the channel without waiting, and
/// tells whether it succeeded. It fails once the receiving end is gone. Which of
/// the two happens is not known here.
#[verifier::external_body]
fn send_item<T>(chan: &Sender<T>, item: T) -> (delivered: bool) {
    chan.send(item).is_ok()
}

/// Calls `Receiver::try_recv`, which takes the item at the head of the channel
/// without waiting. It gives `None` where the channel is empty, also once the
/// sending end is gone. Which item comes, if any, is not known here.
#[verifier::external_body]
fn take_waiting<T>(chan: &Receiver<T>) -> (item: Option<T>) {
    chan.try_recv().ok()
}

/// The ends that the engine's driver holds: it takes commands from one and puts
/// status messages on the other.
pub struct EngineEndpoints {
    pub commands: Receiver<EngineCommand>,
    pub statuses: Sender<EngineStatus>,
}

/// Both channels as the front-end makes them. It keeps its own two ends and
/// holds the engine's two until the engine is started. It keeps the record of
/// the commands that it has handed to the command channel.
pub struct EngineLink {
    to_engine: Sender<EngineCommand>,
    from_engine: Receiver<EngineStatus>,
    engine_side: Option<EngineEndpoints>,
    sent: Ghost<Seq<EngineCommand>>,
}

impl EngineLink {
    /// Whether the engine's ends have been handed out.
    pub closed spec fn handed_out(&self) -> bool {
        self.engine_side is None
    }

    /// The commands that have been handed to the command channel through this
    /// link, in the order in which they were handed over. The channel passes
    /// them on in that order for as long as the engine holds its end.
    pub closed spec fn sent(&self) -> Seq<EngineCommand> {
        self.sent@
    }

    /// Makes both channels.
    pub fn new() -> (link: EngineLink)
        ensures
            !link.handed_out(),
            link.sent() == Seq::<EngineCommand>::empty(),
    {
        let (to_engine, engine_commands) = std::sync::mpsc::channel();
        let (engine_statuses, from_engine) = std::sync::mpsc::channel();
        EngineLink {
            to_engine,
            from_engine,
            engine_side: Some(EngineEndpoints { commands: engine_commands, statuses: engine_statuses }),
            sent: Ghost(Seq::empty()),
        }
    }

    /// Whether the engine's ends have been handed out.
    pub fn is_handed_out(&self) -> (out: bool)
        ensures
            out == self.handed_out(),
    {
        self.engine_side.is_none()
    }

    /// Hands out the engine's ends. They are there once: `None` comes back from
    /// the second call on.
    pub fn take_engine_endpoints(&mut self) -> (ends: Option<EngineEndpoints>)
        ensures
            ends is Some <==> !old(self).handed_out(),
            final(self).handed_out(),
            final(self).sent() == old(self).sent(),
    {
        self.engine_side.take()
    }

    /// Hands a command to the command channel, behind those handed over before.
    /// Returns whether the channel took it; it does not once the engine's
    /// receiving end is gone. Either way the command is on record as sent.
    pub fn send(&mut self, cmd: EngineCommand) -> (delivered: bool)
        ensures
            final(self).sent() == old(self).sent().push(cmd),
            final(self).handed_out() == old(self).handed_out(),
    {
        let delivered = send_item(&self.to_engine, cmd);
        self.sent = Ghost(self.sent@.push(cmd));
        delivered
    }

    /// The next status message of the engine, if one is waiting. Never waits.
    pub fn poll(&self) -> (status: Option<EngineStatus>) {
        take_waiting(&self.from_engine)
    }
}

} // verus!
