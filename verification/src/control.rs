//! The command dispatcher: the single serialized consumer of the control
//! plane's command queue.
//!
//! A bind request that created its listening socket enqueues `Listen`; a close
//! request enqueues `Close`. For `Listen` the dispatcher subscribes a fresh
//! cancellation reader and hands back what an accept loop needs to start; for
//! `Close` it broadcasts the port on the cancellation bus, fire and forget,
//! without waiting for any loop to stop.

use bus::Bus;
use bus::BusReader;
use crate::cancel::bus_add_rx;
use crate::cancel::bus_broadcast;
use vstd::prelude::*;

verus! {

/// What a command asks the dispatcher to do. A `Listen` command's listening
/// socket is owned by the surrounding process and travels beside the command.
pub enum Action {
    /// Start accepting connections on the command's port.
    Listen,
    /// Broadcast the close signal for the command's port.
    Close,
}

/// A control-plane request, produced by the bind and close entry points and
/// consumed exactly once by the dispatcher, in send order.
pub struct Command {
    pub port: u16,
    pub action: Action,
}

impl Command {
    /// The command that a successful bind of `port` enqueues.
    pub fn listen(port: u16) -> (c: Command)
        ensures
            c.port == port,
            c.action is Listen,
    {
        Command { port, action: Action::Listen }
    }

    /// The command that a close request for `port` enqueues, whether or not
    /// any accept loop for `port` is alive.
    pub fn close(port: u16) -> (c: Command)
        ensures
            c.port == port,
            c.action is Close,
    {
        Command { port, action: Action::Close }
    }
}

/// What one dispatcher step decided.
pub enum DispatchOutcome {
    /// Start an accept loop for this port, polling this fresh subscription
    /// for its close signal.
    StartAcceptLoop(u16, BusReader<u16>),
    /// The close signal for this port was broadcast; nothing is started, and
    /// no loop is awaited.
    Broadcasted(u16),
}

/// One step of the command dispatcher: reacts to a single dequeued command.
///
/// `Listen` yields a fresh cancellation subscription and instructs the caller
/// to start an accept loop for the command's port; `Close` broadcasts the
/// port on the cancellation bus and instructs the caller to do nothing more.
pub fn dispatch(cmd: Command, bus: &mut Bus<u16>) -> (r: DispatchOutcome)
    ensures
        cmd.action is Listen ==> (r matches DispatchOutcome::StartAcceptLoop(p, _) && p
            == cmd.port),
        cmd.action is Close ==> (r matches DispatchOutcome::Broadcasted(p) && p == cmd.port),
{
    match cmd.action {
        Action::Listen => {
            let rx = bus_add_rx(bus);
            DispatchOutcome::StartAcceptLoop(cmd.port, rx)
        },
        Action::Close => {
            bus_broadcast(bus, cmd.port);
            DispatchOutcome::Broadcasted(cmd.port)
        },
    }
}

} // verus!
