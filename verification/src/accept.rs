//! Accept-loop steps: what the per-port worker that owns a listening socket
//! does on each event.
//!
//! The loop attempts a non-blocking accept, over and over. A new connection
//! registers the port (idempotently) and gets its own cancellation
//! subscription for a connection handler. When no connection is ready, the
//! loop polls its own subscription with a bounded timeout and, on a matching
//! close signal, deregisters the port and stops. A fatal accept error, or a
//! failed connection handler, deregisters the port through
//! [`Registry::deregister`] and stops the loop as well.

use bus::Bus;
use bus::BusReader;
use crate::cancel::bus_add_rx;
use crate::cancel::poll_cancellation;
use crate::registry::Registry;
use crate::registry::insert_once;
use crate::registry::remove_port;
use vstd::prelude::*;

verus! {

/// Accept-loop step for a newly accepted connection on `port`: records the
/// port as serving, exactly once however many connections arrive, and
/// subscribes a fresh cancellation reader for the connection handler that the
/// caller will start over the new stream.
pub fn on_accepted(reg: &mut Registry, bus: &mut Bus<u16>, port: u16) -> (rx: BusReader<u16>)
    ensures
        final(reg)@ == insert_once(old(reg)@, port),
        final(reg)@.contains(port),
        old(reg).wf() ==> final(reg).wf(),
{
    reg.observe_connection(port);
    bus_add_rx(bus)
}

/// Accept-loop step when no connection is ready: one bounded poll of the
/// loop's own cancellation subscription. On the close signal for `port` the
/// port is deregistered and the loop must stop; on anything else the registry
/// is untouched and the loop keeps accepting.
pub fn on_accept_would_block(reg: &mut Registry, rx: &mut BusReader<u16>, port: u16) -> (stopped:
    bool)
    ensures
        stopped ==> final(reg)@ == remove_port(old(reg)@, port),
        stopped ==> !final(reg)@.contains(port),
        !stopped ==> final(reg)@ == old(reg)@,
        old(reg).wf() ==> final(reg).wf(),
{
    if poll_cancellation(rx, port) {
        reg.deregister(port);
        true
    } else {
        false
    }
}

} // verus!
