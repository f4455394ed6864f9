//! The cancellation bus: the broadcast facility that carries "stop work for
//! this port" signals.
//!
//! Closing a port broadcasts that port number to every subscriber registered
//! at broadcast time; each subscriber owns an independent receive queue. A
//! subscription created after a broadcast never observes it, so a close issued
//! while no worker for the port is alive has no effect. Workers poll their own
//! subscription with a short timeout, which bounds how long a close request
//! can go unnoticed.

use bus::Bus;
use bus::BusReader;
use vstd::prelude::*;

verus! {

#[verifier::external_type_specification]
#[verifier::external_body]
#[verifier::reject_recursive_types(T)]
pub struct ExBus<T>(Bus<T>);

#[verifier::external_type_specification]
#[verifier::external_body]
#[verifier::reject_recursive_types(T)]
pub struct ExBusReader<T>(BusReader<T>);

/// How long, in milliseconds, a worker waits on its cancellation subscription
/// before going back to its socket: the bound on how stale a poll can be.
pub const POLL_INTERVAL_MS: u64 = 10;

/// Relies on bus::Bus::add_rx: registers and returns a new consumer of the
/// bus, which will observe all future broadcasts and no earlier one.
#[verifier::external_body]
pub(crate) fn bus_add_rx(bus: &mut Bus<u16>) -> (r: BusReader<u16>) {
    bus.add_rx()
}

/// Relies on bus::Bus::broadcast: delivers `port` once to every consumer
/// registered at this moment. Blocks while the bus's buffer is full.
#[verifier::external_body]
pub(crate) fn bus_broadcast(bus: &mut Bus<u16>, port: u16) {
    bus.broadcast(port)
}

/// Relies on bus::BusReader::recv_timeout: waits up to `millis` milliseconds
/// for a broadcast on this subscription. Which value, if any, comes back
/// depends on what other workers broadcast meanwhile, so nothing is promised
/// of the result.
#[verifier::external_body]
pub(crate) fn bus_recv_timeout(rx: &mut BusReader<u16>, millis: u64) -> (r: Option<u16>) {
    match rx.recv_timeout(std::time::Duration::from_millis(millis)) {
        Ok(v) => Some(v),
        Err(_) => None,
    }
}

/// Whether an observed broadcast, if any, is the close signal for `port`.
pub open spec fn close_matches(port: u16, observed: Option<u16>) -> bool {
    observed == Some(port)
}

/// Decides whether what a poll observed tells this worker to stop: only a
/// broadcast carrying exactly this worker's port does.
pub fn is_close_for(port: u16, observed: Option<u16>) -> (r: bool)
    ensures
        r == close_matches(port, observed),
{
    match observed {
        Some(q) => q == port,
        None => false,
    }
}

/// One bounded poll of a worker's own cancellation subscription: waits up to
/// `POLL_INTERVAL_MS` for a broadcast and reports whether it was the close
/// signal for `port`. A broadcast for another port is discarded and does not
/// stop the worker.
pub fn poll_cancellation(rx: &mut BusReader<u16>, port: u16) -> (stop: bool) {
    let observed = bus_recv_timeout(rx, POLL_INTERVAL_MS);
    is_close_for(port, observed)
}

} // verus!
