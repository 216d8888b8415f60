//! Daemon bookkeeping: health statistics, span links between consecutive
//! traces, and the choice of probing engine.

pub mod health;
pub mod link_cache;

pub use health::HealthState;
use crate::cli::ResolveError;
use crate::net::IpAddr;
use vstd::prelude::*;

verus! {

/// The probing engine a daemon trace runs with.
#[derive(Debug, Clone, Copy, PartialEq, Eq, Structural)]
pub enum TraceProtocol {
    Tcp,
    Udp,
}

/// The engine for the configured protocol: TCP for "tcp", UDP otherwise.
pub fn trace_protocol(protocol: &str) -> (r: TraceProtocol)
    ensures
        (r is Tcp) == (protocol@ == "tcp"@),
{
    proof {
        reveal_strlit("tcp");
    }
    if String::from_str(protocol) == String::from_str("tcp") {
        TraceProtocol::Tcp
    } else {
        TraceProtocol::Udp
    }
}

/// The address a daemon trace of a destination probes: the first address
/// its lookup gave. None when the lookup failed or gave no address; the
/// destination then counts as unresolved.
pub fn trace_target(resolved: &Result<Vec<IpAddr>, ResolveError>) -> (r: Option<IpAddr>)
    ensures
        r == match resolved {
            Ok(ips) => if ips@.len() > 0 {
                Some(ips@[0])
            } else {
                None::<IpAddr>
            },
            Err(_) => None::<IpAddr>,
        },
{
    match resolved {
        Ok(ips) => {
            if ips.len() > 0 {
                Some(ips[0])
            } else {
                None
            }
        },
        Err(_) => None,
    }
}

/// What wakes the daemon's main loop.
#[derive(Debug, Clone, Copy, PartialEq, Eq, Structural)]
pub enum DaemonEvent {
    /// The shutdown signal completed.
    Shutdown,
    /// The interval ticked; `batch_running` tells whether the previous
    /// batch of traces is still in flight.
    Tick { batch_running: bool },
}

/// What the daemon's main loop does next.
#[derive(Debug, Clone, Copy, PartialEq, Eq, Structural)]
pub enum DaemonAction {
    /// Stop the health server, wait for the batch in flight, and return.
    Drain,
    /// Let this tick pass: the previous batch is still running.
    SkipTick,
    /// Start a new batch of traces over all destinations.
    StartBatch,
}

/// The daemon's decision on an event: a shutdown drains; a tick starts a
/// batch unless the previous one is still running, so that batches never
/// overlap.
pub fn daemon_step(event: DaemonEvent) -> (r: DaemonAction)
    ensures
        (r is Drain) == (event is Shutdown),
        (r is SkipTick) == (event matches DaemonEvent::Tick { batch_running } && batch_running),
        (r is StartBatch) == (event matches DaemonEvent::Tick { batch_running } && !batch_running),
{
    match event {
        DaemonEvent::Shutdown => DaemonAction::Drain,
        DaemonEvent::Tick { batch_running } => {
            if batch_running {
                DaemonAction::SkipTick
            } else {
                DaemonAction::StartBatch
            }
        },
    }
}

} // verus!
