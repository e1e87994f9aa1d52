//! Whether a peer's address accepts connections: answered from a cache of
//! earlier probes while they are fresh, otherwise by probing (which the
//! application does, as it needs the network).
use vstd::prelude::*;

verus! {

/// The outcome of the last probe of an address.
#[derive(Clone, Copy, Debug, PartialEq, Eq, Structural)]
pub struct ConnectablePort {
    pub connectable: bool,
    /// Time of the probe, in microseconds since the unix epoch.
    pub updated_at: i64,
}

/// What to do to learn whether a peer is connectable.
#[derive(Clone, Copy, Debug, PartialEq, Eq, Structural)]
pub enum ConnectivityStep {
    /// The answer is known without probing.
    Known(bool),
    /// The address must be probed, and the cache updated with the result.
    Probe,
}

/// The microseconds in `seconds` seconds.
pub open spec fn micros(seconds: int) -> int {
    seconds * 1_000_000
}

/// The cached probe is younger than `interval` seconds at `now`. Times are
/// microseconds in an `i64`: an interval or an expiry beyond that range
/// never is fresh.
pub open spec fn is_fresh(port: ConnectablePort, interval: i64, now: i64) -> bool {
    let until = port.updated_at + micros(interval as int);
    &&& i64::MIN <= micros(interval as int) <= i64::MAX
    &&& i64::MIN <= until <= i64::MAX
    &&& until > now
}

/// The step to take: no probe when the check is disabled (the peer counts as
/// not connectable), the cached answer while it is fresh, a probe otherwise.
pub open spec fn spec_connectivity_step(is_enabled: bool, cached: Option<ConnectablePort>, interval: i64, now: i64) -> ConnectivityStep {
    if !is_enabled {
        ConnectivityStep::Known(false)
    } else {
        match cached {
            Some(p) => if is_fresh(p, interval, now) {
                ConnectivityStep::Known(p.connectable)
            } else {
                ConnectivityStep::Probe
            },
            None => ConnectivityStep::Probe,
        }
    }
}

/// Decides how to learn whether a peer is connectable, from the cached probe
/// of its address. `interval` is how many seconds a probe stays valid; it
/// must be a duration of at most `i64::MAX / 1000` seconds either way.
pub fn connectivity_step(is_enabled: bool, cached: Option<ConnectablePort>, interval: i64, now: i64) -> (r: ConnectivityStep)
    requires
        is_enabled && cached is Some ==> -(i64::MAX / 1000) <= interval <= i64::MAX / 1000,
    ensures
        r == spec_connectivity_step(is_enabled, cached, interval, now),
{
    if !is_enabled {
        return ConnectivityStep::Known(false);
    }
    match cached {
        Some(p) => {
            let fresh = match interval.checked_mul(1_000_000) {
                Some(ttl) => match p.updated_at.checked_add(ttl) {
                    Some(until) => until > now,
                    None => false,
                },
                None => false,
            };
            if fresh {
                ConnectivityStep::Known(p.connectable)
            } else {
                ConnectivityStep::Probe
            }
        },
        None => ConnectivityStep::Probe,
    }
}

/// The cache entry after a probe at `now`.
pub fn probed(connectable: bool, now: i64) -> (r: ConnectablePort)
    ensures
        r == (ConnectablePort { connectable, updated_at: now }),
{
    ConnectablePort { connectable, updated_at: now }
}

} // verus!
