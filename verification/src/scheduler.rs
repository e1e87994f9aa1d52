//! Records queued for the database, and the expiry of stale peers.
pub mod announce_update;
pub mod history_update;
pub mod peer_deactivation;
pub mod peer_deletion;
pub mod peer_update;
pub mod torrent_update;
pub mod unregistered_info_hash_update;
pub mod user_update;

use vstd::prelude::*;

use crate::config::Config;

verus! {

/// Which periodic tasks are due at a tick of the scheduler's millisecond
/// clock: flushing the queued records every flush interval, and expiring
/// stale peers every expiry interval (in seconds).
pub open spec fn spec_due_tasks(counter: u64, config: Config) -> (bool, bool) {
    (
        counter % config.flush_interval_milliseconds == 0,
        counter % (config.peer_expiry_interval * 1000) as u64 == 0,
    )
}

/// The periodic tasks due at the `counter`-th millisecond: whether to flush
/// the queues, and whether to expire stale peers.
pub fn due_tasks(counter: u64, config: &Config) -> (r: (bool, bool))
    requires
        config.flush_interval_milliseconds > 0,
        0 < config.peer_expiry_interval * 1000 <= u64::MAX,
    ensures
        r == spec_due_tasks(counter, *config),
{
    (counter % config.flush_interval_milliseconds == 0, counter % (config.peer_expiry_interval * 1000) == 0)
}

} // verus!
