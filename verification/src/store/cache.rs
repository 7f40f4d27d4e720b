//! The sizes of the in-memory caches kept in front of the database, and how many
//! recent events the database keeps.
use vstd::prelude::*;

verus! {

/// Cache sizes and lifetimes. The lifetime of a cached entry is given in seconds.
#[derive(Debug, Clone, Copy, PartialEq, Eq)]
pub struct CacheConfig {
    pub max_users: u64,
    pub max_friends: u64,
    pub max_worlds: u64,
    pub max_notifications: u64,
    pub max_recent_events: usize,
    pub time_to_live_secs: u64,
}

impl Default for CacheConfig {
    fn default() -> (r: Self)
        ensures
            r.max_users == 2000,
            r.max_friends == 2000,
            r.max_worlds == 1000,
            r.max_notifications == 500,
            r.max_recent_events == 200,
            r.time_to_live_secs == 1800,
    {
        CacheConfig {
            max_users: 2000,
            max_friends: 2000,
            max_worlds: 1000,
            max_notifications: 500,
            max_recent_events: 200,
            time_to_live_secs: 30 * 60,
        }
    }
}

} // verus!
