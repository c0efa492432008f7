//! The session cache, as far as it decides: under which key a session is
//! kept and for how long.

use vstd::prelude::*;

verus! {

/// Time to live of a cached session, in seconds, where none is configured:
/// one hour.
pub const DEFAULT_SESSION_TTL_SECONDS: usize = 3600;

/// The key under which a session is kept in the cache.
pub open spec fn session_key(session_id: Seq<char>) -> Seq<char> {
    "session:"@ + session_id
}

/// Settings of the session cache.
pub struct SessionCache {
    ttl_seconds: usize,
}

impl SessionCache {
    /// A cache whose sessions live for `ttl_seconds`, or for an hour where
    /// none is given.
    pub fn new(ttl_seconds: Option<usize>) -> (cache: SessionCache)
        ensures
            cache.ttl() == (match ttl_seconds {
                Some(ttl) => ttl,
                None => DEFAULT_SESSION_TTL_SECONDS,
            }),
    {
        SessionCache {
            ttl_seconds: match ttl_seconds {
                Some(ttl) => ttl,
                None => DEFAULT_SESSION_TTL_SECONDS,
            },
        }
    }

    /// The time to live of a session, in seconds.
    pub closed spec fn ttl(&self) -> usize {
        self.ttl_seconds
    }

    /// The time to live of a session, in seconds.
    pub fn ttl_seconds(&self) -> (ttl: usize)
        ensures
            ttl == self.ttl(),
    {
        self.ttl_seconds
    }

    /// The key under which the session `session_id` is kept.
    pub fn key_for(session_id: &str) -> (key: String)
        ensures
            key@ == session_key(session_id@),
    {
        "session:".to_owned().concat(session_id)
    }
}

} // verus!
