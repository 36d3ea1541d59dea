//! The record kept for one cache key.

use crate::fingerprint::Fingerprint;
use crate::time::Timestamp;
use vstd::prelude::*;

verus! {

/// `serde_json::Value`, the payload that a fetch returns. The cache never
/// looks inside it: a payload is only stored and handed back.
#[verifier::external_type_specification]
#[verifier::external_body]
pub struct ExValue(serde_json::Value);

/// The record stored for one cache key.
#[derive(Debug, PartialEq)]
pub struct CacheEntry {
    /// Fingerprint of the request that produced `data`.
    pub fingerprint: Fingerprint,
    /// When `data` was last written.
    pub last_refresh: Timestamp,
    /// What the fetch returned.
    pub data: serde_json::Value,
}

impl CacheEntry {
    /// The entry that a refresh for `fingerprint` stores when its fetch
    /// returned `data` at the time `now`.
    pub fn new(fingerprint: Fingerprint, now: Timestamp, data: serde_json::Value) -> (e: CacheEntry)
        ensures
            e == (CacheEntry { fingerprint, last_refresh: now, data }),
    {
        CacheEntry { fingerprint, last_refresh: now, data }
    }
}

} // verus!
