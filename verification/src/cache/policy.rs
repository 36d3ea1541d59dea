//! When a stored answer must be refreshed.

use crate::fingerprint::Fingerprint;
use crate::time::Span;
use vstd::prelude::*;

verus! {

/// Seconds for which a stored answer counts as fresh.
pub const TTL_SECS: u64 = 60;

/// The age beyond which a stored answer is refreshed.
pub open spec fn ttl() -> Span {
    Span::of_secs(TTL_SECS)
}

/// A refresh is needed when the fingerprints differ or the stored answer is
/// older than the time to live.
pub open spec fn stale(stored: Fingerprint, age: Span, requested: Fingerprint) -> bool {
    stored@ != requested@ || age.nanos > ttl().nanos
}

/// Decides whether an answer stored under `stored`, `age` old, must be
/// refreshed for a request with the fingerprint `requested`.
pub fn evaluate(stored: &Fingerprint, age: &Span, requested: &Fingerprint) -> (refresh: bool)
    ensures
        refresh == stale(*stored, *age, *requested),
        refresh == (stored@ != requested@ || age.nanos > 60_000_000_000),
{
    let limit = Span::from_secs(TTL_SECS);
    !stored.same(requested) || age.longer_than(&limit)
}

} // verus!
