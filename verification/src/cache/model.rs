//! A model of the storage location of one key, to state what the two
//! protocols achieve together. Nothing here runs: the real location is a
//! directory with a file and an advisory lock.

use crate::cache::entry::CacheEntry;
use crate::cache::loader::ReadOutcome;
use crate::cache::refresher::LockOutcome;
use vstd::prelude::*;

verus! {

/// The storage location of one key: the entry it holds, if any, and whether
/// its lock is taken.
pub struct Location {
    pub entry: Option<CacheEntry>,
    pub locked: bool,
}

impl Location {
    /// A location that was never written and that nobody has locked.
    pub open spec fn absent() -> Location {
        Location { entry: None, locked: false }
    }

    /// What a read of the location gives.
    pub open spec fn read(self) -> ReadOutcome {
        match self.entry {
            Some(entry) => ReadOutcome::Found(entry),
            None => ReadOutcome::Missing,
        }
    }

    /// A non-blocking attempt to take the lock: it succeeds exactly when the
    /// lock is free, and then the lock is taken.
    pub open spec fn try_lock(self) -> (Location, LockOutcome) {
        if self.locked {
            (self, LockOutcome::Contended)
        } else {
            (Location { entry: self.entry, locked: true }, LockOutcome::Acquired)
        }
    }

    /// The location after its holder gave the lock back.
    pub open spec fn unlock(self) -> Location {
        Location { entry: self.entry, locked: false }
    }

    /// The location after `entry` was written over whatever it held.
    pub open spec fn write(self, entry: CacheEntry) -> Location {
        Location { entry: Some(entry), locked: self.locked }
    }
}

} // verus!
