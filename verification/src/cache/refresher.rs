//! The writing side of the cache, as a step function.
//!
//! A [`Refresher`] runs detached from the load that started it. It fetches
//! and writes only while it holds the lock of the key's storage location, and
//! it gives up without a word when somebody else holds that lock. Whatever
//! happens, the lock is given back at the end.

use crate::cache::entry::CacheEntry;
use crate::fingerprint::Fingerprint;
use crate::time::Timestamp;
use vstd::prelude::*;

verus! {

/// What a non-blocking attempt to take the lock gave.
#[derive(Clone, Copy, Debug, PartialEq, Eq)]
pub enum LockOutcome {
    /// The lock is now held by this refresher.
    Acquired,
    /// Somebody else holds the lock.
    Contended,
    /// The attempt itself failed.
    Failed,
}

/// How a refresh ended.
#[derive(Clone, Copy, Debug, PartialEq, Eq)]
pub enum RefreshOutcome {
    /// A new entry was written.
    Refreshed,
    /// Somebody else holds the lock: nothing was fetched or written.
    Skipped,
    /// The attempt to take the lock failed.
    LockFailed,
    /// The fetch failed: nothing was written.
    FetchFailed,
    /// The new entry could not be written.
    WriteFailed,
    /// An event was reported that answers no request of the refresher.
    OutOfOrder,
}

/// What the caller reports back to a [`Refresher`].
#[derive(Debug, PartialEq)]
pub enum RefreshEvent {
    /// Answer to [`RefreshAction::TryLock`].
    Lock(LockOutcome),
    /// Answer to [`RefreshAction::Fetch`]: the payload, or `None` when the
    /// fetch failed.
    Fetched(Option<serde_json::Value>),
    /// Answer to [`RefreshAction::ReadClock`]: the wall clock.
    Now(Timestamp),
    /// Answer to [`RefreshAction::Write`]: whether the entry was written.
    Written(bool),
}

/// What a [`Refresher`] asks its caller to do next.
#[derive(Debug, PartialEq)]
pub enum RefreshAction {
    /// Try to take the lock of the storage location, without blocking.
    TryLock,
    /// Call the fetch operation.
    Fetch,
    /// Read the wall clock.
    ReadClock,
    /// Replace the stored entry by this one.
    Write(CacheEntry),
    /// The refresh is over. Where `release` is set the lock is held and must
    /// be given back now.
    Finish { outcome: RefreshOutcome, release: bool },
}

/// Where a refresh stands.
#[derive(Debug, PartialEq)]
pub enum RefreshState {
    /// The lock was asked for.
    Locking,
    /// The lock is held and the fetch was asked for.
    Fetching,
    /// The lock is held, the fetch gave `data`, the time is wanted.
    Stamping { data: serde_json::Value },
    /// The lock is held and the write was asked for.
    Writing,
    /// The refresh is over and the lock is not held.
    Done,
}

/// One refresh of one key, for a request with the fingerprint `fingerprint`.
#[derive(Debug, PartialEq)]
pub struct Refresher {
    pub fingerprint: Fingerprint,
    pub state: RefreshState,
}

impl RefreshOutcome {
    /// The outcome is recorded as a failure. Giving way to another holder of
    /// the lock is none.
    pub open spec fn is_failure(self) -> bool {
        !(self is Refreshed || self is Skipped)
    }

    /// Whether the outcome is to be recorded as a failure.
    pub fn failed(&self) -> (b: bool)
        ensures
            b == self.is_failure(),
    {
        match self {
            RefreshOutcome::Refreshed => false,
            RefreshOutcome::Skipped => false,
            _ => true,
        }
    }
}

impl RefreshState {
    /// The refresher holds the lock in this state.
    pub open spec fn holds_lock(self) -> bool {
        self is Fetching || self is Stamping || self is Writing
    }
}

impl Refresher {
    /// The refresher in the state `state`, for the same request.
    pub open spec fn at(self, state: RefreshState) -> Refresher {
        Refresher { fingerprint: self.fingerprint, state }
    }

    /// The refresher as it begins: it has asked for the lock.
    pub open spec fn initial(fingerprint: Fingerprint) -> Refresher {
        Refresher { fingerprint, state: RefreshState::Locking }
    }

    /// The refresh ends with `outcome`, and gives back the lock if it holds it.
    pub open spec fn finish(self, outcome: RefreshOutcome) -> (Refresher, RefreshAction) {
        (
            self.at(RefreshState::Done),
            RefreshAction::Finish { outcome, release: self.state.holds_lock() },
        )
    }

    /// The transition function: the state after `event` and the action that
    /// the caller is asked to perform next.
    pub open spec fn next(self, event: RefreshEvent) -> (Refresher, RefreshAction) {
        match (self.state, event) {
            (RefreshState::Locking, RefreshEvent::Lock(LockOutcome::Acquired)) => (
                self.at(RefreshState::Fetching),
                RefreshAction::Fetch,
            ),
            (RefreshState::Locking, RefreshEvent::Lock(LockOutcome::Contended)) => self.finish(
                RefreshOutcome::Skipped,
            ),
            (RefreshState::Locking, RefreshEvent::Lock(LockOutcome::Failed)) => self.finish(
                RefreshOutcome::LockFailed,
            ),
            (RefreshState::Fetching, RefreshEvent::Fetched(Some(data))) => (
                self.at(RefreshState::Stamping { data }),
                RefreshAction::ReadClock,
            ),
            (RefreshState::Fetching, RefreshEvent::Fetched(None)) => self.finish(
                RefreshOutcome::FetchFailed,
            ),
            (RefreshState::Stamping { data }, RefreshEvent::Now(now)) => (
                self.at(RefreshState::Writing),
                RefreshAction::Write(
                    CacheEntry { fingerprint: self.fingerprint, last_refresh: now, data },
                ),
            ),
            (RefreshState::Writing, RefreshEvent::Written(written)) => {
                if written {
                    self.finish(RefreshOutcome::Refreshed)
                } else {
                    self.finish(RefreshOutcome::WriteFailed)
                }
            },
            _ => self.finish(RefreshOutcome::OutOfOrder),
        }
    }

    /// Begins a refresh for a request with the fingerprint `fingerprint`. The
    /// first thing to do is always to try the lock.
    pub fn start(fingerprint: Fingerprint) -> (r: (Refresher, RefreshAction))
        ensures
            r.0 == Refresher::initial(fingerprint),
            r.1 is TryLock,
    {
        (Refresher { fingerprint, state: RefreshState::Locking }, RefreshAction::TryLock)
    }

    /// Whether the refresh is over.
    pub fn is_done(&self) -> (b: bool)
        ensures
            b == (self.state is Done),
    {
        match self.state {
            RefreshState::Done => true,
            _ => false,
        }
    }

    /// Whether the refresher holds the lock.
    pub fn holds_lock(&self) -> (b: bool)
        ensures
            b == self.state.holds_lock(),
    {
        match self.state {
            RefreshState::Fetching => true,
            RefreshState::Stamping { .. } => true,
            RefreshState::Writing => true,
            _ => false,
        }
    }

    /// Takes the report of what the last action gave and decides what comes
    /// next.
    pub fn step(self, event: RefreshEvent) -> (r: (Refresher, RefreshAction))
        ensures
            r == self.next(event),
            r.0.fingerprint == self.fingerprint,
            r.1 is Finish <==> r.0.state is Done,
            r.1 matches RefreshAction::Finish { release, .. } ==> release
                == self.state.holds_lock(),
            !(r.1 is Finish) ==> r.0.state.holds_lock(),
            r.1 is Fetch ==> self.state is Locking && event == RefreshEvent::Lock(
                LockOutcome::Acquired,
            ),
            r.1 is Write ==> self.state.holds_lock(),
    {
        let fingerprint = self.fingerprint;
        let held = self.holds_lock();
        match (self.state, event) {
            (RefreshState::Locking, RefreshEvent::Lock(LockOutcome::Acquired)) => (
                Refresher { fingerprint, state: RefreshState::Fetching },
                RefreshAction::Fetch,
            ),
            (RefreshState::Locking, RefreshEvent::Lock(LockOutcome::Contended)) => Self::finished(
                fingerprint,
                RefreshOutcome::Skipped,
                held,
            ),
            (RefreshState::Locking, RefreshEvent::Lock(LockOutcome::Failed)) => Self::finished(
                fingerprint,
                RefreshOutcome::LockFailed,
                held,
            ),
            (RefreshState::Fetching, RefreshEvent::Fetched(Some(data))) => (
                Refresher { fingerprint, state: RefreshState::Stamping { data } },
                RefreshAction::ReadClock,
            ),
            (RefreshState::Fetching, RefreshEvent::Fetched(None)) => Self::finished(
                fingerprint,
                RefreshOutcome::FetchFailed,
                held,
            ),
            (RefreshState::Stamping { data }, RefreshEvent::Now(now)) => (
                Refresher { fingerprint, state: RefreshState::Writing },
                RefreshAction::Write(CacheEntry::new(fingerprint, now, data)),
            ),
            (RefreshState::Writing, RefreshEvent::Written(written)) => {
                if written {
                    Self::finished(fingerprint, RefreshOutcome::Refreshed, held)
                } else {
                    Self::finished(fingerprint, RefreshOutcome::WriteFailed, held)
                }
            },
            _ => Self::finished(fingerprint, RefreshOutcome::OutOfOrder, held),
        }
    }

    fn finished(fingerprint: Fingerprint, outcome: RefreshOutcome, release: bool) -> (r: (
        Refresher,
        RefreshAction,
    ))
        ensures
            r == (
                Refresher { fingerprint, state: RefreshState::Done },
                RefreshAction::Finish { outcome, release },
            ),
    {
        (
            Refresher { fingerprint, state: RefreshState::Done },
            RefreshAction::Finish { outcome, release },
        )
    }
}

} // verus!
