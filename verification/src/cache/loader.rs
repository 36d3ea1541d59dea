//! The reading side of the cache, as a step function.
//!
//! A [`Loader`] never touches storage itself. It names the next thing to do
//! as a [`LoadAction`]; the caller performs it and reports what happened as a
//! [`LoadEvent`]. A warm cache answers at once, also when the answer is stale:
//! the refresh is started and not waited for. Only a cold start waits, and
//! only for [`COLD_START_TIMEOUT_SECS`].

use crate::cache::entry::CacheEntry;
use crate::cache::policy::{evaluate, stale};
use crate::fingerprint::Fingerprint;
use crate::time::{Span, Timestamp};
use vstd::prelude::*;

verus! {

/// Seconds that a cold start waits for the first entry to appear.
pub const COLD_START_TIMEOUT_SECS: u64 = 5;

/// The longest that a cold start waits.
pub open spec fn cold_start_timeout() -> Span {
    Span::of_secs(COLD_START_TIMEOUT_SECS)
}

/// Why a load gave no payload.
#[derive(Clone, Copy, Debug, PartialEq, Eq)]
pub enum LoadError {
    /// Cold start: no entry appeared within the wait bound.
    Timeout,
    /// The entry or its storage location could not be read, decoded or
    /// created.
    Storage,
    /// The stored entry claims to have been written after the current time.
    Clock,
    /// The detached refresh could not be started.
    Spawn,
    /// An event was reported that answers no request of the loader.
    OutOfOrder,
}

/// What reading the entry of a key gave.
#[derive(Debug, PartialEq)]
pub enum ReadOutcome {
    /// An entry exists and was decoded.
    Found(CacheEntry),
    /// No entry exists for the key.
    Missing,
    /// Something exists but could not be read or decoded.
    Unreadable,
}

/// What the caller reports back to a [`Loader`].
#[derive(Debug, PartialEq)]
pub enum LoadEvent {
    /// Answer to [`LoadAction::ReadEntry`].
    Read(ReadOutcome),
    /// Answer to [`LoadAction::ReadClock`]: the wall clock.
    Now(Timestamp),
    /// Answer to [`LoadAction::CreateLocation`]: whether it exists now.
    LocationCreated(bool),
    /// Answer to [`LoadAction::SpawnRefresh`]: whether a refresh was started.
    Spawned(bool),
    /// Answer to [`LoadAction::ReadMonotonic`]: a clock that never runs
    /// backwards.
    Monotonic(Timestamp),
}

/// What a [`Loader`] asks its caller to do next.
#[derive(Debug, PartialEq)]
pub enum LoadAction {
    /// Read and decode the entry of the key.
    ReadEntry,
    /// Read the wall clock.
    ReadClock,
    /// Create the storage location of the key.
    CreateLocation,
    /// Start a detached refresh for the key, with this fingerprint, and do
    /// not wait for it.
    SpawnRefresh(Fingerprint),
    /// Read the monotonic clock.
    ReadMonotonic,
    /// The load is over: hand this payload to the caller.
    Return(serde_json::Value),
    /// The load is over: it failed.
    Fail(LoadError),
}

/// Where a load stands.
#[derive(Debug, PartialEq)]
pub enum LoadState {
    /// The first read was asked for.
    Reading,
    /// An entry with the requested fingerprint was found; its age is wanted.
    Dating { entry: CacheEntry },
    /// A stale entry was found; its payload is served once the refresh runs.
    Refreshing { data: serde_json::Value },
    /// Cold start: the storage location is being created.
    Creating,
    /// Cold start: the first refresh is being started.
    Populating,
    /// Cold start: the wait begins with the next monotonic reading.
    Arming,
    /// Cold start: waiting since `started`, a monotonic reading is due.
    Waiting { started: Timestamp },
    /// Cold start: waiting since `started`, a read is due.
    Polling { started: Timestamp },
    /// The load is over.
    Done,
}

/// One load of one key, for a request with the fingerprint `requested`.
#[derive(Debug, PartialEq)]
pub struct Loader {
    pub requested: Fingerprint,
    pub state: LoadState,
}

impl LoadAction {
    /// The action ends the load.
    pub open spec fn is_final(self) -> bool {
        self is Return || self is Fail
    }
}

impl Loader {
    /// The loader in the state `state`, for the same request.
    pub open spec fn at(self, state: LoadState) -> Loader {
        Loader { requested: self.requested, state }
    }

    /// The loader as it begins: it has asked for the first read.
    pub open spec fn initial(requested: Fingerprint) -> Loader {
        Loader { requested, state: LoadState::Reading }
    }

    /// The time waited at the monotonic reading `now` by a cold start that
    /// began at `started`; a clock reading before `started` counts as no wait.
    pub open spec fn waited(started: Timestamp, now: Timestamp) -> Span {
        match now.elapsed_since(started) {
            Some(s) => s,
            None => Span { nanos: 0 },
        }
    }

    /// The transition function: the state after `event` and the action that
    /// the caller is asked to perform next.
    pub open spec fn next(self, event: LoadEvent) -> (Loader, LoadAction) {
        match (self.state, event) {
            (LoadState::Reading, LoadEvent::Read(ReadOutcome::Found(entry))) => {
                if entry.fingerprint@ != self.requested@ {
                    (
                        self.at(LoadState::Refreshing { data: entry.data }),
                        LoadAction::SpawnRefresh(self.requested),
                    )
                } else {
                    (self.at(LoadState::Dating { entry }), LoadAction::ReadClock)
                }
            },
            (LoadState::Reading, LoadEvent::Read(ReadOutcome::Missing)) => (
                self.at(LoadState::Creating),
                LoadAction::CreateLocation,
            ),
            (LoadState::Reading, LoadEvent::Read(ReadOutcome::Unreadable)) => self.fail(
                LoadError::Storage,
            ),
            (LoadState::Dating { entry }, LoadEvent::Now(now)) => {
                match now.elapsed_since(entry.last_refresh) {
                    None => self.fail(LoadError::Clock),
                    Some(age) => {
                        if stale(entry.fingerprint, age, self.requested) {
                            (
                                self.at(LoadState::Refreshing { data: entry.data }),
                                LoadAction::SpawnRefresh(self.requested),
                            )
                        } else {
                            (self.at(LoadState::Done), LoadAction::Return(entry.data))
                        }
                    },
                }
            },
            (LoadState::Refreshing { data }, LoadEvent::Spawned(started)) => {
                if started {
                    (self.at(LoadState::Done), LoadAction::Return(data))
                } else {
                    self.fail(LoadError::Spawn)
                }
            },
            (LoadState::Creating, LoadEvent::LocationCreated(created)) => {
                if created {
                    (self.at(LoadState::Populating), LoadAction::SpawnRefresh(self.requested))
                } else {
                    self.fail(LoadError::Storage)
                }
            },
            (LoadState::Populating, LoadEvent::Spawned(started)) => {
                if started {
                    (self.at(LoadState::Arming), LoadAction::ReadMonotonic)
                } else {
                    self.fail(LoadError::Spawn)
                }
            },
            (LoadState::Arming, LoadEvent::Monotonic(now)) => (
                self.at(LoadState::Waiting { started: now }),
                LoadAction::ReadMonotonic,
            ),
            (LoadState::Waiting { started }, LoadEvent::Monotonic(now)) => {
                if Self::waited(started, now).nanos < cold_start_timeout().nanos {
                    (self.at(LoadState::Polling { started }), LoadAction::ReadEntry)
                } else {
                    self.fail(LoadError::Timeout)
                }
            },
            (LoadState::Polling { started }, LoadEvent::Read(ReadOutcome::Found(entry))) => (
                self.at(LoadState::Done),
                LoadAction::Return(entry.data),
            ),
            (LoadState::Polling { started }, LoadEvent::Read(ReadOutcome::Missing)) => (
                self.at(LoadState::Waiting { started }),
                LoadAction::ReadMonotonic,
            ),
            (LoadState::Polling { started }, LoadEvent::Read(ReadOutcome::Unreadable)) => self.fail(
                LoadError::Storage,
            ),
            _ => self.fail(LoadError::OutOfOrder),
        }
    }

    /// The load ends with the error `error`.
    pub open spec fn fail(self, error: LoadError) -> (Loader, LoadAction) {
        (self.at(LoadState::Done), LoadAction::Fail(error))
    }

    /// Begins a load for a request with the fingerprint `requested`. The
    /// first thing to do is always to read the entry.
    pub fn start(requested: Fingerprint) -> (r: (Loader, LoadAction))
        ensures
            r.0 == Loader::initial(requested),
            r.1 is ReadEntry,
    {
        (Loader { requested, state: LoadState::Reading }, LoadAction::ReadEntry)
    }

    /// Whether the load is over.
    pub fn is_done(&self) -> (b: bool)
        ensures
            b == (self.state is Done),
    {
        match self.state {
            LoadState::Done => true,
            _ => false,
        }
    }

    /// Takes the report of what the last action gave and decides what comes
    /// next.
    pub fn step(self, event: LoadEvent) -> (r: (Loader, LoadAction))
        ensures
            r == self.next(event),
            r.0.requested == self.requested,
            r.1.is_final() <==> r.0.state is Done,
    {
        let requested = self.requested;
        match (self.state, event) {
            (LoadState::Reading, LoadEvent::Read(ReadOutcome::Found(entry))) => {
                if !entry.fingerprint.same(&requested) {
                    (
                        Loader { requested, state: LoadState::Refreshing { data: entry.data } },
                        LoadAction::SpawnRefresh(requested),
                    )
                } else {
                    (
                        Loader { requested, state: LoadState::Dating { entry } },
                        LoadAction::ReadClock,
                    )
                }
            },
            (LoadState::Reading, LoadEvent::Read(ReadOutcome::Missing)) => (
                Loader { requested, state: LoadState::Creating },
                LoadAction::CreateLocation,
            ),
            (LoadState::Reading, LoadEvent::Read(ReadOutcome::Unreadable)) => Self::failed(
                requested,
                LoadError::Storage,
            ),
            (LoadState::Dating { entry }, LoadEvent::Now(now)) => {
                match now.since(&entry.last_refresh) {
                    None => Self::failed(requested, LoadError::Clock),
                    Some(age) => {
                        if evaluate(&entry.fingerprint, &age, &requested) {
                            (
                                Loader {
                                    requested,
                                    state: LoadState::Refreshing { data: entry.data },
                                },
                                LoadAction::SpawnRefresh(requested),
                            )
                        } else {
                            (
                                Loader { requested, state: LoadState::Done },
                                LoadAction::Return(entry.data),
                            )
                        }
                    },
                }
            },
            (LoadState::Refreshing { data }, LoadEvent::Spawned(started)) => {
                if started {
                    (Loader { requested, state: LoadState::Done }, LoadAction::Return(data))
                } else {
                    Self::failed(requested, LoadError::Spawn)
                }
            },
            (LoadState::Creating, LoadEvent::LocationCreated(created)) => {
                if created {
                    (
                        Loader { requested, state: LoadState::Populating },
                        LoadAction::SpawnRefresh(requested),
                    )
                } else {
                    Self::failed(requested, LoadError::Storage)
                }
            },
            (LoadState::Populating, LoadEvent::Spawned(started)) => {
                if started {
                    (Loader { requested, state: LoadState::Arming }, LoadAction::ReadMonotonic)
                } else {
                    Self::failed(requested, LoadError::Spawn)
                }
            },
            (LoadState::Arming, LoadEvent::Monotonic(now)) => (
                Loader { requested, state: LoadState::Waiting { started: now } },
                LoadAction::ReadMonotonic,
            ),
            (LoadState::Waiting { started }, LoadEvent::Monotonic(now)) => {
                let waited = match now.since(&started) {
                    Some(s) => s,
                    None => Span { nanos: 0 },
                };
                if waited.shorter_than(&Span::from_secs(COLD_START_TIMEOUT_SECS)) {
                    (
                        Loader { requested, state: LoadState::Polling { started } },
                        LoadAction::ReadEntry,
                    )
                } else {
                    Self::failed(requested, LoadError::Timeout)
                }
            },
            (LoadState::Polling { started }, LoadEvent::Read(ReadOutcome::Found(entry))) => (
                Loader { requested, state: LoadState::Done },
                LoadAction::Return(entry.data),
            ),
            (LoadState::Polling { started }, LoadEvent::Read(ReadOutcome::Missing)) => (
                Loader { requested, state: LoadState::Waiting { started } },
                LoadAction::ReadMonotonic,
            ),
            (LoadState::Polling { started }, LoadEvent::Read(ReadOutcome::Unreadable)) => {
                Self::failed(requested, LoadError::Storage)
            },
            _ => Self::failed(requested, LoadError::OutOfOrder),
        }
    }

    fn failed(requested: Fingerprint, error: LoadError) -> (r: (Loader, LoadAction))
        ensures
            r == Loader::initial(requested).fail(error),
    {
        (Loader { requested, state: LoadState::Done }, LoadAction::Fail(error))
    }
}

} // verus!
