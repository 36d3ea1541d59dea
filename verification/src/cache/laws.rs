//! What the cache guarantees, proved of the two step functions.

use crate::cache::entry::CacheEntry;
use crate::cache::loader::{
    cold_start_timeout, LoadAction, LoadError, LoadEvent, LoadState, Loader, ReadOutcome,
};
use crate::cache::model::Location;
use crate::cache::policy::ttl;
use crate::cache::refresher::{
    LockOutcome, RefreshAction, RefreshEvent, RefreshOutcome, Refresher,
};
use crate::fingerprint::Fingerprint;
use crate::time::Timestamp;
use vstd::prelude::*;

verus! {

impl Loader {
    /// The loader after one round of a cold-start wait that found nothing:
    /// the monotonic clock read `reading`, then the entry was still missing.
    pub open spec fn after_empty_poll(self, reading: Timestamp) -> Loader {
        self.next(LoadEvent::Monotonic(reading)).0.next(LoadEvent::Read(ReadOutcome::Missing)).0
    }

    /// The loader after one empty round for each of `readings`, in order.
    pub open spec fn after_empty_polls(self, readings: Seq<Timestamp>) -> Loader
        decreases readings.len(),
    {
        if readings.len() == 0 {
            self
        } else {
            self.after_empty_polls(readings.drop_last()).after_empty_poll(readings.last())
        }
    }

    /// The loader of a cold start once its wait has begun at `started`: the
    /// entry was missing, the location was created and the refresh started.
    pub open spec fn cold_started(requested: Fingerprint, started: Timestamp) -> Loader {
        Loader::initial(requested).next(LoadEvent::Read(ReadOutcome::Missing)).0.next(
            LoadEvent::LocationCreated(true),
        ).0.next(LoadEvent::Spawned(true)).0.next(LoadEvent::Monotonic(started)).0
    }

    /// The loader after `events`, reported one after another.
    pub open spec fn after(self, events: Seq<LoadEvent>) -> Loader
        decreases events.len(),
    {
        if events.len() == 0 {
            self
        } else {
            self.after(events.drop_last()).next(events.last()).0
        }
    }

    /// How many times a refresh is asked for in answer to `events`.
    pub open spec fn spawns(self, events: Seq<LoadEvent>) -> nat
        decreases events.len(),
    {
        if events.len() == 0 {
            0
        } else {
            let before = self.spawns(events.drop_last());
            if self.after(events.drop_last()).next(events.last()).1 is SpawnRefresh {
                before + 1
            } else {
                before
            }
        }
    }
}

impl Refresher {
    /// The refresher after `events`, reported one after another.
    pub open spec fn after(self, events: Seq<RefreshEvent>) -> Refresher
        decreases events.len(),
    {
        if events.len() == 0 {
            self
        } else {
            self.after(events.drop_last()).next(events.last()).0
        }
    }

    /// How many times the fetch operation is asked for in answer to `events`.
    pub open spec fn fetches(self, events: Seq<RefreshEvent>) -> nat
        decreases events.len(),
    {
        if events.len() == 0 {
            0
        } else {
            let before = self.fetches(events.drop_last());
            if self.after(events.drop_last()).next(events.last()).1 is Fetch {
                before + 1
            } else {
                before
            }
        }
    }

    /// How many times the refresher is asked to give back the lock in answer
    /// to `events`.
    pub open spec fn releases(self, events: Seq<RefreshEvent>) -> nat
        decreases events.len(),
    {
        if events.len() == 0 {
            0
        } else {
            let before = self.releases(events.drop_last());
            match self.after(events.drop_last()).next(events.last()).1 {
                RefreshAction::Finish { release, .. } => if release {
                    before + 1
                } else {
                    before
                },
                _ => before,
            }
        }
    }

    /// How many times a write is asked for in answer to `events`.
    pub open spec fn writes(self, events: Seq<RefreshEvent>) -> nat
        decreases events.len(),
    {
        if events.len() == 0 {
            0
        } else {
            let before = self.writes(events.drop_last());
            if self.after(events.drop_last()).next(events.last()).1 is Write {
                before + 1
            } else {
                before
            }
        }
    }
}

/// The monotonic reading `now` lies within the cold-start wait that began at
/// `started`.
pub open spec fn within_wait(started: Timestamp, now: Timestamp) -> bool {
    Loader::waited(started, now).nanos < cold_start_timeout().nanos
}

/// The entry that a refresh for `fingerprint` writes when it gets the lock,
/// its fetch gives `data` and the clock then reads `now`.
pub open spec fn refreshed(fingerprint: Fingerprint, data: serde_json::Value, now: Timestamp)
    -> CacheEntry {
    CacheEntry { fingerprint, last_refresh: now, data }
}

/// A refresh that gets the lock fetches once, stamps the payload with the
/// time read after the fetch, writes one entry with its own fingerprint, and
/// gives the lock back.
pub proof fn law_refresh_writes_what_it_fetched(
    fingerprint: Fingerprint,
    data: serde_json::Value,
    now: Timestamp,
)
    ensures
        ({
            let (r1, a1) = Refresher::initial(fingerprint).next(
                RefreshEvent::Lock(LockOutcome::Acquired),
            );
            let (r2, a2) = r1.next(RefreshEvent::Fetched(Some(data)));
            let (r3, a3) = r2.next(RefreshEvent::Now(now));
            let (r4, a4) = r3.next(RefreshEvent::Written(true));
            &&& a1 is Fetch
            &&& a2 is ReadClock
            &&& a3 == RefreshAction::Write(refreshed(fingerprint, data, now))
            &&& a4 == (RefreshAction::Finish { outcome: RefreshOutcome::Refreshed, release: true })
            &&& r4.state is Done
        }),
{
}

/// A failed fetch is recorded and nothing else: no write is asked for, the
/// fetch is not tried again, and the lock is given back.
pub proof fn law_failed_fetch_writes_nothing(fingerprint: Fingerprint)
    ensures
        ({
            let (r1, a1) = Refresher::initial(fingerprint).next(
                RefreshEvent::Lock(LockOutcome::Acquired),
            );
            let (r2, a2) = r1.next(RefreshEvent::Fetched(None));
            &&& a1 is Fetch
            &&& a2 == (RefreshAction::Finish {
                outcome: RefreshOutcome::FetchFailed,
                release: true,
            })
            &&& RefreshOutcome::FetchFailed.is_failure()
            &&& r2.state is Done
        }),
{
}

/// Cold start. The key has no entry; the refresh that the load starts writes
/// its entry while the load still waits; the load returns the fetched
/// payload, however many rounds of the wait found nothing before. A second
/// load with the same fingerprint, no later than the time to live after the
/// write, returns the same payload and starts no refresh, so that nothing is
/// fetched again.
pub proof fn law_cold_start(
    requested: Fingerprint,
    payload: serde_json::Value,
    written_at: Timestamp,
    started: Timestamp,
    empty: Seq<Timestamp>,
    found_at: Timestamp,
    again_at: Timestamp,
)
    requires
        forall|i: int| 0 <= i < empty.len() ==> within_wait(started, #[trigger] empty[i]),
        within_wait(started, found_at),
        written_at.at() <= again_at.at() <= written_at.at() + ttl().nanos,
    ensures
        ({
            let entry = refreshed(requested, payload, written_at);
            let location = Location::absent().write(entry);
            let (l1, a1) = Loader::initial(requested).next(
                LoadEvent::Read(Location::absent().read()),
            );
            let (l2, a2) = l1.next(LoadEvent::LocationCreated(true));
            let (l3, a3) = l2.next(LoadEvent::Spawned(true));
            let (l4, a4) = l3.next(LoadEvent::Monotonic(started));
            let waiting = l4.after_empty_polls(empty);
            let (l5, a5) = waiting.next(LoadEvent::Monotonic(found_at));
            let (l6, a6) = l5.next(LoadEvent::Read(location.read()));
            let (m1, b1) = Loader::initial(requested).next(LoadEvent::Read(location.read()));
            let (m2, b2) = m1.next(LoadEvent::Now(again_at));
            &&& a1 is CreateLocation
            &&& a2 == LoadAction::SpawnRefresh(requested)
            &&& a3 is ReadMonotonic
            &&& a4 is ReadMonotonic
            &&& a5 is ReadEntry
            &&& a6 == LoadAction::Return(payload)
            &&& l6.state is Done
            &&& b1 is ReadClock
            &&& b2 == LoadAction::Return(payload)
            &&& m2.state is Done
        }),
{
    lemma_empty_polls_keep_waiting(requested, started, empty);
}

/// Rounds of the cold-start wait that find nothing and lie within the wait
/// bound leave the loader waiting, with the same start of the wait.
pub proof fn lemma_empty_polls_keep_waiting(
    requested: Fingerprint,
    started: Timestamp,
    empty: Seq<Timestamp>,
)
    requires
        forall|i: int| 0 <= i < empty.len() ==> within_wait(started, #[trigger] empty[i]),
    ensures
        Loader::cold_started(requested, started).after_empty_polls(empty) == (Loader {
            requested,
            state: LoadState::Waiting { started },
        }),
    decreases empty.len(),
{
    if empty.len() > 0 {
        let before = empty.drop_last();
        assert forall|i: int| 0 <= i < before.len() implies within_wait(
            started,
            #[trigger] before[i],
        ) by {}
        lemma_empty_polls_keep_waiting(requested, started, before);
    }
}

/// Cold start timeout. When nothing was found and the monotonic clock reads
/// the wait bound or more past the start of the wait, the load fails with
/// `Timeout`, however many rounds went before. The refresh is not told: an
/// entry that it writes later is there for the next load, which returns it.
pub proof fn law_cold_start_timeout(
    requested: Fingerprint,
    started: Timestamp,
    empty: Seq<Timestamp>,
    late: Timestamp,
    payload: serde_json::Value,
    written_at: Timestamp,
)
    requires
        forall|i: int| 0 <= i < empty.len() ==> within_wait(started, #[trigger] empty[i]),
        !within_wait(started, late),
    ensures
        ({
            let waiting = Loader::cold_started(requested, started).after_empty_polls(empty);
            let (l1, a1) = waiting.next(LoadEvent::Monotonic(late));
            let entry = refreshed(requested, payload, written_at);
            let location = Location::absent().write(entry);
            let (m1, b1) = Loader::initial(requested).next(LoadEvent::Read(location.read()));
            &&& a1 == LoadAction::Fail(LoadError::Timeout)
            &&& l1.state is Done
            &&& b1 is ReadClock
            &&& forall|now: Timestamp| written_at.at() <= now.at() ==> {
                let (m2, b2) = #[trigger] m1.next(LoadEvent::Now(now));
                ||| b2 == LoadAction::Return(payload)
                ||| (b2 is SpawnRefresh && m2.next(LoadEvent::Spawned(true)).1
                    == LoadAction::Return(payload))
            }
        }),
{
    lemma_empty_polls_keep_waiting(requested, started, empty);
}

/// Fresh hit. An entry with the requested fingerprint that is no older than
/// the time to live is returned as it is, and no refresh is started.
pub proof fn law_fresh_hit(requested: Fingerprint, entry: CacheEntry, now: Timestamp)
    requires
        entry.fingerprint@ == requested@,
        entry.last_refresh.at() <= now.at() <= entry.last_refresh.at() + ttl().nanos,
    ensures
        ({
            let (l1, a1) = Loader::initial(requested).next(
                LoadEvent::Read(ReadOutcome::Found(entry)),
            );
            let (l2, a2) = l1.next(LoadEvent::Now(now));
            &&& a1 is ReadClock
            &&& a2 == LoadAction::Return(entry.data)
            &&& l2.state is Done
        }),
{
}

/// Stale by age. An entry with the requested fingerprint that is older than
/// the time to live is still returned by this load, as soon as the refresh is
/// started and without waiting for it. Once that refresh has written what it
/// fetched, a later load returns the new payload.
pub proof fn law_stale_by_age(
    requested: Fingerprint,
    entry: CacheEntry,
    now: Timestamp,
    fetched: serde_json::Value,
    written_at: Timestamp,
    later: Timestamp,
)
    requires
        entry.fingerprint@ == requested@,
        now.at() > entry.last_refresh.at() + ttl().nanos,
        written_at.at() <= later.at(),
    ensures
        ({
            let (l1, a1) = Loader::initial(requested).next(
                LoadEvent::Read(ReadOutcome::Found(entry)),
            );
            let (l2, a2) = l1.next(LoadEvent::Now(now));
            let (l3, a3) = l2.next(LoadEvent::Spawned(true));
            let location = (Location { entry: Some(entry), locked: false }).write(
                refreshed(requested, fetched, written_at),
            );
            let (m1, b1) = Loader::initial(requested).next(LoadEvent::Read(location.read()));
            let (m2, b2) = m1.next(LoadEvent::Now(later));
            &&& a1 is ReadClock
            &&& a2 == LoadAction::SpawnRefresh(requested)
            &&& a3 == LoadAction::Return(entry.data)
            &&& l3.state is Done
            &&& b1 is ReadClock
            &&& b2 == LoadAction::Return(fetched) || (b2 is SpawnRefresh && m2.next(
                LoadEvent::Spawned(true),
            ).1 == LoadAction::Return(fetched))
        }),
{
}

/// Stale by fingerprint. An entry stored under another fingerprint is
/// refreshed whatever its age, the clock is not even read, and this load
/// still returns the stored payload.
pub proof fn law_stale_by_fingerprint(requested: Fingerprint, entry: CacheEntry)
    requires
        entry.fingerprint@ != requested@,
    ensures
        ({
            let (l1, a1) = Loader::initial(requested).next(
                LoadEvent::Read(ReadOutcome::Found(entry)),
            );
            let (l2, a2) = l1.next(LoadEvent::Spawned(true));
            &&& a1 == LoadAction::SpawnRefresh(requested)
            &&& a2 == LoadAction::Return(entry.data)
            &&& l2.state is Done
        }),
{
}

/// A warm load never waits: whatever the entry, the fingerprint and the
/// clock, it ends after at most three reports, and where it returns a payload
/// it is the stored one.
pub proof fn law_warm_load_serves_stored(
    requested: Fingerprint,
    entry: CacheEntry,
    second: LoadEvent,
    third: LoadEvent,
)
    ensures
        ({
            let (l1, a1) = Loader::initial(requested).next(
                LoadEvent::Read(ReadOutcome::Found(entry)),
            );
            let (l2, a2) = l1.next(second);
            let (l3, a3) = l2.next(third);
            &&& !a1.is_final()
            &&& a2.is_final() || a3.is_final()
            &&& a2 matches LoadAction::Return(data) ==> data == entry.data
            &&& !a2.is_final() ==> (a3 matches LoadAction::Return(data) ==> data == entry.data)
        }),
{
}

/// Whatever is reported to a refresher, it asks for the fetch at most once
/// and for a write at most once, and for neither unless its first report was
/// that it got the lock.
pub proof fn law_one_fetch_per_lock(fingerprint: Fingerprint, events: Seq<RefreshEvent>)
    ensures
        Refresher::initial(fingerprint).fetches(events) <= 1,
        Refresher::initial(fingerprint).writes(events) <= 1,
        Refresher::initial(fingerprint).fetches(events) == 1 <==> events.len() > 0 && events[0]
            == RefreshEvent::Lock(LockOutcome::Acquired),
        Refresher::initial(fingerprint).writes(events) == 1 ==> events[0] == RefreshEvent::Lock(
            LockOutcome::Acquired,
        ),
{
    lemma_refresher_runs(fingerprint, events);
}

/// Whatever is reported to a load, it asks for a refresh at most once.
pub proof fn law_one_spawn_per_load(requested: Fingerprint, events: Seq<LoadEvent>)
    ensures
        Loader::initial(requested).spawns(events) <= 1,
{
    lemma_loader_runs(requested, events);
}

/// A load that has not yet read an entry or its age has asked for no refresh.
proof fn lemma_loader_runs(requested: Fingerprint, events: Seq<LoadEvent>)
    ensures
        ({
            let start = Loader::initial(requested);
            let end = start.after(events);
            &&& start.spawns(events) <= 1
            &&& (end.state is Reading || end.state is Dating || end.state is Creating)
                ==> start.spawns(events) == 0
        }),
    decreases events.len(),
{
    if events.len() > 0 {
        lemma_loader_runs(requested, events.drop_last());
    }
}

/// The lock is given back on every way out. Whatever is reported to a
/// refresher: once it is done it has been asked to give back the lock exactly
/// once if it had got the lock, and never if it had not; and as long as it
/// holds the lock it is not done.
pub proof fn law_lock_is_given_back(fingerprint: Fingerprint, events: Seq<RefreshEvent>)
    ensures
        ({
            let start = Refresher::initial(fingerprint);
            let end = start.after(events);
            let got_lock = events.len() > 0 && events[0] == RefreshEvent::Lock(
                LockOutcome::Acquired,
            );
            &&& end.state is Done ==> start.releases(events) == (if got_lock {
                1nat
            } else {
                0nat
            })
            &&& !(end.state is Done) ==> start.releases(events) == 0
            &&& end.state.holds_lock() ==> got_lock && !(end.state is Done)
        }),
{
    lemma_refresher_runs(fingerprint, events);
}

/// Where a run of a refresher stands, with its counts of fetches, writes and
/// releases.
proof fn lemma_refresher_runs(fingerprint: Fingerprint, events: Seq<RefreshEvent>)
    ensures
        ({
            let start = Refresher::initial(fingerprint);
            let end = start.after(events);
            let got_lock = events.len() > 0 && events[0] == RefreshEvent::Lock(
                LockOutcome::Acquired,
            );
            &&& end.state is Done ==> start.releases(events) == (if got_lock {
                1nat
            } else {
                0nat
            })
            &&& !(end.state is Done) ==> start.releases(events) == 0
            &&& events.len() > 0 && !got_lock ==> end.state is Done
            &&& end.fingerprint == fingerprint
            &&& events.len() == 0 ==> end.state is Locking
            &&& events.len() > 0 ==> !(end.state is Locking)
            &&& end.state.holds_lock() ==> got_lock
            &&& start.fetches(events) == (if got_lock { 1nat } else { 0nat })
            &&& start.writes(events) <= 1
            &&& start.writes(events) == 1 ==> got_lock && (end.state is Writing
                || end.state is Done)
            &&& (end.state is Fetching || end.state is Stamping) ==> start.writes(events) == 0
            &&& !got_lock ==> start.writes(events) == 0
        }),
    decreases events.len(),
{
    if events.len() > 0 {
        let before = events.drop_last();
        lemma_refresher_runs(fingerprint, before);
    }
}

/// Single writer. Two refreshes race for a location whose lock is free. The
/// one that tries the lock first gets it and fetches. The other, trying while
/// the first still holds the lock, finds it taken: it fetches nothing, writes
/// nothing and ends at once, whatever is reported to it afterwards. The lock
/// is free again when the first has finished.
pub proof fn law_single_writer(
    location: Location,
    first: Fingerprint,
    second: Fingerprint,
    fetched: Option<serde_json::Value>,
    afterwards: Seq<RefreshEvent>,
)
    requires
        !location.locked,
    ensures
        ({
            let (held, won) = location.try_lock();
            let (a1, act_a1) = Refresher::initial(first).next(RefreshEvent::Lock(won));
            let (still_held, lost) = held.try_lock();
            let (b1, act_b1) = Refresher::initial(second).next(RefreshEvent::Lock(lost));
            let (a2, act_a2) = a1.next(RefreshEvent::Fetched(fetched));
            let loser = seq![RefreshEvent::Lock(lost)] + afterwards;
            &&& won is Acquired
            &&& lost is Contended
            &&& still_held == held
            &&& act_a1 is Fetch
            &&& a1.state.holds_lock()
            &&& act_b1 == (RefreshAction::Finish {
                outcome: RefreshOutcome::Skipped,
                release: false,
            })
            &&& !RefreshOutcome::Skipped.is_failure()
            &&& b1.state is Done
            &&& Refresher::initial(second).fetches(loser) == 0
            &&& Refresher::initial(second).writes(loser) == 0
            &&& Refresher::initial(first).fetches(
                seq![RefreshEvent::Lock(won), RefreshEvent::Fetched(fetched)],
            ) == 1
            &&& fetched is None ==> act_a2 == (RefreshAction::Finish {
                outcome: RefreshOutcome::FetchFailed,
                release: true,
            })
            &&& !held.unlock().locked
        }),
{
    let (held, won) = location.try_lock();
    let (still_held, lost) = held.try_lock();
    let loser = seq![RefreshEvent::Lock(lost)] + afterwards;
    law_one_fetch_per_lock(second, loser);
    lemma_refresher_runs(second, loser);
    let winner = seq![RefreshEvent::Lock(won), RefreshEvent::Fetched(fetched)];
    law_one_fetch_per_lock(first, winner);
}

/// The lock admits one holder: of two attempts with no release between them,
/// at most one gets the lock, and a lock once taken stays taken until it is
/// given back.
pub proof fn law_lock_excludes(location: Location)
    ensures
        ({
            let (l1, o1) = location.try_lock();
            let (l2, o2) = l1.try_lock();
            &&& !(o1 is Acquired && o2 is Acquired)
            &&& l1.locked && l2.locked
            &&& o2 is Contended
            &&& l1.entry == location.entry && l2.entry == location.entry
        }),
{
}

} // verus!
