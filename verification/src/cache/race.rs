//! Any number of refreshes of one key, run against the model of its location
//! with their steps interleaved in any order. Nothing here runs.

use crate::cache::model::Location;
use crate::cache::refresher::{
    LockOutcome, RefreshAction, RefreshEvent, RefreshState, Refresher,
};
use crate::fingerprint::Fingerprint;
use crate::time::Timestamp;
use vstd::prelude::*;

verus! {

/// What the outside gives when it does what a refresher asked for. Only the
/// part that answers the request counts.
pub struct Answer {
    /// The attempt on the lock itself fails.
    pub lock_failed: bool,
    /// What the fetch gives.
    pub fetched: Option<serde_json::Value>,
    /// What the clock reads.
    pub now: Timestamp,
    /// Whether the write succeeds.
    pub written: bool,
}

/// A refresh under way: where it stands, and what it has asked for that is
/// not done yet.
pub struct Runner {
    pub refresher: Refresher,
    pub asked: RefreshAction,
}

/// One step of a race: the outside serves the runner at the place `who`, and
/// gives `answer`.
pub struct Turn {
    pub who: int,
    pub answer: Answer,
}

/// Refreshes of one key that share its location.
pub struct Race {
    pub location: Location,
    pub runners: Seq<Runner>,
    /// How many entries were written by a runner that did not hold the lock.
    pub stray_writes: nat,
}

impl Runner {
    /// A refresh that has just begun: it has asked for the lock.
    pub open spec fn started(fingerprint: Fingerprint) -> Runner {
        Runner { refresher: Refresher::initial(fingerprint), asked: RefreshAction::TryLock }
    }

    /// The runner has the lock: it got it and has not been served the request
    /// to give it back.
    pub open spec fn holds(self) -> bool {
        self.refresher.state.holds_lock() || (self.asked matches RefreshAction::Finish {
            release,
            ..
        } && release)
    }

    /// What the runner has asked for is what its refresher asks for where it
    /// stands.
    pub open spec fn coherent(self) -> bool {
        match self.asked {
            RefreshAction::TryLock => self.refresher.state is Locking,
            RefreshAction::Fetch => self.refresher.state is Fetching,
            RefreshAction::ReadClock => self.refresher.state is Stamping,
            RefreshAction::Write(_) => self.refresher.state is Writing,
            RefreshAction::Finish { .. } => self.refresher.state is Done,
        }
    }

    /// The runner after `event` was reported to its refresher.
    pub open spec fn heard(self, event: RefreshEvent) -> Runner {
        Runner { refresher: self.refresher.next(event).0, asked: self.refresher.next(event).1 }
    }

    /// The runner and the location after the outside did what the runner had
    /// asked for. The lock is tried on the location as it is; an entry is
    /// written over what the location holds; the lock is given back when the
    /// runner asks for that at its end. A runner that is done stays as it is.
    pub open spec fn served(self, location: Location, answer: Answer) -> (Runner, Location) {
        match self.asked {
            RefreshAction::TryLock => {
                if answer.lock_failed {
                    (self.heard(RefreshEvent::Lock(LockOutcome::Failed)), location)
                } else {
                    (
                        self.heard(RefreshEvent::Lock(location.try_lock().1)),
                        location.try_lock().0,
                    )
                }
            },
            RefreshAction::Fetch => (self.heard(RefreshEvent::Fetched(answer.fetched)), location),
            RefreshAction::ReadClock => (self.heard(RefreshEvent::Now(answer.now)), location),
            RefreshAction::Write(entry) => {
                if answer.written {
                    (self.heard(RefreshEvent::Written(true)), location.write(entry))
                } else {
                    (self.heard(RefreshEvent::Written(false)), location)
                }
            },
            RefreshAction::Finish { outcome, release } => (
                Runner {
                    refresher: self.refresher,
                    asked: RefreshAction::Finish { outcome, release: false },
                },
                if release {
                    location.unlock()
                } else {
                    location
                },
            ),
        }
    }
}

impl Race {
    /// The race of refreshes with the fingerprints `fingerprints` as it
    /// begins, on the location `location`.
    pub open spec fn start(location: Location, fingerprints: Seq<Fingerprint>) -> Race {
        Race {
            location,
            runners: fingerprints.map_values(|f: Fingerprint| Runner::started(f)),
            stray_writes: 0,
        }
    }

    /// The race after one turn. A turn for a runner that does not exist
    /// changes nothing.
    pub open spec fn after_turn(self, turn: Turn) -> Race {
        if 0 <= turn.who < self.runners.len() {
            let runner = self.runners[turn.who];
            Race {
                location: runner.served(self.location, turn.answer).1,
                runners: self.runners.update(
                    turn.who,
                    runner.served(self.location, turn.answer).0,
                ),
                stray_writes: if runner.asked is Write && turn.answer.written && !runner.holds() {
                    self.stray_writes + 1
                } else {
                    self.stray_writes
                },
            }
        } else {
            self
        }
    }

    /// The race after the turns `turns`, one after another.
    pub open spec fn after(self, turns: Seq<Turn>) -> Race
        decreases turns.len(),
    {
        if turns.len() == 0 {
            self
        } else {
            self.after(turns.drop_last()).after_turn(turns.last())
        }
    }

    /// How many runners hold the lock is told by the lock: it is taken
    /// exactly when somebody holds it, and no two runners hold it.
    pub open spec fn exclusive(self) -> bool {
        &&& self.location.locked == (exists|i: int|
            0 <= i < self.runners.len() && (#[trigger] self.runners[i]).holds())
        &&& forall|i: int, j: int|
            0 <= i < self.runners.len() && 0 <= j < self.runners.len() && i != j ==> !((
            #[trigger] self.runners[i]).holds() && (#[trigger] self.runners[j]).holds())
    }

    /// Every runner has asked for what its refresher asks for where it stands.
    pub open spec fn coherent(self) -> bool {
        forall|i: int| 0 <= i < self.runners.len() ==> (#[trigger] self.runners[i]).coherent()
    }
}

/// At most one writer at a time. Refreshes of one key begin on a location
/// whose lock is free; the outside serves them in any order and gives them
/// any answers. Then at every moment the lock is taken exactly when one of
/// them holds it, no two of them hold it, and no entry was ever written by
/// one that did not hold it.
pub proof fn law_writers_exclude_each_other(
    location: Location,
    fingerprints: Seq<Fingerprint>,
    turns: Seq<Turn>,
)
    requires
        !location.locked,
    ensures
        Race::start(location, fingerprints).after(turns).exclusive(),
        Race::start(location, fingerprints).after(turns).stray_writes == 0,
        Race::start(location, fingerprints).after(turns).runners.len() == fingerprints.len(),
{
    lemma_race_stays_sound(location, fingerprints, turns);
}

/// What holds of a race at every moment.
proof fn lemma_race_stays_sound(
    location: Location,
    fingerprints: Seq<Fingerprint>,
    turns: Seq<Turn>,
)
    requires
        !location.locked,
    ensures
        ({
            let race = Race::start(location, fingerprints).after(turns);
            &&& race.exclusive()
            &&& race.coherent()
            &&& race.stray_writes == 0
            &&& race.runners.len() == fingerprints.len()
        }),
    decreases turns.len(),
{
    let begun = Race::start(location, fingerprints);
    if turns.len() == 0 {
        assert forall|i: int| 0 <= i < begun.runners.len() implies !(
        #[trigger] begun.runners[i]).holds() && begun.runners[i].coherent() by {
            assert(begun.runners[i] == Runner::started(fingerprints[i]));
        }
    } else {
        lemma_race_stays_sound(location, fingerprints, turns.drop_last());
        lemma_turn_keeps_sound(begun.after(turns.drop_last()), turns.last());
    }
}

/// One turn keeps a race sound.
proof fn lemma_turn_keeps_sound(race: Race, turn: Turn)
    requires
        race.exclusive(),
        race.coherent(),
    ensures
        race.after_turn(turn).exclusive(),
        race.after_turn(turn).coherent(),
        race.after_turn(turn).stray_writes == race.stray_writes,
        race.after_turn(turn).runners.len() == race.runners.len(),
{
    if 0 <= turn.who < race.runners.len() {
        let who = turn.who;
        let runner = race.runners[who];
        let next = race.after_turn(turn);
        let served = runner.served(race.location, turn.answer).0;
        assert(runner.coherent());
        assert(next.runners[who] == served);
        assert forall|i: int| 0 <= i < next.runners.len() && i != who implies
            #[trigger] next.runners[i] == race.runners[i] by {}
        assert(served.coherent());
        if runner.holds() {
            // Whoever holds the lock keeps it until it gives it back, and
            // nobody else holds it meanwhile.
            assert(race.location.locked);
            assert forall|i: int| 0 <= i < next.runners.len() && i != who implies !(
            #[trigger] next.runners[i]).holds() by {
                assert(!(race.runners[i].holds() && race.runners[who].holds()));
            }
            if served.holds() {
                assert(next.runners[who].holds());
            }
        } else {
            // Whoever does not hold the lock gets it only where it is free.
            if served.holds() {
                assert(runner.asked is TryLock);
                assert(!race.location.locked);
                assert forall|i: int| 0 <= i < next.runners.len() && i != who implies !(
                #[trigger] next.runners[i]).holds() by {
                    assert(!race.runners[i].holds());
                }
                assert(next.runners[who].holds());
            } else {
                assert(next.location.locked == race.location.locked);
                if race.location.locked {
                    let holder = choose|i: int|
                        0 <= i < race.runners.len() && (#[trigger] race.runners[i]).holds();
                    assert(holder != who);
                    assert(next.runners[holder].holds());
                }
            }
        }
    }
}

} // verus!
