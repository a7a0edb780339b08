//! The published store and the refresh transaction.
//!
//! A run's results replace the previously published players, rankings and
//! statistics wholesale, inside one all-or-nothing transaction, and a run
//! marker is appended last. A reader never observes a mix of old and new
//! data: on any failure the prior contents stay untouched and the marker is
//! not advanced, so staleness stays observable through the marker's age.
//! The store here is the library's model of the published tables; the
//! database that mirrors it lives with the caller, which must run the same
//! delete-and-insert inside one transaction.

use vstd::prelude::*;

use crate::players::Player;
use crate::rankings::Rankings;
use crate::stats::Stats;

verus! {

/// What one ingestion run publishes.
#[derive(Debug, Clone)]
pub struct RunBundle {
    pub players: Vec<Player>,
    pub rankings: Vec<Rankings>,
    pub stats: Vec<Stats>,
}

/// The published tables and the append-only run markers, each marker the
/// completion time of one successful run.
#[derive(Debug)]
pub struct Store {
    pub players: Vec<Player>,
    pub rankings: Vec<Rankings>,
    pub stats: Vec<Stats>,
    pub run_markers: Vec<i64>,
}

/// Where a refresh failed. Any failure rolls the whole refresh back.
#[derive(Debug, Clone, Copy, PartialEq, Eq, Structural)]
pub enum TransactionError {
    /// The delete of the prior rows failed.
    DeleteFailed,
    /// An insert of the new rows failed.
    InsertFailed,
    /// The final commit failed.
    CommitFailed,
}

impl Store {
    /// An empty store: nothing published, no run completed.
    pub fn new() -> (r: Store)
        ensures
            r.players@.len() == 0,
            r.rankings@.len() == 0,
            r.stats@.len() == 0,
            r.run_markers@.len() == 0,
    {
        Store { players: Vec::new(), rankings: Vec::new(), stats: Vec::new(), run_markers: Vec::new() }
    }

    /// When the last successful run completed: the newest marker, or none
    /// when no run ever succeeded.
    pub fn last_successful_run(&self) -> (r: Option<i64>)
        ensures
            r == if self.run_markers@.len() == 0 {
                Option::<i64>::None
            } else {
                Option::Some(self.run_markers@.last())
            },
    {
        if self.run_markers.len() == 0 {
            Option::None
        } else {
            Option::Some(self.run_markers[self.run_markers.len() - 1])
        }
    }
}

/// What a committed refresh leaves behind: the bundle's tables published
/// wholesale in place of the prior ones, and exactly one new marker, the
/// completion time, appended after everything else.
pub open spec fn spec_refresh_post(before: Store, after: Store, bundle: RunBundle, now: i64) -> bool {
    &&& after.players == bundle.players
    &&& after.rankings == bundle.rankings
    &&& after.stats == bundle.stats
    &&& after.run_markers@ == before.run_markers@.push(now)
}

/// Applies one refresh: deletes the prior players, rankings and statistics,
/// publishes the bundle in their place, and appends the completion marker.
/// `failure` is where the transaction's backing storage failed, if it did;
/// on any failure the store is exactly as before -- no partial delete, no
/// partial insert, no marker.
pub fn apply_refresh(
    store: &mut Store,
    bundle: RunBundle,
    now: i64,
    failure: Option<TransactionError>,
) -> (r: Result<(), TransactionError>)
    ensures
        match failure {
            Option::Some(e) => {
                &&& r == Result::<(), TransactionError>::Err(e)
                &&& final(store).players == old(store).players
                &&& final(store).rankings == old(store).rankings
                &&& final(store).stats == old(store).stats
                &&& final(store).run_markers == old(store).run_markers
            },
            Option::None => {
                &&& r is Ok
                &&& spec_refresh_post(*old(store), *final(store), bundle, now)
            },
        },
{
    match failure {
        Option::Some(e) => Result::Err(e),
        Option::None => {
            let RunBundle { players, rankings, stats } = bundle;
            store.players = players;
            store.rankings = rankings;
            store.stats = stats;
            store.run_markers.push(now);
            Result::Ok(())
        },
    }
}

/// Refreshing twice with the same bundle -- as a second ingestion run over
/// unchanged source pages produces, every extraction being a function of
/// the page text alone -- publishes identical players, rankings and
/// statistics both times, and appends exactly two markers, in increasing
/// order when time moved on.
pub proof fn lemma_refresh_twice(
    s0: Store,
    s1: Store,
    s2: Store,
    bundle: RunBundle,
    t1: i64,
    t2: i64,
)
    requires
        t1 < t2,
        spec_refresh_post(s0, s1, bundle, t1),
        spec_refresh_post(s1, s2, bundle, t2),
    ensures
        s2.players == s1.players,
        s2.rankings == s1.rankings,
        s2.stats == s1.stats,
        s2.run_markers@.len() == s0.run_markers@.len() + 2,
        s2.run_markers@.last() == t2,
        s2.run_markers@[s2.run_markers@.len() - 2] == t1,
        s2.run_markers@[s2.run_markers@.len() - 2] < s2.run_markers@.last(),
{
    assert(s2.run_markers@[s2.run_markers@.len() - 2] == s1.run_markers@.last());
}

} // verus!
