//! One attempt of a request: the snapshot it runs against and the keys it
//! has read and written, and the two steps of the retry loop that touch the
//! store.

use crate::retry::transition;
use crate::retry::Phase;
use crate::retry::RetryAction;
use crate::retry::RetryEvent;
use crate::retry::RetryState;
use crate::store::conflicts;
use crate::store::records;
use crate::store::Store;
use vstd::prelude::*;

verus! {

pub struct Attempt {
    /// The store's version when the attempt's snapshot was taken.
    pub base_version: u64,
    /// The keys the function has observed, in order.
    pub read_set: Vec<u64>,
    /// The keys the function has modified, in order.
    pub write_set: Vec<u64>,
}

impl Attempt {
    /// Notes that the function has observed `key`.
    pub fn record_read(&mut self, key: u64)
        ensures
            final(self).read_set@ == old(self).read_set@.push(key),
            final(self).write_set == old(self).write_set,
            final(self).base_version == old(self).base_version,
    {
        self.read_set.push(key);
    }

    /// Notes that the function has modified `key`.
    pub fn record_write(&mut self, key: u64)
        ensures
            final(self).write_set@ == old(self).write_set@.push(key),
            final(self).read_set == old(self).read_set,
            final(self).base_version == old(self).base_version,
    {
        self.write_set.push(key);
    }
}

/// The top of the loop: takes a fresh snapshot and starts an attempt on it.
/// Outside the phase in which a snapshot is due, nothing happens.
pub fn begin_attempt(state: &mut RetryState, store: &Store) -> (started: Option<Attempt>)
    requires
        old(state).well_formed(),
    ensures
        final(state).well_formed(),
        started.is_some() <==> old(state).phase == Phase::SamplingSnapshot,
        started.is_none() ==> *final(state) == *old(state),
        started matches Some(attempt) ==> {
            &&& *final(state) == transition(*old(state), RetryEvent::SnapshotTaken).0
            &&& attempt.base_version == store.version
            &&& attempt.read_set@.len() == 0
            &&& attempt.write_set@.len() == 0
        },
{
    match state.phase {
        Phase::SamplingSnapshot => {
            let base_version = store.take_snapshot();
            state.step(RetryEvent::SnapshotTaken);
            Some(Attempt { base_version, read_set: Vec::new(), write_set: Vec::new() })
        },
        _ => None,
    }
}

/// The end of an attempt whose function has returned: check-then-write. The
/// write set is committed, and the request succeeds, if no key that the
/// attempt read was written after its snapshot. Otherwise the store stays as
/// it is and the request is in conflict. Outside the committing phase
/// nothing happens.
pub fn commit_attempt(state: &mut RetryState, store: &mut Store, attempt: Attempt) -> (action:
    RetryAction)
    requires
        old(state).well_formed(),
        old(store).well_formed(),
        old(store).version < u64::MAX,
    ensures
        final(state).well_formed(),
        final(store).well_formed(),
        old(state).phase != Phase::Committing ==> {
            &&& action == RetryAction::Rejected
            &&& *final(state) == *old(state)
            &&& *final(store) == *old(store)
        },
        old(state).phase == Phase::Committing && conflicts(
            old(store).log@,
            attempt.read_set@,
            attempt.base_version,
        ) ==> {
            &&& (*final(state), action) == transition(*old(state), RetryEvent::CommitConflicted)
            &&& *final(store) == *old(store)
        },
        old(state).phase == Phase::Committing && !conflicts(
            old(store).log@,
            attempt.read_set@,
            attempt.base_version,
        ) ==> {
            &&& (*final(state), action) == transition(*old(state), RetryEvent::CommitAccepted)
            &&& final(store).version == old(store).version + 1
            &&& final(store).log@ == old(store).log@ + records(
                attempt.write_set@,
                final(store).version,
            )
        },
{
    match state.phase {
        Phase::Committing => {
            match store.commit(&attempt.read_set, &attempt.write_set, attempt.base_version) {
                Ok(_) => state.step(RetryEvent::CommitAccepted),
                Err(_) => state.step(RetryEvent::CommitConflicted),
            }
        },
        _ => RetryAction::Rejected,
    }
}

} // verus!
