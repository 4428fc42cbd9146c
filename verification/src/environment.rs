//! The environment that one attempt of a function runs in. Every effect the
//! function can have on its host goes through one of the methods here.

use crate::resolvers::ResolverTable;
use crate::rng::next_word_pos;
use crate::rng::DeterministicRng;
use crate::timers::distinct_ids;
use crate::timers::has_id;
use crate::timers::is_earliest;
use crate::timers::Timer;
use crate::timers::TimerSet;
use vstd::prelude::*;

verus! {

/// Seconds in a day: the ceiling of both time budgets.
pub const TIMEOUT_SECS: u64 = 86400;

/// The text of a module and, where there is one, its source map.
pub struct FullModuleSource {
    pub source: String,
    pub source_map: Option<String>,
}

/// What a running function may ask of its host without waiting for it.
pub enum AsyncOpRequest {
    /// Wake the function when the logical clock reads `until`, in
    /// nanoseconds since the epoch.
    Sleep { until: u64 },
    /// An operation that this environment does not implement.
    Other,
}

/// What the host has to do for a request.
#[derive(PartialEq, Eq, Structural, Clone, Copy, Debug)]
pub enum AsyncOpAction {
    /// Wait for `duration` nanoseconds, then report `id` as finished.
    Sleep { id: usize, duration: u64 },
    /// Nothing: the request is dropped and never completes.
    Ignore,
}

/// What can go wrong inside the environment itself.
#[derive(PartialEq, Eq, Structural, Clone, Copy, Debug)]
pub enum EnvironmentError {
    /// A wait finished for which no operation is pending.
    ResolverNotFound,
}

/// The state of one attempt's environment. `R` is the handle through which
/// the completion of an operation reaches the function.
pub struct TestEnvironment<R> {
    /// The logical clock, in nanoseconds since the epoch.
    pub now: u64,
    pub rng: DeterministicRng,
    pub next_timer_id: usize,
    /// The waits in flight.
    pub timers: TimerSet,
    /// The completion handle of every pending operation, by its id.
    pub timer_resolvers: ResolverTable<R>,
    /// The one module this environment can load.
    pub module: FullModuleSource,
}

/// Time left until `until` on a clock that reads `now`, zero if it has passed.
pub open spec fn remaining(now: u64, until: u64) -> u64 {
    if until > now {
        (until - now) as u64
    } else {
        0
    }
}

/// The later of two clock readings.
pub open spec fn later(a: u64, b: u64) -> u64 {
    if a >= b {
        a
    } else {
        b
    }
}

/// What the host is told for `request`, issued when the clock reads `now`
/// and `next_id` is the next free id.
pub open spec fn action_for(now: u64, next_id: usize, request: AsyncOpRequest) -> AsyncOpAction {
    match request {
        AsyncOpRequest::Sleep { until } => AsyncOpAction::Sleep {
            id: next_id,
            duration: remaining(now, until),
        },
        AsyncOpRequest::Other => AsyncOpAction::Ignore,
    }
}

/// The next free id once `request` has been registered.
pub open spec fn id_after(next_id: usize, request: AsyncOpRequest) -> int {
    match request {
        AsyncOpRequest::Sleep { .. } => next_id + 1,
        AsyncOpRequest::Other => next_id as int,
    }
}

/// The name of the one module that can be loaded.
pub open spec fn known_module() -> Seq<char> {
    "test.js"@
}

impl<R> TestEnvironment<R> {
    /// Ids are handed out in rising order: every id in use lies below the
    /// next one, and no two waits share one.
    pub open spec fn well_formed(&self) -> bool {
        &&& distinct_ids(self.timers@)
        &&& forall|i: int|
            0 <= i < self.timers@.len() ==> (#[trigger] self.timers@[i]).id < self.next_timer_id
        &&& forall|id: usize| #[trigger]
            self.timer_resolvers@.contains_key(id) ==> id < self.next_timer_id
    }

    /// A fresh environment for one attempt: the clock reads `now`, the
    /// random source starts from the all-zero seed, nothing is pending.
    pub fn new(now: u64, module: FullModuleSource) -> (env: Self)
        ensures
            env.well_formed(),
            env.now == now,
            env.rng.seed@ == Seq::new(32, |i: int| 0u8),
            env.rng.word_pos == 0,
            env.next_timer_id == 0,
            env.timers@.len() == 0,
            env.timer_resolvers@ == Map::<usize, R>::empty(),
            env.module == module,
    {
        let env = TestEnvironment {
            now,
            rng: DeterministicRng::from_seed([0u8;32]),
            next_timer_id: 0,
            timers: TimerSet::new(),
            timer_resolvers: ResolverTable::new(),
            module,
        };
        assert(env.rng.seed@ =~= Seq::new(32, |i: int| 0u8));
        env
    }

    /// Resolves a module path to its source. Only one path is known.
    pub fn lookup_source(&self, path: &str) -> (found: Option<FullModuleSource>)
        ensures
            path@ == known_module() ==> found == Some(self.module),
            path@ != known_module() ==> found.is_none(),
    {
        let given = path.to_owned();
        let known = "test.js".to_owned();
        if given != known {
            return None;
        }
        let source_map = match &self.module.source_map {
            Some(m) => Some(m.clone()),
            None => None,
        };
        Some(FullModuleSource { source: self.module.source.clone(), source_map })
    }

    /// The logical clock of the attempt.
    pub fn unix_timestamp(&self) -> (now: u64)
        ensures
            now == self.now,
    {
        self.now
    }

    /// The next word of the attempt's random source.
    pub fn random_u32(&mut self) -> (word: u32)
        ensures
            word == old(self).rng.upcoming(0),
            final(self).rng.seed == old(self).rng.seed,
            final(self).rng.word_pos == next_word_pos(old(self).rng.word_pos),
            final(self).now == old(self).now,
            final(self).next_timer_id == old(self).next_timer_id,
            final(self).timers == old(self).timers,
            final(self).timer_resolvers == old(self).timer_resolvers,
            final(self).module == old(self).module,
    {
        self.rng.next_u32()
    }

    /// No variable is bound in this environment.
    pub fn get_environment_variable(&self, _name: &str) -> (value: Option<String>)
        ensures
            value.is_none(),
    {
        None
    }

    /// The budget of the function's own code, in seconds.
    pub fn user_timeout(&self) -> (secs: u64)
        ensures
            secs == TIMEOUT_SECS,
    {
        TIMEOUT_SECS
    }

    /// The budget of the work done on the function's behalf, in seconds.
    pub fn system_timeout(&self) -> (secs: u64)
        ensures
            secs == TIMEOUT_SECS,
    {
        TIMEOUT_SECS
    }

    /// Registers an operation that the function issued. A sleep gets the next
    /// free id, a wait that ends at `until`, or now if `until` has passed,
    /// and a place for its completion handle; any other request is dropped
    /// and changes nothing.
    pub fn start_async_op(&mut self, request: AsyncOpRequest, resolver: R) -> (action:
        AsyncOpAction)
        requires
            old(self).well_formed(),
            old(self).next_timer_id < usize::MAX,
        ensures
            final(self).well_formed(),
            action == action_for(old(self).now, old(self).next_timer_id, request),
            final(self).now == old(self).now,
            final(self).rng == old(self).rng,
            final(self).module == old(self).module,
            final(self).next_timer_id == id_after(old(self).next_timer_id, request),
            request matches AsyncOpRequest::Sleep { until } ==> {
                &&& final(self).timers@ == old(self).timers@.push(
                    Timer { id: old(self).next_timer_id, wake_at: later(until, old(self).now) },
                )
                &&& final(self).timer_resolvers@ == old(self).timer_resolvers@.insert(
                    old(self).next_timer_id,
                    resolver,
                )
            },
            request is Other ==> final(self).timers == old(self).timers && final(
                self).timer_resolvers == old(self).timer_resolvers,
    {
        match request {
            AsyncOpRequest::Sleep { until } => {
                let id = self.next_timer_id;
                self.next_timer_id += 1;
                let duration = if until > self.now {
                    until - self.now
                } else {
                    0
                };
                proof {
                    if has_id(self.timers@, id) {
                        let i = choose|i: int|
                            0 <= i < self.timers@.len() && (#[trigger] self.timers@[i]).id == id;
                        assert(self.timers@[i].id < id);
                    }
                }
                self.timers.spawn(id, self.now + duration);
                self.timer_resolvers.insert(id, resolver);
                proof {
                    let after = self.timers@;
                    assert forall|i: int| 0 <= i < after.len() implies (#[trigger] after[i]).id
                        < self.next_timer_id by {
                        if i < old(self).timers@.len() {
                            assert(after[i] == old(self).timers@[i]);
                        }
                    }
                }
                AsyncOpAction::Sleep { id, duration }
            },
            AsyncOpRequest::Other => AsyncOpAction::Ignore,
        }
    }

    /// Delivers the completion of the operation whose wait has ended. The
    /// wait leaves the set, the clock moves on to its wake-up time, and the
    /// operation's handle leaves the table and is handed out. An id without
    /// a handle is an error.
    pub fn complete_timer(&mut self, timer_id: usize) -> (delivered: Result<R, EnvironmentError>)
        requires
            old(self).well_formed(),
        ensures
            final(self).well_formed(),
            final(self).rng == old(self).rng,
            final(self).module == old(self).module,
            final(self).next_timer_id == old(self).next_timer_id,
            final(self).timer_resolvers@ == old(self).timer_resolvers@.remove(timer_id),
            delivered.is_ok() <==> old(self).timer_resolvers@.contains_key(timer_id),
            delivered matches Ok(r) ==> r == old(self).timer_resolvers@[timer_id],
            delivered matches Err(e) ==> e == EnvironmentError::ResolverNotFound,
            !has_id(old(self).timers@, timer_id) ==> final(self).timers@ == old(self).timers@
                && final(self).now == old(self).now,
            has_id(old(self).timers@, timer_id) ==> exists|k: int|
                0 <= k < old(self).timers@.len() && (#[trigger] old(self).timers@[k]).id == timer_id
                    && final(self).timers@ == old(self).timers@.remove(k) && final(self).now
                    == later(old(self).now, old(self).timers@[k].wake_at),
    {
        match self.timers.remove(timer_id) {
            None => {},
            Some(t) => {
                proof {
                    let k = choose|k: int|
                        0 <= k < old(self).timers@.len() && #[trigger] old(self).timers@[k] == t
                            && self.timers@ == old(self).timers@.remove(k);
                    let r = self.timers@;
                    assert forall|i: int| 0 <= i < r.len() implies (#[trigger] r[i]).id
                        < self.next_timer_id by {
                        let si = if i < k { i } else { i + 1 };
                        assert(r[i] == old(self).timers@[si]);
                    }
                }
                if t.wake_at > self.now {
                    self.now = t.wake_at;
                }
            },
        }
        match self.timer_resolvers.remove(timer_id) {
            Some(r) => Ok(r),
            None => Err(EnvironmentError::ResolverNotFound),
        }
    }

    /// Delivers the completion that is due first. With no wait in flight
    /// there is nothing to deliver, and the caller has to wait for another
    /// reason to go on. Otherwise the wait with the earliest wake-up time
    /// ends, the one issued first among equals, and its operation completes
    /// as in `complete_timer`.
    pub fn next_timer(&mut self) -> (delivered: Option<Result<(usize, R), EnvironmentError>>)
        requires
            old(self).well_formed(),
        ensures
            final(self).well_formed(),
            final(self).rng == old(self).rng,
            final(self).module == old(self).module,
            final(self).next_timer_id == old(self).next_timer_id,
            delivered.is_none() <==> old(self).timers@.len() == 0,
            delivered.is_none() ==> final(self).timers@ == old(self).timers@ && final(self).now
                == old(self).now && final(self).timer_resolvers@ == old(self).timer_resolvers@,
            delivered.is_some() ==> exists|k: int|
                {
                    let id = old(self).timers@[k].id;
                    &&& #[trigger] is_earliest(old(self).timers@, k)
                    &&& final(self).timers@ == old(self).timers@.remove(k)
                    &&& final(self).now == later(old(self).now, old(self).timers@[k].wake_at)
                    &&& final(self).timer_resolvers@ == old(self).timer_resolvers@.remove(id)
                    &&& delivered == Some(
                        if old(self).timer_resolvers@.contains_key(id) {
                            Ok::<(usize, R), EnvironmentError>((id, old(self).timer_resolvers@[id]))
                        } else {
                            Err::<(usize, R), EnvironmentError>(EnvironmentError::ResolverNotFound)
                        },
                    )
                },
    {
        match self.timers.earliest() {
            None => None,
            Some(k) => {
                let id = self.timers.entries[k].id;
                assert(old(self).timers@[k as int].id == id);
                let done = self.complete_timer(id);
                proof {
                    let k2 = choose|k2: int|
                        0 <= k2 < old(self).timers@.len() && (#[trigger] old(self).timers@[k2]).id
                            == id && self.timers@ == old(self).timers@.remove(k2) && self.now
                            == later(old(self).now, old(self).timers@[k2].wake_at);
                    assert(k2 == k);
                    assert(is_earliest(old(self).timers@, k as int));
                }
                match done {
                    Ok(r) => Some(Ok((id, r))),
                    Err(e) => Some(Err(e)),
                }
            },
        }
    }

    /// Tears the attempt's operations down: every wait is cancelled and
    /// every handle dropped, so that none of them completes. Returns how
    /// many waits there were.
    pub fn cancel_all(&mut self) -> (cancelled: usize)
        requires
            old(self).well_formed(),
        ensures
            final(self).well_formed(),
            cancelled == old(self).timers@.len(),
            final(self).timers@.len() == 0,
            final(self).timer_resolvers@ == Map::<usize, R>::empty(),
            final(self).now == old(self).now,
            final(self).rng == old(self).rng,
            final(self).module == old(self).module,
            final(self).next_timer_id == old(self).next_timer_id,
    {
        let cancelled = self.timers.len();
        self.timers = TimerSet::new();
        self.timer_resolvers.clear();
        cancelled
    }
}

/// Replaying an attempt: two environments that agree on clock, next id and
/// random source answer a request with the same action, hand out the same
/// id next, and draw the same words.
pub proof fn lemma_replay_determinism<R>(
    a: TestEnvironment<R>,
    b: TestEnvironment<R>,
    request: AsyncOpRequest,
    k: nat,
)
    requires
        a.now == b.now,
        a.next_timer_id == b.next_timer_id,
        a.rng.seed@ == b.rng.seed@,
        a.rng.word_pos == b.rng.word_pos,
    ensures
        action_for(a.now, a.next_timer_id, request) == action_for(
            b.now,
            b.next_timer_id,
            request,
        ),
        id_after(a.next_timer_id, request) == id_after(b.next_timer_id, request),
        a.rng.upcoming(k) == b.rng.upcoming(k),
{
}

} // verus!
