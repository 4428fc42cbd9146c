//! The retry loop of one mutation request, as a state machine. The driver
//! takes snapshots, runs the function and talks to the store; after each of
//! these it reports what happened and is told what to do next.

use vstd::prelude::*;

verus! {

#[derive(PartialEq, Eq, Structural, Clone, Copy, Debug)]
pub enum Phase {
    /// At the start of the loop, about to take a snapshot.
    SamplingSnapshot,
    /// The function is running against its snapshot.
    Executing,
    /// The write set has been handed to the store.
    Committing,
    /// The store refused the commit; the attempt is being torn down.
    Conflicted,
    /// The write set was committed. Terminal.
    Succeeded,
    /// Every permitted attempt ended in a conflict. Terminal.
    Exhausted,
    /// The function itself failed. Terminal.
    FunctionFailed,
    /// A time budget ran out. Terminal.
    TimedOut,
}

/// What the driver reports.
#[derive(PartialEq, Eq, Structural, Clone, Copy, Debug)]
pub enum RetryEvent {
    SnapshotTaken,
    FunctionReturned,
    FunctionRaised,
    BudgetExceeded,
    CommitAccepted,
    CommitConflicted,
    AttemptDiscarded,
}

/// Why a request ended without a commit.
#[derive(PartialEq, Eq, Structural, Clone, Copy, Debug)]
pub enum RetryError {
    FunctionError,
    OccExhausted,
    Timeout,
}

/// What the driver is told to do.
#[derive(PartialEq, Eq, Structural, Clone, Copy, Debug)]
pub enum RetryAction {
    /// Stop at the loop-start suspension point, then take a fresh snapshot.
    PauseThenSnapshot,
    /// Run the function against the snapshot just taken.
    RunFunction,
    /// Offer the attempt's write set to the store.
    Commit,
    /// Drop the attempt's writes and cancel its pending operations.
    DiscardAttempt,
    /// Hand the function's result to the caller.
    ReturnResult,
    /// Tear the attempt down and hand this error to the caller.
    Fail(RetryError),
    /// The event does not belong to the current phase; nothing changed.
    Rejected,
}

#[derive(PartialEq, Eq, Structural, Clone, Copy, Debug)]
pub struct RetryState {
    pub phase: Phase,
    /// Attempts started so far.
    pub attempts: u64,
    /// Write sets committed so far.
    pub commits: u64,
    pub max_retries: u32,
}

/// The state of a request that has not started its first attempt.
pub open spec fn initial(max_retries: u32) -> RetryState {
    RetryState { phase: Phase::SamplingSnapshot, attempts: 0, commits: 0, max_retries }
}

/// The transition function: the state after `event`, and the driver's next
/// action.
pub open spec fn transition(s: RetryState, event: RetryEvent) -> (RetryState, RetryAction) {
    match (s.phase, event) {
        (Phase::SamplingSnapshot, RetryEvent::SnapshotTaken) => (
            RetryState { phase: Phase::Executing, attempts: (s.attempts + 1) as u64, ..s },
            RetryAction::RunFunction,
        ),
        (Phase::Executing, RetryEvent::FunctionReturned) => (
            RetryState { phase: Phase::Committing, ..s },
            RetryAction::Commit,
        ),
        (Phase::Executing, RetryEvent::FunctionRaised) => (
            RetryState { phase: Phase::FunctionFailed, ..s },
            RetryAction::Fail(RetryError::FunctionError),
        ),
        (Phase::Executing, RetryEvent::BudgetExceeded) => (
            RetryState { phase: Phase::TimedOut, ..s },
            RetryAction::Fail(RetryError::Timeout),
        ),
        (Phase::Committing, RetryEvent::CommitAccepted) => (
            RetryState { phase: Phase::Succeeded, commits: (s.commits + 1) as u64, ..s },
            RetryAction::ReturnResult,
        ),
        (Phase::Committing, RetryEvent::CommitConflicted) => (
            RetryState { phase: Phase::Conflicted, ..s },
            RetryAction::DiscardAttempt,
        ),
        (Phase::Conflicted, RetryEvent::AttemptDiscarded) => if s.attempts > s.max_retries {
            (RetryState { phase: Phase::Exhausted, ..s }, RetryAction::Fail(RetryError::OccExhausted))
        } else {
            (RetryState { phase: Phase::SamplingSnapshot, ..s }, RetryAction::PauseThenSnapshot)
        },
        _ => (s, RetryAction::Rejected),
    }
}

/// The state that a request reaches from `s` through `events`, in order.
pub open spec fn run(s: RetryState, events: Seq<RetryEvent>) -> RetryState
    decreases events.len(),
{
    if events.len() == 0 {
        s
    } else {
        transition(run(s, events.drop_last()), events.last()).0
    }
}

/// One attempt that runs to a commit and is refused.
pub open spec fn conflicting_attempt() -> Seq<RetryEvent> {
    seq![
        RetryEvent::SnapshotTaken,
        RetryEvent::FunctionReturned,
        RetryEvent::CommitConflicted,
        RetryEvent::AttemptDiscarded,
    ]
}

/// `n` attempts in a row, each of them refused by the store.
pub open spec fn conflicting_attempts(n: nat) -> Seq<RetryEvent>
    decreases n,
{
    if n == 0 {
        Seq::empty()
    } else {
        conflicting_attempts((n - 1) as nat) + conflicting_attempt()
    }
}

/// How one attempt ends, as the function and the store decide.
#[derive(PartialEq, Eq, Structural, Clone, Copy, Debug)]
pub enum AttemptOutcome {
    /// The function returned and the store accepted its write set.
    Committed,
    /// The function returned and the store refused its write set.
    Conflicted,
    /// The function itself failed.
    FunctionError,
    /// A time budget ran out while the function ran.
    Timeout,
}

/// The first `n` attempts all ended in a conflict.
pub open spec fn all_conflicted(outcomes: Seq<AttemptOutcome>, n: int) -> bool {
    forall|i: int| 0 <= i < n ==> outcomes[i] == AttemptOutcome::Conflicted
}

/// The phase in which a request ends when an attempt ends other than in a
/// conflict.
pub open spec fn phase_ending_in(outcome: AttemptOutcome) -> Phase {
    match outcome {
        AttemptOutcome::Committed => Phase::Succeeded,
        AttemptOutcome::FunctionError => Phase::FunctionFailed,
        AttemptOutcome::Timeout => Phase::TimedOut,
        AttemptOutcome::Conflicted => Phase::Conflicted,
    }
}

impl RetryState {
    pub open spec fn is_terminal(&self) -> bool {
        self.phase == Phase::Succeeded || self.phase == Phase::Exhausted || self.phase
            == Phase::FunctionFailed || self.phase == Phase::TimedOut
    }

    /// What holds of every state that a request can reach: a commit has
    /// happened exactly when the request has succeeded, and the attempts
    /// stay within the budget.
    pub open spec fn well_formed(&self) -> bool {
        &&& self.commits == (if self.phase == Phase::Succeeded { 1u64 } else { 0u64 })
        &&& self.attempts <= self.max_retries + 1
        &&& self.phase == Phase::SamplingSnapshot ==> self.attempts <= self.max_retries
        &&& self.phase == Phase::Exhausted ==> self.attempts == self.max_retries + 1
        &&& self.phase != Phase::SamplingSnapshot ==> self.attempts >= 1
    }

    /// A request before its first attempt. The driver starts with
    /// `RetryAction::PauseThenSnapshot`.
    pub fn new(max_retries: u32) -> (state: Self)
        ensures
            state == initial(max_retries),
            state.well_formed(),
    {
        RetryState { phase: Phase::SamplingSnapshot, attempts: 0, commits: 0, max_retries }
    }

    /// Whether the request has ended.
    pub fn finished(&self) -> (done: bool)
        ensures
            done == self.is_terminal(),
    {
        match self.phase {
            Phase::Succeeded | Phase::Exhausted | Phase::FunctionFailed | Phase::TimedOut => true,
            _ => false,
        }
    }

    /// Takes one event from the driver and says what to do next.
    pub fn step(&mut self, event: RetryEvent) -> (action: RetryAction)
        requires
            old(self).well_formed(),
        ensures
            final(self).well_formed(),
            (*final(self), action) == transition(*old(self), event),
    {
        match (self.phase, event) {
            (Phase::SamplingSnapshot, RetryEvent::SnapshotTaken) => {
                self.phase = Phase::Executing;
                self.attempts = self.attempts + 1;
                RetryAction::RunFunction
            },
            (Phase::Executing, RetryEvent::FunctionReturned) => {
                self.phase = Phase::Committing;
                RetryAction::Commit
            },
            (Phase::Executing, RetryEvent::FunctionRaised) => {
                self.phase = Phase::FunctionFailed;
                RetryAction::Fail(RetryError::FunctionError)
            },
            (Phase::Executing, RetryEvent::BudgetExceeded) => {
                self.phase = Phase::TimedOut;
                RetryAction::Fail(RetryError::Timeout)
            },
            (Phase::Committing, RetryEvent::CommitAccepted) => {
                self.phase = Phase::Succeeded;
                self.commits = self.commits + 1;
                RetryAction::ReturnResult
            },
            (Phase::Committing, RetryEvent::CommitConflicted) => {
                self.phase = Phase::Conflicted;
                RetryAction::DiscardAttempt
            },
            (Phase::Conflicted, RetryEvent::AttemptDiscarded) => {
                if self.attempts > self.max_retries as u64 {
                    self.phase = Phase::Exhausted;
                    RetryAction::Fail(RetryError::OccExhausted)
                } else {
                    self.phase = Phase::SamplingSnapshot;
                    RetryAction::PauseThenSnapshot
                }
            },
            _ => RetryAction::Rejected,
        }
    }

    /// How the request ended, if it has: with a commit, or with the error
    /// that the caller gets.
    pub fn outcome(&self) -> (ended: Option<Result<(), RetryError>>)
        ensures
            ended.is_none() <==> !self.is_terminal(),
            self.phase == Phase::Succeeded ==> ended == Some(Ok::<(), RetryError>(())),
            self.phase == Phase::Exhausted ==> ended == Some(
                Err::<(), RetryError>(RetryError::OccExhausted),
            ),
            self.phase == Phase::FunctionFailed ==> ended == Some(
                Err::<(), RetryError>(RetryError::FunctionError),
            ),
            self.phase == Phase::TimedOut ==> ended == Some(
                Err::<(), RetryError>(RetryError::Timeout),
            ),
    {
        match self.phase {
            Phase::Succeeded => Some(Ok(())),
            Phase::Exhausted => Some(Err(RetryError::OccExhausted)),
            Phase::FunctionFailed => Some(Err(RetryError::FunctionError)),
            Phase::TimedOut => Some(Err(RetryError::Timeout)),
            _ => None,
        }
    }

    /// Runs a request whose attempts end as `outcomes` say, in order. The
    /// request ends with the first attempt that does not conflict, if that
    /// attempt is within the budget; it is exhausted once `max_retries + 1`
    /// attempts have conflicted; and it is back at the start of the loop if
    /// the outcomes run out before either.
    pub fn replay(max_retries: u32, outcomes: &Vec<AttemptOutcome>) -> (state: Self)
        ensures
            state.well_formed(),
            state.max_retries == max_retries,
            state.attempts <= outcomes@.len(),
            state.phase == Phase::SamplingSnapshot ==> state.attempts == outcomes@.len()
                && all_conflicted(outcomes@, state.attempts as int),
            state.phase == Phase::Exhausted ==> all_conflicted(outcomes@, state.attempts as int),
            state.phase != Phase::SamplingSnapshot && state.phase != Phase::Exhausted ==> {
                &&& all_conflicted(outcomes@, state.attempts - 1)
                &&& outcomes@[state.attempts - 1] != AttemptOutcome::Conflicted
                &&& state.phase == phase_ending_in(outcomes@[state.attempts - 1])
            },
    {
        let mut state = RetryState::new(max_retries);
        let mut i: usize = 0;
        while i < outcomes.len()
            invariant
                i <= outcomes@.len(),
                state == (RetryState {
                    phase: Phase::SamplingSnapshot,
                    attempts: i as u64,
                    commits: 0,
                    max_retries,
                }),
                state.well_formed(),
                all_conflicted(outcomes@, i as int),
            decreases outcomes@.len() - i,
        {
            state.step(RetryEvent::SnapshotTaken);
            match outcomes[i] {
                AttemptOutcome::Committed => {
                    state.step(RetryEvent::FunctionReturned);
                    state.step(RetryEvent::CommitAccepted);
                    return state;
                },
                AttemptOutcome::FunctionError => {
                    state.step(RetryEvent::FunctionRaised);
                    return state;
                },
                AttemptOutcome::Timeout => {
                    state.step(RetryEvent::BudgetExceeded);
                    return state;
                },
                AttemptOutcome::Conflicted => {
                    state.step(RetryEvent::FunctionReturned);
                    state.step(RetryEvent::CommitConflicted);
                    state.step(RetryEvent::AttemptDiscarded);
                    if state.finished() {
                        return state;
                    }
                },
            }
            i += 1;
        }
        state
    }
}

/// Every transition keeps the state well formed, never takes a commit back,
/// and leaves a request that has ended as it is.
pub proof fn lemma_transition_preserves(s: RetryState, event: RetryEvent)
    requires
        s.well_formed(),
    ensures
        transition(s, event).0.well_formed(),
        transition(s, event).0.max_retries == s.max_retries,
        transition(s, event).0.commits >= s.commits,
        transition(s, event).0.attempts >= s.attempts,
        s.is_terminal() ==> transition(s, event) == (s, RetryAction::Rejected),
{
}

/// The commit count rises only when a commit is accepted in the committing
/// phase, the request has then ended, and a request that has ended is never
/// again in the committing phase.
pub proof fn lemma_commit_only_when_accepted(s: RetryState, event: RetryEvent)
    requires
        s.well_formed(),
    ensures
        transition(s, event).0.commits == s.commits + 1 <==> (s.phase == Phase::Committing && event
            == RetryEvent::CommitAccepted),
        transition(s, event).0.commits != s.commits ==> transition(s, event).0.is_terminal(),
        s.is_terminal() ==> transition(s, event).0.phase != Phase::Committing,
{
}

/// Every state reached from a fresh request is well formed.
pub proof fn lemma_run_well_formed(max_retries: u32, events: Seq<RetryEvent>)
    ensures
        run(initial(max_retries), events).well_formed(),
        run(initial(max_retries), events).max_retries == max_retries,
    decreases events.len(),
{
    if events.len() > 0 {
        lemma_run_well_formed(max_retries, events.drop_last());
        lemma_transition_preserves(run(initial(max_retries), events.drop_last()), events.last());
    }
}

/// At most one commit: whatever the driver reports, and however many
/// attempts are made, no request commits more than one write set, and it
/// has committed one exactly when it has succeeded.
pub proof fn lemma_at_most_one_commit(max_retries: u32, events: Seq<RetryEvent>)
    ensures
        run(initial(max_retries), events).commits <= 1,
        run(initial(max_retries), events).commits == 1 <==> run(
            initial(max_retries),
            events,
        ).phase == Phase::Succeeded,
{
    lemma_run_well_formed(max_retries, events);
}

/// The attempts never exceed the budget of `max_retries + 1`, whatever the
/// driver reports.
pub proof fn lemma_attempts_bounded(max_retries: u32, events: Seq<RetryEvent>)
    ensures
        run(initial(max_retries), events).attempts <= max_retries + 1,
{
    lemma_run_well_formed(max_retries, events);
}

/// Running `events` and then one more event is one more transition.
pub proof fn lemma_run_push(s: RetryState, events: Seq<RetryEvent>, event: RetryEvent)
    ensures
        run(s, events.push(event)) == transition(run(s, events), event).0,
{
    assert(events.push(event).drop_last() =~= events);
    assert(events.push(event).last() == event);
}

/// Bounded retries: a request whose every attempt is refused is back at the
/// start of the loop after each of its first `max_retries` attempts, and
/// exhausted after attempt number `max_retries + 1`, having made exactly
/// that many.
pub proof fn lemma_bounded_retries(max_retries: u32, n: nat)
    requires
        n <= max_retries + 1,
    ensures
        run(initial(max_retries), conflicting_attempts(n)) == (RetryState {
            phase: if n == max_retries + 1 {
                Phase::Exhausted
            } else {
                Phase::SamplingSnapshot
            },
            attempts: n as u64,
            commits: 0,
            max_retries,
        }),
    decreases n,
{
    let start = initial(max_retries);
    if n == 0 {
        assert(conflicting_attempts(0) =~= Seq::<RetryEvent>::empty());
    } else {
        let before = conflicting_attempts((n - 1) as nat);
        lemma_bounded_retries(max_retries, (n - 1) as nat);
        let t1 = before.push(RetryEvent::SnapshotTaken);
        let t2 = t1.push(RetryEvent::FunctionReturned);
        let t3 = t2.push(RetryEvent::CommitConflicted);
        let t4 = t3.push(RetryEvent::AttemptDiscarded);
        assert(conflicting_attempts(n) =~= t4);
        lemma_run_push(start, before, RetryEvent::SnapshotTaken);
        lemma_run_push(start, t1, RetryEvent::FunctionReturned);
        lemma_run_push(start, t2, RetryEvent::CommitConflicted);
        lemma_run_push(start, t3, RetryEvent::AttemptDiscarded);
    }
}

} // verus!
