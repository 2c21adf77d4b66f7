use vstd::prelude::*;
use crate::error::{AppError, same_error};

verus! {

/// Where the shared client's initialization stands.
#[derive(Debug, Clone, Copy, PartialEq, Eq, Structural)]
pub enum HolderState {
    Uninitialized,
    Initializing,
    Ready,
    /// The last attempt failed; the next new caller starts another.
    Failed,
}

/// What a caller asking for the client must do next. Attempts are told
/// apart by their number.
#[derive(Debug, Clone, Copy, PartialEq, Eq, Structural)]
pub enum AcquireStep {
    /// Run the client factory for this attempt, then report its outcome
    /// with `finish_init`.
    Initialize(u64),
    /// This attempt is in progress: wait for it to end, then `poll` it.
    Wait(u64),
    /// The client is ready: take it with `client`.
    UseCached,
}

/// The number of the attempt after `a`.
pub open spec fn next_attempt(a: u64) -> u64 {
    if a == u64::MAX {
        0
    } else {
        (a + 1) as u64
    }
}

/// A new caller asks for the client: the holder's next state and attempt
/// number, and what that caller must do. A failed attempt is retried here.
pub open spec fn acquire_step(s: HolderState, a: u64) -> (HolderState, u64, AcquireStep) {
    match s {
        HolderState::Uninitialized | HolderState::Failed => (
            HolderState::Initializing,
            next_attempt(a),
            AcquireStep::Initialize(next_attempt(a)),
        ),
        HolderState::Initializing => (HolderState::Initializing, a, AcquireStep::Wait(a)),
        HolderState::Ready => (HolderState::Ready, a, AcquireStep::UseCached),
    }
}

/// The record of failed attempts holds attempt `w`.
pub open spec fn attempt_failed(fs: Seq<(u64, AppError)>, w: u64) -> bool {
    exists|i: int| 0 <= i < fs.len() && (#[trigger] fs[i]).0 == w
}

/// A caller that waited on attempt `w` asks again: if that attempt failed,
/// it gets the failure (`None`), whatever happened since; otherwise (the
/// attempt is still running, succeeded, or was abandoned) it is served as a
/// new caller.
pub open spec fn poll_step(s: HolderState, a: u64, fs: Seq<(u64, AppError)>, w: u64) -> Option<
    (HolderState, u64, AcquireStep),
> {
    if attempt_failed(fs, w) {
        None
    } else {
        Some(acquire_step(s, a))
    }
}

/// The state once an attempt has ended.
pub open spec fn after_init(succeeded: bool) -> HolderState {
    if succeeded {
        HolderState::Ready
    } else {
        HolderState::Failed
    }
}

/// The state and attempt number after `n` new callers in a row, with no
/// attempt ending between them, and the steps they were told, in order.
pub open spec fn acquire_run(s: HolderState, a: u64, n: nat) -> (HolderState, u64, Seq<AcquireStep>)
    decreases n,
{
    if n == 0 {
        (s, a, Seq::empty())
    } else {
        let (s1, a1, step) = acquire_step(s, a);
        let (s2, a2, rest) = acquire_run(s1, a1, (n - 1) as nat);
        (s2, a2, seq![step] + rest)
    }
}

/// Holder of the one warehouse client of a process: created on first
/// demand, then shared by every caller.
pub struct ClientHolder<C> {
    state: HolderState,
    attempt: u64,
    client: Option<C>,
    failures: Vec<(u64, AppError)>,
}

impl<C> ClientHolder<C> {
    pub closed spec fn phase(&self) -> HolderState {
        self.state
    }

    /// The number of the latest attempt.
    pub closed spec fn attempt(&self) -> u64 {
        self.attempt
    }

    /// The client the holder keeps, if any.
    pub closed spec fn cached(&self) -> Option<C> {
        self.client
    }

    /// Every failed attempt, by number, with its error. The record is only
    /// ever added to, so the callers that waited on a failed attempt get its
    /// error however late they ask. It stops growing once a client is ready,
    /// since no attempt starts after that.
    pub closed spec fn failures(&self) -> Seq<(u64, AppError)> {
        self.failures@
    }

    /// A client is kept exactly when the holder is ready.
    pub open spec fn well_formed(&self) -> bool {
        (self.phase() == HolderState::Ready) == (self.cached() is Some)
    }

    pub fn new() -> (h: ClientHolder<C>)
        ensures
            h.well_formed(),
            h.phase() == HolderState::Uninitialized,
            h.cached() is None,
            h.failures().len() == 0,
    {
        ClientHolder {
            state: HolderState::Uninitialized,
            attempt: 0,
            client: None,
            failures: Vec::new(),
        }
    }

    /// Decides what a new caller asking for the client does: with no client
    /// and no attempt running it starts one, during an attempt it waits, and
    /// once the client is ready it takes it.
    pub fn acquire(&mut self) -> (step: AcquireStep)
        requires
            old(self).well_formed(),
        ensures
            final(self).well_formed(),
            (final(self).phase(), final(self).attempt(), step) == acquire_step(
                old(self).phase(),
                old(self).attempt(),
            ),
            final(self).cached() == old(self).cached(),
            final(self).failures() == old(self).failures(),
    {
        match self.state {
            HolderState::Uninitialized | HolderState::Failed => {
                self.attempt = if self.attempt == u64::MAX {
                    0
                } else {
                    self.attempt + 1
                };
                self.state = HolderState::Initializing;
                AcquireStep::Initialize(self.attempt)
            },
            HolderState::Initializing => AcquireStep::Wait(self.attempt),
            HolderState::Ready => AcquireStep::UseCached,
        }
    }

    /// The error of the first recorded failure of attempt `waited`.
    fn failure_of(&self, waited: u64) -> (r: Option<AppError>)
        ensures
            r is Some <==> attempt_failed(self.failures(), waited),
            r is Some ==> exists|i: int|
                0 <= i < self.failures().len() && (#[trigger] self.failures()[i]).0 == waited
                    && same_error(r->Some_0, self.failures()[i].1),
    {
        let mut i: usize = 0;
        while i < self.failures.len()
            invariant
                i <= self.failures@.len(),
                forall|k: int| 0 <= k < i ==> (#[trigger] self.failures@[k]).0 != waited,
            decreases self.failures@.len() - i,
        {
            if self.failures[i].0 == waited {
                let e = self.failures[i].1.duplicate();
                assert(self.failures@[i as int].0 == waited);
                return Some(e);
            }
            i = i + 1;
        }
        None
    }

    /// Decides what a caller that waited on attempt `waited` does once that
    /// attempt has settled: if it failed, the caller gets its error and no
    /// new attempt starts, even where later callers have moved on; otherwise
    /// it is served as a new caller.
    pub fn poll(&mut self, waited: u64) -> (r: Result<AcquireStep, AppError>)
        requires
            old(self).well_formed(),
        ensures
            final(self).well_formed(),
            final(self).cached() == old(self).cached(),
            final(self).failures() == old(self).failures(),
            attempt_failed(old(self).failures(), waited) ==> {
                &&& r is Err
                &&& exists|i: int|
                    0 <= i < old(self).failures().len() && (#[trigger] old(self).failures()[i]).0
                        == waited && same_error(r->Err_0, old(self).failures()[i].1)
                &&& final(self).phase() == old(self).phase()
                &&& final(self).attempt() == old(self).attempt()
            },
            !attempt_failed(old(self).failures(), waited) ==> {
                let (s, a, step) = acquire_step(old(self).phase(), old(self).attempt());
                &&& r == Ok::<AcquireStep, AppError>(step)
                &&& final(self).phase() == s
                &&& final(self).attempt() == a
            },
    {
        match self.failure_of(waited) {
            Some(e) => Err(e),
            None => Ok(self.acquire()),
        }
    }

    /// Records the outcome of the attempt in progress: a new client is kept
    /// for every later caller; a failure is handed back, and kept for the
    /// callers that waited on this attempt.
    pub fn finish_init(&mut self, outcome: Result<C, AppError>) -> (r: Result<(), AppError>)
        requires
            old(self).well_formed(),
            old(self).phase() == HolderState::Initializing,
        ensures
            final(self).well_formed(),
            final(self).phase() == after_init(outcome is Ok),
            final(self).attempt() == old(self).attempt(),
            outcome is Ok ==> r is Ok && final(self).cached() == Some(outcome->Ok_0)
                && final(self).failures() == old(self).failures(),
            outcome is Err ==> {
                let last = final(self).failures().last();
                &&& r == Err::<(), AppError>(outcome->Err_0)
                &&& final(self).failures() == old(self).failures().push(
                    (old(self).attempt(), last.1),
                )
                &&& same_error(last.1, outcome->Err_0)
            },
    {
        match outcome {
            Ok(c) => {
                self.client = Some(c);
                self.state = HolderState::Ready;
                Ok(())
            },
            Err(e) => {
                self.failures.push((self.attempt, e.duplicate()));
                self.state = HolderState::Failed;
                Err(e)
            },
        }
    }

    /// Gives up the attempt in progress (its caller went away), so that the
    /// next caller starts a new one instead of waiting for ever.
    pub fn abandon_init(&mut self)
        requires
            old(self).well_formed(),
            old(self).phase() == HolderState::Initializing,
        ensures
            final(self).well_formed(),
            final(self).phase() == HolderState::Uninitialized,
            final(self).attempt() == old(self).attempt(),
            final(self).cached() is None,
            final(self).failures() == old(self).failures(),
    {
        self.state = HolderState::Uninitialized;
    }

    /// The shared client, once it is ready.
    pub fn client(&self) -> (r: Option<&C>)
        ensures
            r is Some <==> self.cached() is Some,
            r is Some ==> *r->Some_0 == self.cached()->Some_0,
    {
        match &self.client {
            Some(c) => Some(c),
            None => None,
        }
    }

    pub fn is_ready(&self) -> (r: bool)
        requires
            self.well_formed(),
        ensures
            r == (self.phase() == HolderState::Ready),
    {
        self.client.is_some()
    }
}

proof fn lemma_waiting_run(a: u64, n: nat)
    ensures
        acquire_run(HolderState::Initializing, a, n).0 == HolderState::Initializing,
        acquire_run(HolderState::Initializing, a, n).1 == a,
        acquire_run(HolderState::Initializing, a, n).2.len() == n,
        forall|i: int|
            0 <= i < n ==> #[trigger] acquire_run(HolderState::Initializing, a, n).2[i]
                == AcquireStep::Wait(a),
    decreases n,
{
    if n > 0 {
        lemma_waiting_run(a, (n - 1) as nat);
        let rest = acquire_run(HolderState::Initializing, a, (n - 1) as nat).2;
        assert forall|i: int| 0 <= i < n implies #[trigger] acquire_run(
            HolderState::Initializing,
            a,
            n,
        ).2[i] == AcquireStep::Wait(a) by {
            if i > 0 {
                assert(acquire_run(HolderState::Initializing, a, n).2[i] == rest[i - 1]);
            }
        }
    }
}

/// However many callers ask before the first attempt ends, exactly the first
/// is told to initialize and all the others wait on that same attempt. Once
/// it succeeds, every one of those waiters, and every later caller, is told
/// to take the cached client, which no step changes, so all of them get the
/// one same client.
pub proof fn lemma_single_initialization(a: u64, callers: nat, fs: Seq<(u64, AppError)>)
    requires
        callers >= 1,
        !attempt_failed(fs, next_attempt(a)),
    ensures
        ({
            let (s, a1, steps) = acquire_run(HolderState::Uninitialized, a, callers);
            &&& steps.len() == callers
            &&& steps[0] == AcquireStep::Initialize(next_attempt(a))
            &&& forall|i: int|
                1 <= i < callers ==> #[trigger] steps[i] == AcquireStep::Wait(next_attempt(a))
            &&& s == HolderState::Initializing
            &&& a1 == next_attempt(a)
        }),
        after_init(true) == HolderState::Ready,
        poll_step(HolderState::Ready, next_attempt(a), fs, next_attempt(a)) == Some(
            (HolderState::Ready, next_attempt(a), AcquireStep::UseCached),
        ),
        acquire_step(HolderState::Ready, next_attempt(a)) == (
            HolderState::Ready,
            next_attempt(a),
            AcquireStep::UseCached,
        ),
{
    let a1 = next_attempt(a);
    lemma_waiting_run(a1, (callers - 1) as nat);
    let rest = acquire_run(HolderState::Initializing, a1, (callers - 1) as nat).2;
    assert forall|i: int| 1 <= i < callers implies #[trigger] acquire_run(
        HolderState::Uninitialized,
        a,
        callers,
    ).2[i] == AcquireStep::Wait(a1) by {
        assert(acquire_run(HolderState::Uninitialized, a, callers).2[i] == rest[i - 1]);
    }
}

/// A failed attempt is reported to every caller that waited on it, however
/// late it asks and whatever the holder did meanwhile (new attempts, failed
/// or not, only add to the record), and none of them starts a new attempt.
/// Yet it never poisons the holder: the next new caller starts a new
/// attempt, and if that one succeeds the holder is ready.
pub proof fn lemma_failure_not_cached(
    fs: Seq<(u64, AppError)>,
    a: u64,
    e: AppError,
    later: Seq<(u64, AppError)>,
    s: HolderState,
    cur: u64,
)
    ensures
        attempt_failed(fs.push((a, e)) + later, a),
        poll_step(s, cur, fs.push((a, e)) + later, a) is None,
        after_init(false) == HolderState::Failed,
        acquire_step(HolderState::Failed, a) == (
            HolderState::Initializing,
            next_attempt(a),
            AcquireStep::Initialize(next_attempt(a)),
        ),
        after_init(true) == HolderState::Ready,
{
    let all = fs.push((a, e)) + later;
    assert(all[fs.len() as int] == (a, e));
}

} // verus!
