//! Completion cells: the bridge from the decoding engine's fire-and-forget
//! completion callbacks to results that a consumer awaits.
//!
//! Each submitted unit of work gets a slot in a `CompletionTable`, keyed by a
//! token that travels through the engine as the job's private data. The engine's
//! callback resolves the slot once; the consumer takes the outcome once. A
//! consumer that goes away early leaves the slot in place, so that the late
//! callback still finds it, and the callback then clears it.

use vstd::prelude::*;
use crate::error::RedError;
use crate::handles::{Handle, HandleTable, HANDLE_FALLBACK};

verus! {

/// Where one unit of work stands.
pub enum CellState<T> {
    /// Handed to the engine, which has not reported yet; the work waits here.
    Pending(T),
    /// The engine has reported; the outcome waits for the consumer.
    Resolved(Result<T, RedError>),
}

/// One submitted unit of work, with the notifier that wakes its consumer.
pub struct Slot<T, N> {
    pub state: CellState<T>,
    /// Whether a consumer still waits for the outcome.
    pub waited_on: bool,
    pub notifier: N,
}

/// What the engine's callback did to a slot.
#[derive(Clone, Copy, Debug, PartialEq, Eq, Structural)]
pub enum Completion {
    /// The outcome is stored and the consumer is to be woken.
    Delivered,
    /// Nobody waits any more: the work and its outcome were dropped with the slot.
    Discarded,
    /// The slot was already resolved; the second report changed nothing.
    Duplicate,
    /// No slot has this token; nothing changed.
    UnknownToken,
}

/// What a consumer finds when it looks at its slot.
pub enum PollResult<T> {
    /// The outcome, handed over once; the slot is gone afterwards.
    Ready(Result<T, RedError>),
    /// The engine has not reported yet.
    Pending,
    /// There is no slot: the outcome was already taken, or the token is unknown.
    Gone,
}

/// The outcome that a report gives for a unit of work: the work itself on
/// success, the reported error otherwise.
pub open spec fn outcome_of<T>(job: T, status: Result<(), RedError>) -> Result<T, RedError> {
    match status {
        Ok(()) => Ok(job),
        Err(e) => Err(e),
    }
}

/// The slots after `job` has been registered under `token`.
pub open spec fn submitted<T, N>(
    m: Map<Handle, Slot<T, N>>,
    token: Handle,
    job: T,
    notifier: N,
) -> Map<Handle, Slot<T, N>> {
    m.insert(token, Slot { state: CellState::Pending(job), waited_on: true, notifier })
}

/// What the engine's callback does to the slot of `token`.
pub open spec fn completion_of<T, N>(m: Map<Handle, Slot<T, N>>, token: Handle) -> Completion {
    if !m.contains_key(token) {
        Completion::UnknownToken
    } else if m[token].state is Resolved {
        Completion::Duplicate
    } else if m[token].waited_on {
        Completion::Delivered
    } else {
        Completion::Discarded
    }
}

/// The slots after the engine's callback reported `status` for `token`.
pub open spec fn completed<T, N>(
    m: Map<Handle, Slot<T, N>>,
    token: Handle,
    status: Result<(), RedError>,
) -> Map<Handle, Slot<T, N>> {
    match completion_of(m, token) {
        Completion::Delivered => m.insert(
            token,
            Slot {
                state: CellState::Resolved(outcome_of(m[token].state->Pending_0, status)),
                waited_on: true,
                notifier: m[token].notifier,
            },
        ),
        Completion::Discarded => m.remove(token),
        _ => m,
    }
}

/// The slots after the consumer of `token` looked for its outcome.
pub open spec fn polled<T, N>(m: Map<Handle, Slot<T, N>>, token: Handle) -> Map<Handle, Slot<T, N>> {
    if m.contains_key(token) && m[token].state is Resolved {
        m.remove(token)
    } else {
        m
    }
}

/// The slots after the consumer of `token` went away.
pub open spec fn abandoned<T, N>(m: Map<Handle, Slot<T, N>>, token: Handle) -> Map<Handle, Slot<T, N>> {
    if !m.contains_key(token) {
        m
    } else if m[token].state is Pending {
        m.insert(
            token,
            Slot { state: m[token].state, waited_on: false, notifier: m[token].notifier },
        )
    } else {
        m.remove(token)
    }
}

/// The slots of all units of work that are submitted and not yet settled.
pub struct CompletionTable<T, N> {
    slots: HandleTable<Slot<T, N>>,
}

impl<T, N> View for CompletionTable<T, N> {
    type V = Map<Handle, Slot<T, N>>;

    closed spec fn view(&self) -> Map<Handle, Slot<T, N>> {
        self.slots@
    }
}

impl<T, N> CompletionTable<T, N> {
    pub closed spec fn wf(&self) -> bool {
        self.slots.wf()
    }

    /// Whether a fresh token is left for another submission.
    pub closed spec fn has_room(&self) -> bool {
        self.slots.next_handle() < HANDLE_FALLBACK
    }

    pub fn new() -> (t: Self)
        ensures
            t.wf(),
            t.has_room(),
            t@ == Map::<Handle, Slot<T, N>>::empty(),
    {
        CompletionTable { slots: HandleTable::new() }
    }

    /// Registers a unit of work before it is handed to the engine, and returns
    /// the token to pass along as the job's private data. When no token is left,
    /// the work and the notifier come back in `Err`.
    pub fn submit(&mut self, job: T, notifier: N) -> (res: Result<Handle, (T, N)>)
        requires
            old(self).wf(),
        ensures
            final(self).wf(),
            res is Ok <==> old(self).has_room(),
            match res {
                Ok(token) => {
                    &&& !old(self)@.contains_key(token)
                    &&& final(self)@ == submitted(old(self)@, token, job, notifier)
                },
                Err(back) => back == (job, notifier) && final(self)@ == old(self)@,
            },
    {
        if !self.slots.has_room() {
            return Err((job, notifier));
        }
        let slot = Slot { state: CellState::Pending(job), waited_on: true, notifier };
        Ok(self.slots.issue(slot))
    }

    /// Settles a submission once the engine's submitting call has answered. On
    /// success the token stays registered and is handed back for the consumer to
    /// wait on. On a synchronous rejection the slot and the work in it are
    /// dropped, so nothing is left for a callback, and the rejection comes back
    /// as the error.
    pub fn settle_submission(&mut self, token: Handle, status: Result<(), RedError>) -> (res:
        Result<Handle, RedError>)
        requires
            old(self).wf(),
        ensures
            final(self).wf(),
            final(self).has_room() == old(self).has_room(),
            match status {
                Ok(()) => res == Ok::<Handle, RedError>(token) && final(self)@ == old(self)@,
                Err(e) => res == Err::<Handle, RedError>(e) && final(self)@ == old(self)@.remove(
                    token,
                ),
            },
    {
        match status {
            Ok(()) => Ok(token),
            Err(e) => {
                let _ = self.slots.retire(token);
                Err(e)
            },
        }
    }

    /// What the engine's completion callback does: it resolves the slot of
    /// `token` with the reported status, once. A slot that nobody waits on any
    /// more is cleared instead; a second report and an unknown token change
    /// nothing.
    pub fn complete(&mut self, token: Handle, status: Result<(), RedError>) -> (c: Completion)
        requires
            old(self).wf(),
        ensures
            final(self).wf(),
            final(self).has_room() == old(self).has_room(),
            c == completion_of(old(self)@, token),
            final(self)@ == completed(old(self)@, token, status),
    {
        match self.slots.retire(token) {
            None => Completion::UnknownToken,
            Some(slot) => {
                let Slot { state, waited_on, notifier } = slot;
                match state {
                    CellState::Pending(job) => {
                        if waited_on {
                            let outcome = match status {
                                Ok(()) => Ok(job),
                                Err(e) => Err(e),
                            };
                            let resolved = Slot {
                                state: CellState::Resolved(outcome),
                                waited_on: true,
                                notifier,
                            };
                            self.slots.put_back(token, resolved);
                            Completion::Delivered
                        } else {
                            Completion::Discarded
                        }
                    },
                    CellState::Resolved(outcome) => {
                        let same = Slot { state: CellState::Resolved(outcome), waited_on, notifier };
                        self.slots.put_back(token, same);
                        proof {
                            assert(self@ =~= old(self)@);
                        }
                        Completion::Duplicate
                    },
                }
            },
        }
    }

    /// What the consumer of `token` does when it is polled: it takes the
    /// outcome if the slot is resolved, which clears the slot.
    pub fn poll(&mut self, token: Handle) -> (p: PollResult<T>)
        requires
            old(self).wf(),
        ensures
            final(self).wf(),
            final(self).has_room() == old(self).has_room(),
            final(self)@ == polled(old(self)@, token),
            match p {
                PollResult::Ready(outcome) => {
                    &&& old(self)@.contains_key(token)
                    &&& old(self)@[token].state == CellState::<T>::Resolved(outcome)
                },
                PollResult::Pending => {
                    &&& old(self)@.contains_key(token)
                    &&& old(self)@[token].state is Pending
                },
                PollResult::Gone => !old(self)@.contains_key(token),
            },
    {
        match self.slots.retire(token) {
            None => PollResult::Gone,
            Some(slot) => {
                let Slot { state, waited_on, notifier } = slot;
                match state {
                    CellState::Resolved(outcome) => PollResult::Ready(outcome),
                    CellState::Pending(job) => {
                        let same = Slot { state: CellState::Pending(job), waited_on, notifier };
                        self.slots.put_back(token, same);
                        proof {
                            assert(self@ =~= old(self)@);
                        }
                        PollResult::Pending
                    },
                }
            },
        }
    }

    /// What happens when the consumer of `token` goes away. A pending slot stays,
    /// marked as not waited on, so that the engine's late callback still finds
    /// it; a resolved slot is cleared with its outcome.
    pub fn abandon(&mut self, token: Handle)
        requires
            old(self).wf(),
        ensures
            final(self).wf(),
            final(self).has_room() == old(self).has_room(),
            final(self)@ == abandoned(old(self)@, token),
    {
        match self.slots.retire(token) {
            None => {},
            Some(slot) => {
                let Slot { state, waited_on, notifier } = slot;
                match state {
                    CellState::Pending(job) => {
                        let left = Slot { state: CellState::Pending(job), waited_on: false, notifier };
                        self.slots.put_back(token, left);
                    },
                    CellState::Resolved(_) => {},
                }
            },
        }
    }

    /// The notifier registered with the slot of `token`.
    pub fn notifier(&self, token: Handle) -> (n: Option<&N>)
        ensures
            match n {
                Some(n) => self@.contains_key(token) && *n == self@[token].notifier,
                None => !self@.contains_key(token),
            },
    {
        match self.slots.get(token) {
            Some(slot) => Some(&slot.notifier),
            None => None,
        }
    }

    /// Whether `token` has a slot.
    pub fn contains(&self, token: Handle) -> (b: bool)
        ensures
            b == self@.contains_key(token),
    {
        self.slots.contains(token)
    }
}

/// A unit of work resolves exactly once. The first report on a pending slot that
/// is waited on delivers; any later report is a duplicate that changes nothing.
/// The consumer then takes the outcome once, after which no slot is left for the
/// token, so neither a further report nor a further poll finds anything.
pub proof fn resolves_exactly_once<T, N>(
    m: Map<Handle, Slot<T, N>>,
    token: Handle,
    first: Result<(), RedError>,
    second: Result<(), RedError>,
)
    requires
        m.contains_key(token),
        m[token].state is Pending,
        m[token].waited_on,
    ensures
        completion_of(m, token) == Completion::Delivered,
        completed(m, token, first)[token].state == CellState::<T>::Resolved(
            outcome_of(m[token].state->Pending_0, first),
        ),
        completion_of(completed(m, token, first), token) == Completion::Duplicate,
        completed(completed(m, token, first), token, second) == completed(m, token, first),
        !polled(completed(m, token, first), token).contains_key(token),
        completion_of(polled(completed(m, token, first), token), token)
            == Completion::UnknownToken,
{
}

/// Waiting never loses a pending slot: neither a poll nor the consumer going away
/// removes it before the engine reports, so the report always finds its slot.
pub proof fn pending_slot_awaits_report<T, N>(m: Map<Handle, Slot<T, N>>, token: Handle)
    requires
        m.contains_key(token),
        m[token].state is Pending,
    ensures
        polled(m, token) == m,
        abandoned(m, token).contains_key(token),
        abandoned(m, token)[token].state == m[token].state,
        completion_of(m, token) != Completion::UnknownToken,
        completion_of(abandoned(m, token), token) == Completion::Discarded,
{
}

/// The work handed in is the work handed back: a job submitted under a token and
/// reported as a success resolves to exactly that job.
pub proof fn job_identity_round_trip<T, N>(
    m: Map<Handle, Slot<T, N>>,
    token: Handle,
    job: T,
    notifier: N,
)
    ensures
        ({
            let done = completed(submitted(m, token, job, notifier), token, Ok(()));
            &&& done.contains_key(token)
            &&& done[token].state == CellState::<T>::Resolved(Ok(job))
        }),
{
}

/// The slots after the engine reported, one after the other, each token with its
/// status.
pub open spec fn completed_all<T, N>(
    m: Map<Handle, Slot<T, N>>,
    reports: Seq<(Handle, Result<(), RedError>)>,
) -> Map<Handle, Slot<T, N>>
    decreases reports.len(),
{
    if reports.len() == 0 {
        m
    } else {
        completed_all(completed(m, reports[0].0, reports[0].1), reports.drop_first())
    }
}

/// The tokens of a sequence of reports.
pub open spec fn reported_tokens(reports: Seq<(Handle, Result<(), RedError>)>) -> Seq<Handle> {
    reports.map_values(|r: (Handle, Result<(), RedError>)| r.0)
}

/// No cross-talk: when several pending jobs are reported in any order, each slot
/// resolves with its own job and its own status, and the slots of tokens that were
/// not reported stay as they were.
pub proof fn reports_resolve_their_own_slots<T, N>(
    m: Map<Handle, Slot<T, N>>,
    reports: Seq<(Handle, Result<(), RedError>)>,
)
    requires
        reported_tokens(reports).no_duplicates(),
        forall|i: int|
            0 <= i < reports.len() ==> {
                &&& #[trigger] m.contains_key(reports[i].0)
                &&& m[reports[i].0].state is Pending
                &&& m[reports[i].0].waited_on
            },
    ensures
        forall|i: int|
            0 <= i < reports.len() ==> {
                let t = #[trigger] reports[i].0;
                &&& completed_all(m, reports).contains_key(t)
                &&& completed_all(m, reports)[t].state == CellState::<T>::Resolved(
                    outcome_of(m[t].state->Pending_0, reports[i].1),
                )
            },
        forall|t: Handle|
            !reported_tokens(reports).contains(t) ==> {
                &&& #[trigger] completed_all(m, reports).contains_key(t) == m.contains_key(t)
                &&& m.contains_key(t) ==> completed_all(m, reports)[t] == m[t]
            },
    decreases reports.len(),
{
    if reports.len() > 0 {
        let (t0, s0) = reports[0];
        let m1 = completed(m, t0, s0);
        let rest = reports.drop_first();
        assert(reported_tokens(rest) =~= reported_tokens(reports).drop_first());
        assert forall|i: int| 0 <= i < rest.len() implies {
            &&& #[trigger] m1.contains_key(rest[i].0)
            &&& m1[rest[i].0].state is Pending
            &&& m1[rest[i].0].waited_on
        } by {
            assert(rest[i] == reports[i + 1]);
            assert(reported_tokens(reports)[i + 1] == rest[i].0);
            assert(reported_tokens(reports)[0] == t0);
        }
        reports_resolve_their_own_slots(m1, rest);
        assert(completed_all(m, reports) == completed_all(m1, rest));
        assert forall|i: int| 0 <= i < reports.len() implies {
            let t = #[trigger] reports[i].0;
            &&& completed_all(m, reports).contains_key(t)
            &&& completed_all(m, reports)[t].state == CellState::<T>::Resolved(
                outcome_of(m[t].state->Pending_0, reports[i].1),
            )
        } by {
            if i == 0 {
                assert(!reported_tokens(rest).contains(t0)) by {
                    if reported_tokens(rest).contains(t0) {
                        let j = choose|j: int|
                            0 <= j < reported_tokens(rest).len() && reported_tokens(rest)[j] == t0;
                        assert(reported_tokens(reports)[j + 1] == t0);
                        assert(reported_tokens(reports)[0] == t0);
                    }
                }
                assert(completed_all(m1, rest).contains_key(t0) == m1.contains_key(t0));
                assert(completed_all(m1, rest)[t0] == m1[t0]);
            } else {
                let j = i - 1;
                assert(rest[j] == reports[i]);
                assert(reported_tokens(reports)[i] == reports[i].0);
                assert(reported_tokens(reports)[0] == t0);
                assert(reports[i].0 != t0);
                assert(rest[j].0 == reports[i].0);
                assert(m1[reports[i].0] == m[reports[i].0]);
            }
        }
        assert forall|t: Handle| !reported_tokens(reports).contains(t) implies {
            &&& #[trigger] completed_all(m, reports).contains_key(t) == m.contains_key(t)
            &&& m.contains_key(t) ==> completed_all(m, reports)[t] == m[t]
        } by {
            assert(reported_tokens(reports)[0] == t0);
            if reported_tokens(rest).contains(t) {
                let j = choose|j: int|
                    0 <= j < reported_tokens(rest).len() && reported_tokens(rest)[j] == t;
                assert(reported_tokens(reports)[j + 1] == t);
            }
            assert(t != t0);
            assert(m1.contains_key(t) == m.contains_key(t));
            assert(m.contains_key(t) ==> m1[t] == m[t]);
            assert(completed_all(m1, rest).contains_key(t) == m1.contains_key(t));
        }
    }
}

/// A consumer that goes away early leaks nothing and breaks nothing. The late
/// report finds the slot, drops it with its work, wakes nobody, and leaves every
/// other slot as it was. Going away after the report clears the slot just the same.
pub proof fn abandoned_slot_is_cleared<T, N>(
    m: Map<Handle, Slot<T, N>>,
    token: Handle,
    status: Result<(), RedError>,
)
    requires
        m.contains_key(token),
        m[token].state is Pending,
    ensures
        completion_of(abandoned(m, token), token) == Completion::Discarded,
        completed(abandoned(m, token), token, status) =~= m.remove(token),
        m[token].waited_on ==> abandoned(completed(m, token, status), token) =~= m.remove(token),
{
}

} // verus!
