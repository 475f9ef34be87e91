//! The fetch coordinator: a two-field state machine for one remote joke
//! fetch at a time.
//!
//! The coordinator owns a `loading` flag and the outcome of the most
//! recently completed fetch. A refresh request flips `loading` on and keeps
//! the previous outcome visible; a completion stores the new outcome and
//! flips `loading` off in one step. Outcomes are only ever replaced, never
//! accumulated: at most one is visible at a time.

use vstd::prelude::*;

verus! {

/// A joke as delivered by the remote source: an opaque non-empty
/// identifier and the human-readable joke text.
#[derive(Clone, Debug, PartialEq, Eq)]
pub struct JokeRecord {
    pub id: String,
    pub text: String,
}

/// Mathematical image of a `JokeRecord`: both fields as character sequences.
pub struct JokeRecordModel {
    pub id: Seq<char>,
    pub text: Seq<char>,
}

/// The result of one completed fetch attempt: a joke, or a single
/// human-readable failure message covering transport and payload errors
/// alike.
#[derive(Clone, Debug, PartialEq, Eq)]
pub enum FetchOutcome {
    Success(JokeRecord),
    Failure(String),
}

/// Mathematical image of a `FetchOutcome`.
pub enum FetchOutcomeModel {
    Success(JokeRecordModel),
    Failure(Seq<char>),
}

/// What a renderer reads: whether a fetch is in flight, and the outcome of
/// the most recent completed fetch, if any.
#[derive(Clone, Debug, PartialEq, Eq)]
pub struct CoordinatorState {
    pub loading: bool,
    pub last_outcome: Option<FetchOutcome>,
}

/// Mathematical image of a `CoordinatorState`.
pub struct CoordinatorStateModel {
    pub loading: bool,
    pub last_outcome: Option<FetchOutcomeModel>,
}

impl View for JokeRecord {
    type V = JokeRecordModel;

    open spec fn view(&self) -> JokeRecordModel {
        JokeRecordModel { id: self.id@, text: self.text@ }
    }
}

impl View for FetchOutcome {
    type V = FetchOutcomeModel;

    open spec fn view(&self) -> FetchOutcomeModel {
        match self {
            FetchOutcome::Success(j) => FetchOutcomeModel::Success(j@),
            FetchOutcome::Failure(m) => FetchOutcomeModel::Failure(m@),
        }
    }
}

impl View for CoordinatorState {
    type V = CoordinatorStateModel;

    open spec fn view(&self) -> CoordinatorStateModel {
        CoordinatorStateModel {
            loading: self.loading,
            last_outcome: match self.last_outcome {
                Some(o) => Some(o@),
                None => None,
            },
        }
    }
}

impl JokeRecordModel {
    /// A record is well formed when its identifier is non-empty.
    pub open spec fn wf(self) -> bool {
        self.id.len() > 0
    }
}

impl FetchOutcomeModel {
    /// An outcome is well formed when a successful one carries a well-formed
    /// record; a failure message is unconstrained.
    pub open spec fn wf(self) -> bool {
        match self {
            FetchOutcomeModel::Success(j) => j.wf(),
            FetchOutcomeModel::Failure(_) => true,
        }
    }
}

impl CoordinatorStateModel {
    /// A state is well formed when the stored outcome, if any, is.
    pub open spec fn wf(self) -> bool {
        match self.last_outcome {
            Some(o) => o.wf(),
            None => true,
        }
    }
}

impl JokeRecord {
    pub open spec fn wf(self) -> bool {
        self@.wf()
    }

    /// Builds a record from an identifier and a joke text. The identifier
    /// must be non-empty: the remote source never hands out an empty one.
    pub fn new(id: String, text: String) -> (r: JokeRecord)
        requires
            id@.len() > 0,
        ensures
            r@ == (JokeRecordModel { id: id@, text: text@ }),
            r.wf(),
    {
        JokeRecord { id, text }
    }
}

impl FetchOutcome {
    pub open spec fn wf(self) -> bool {
        self@.wf()
    }
}

impl CoordinatorState {
    pub open spec fn wf(self) -> bool {
        self@.wf()
    }
}

/// The state every coordinator starts in: no fetch in flight, no outcome.
pub open spec fn initial_state() -> CoordinatorStateModel {
    CoordinatorStateModel { loading: false, last_outcome: None }
}

/// The step a refresh request takes: `loading` goes on; the previous
/// outcome stays visible untouched.
pub open spec fn refresh_step(s: CoordinatorStateModel) -> CoordinatorStateModel {
    CoordinatorStateModel { loading: true, last_outcome: s.last_outcome }
}

/// The step a fetch completion takes: the outcome replaces whatever was
/// stored and `loading` goes off, as one indivisible update.
pub open spec fn complete_step(
    s: CoordinatorStateModel,
    o: FetchOutcomeModel,
) -> CoordinatorStateModel {
    CoordinatorStateModel { loading: false, last_outcome: Some(o) }
}

/// Owns the coordinator state. It is the single writer: the state changes
/// only through `request_refresh` and `complete_fetch`, and readers take
/// snapshots through `read_state`.
pub struct Coordinator {
    state: CoordinatorState,
}

impl View for Coordinator {
    type V = CoordinatorStateModel;

    closed spec fn view(&self) -> CoordinatorStateModel {
        self.state@
    }
}

impl Coordinator {
    pub open spec fn wf(self) -> bool {
        self@.wf()
    }

    /// A fresh coordinator: not loading, no outcome yet.
    pub fn new() -> (c: Coordinator)
        ensures
            c@ == initial_state(),
            c.wf(),
    {
        Coordinator { state: CoordinatorState { loading: false, last_outcome: None } }
    }

    /// Records that a fetch has been requested. Returns at once: the remote
    /// call itself runs elsewhere and reports back through `complete_fetch`.
    /// Safe to call in any state; a refresh during a pending fetch simply
    /// keeps `loading` on.
    pub fn request_refresh(&mut self)
        requires
            old(self).wf(),
        ensures
            final(self)@ == refresh_step(old(self)@),
            final(self)@.loading == true,
            final(self)@.last_outcome == old(self)@.last_outcome,
            final(self).wf(),
    {
        self.state.loading = true;
    }

    /// Records the outcome of a completed fetch: the outcome replaces any
    /// previous one and `loading` goes off, in one call, so no reader can
    /// see the new outcome beside a stale `loading` flag.
    pub fn complete_fetch(&mut self, outcome: FetchOutcome)
        requires
            old(self).wf(),
            outcome.wf(),
        ensures
            final(self)@ == complete_step(old(self)@, outcome@),
            final(self)@.loading == false,
            final(self)@.last_outcome == Some(outcome@),
            final(self).wf(),
    {
        self.state.last_outcome = Some(outcome);
        self.state.loading = false;
    }

    /// A snapshot of the current state. Pure: the coordinator is untouched,
    /// so reads with no transition in between all return the same value.
    pub fn read_state(&self) -> (s: CoordinatorState)
        ensures
            s@ == self@,
    {
        let last = match &self.state.last_outcome {
            Some(FetchOutcome::Success(j)) => Some(
                FetchOutcome::Success(JokeRecord { id: j.id.clone(), text: j.text.clone() }),
            ),
            Some(FetchOutcome::Failure(m)) => Some(FetchOutcome::Failure(m.clone())),
            None => None,
        };
        CoordinatorState { loading: self.state.loading, last_outcome: last }
    }
}

/// Outcomes never accumulate: whatever the state and whatever an earlier
/// fetch returned, a refresh-and-complete cycle after another leaves
/// exactly the later outcome, with no trace of the earlier one.
pub proof fn lemma_no_history(
    s: CoordinatorStateModel,
    o1: FetchOutcomeModel,
    o2: FetchOutcomeModel,
)
    ensures
        complete_step(refresh_step(complete_step(refresh_step(s), o1)), o2)
            == (CoordinatorStateModel { loading: false, last_outcome: Some(o2) }),
{
}

/// Reads are idempotent: any two snapshots taken from one coordinator with
/// no transition in between are equal.
pub proof fn lemma_reads_idempotent(
    c: CoordinatorStateModel,
    s1: CoordinatorStateModel,
    s2: CoordinatorStateModel,
)
    requires
        s1 == c,
        s2 == c,
    ensures
        s1 == s2,
{
}

} // verus!
