use vstd::prelude::*;

use crate::state::{State, StateModel};

verus! {

/// One successful poll response from the mining server: the parameters of
/// the round it currently considers active.
pub struct MiningInfo {
    pub generation_signature: String,
    pub height: u64,
    pub base_target: u64,
    pub target_deadline: u64,
}

/// Model of `MiningInfo` with the signature as its character sequence.
#[verifier::ext_equal]
pub ghost struct MiningInfoModel {
    pub generation_signature: Seq<char>,
    pub height: u64,
    pub base_target: u64,
    pub target_deadline: u64,
}

impl View for MiningInfo {
    type V = MiningInfoModel;

    open spec fn view(&self) -> MiningInfoModel {
        MiningInfoModel {
            generation_signature: self.generation_signature@,
            height: self.height,
            base_target: self.base_target,
            target_deadline: self.target_deadline,
        }
    }
}

/// The outcome of one poll attempt against the mining server. A timed-out
/// or malformed response counts as `Failure`.
pub enum PollOutcome {
    Success(MiningInfo),
    Failure,
}

/// Model of `PollOutcome`.
pub ghost enum PollOutcomeModel {
    Success(MiningInfoModel),
    Failure,
}

impl View for PollOutcome {
    type V = PollOutcomeModel;

    open spec fn view(&self) -> PollOutcomeModel {
        match self {
            PollOutcome::Success(info) => PollOutcomeModel::Success(info@),
            PollOutcome::Failure => PollOutcomeModel::Failure,
        }
    }
}

/// What the caller must do after one poll tick has been applied to the
/// state. Side effects (dispatching the round, reporting diagnostics) are
/// the caller's; the decision is made here.
#[derive(Clone, Copy, PartialEq, Eq, Structural, Debug)]
pub enum PollAction {
    /// A new round began: decode the signature, compute the scoop, and hand
    /// a `RoundInfo` to the hashing backend.
    NewRound,
    /// The server republished the round already held; do nothing.
    NoChange,
    /// The very first poll failed: report once that the server may be
    /// misconfigured.
    ReportFirstFailure,
    /// The first failure after a success: report once that an outage began.
    ReportOutageOnset,
    /// A repeated failure inside an outage: stay silent.
    OutageOngoing,
}

/// True for the actions that carry a diagnostic to the operator.
pub open spec fn reports(action: PollAction) -> bool {
    action == PollAction::ReportFirstFailure || action == PollAction::ReportOutageOnset
}

/// The transition the coordinator makes on one poll outcome.
///
/// On success the outage flag clears; if the generation signature differs
/// from the one held, the round parameters are taken over atomically and the
/// best deadline resets, otherwise nothing else changes. On failure the
/// outage flag sets, and a diagnostic is due only at the edge: on the first
/// outcome ever, or on the first failure after a success.
pub open spec fn poll_step(s: StateModel, outcome: PollOutcomeModel) -> (StateModel, PollAction) {
    match outcome {
        PollOutcomeModel::Success(info) => {
            if info.generation_signature == s.generation_signature {
                (StateModel { first: false, outage: false, ..s }, PollAction::NoChange)
            } else {
                (
                    StateModel {
                        generation_signature: info.generation_signature,
                        base_target: info.base_target,
                        height: info.height,
                        server_target_deadline: info.target_deadline,
                        first: false,
                        outage: false,
                        best_deadline: u64::MAX,
                    },
                    PollAction::NewRound,
                )
            }
        }
        PollOutcomeModel::Failure => {
            let action = if s.first {
                PollAction::ReportFirstFailure
            } else if !s.outage {
                PollAction::ReportOutageOnset
            } else {
                PollAction::OutageOngoing
            };
            (StateModel { first: false, outage: true, ..s }, action)
        }
    }
}

/// Applies one poll outcome to the shared state and returns the action the
/// caller owes: exactly the transition `poll_step` describes.
pub fn handle_poll(state: &mut State, outcome: PollOutcome) -> (action: PollAction)
    ensures
        final(state)@ == poll_step(old(state)@, outcome@).0,
        action == poll_step(old(state)@, outcome@).1,
{
    match outcome {
        PollOutcome::Success(info) => {
            if info.generation_signature == state.generation_signature {
                state.first = false;
                state.outage = false;
                proof {
                    assert(state@ =~= poll_step(old(state)@, PollOutcomeModel::Success(info@)).0);
                }
                PollAction::NoChange
            } else {
                state.generation_signature = info.generation_signature;
                state.height = info.height;
                state.base_target = info.base_target;
                state.server_target_deadline = info.target_deadline;
                state.best_deadline = u64::MAX;
                state.first = false;
                state.outage = false;
                PollAction::NewRound
            }
        }
        PollOutcome::Failure => {
            let action = if state.first {
                PollAction::ReportFirstFailure
            } else if !state.outage {
                PollAction::ReportOutageOnset
            } else {
                PollAction::OutageOngoing
            };
            state.first = false;
            state.outage = true;
            action
        }
    }
}

/// A poll transition keeps the state invariant.
pub proof fn lemma_poll_step_preserves_inv(s: StateModel, outcome: PollOutcomeModel)
    requires
        s.inv(),
    ensures
        poll_step(s, outcome).0.inv(),
{
}

/// Outage edge-triggering: a failed poll carries a diagnostic exactly when
/// it starts an outage — when no outage was recorded at the previous
/// outcome — and every failure leaves the state marked as in outage with
/// the first-poll flag cleared. Repeated failures inside an outage are
/// silent, so a sustained outage produces one diagnostic at onset.
pub proof fn lemma_outage_edge_triggered(s: StateModel)
    requires
        s.inv(),
    ensures
        reports(poll_step(s, PollOutcomeModel::Failure).1) <==> !s.outage,
        poll_step(s, PollOutcomeModel::Failure).0.outage,
        !poll_step(s, PollOutcomeModel::Failure).0.first,
{
}

/// The state after folding a sequence of poll outcomes, first outcome first.
pub open spec fn poll_fold(s: StateModel, outcomes: Seq<PollOutcomeModel>) -> StateModel
    decreases outcomes.len(),
{
    if outcomes.len() == 0 {
        s
    } else {
        poll_fold(poll_step(s, outcomes[0]).0, outcomes.subrange(1, outcomes.len() as int))
    }
}

/// Round-change idempotence: once a successful poll has established the
/// round (the first-poll and outage flags are clear), a run of successful
/// polls that all carry the generation signature already held leaves the
/// state exactly as it was, and every one of them is a no-op that dispatches
/// nothing.
pub proof fn lemma_unchanged_signature_polls_are_noops(s: StateModel, outcomes: Seq<PollOutcomeModel>)
    requires
        !s.first,
        !s.outage,
        forall|i: int|
            0 <= i < outcomes.len() ==> ((#[trigger] outcomes[i]) matches PollOutcomeModel::Success(info)
                && info.generation_signature == s.generation_signature),
    ensures
        poll_fold(s, outcomes) == s,
        forall|i: int| 0 <= i < outcomes.len() ==> poll_step(s, outcomes[i]).1 == PollAction::NoChange,
    decreases outcomes.len(),
{
    if outcomes.len() > 0 {
        assert(outcomes[0] matches PollOutcomeModel::Success(info)
            && info.generation_signature == s.generation_signature);
        assert(poll_step(s, outcomes[0]).0 =~= s);
        lemma_unchanged_signature_polls_are_noops(s, outcomes.subrange(1, outcomes.len() as int));
        assert(forall|i: int|
            1 <= i < outcomes.len() ==> outcomes[i]
                == outcomes.subrange(1, outcomes.len() as int)[i - 1]);
    }
}

} // verus!
