use vstd::prelude::*;

use crate::poll::{poll_step, PollAction, PollOutcomeModel, MiningInfoModel};
use crate::state::{State, StateModel};

verus! {

/// One nonce candidate discovered by the hashing backend, awaiting the
/// decision whether it is worth submitting.
#[derive(Clone, Copy, PartialEq, Eq, Structural, Debug)]
pub struct NonceData {
    pub numeric_id: u64,
    pub nonce: u64,
    /// Height of the round the candidate was found for.
    pub height: u64,
    /// Unscaled deadline from the hash result.
    pub deadline: u64,
    /// Deadline normalized for the declared capacity; the quantity all
    /// acceptance decisions compare.
    pub deadline_adjusted: u64,
    pub capacity: u64,
}

/// A candidate is accepted exactly when it belongs to the active round,
/// strictly improves on the best deadline seen this round, and lies below
/// the operator's target deadline.
pub open spec fn accepts(s: StateModel, c: NonceData, target_deadline: u64) -> bool {
    &&& c.height == s.height
    &&& c.deadline_adjusted < s.best_deadline
    &&& c.deadline_adjusted < target_deadline
}

/// The transition the coordinator makes on one candidate: an accepted
/// candidate becomes the best deadline seen, a rejected one changes nothing.
pub open spec fn collect_step(s: StateModel, c: NonceData, target_deadline: u64) -> StateModel {
    if accepts(s, c, target_deadline) {
        StateModel { best_deadline: c.deadline_adjusted, ..s }
    } else {
        s
    }
}

/// Evaluates one candidate against the shared state: returns whether the
/// caller must submit it, and records its deadline as the best seen iff so.
/// Exactly the transition `collect_step` describes.
pub fn evaluate_candidate(state: &mut State, candidate: &NonceData, target_deadline: u64) -> (submit: bool)
    ensures
        submit == accepts(old(state)@, *candidate, target_deadline),
        final(state)@ == collect_step(old(state)@, *candidate, target_deadline),
{
    if state.height == candidate.height
        && state.best_deadline > candidate.deadline_adjusted
        && candidate.deadline_adjusted < target_deadline
    {
        state.best_deadline = candidate.deadline_adjusted;
        proof {
            assert(state@ =~= collect_step(old(state)@, *candidate, target_deadline));
        }
        true
    } else {
        false
    }
}

/// Stale-candidate rejection: a candidate whose height differs from the
/// active round's is never accepted, however low its deadline.
pub proof fn lemma_stale_candidate_rejected(s: StateModel, c: NonceData, target_deadline: u64)
    requires
        c.height != s.height,
    ensures
        !accepts(s, c, target_deadline),
        collect_step(s, c, target_deadline) == s,
{
}

/// Threshold gate: a candidate whose adjusted deadline reaches the target
/// deadline is never accepted, even when it improves on the best seen.
pub proof fn lemma_threshold_gate(s: StateModel, c: NonceData, target_deadline: u64)
    requires
        c.deadline_adjusted >= target_deadline,
    ensures
        !accepts(s, c, target_deadline),
        collect_step(s, c, target_deadline) == s,
{
}

/// Reset on new round: a poll that changes the generation signature
/// dispatches a new round and resets the best deadline, so the next
/// candidate of the new round's height with any adjusted deadline below the
/// target is accepted — the previous round's best never blocks it.
pub proof fn lemma_reset_on_new_round(
    s: StateModel,
    info: MiningInfoModel,
    c: NonceData,
    target_deadline: u64,
)
    requires
        info.generation_signature != s.generation_signature,
        c.height == info.height,
        c.deadline_adjusted < target_deadline,
    ensures
        poll_step(s, PollOutcomeModel::Success(info)).1 == PollAction::NewRound,
        accepts(poll_step(s, PollOutcomeModel::Success(info)).0, c, target_deadline),
{
}

/// The state after folding a sequence of candidates, first arrival first.
pub open spec fn collect_fold(s: StateModel, cs: Seq<NonceData>, target_deadline: u64) -> StateModel
    decreases cs.len(),
{
    if cs.len() == 0 {
        s
    } else {
        collect_fold(collect_step(s, cs[0], target_deadline), cs.subrange(1, cs.len() as int), target_deadline)
    }
}

/// The adjusted deadlines of the candidates accepted along a fold, in
/// acceptance order.
pub open spec fn accepted_deadlines(s: StateModel, cs: Seq<NonceData>, target_deadline: u64) -> Seq<u64>
    decreases cs.len(),
{
    if cs.len() == 0 {
        Seq::<u64>::empty()
    } else if accepts(s, cs[0], target_deadline) {
        seq![cs[0].deadline_adjusted]
            + accepted_deadlines(collect_step(s, cs[0], target_deadline), cs.subrange(1, cs.len() as int), target_deadline)
    } else {
        accepted_deadlines(s, cs.subrange(1, cs.len() as int), target_deadline)
    }
}

/// Best-deadline monotonicity: over any candidate sequence within one round,
/// the best deadline never increases and only the best deadline moves; if no
/// candidate is accepted it is unchanged, and otherwise it ends equal to the
/// minimum — in fact the last — of the accepted candidates' adjusted
/// deadlines.
pub proof fn lemma_best_deadline_monotonic_minimal(s: StateModel, cs: Seq<NonceData>, target_deadline: u64)
    ensures
        collect_fold(s, cs, target_deadline).best_deadline <= s.best_deadline,
        collect_fold(s, cs, target_deadline)
            == (StateModel { best_deadline: collect_fold(s, cs, target_deadline).best_deadline, ..s }),
        accepted_deadlines(s, cs, target_deadline).len() == 0
            ==> collect_fold(s, cs, target_deadline).best_deadline == s.best_deadline,
        forall|i: int|
            0 <= i < accepted_deadlines(s, cs, target_deadline).len()
                ==> collect_fold(s, cs, target_deadline).best_deadline
                    <= #[trigger] accepted_deadlines(s, cs, target_deadline)[i],
        accepted_deadlines(s, cs, target_deadline).len() > 0
            ==> collect_fold(s, cs, target_deadline).best_deadline
                == accepted_deadlines(s, cs, target_deadline).last(),
    decreases cs.len(),
{
    if cs.len() == 0 {
        assert(collect_fold(s, cs, target_deadline) =~= (StateModel {
            best_deadline: s.best_deadline,
            ..s
        }));
    } else {
        let c = cs[0];
        let rest = cs.subrange(1, cs.len() as int);
        let s1 = collect_step(s, c, target_deadline);
        lemma_best_deadline_monotonic_minimal(s1, rest, target_deadline);
        assert(collect_fold(s, cs, target_deadline) == collect_fold(s1, rest, target_deadline));
        assert(collect_fold(s1, rest, target_deadline)
            =~= (StateModel { best_deadline: collect_fold(s1, rest, target_deadline).best_deadline, ..s }));
        if accepts(s, c, target_deadline) {
            let tail = accepted_deadlines(s1, rest, target_deadline);
            assert(accepted_deadlines(s, cs, target_deadline) == seq![c.deadline_adjusted] + tail);
            assert(accepted_deadlines(s, cs, target_deadline)[0] == c.deadline_adjusted);
            assert(forall|i: int|
                1 <= i < accepted_deadlines(s, cs, target_deadline).len()
                    ==> #[trigger] accepted_deadlines(s, cs, target_deadline)[i] == tail[i - 1]);
            if tail.len() == 0 {
                assert(accepted_deadlines(s, cs, target_deadline).last() == c.deadline_adjusted);
            } else {
                assert(accepted_deadlines(s, cs, target_deadline).last() == tail.last());
            }
        } else {
            assert(accepted_deadlines(s, cs, target_deadline)
                == accepted_deadlines(s, rest, target_deadline));
        }
    }
}

} // verus!
