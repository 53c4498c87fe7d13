//! Properties that relate several operations of the tally and of the proposal
//! state machine, stated over the same spec functions as their contracts.
use vstd::prelude::*;
use crate::circuits::{
    NUM_OPTIONS, RevealedResults, VoteAllocation, VoteTallies, quadratic_vote_spec, reveal_spec,
    simple_vote_spec, winner_spec, zero_tallies,
};
use crate::private_voting::{
    EncryptedTally, cast_vote_gate, finalized, init_callback_gate, reveal_gate, tally_applied,
    vote_callback_gate, with_vote_counted,
};
use crate::state::{ErrorCode, ProposalAccount};

verus! {

/// Number of ballots in `choices` that chose option `i`.
pub open spec fn votes_for(choices: Seq<u8>, i: int) -> nat
    decreases choices.len(),
{
    if choices.len() == 0 {
        0
    } else {
        votes_for(choices.drop_last(), i) + if choices.last() == i {
            1nat
        } else {
            0nat
        }
    }
}

/// Fresh tallies after the single-choice ballots `choices`, applied in order.
pub open spec fn tally_of_simple_votes(choices: Seq<u8>) -> VoteTallies
    decreases choices.len(),
{
    if choices.len() == 0 {
        zero_tallies()
    } else {
        simple_vote_spec(choices.last(), tally_of_simple_votes(choices.drop_last()))
    }
}

/// Fresh tallies reveal zero for every option and for the total.
pub proof fn lemma_initial_tallies_reveal_zero()
    ensures
        reveal_spec(zero_tallies()) == (RevealedResults {
            option_0: 0,
            option_1: 0,
            option_2: 0,
            option_3: 0,
            total_votes: 0,
            winner: 0,
        }),
{
}

/// After valid single-choice ballots, each option's revealed count is the
/// number of ballots that chose it, and the counts and the total both add up
/// to the number of ballots.
pub proof fn lemma_simple_votes_counted(choices: Seq<u8>)
    requires
        forall|k: int| 0 <= k < choices.len() ==> #[trigger] choices[k] < NUM_OPTIONS,
        choices.len() <= u64::MAX,
    ensures
        forall|i: int|
            0 <= i < 4 ==> #[trigger] reveal_spec(tally_of_simple_votes(choices)).count(i)
                == votes_for(choices, i),
        reveal_spec(tally_of_simple_votes(choices)).total_votes == choices.len(),
        votes_for(choices, 0) + votes_for(choices, 1) + votes_for(choices, 2) + votes_for(
            choices,
            3,
        ) == choices.len(),
    decreases choices.len(),
{
    if choices.len() > 0 {
        let prefix = choices.drop_last();
        assert forall|k: int| 0 <= k < prefix.len() implies #[trigger] prefix[k] < NUM_OPTIONS by {
            assert(prefix[k] == choices[k]);
        }
        lemma_simple_votes_counted(prefix);
        assert(choices.last() == choices[choices.len() - 1]);
        let t = tally_of_simple_votes(prefix);
        assert(reveal_spec(t).count(0) == votes_for(prefix, 0));
        assert(reveal_spec(t).count(1) == votes_for(prefix, 1));
        assert(reveal_spec(t).count(2) == votes_for(prefix, 2));
        assert(reveal_spec(t).count(3) == votes_for(prefix, 3));
    }
}

/// A quadratic ballot that costs more than the budget leaves every counter
/// as it was.
pub proof fn lemma_over_budget_ballot_changes_nothing(
    alloc: VoteAllocation,
    tallies: VoteTallies,
    budget: u64,
)
    requires
        alloc.cost() > budget,
    ensures
        quadratic_vote_spec(alloc, tallies, budget) == tallies,
{
}

/// Once a vote has been accepted, a second vote by the same voter on the same
/// proposal, whose guard now exists, fails with `AlreadyVoted` at any time.
pub proof fn lemma_second_vote_rejected(p: ProposalAccount, first_now: i64, second_now: i64)
    requires
        cast_vote_gate(p, false, first_now) is None,
    ensures
        cast_vote_gate(with_vote_counted(p), true, second_now) == Some(ErrorCode::AlreadyVoted),
{
}

/// A first vote at or after the deadline fails with `VotingPeriodEnded`; a
/// reveal by the authority before the deadline fails with
/// `VotingPeriodNotEnded`.
pub proof fn lemma_deadline_gates(p: ProposalAccount, now: i64)
    ensures
        now >= p.deadline ==> cast_vote_gate(p, false, now) == Some(ErrorCode::VotingPeriodEnded),
        now < p.deadline ==> reveal_gate(p, p.authority, now) == Some(
            ErrorCode::VotingPeriodNotEnded,
        ),
{
}

/// For a reveal by the authority after the deadline on an open proposal,
/// fewer voters than the quorum fail with `QuorumNotMet`, and exactly the
/// quorum passes.
pub proof fn lemma_quorum_gate(p: ProposalAccount, now: i64)
    requires
        now >= p.deadline,
        !p.is_finalized,
    ensures
        p.voter_count < p.quorum ==> reveal_gate(p, p.authority, now) == Some(
            ErrorCode::QuorumNotMet,
        ),
        p.voter_count == p.quorum ==> reveal_gate(p, p.authority, now) is None,
{
}

/// When options `i < j` share the largest count, the winner is not `j` but
/// an option at or below `i`.
pub proof fn lemma_tie_goes_to_lower_index(t: VoteTallies, i: int, j: int)
    requires
        0 <= i < j < 4,
        t.count(i) == t.count(j),
        forall|k: int| 0 <= k < 4 ==> #[trigger] t.count(k) <= t.count(i),
    ensures
        winner_spec(t) as int <= i,
        reveal_spec(t).winner as int <= i,
{
    assert(t.count(0) <= t.count(i));
    assert(t.count(1) <= t.count(i));
    assert(t.count(2) <= t.count(i));
    assert(t.count(3) <= t.count(i));
}

/// Once a reveal has passed its gates and the proposal is finalised, any
/// later reveal by the authority fails with `ProposalAlreadyFinalized`, and
/// the proposal reads as finalised to the reveal callback.
pub proof fn lemma_reveal_after_finalization_rejected(
    p: ProposalAccount,
    first_now: i64,
    later_now: i64,
)
    requires
        reveal_gate(p, p.authority, first_now) is None,
        later_now >= first_now,
    ensures
        finalized(p).is_finalized,
        reveal_gate(finalized(p), p.authority, later_now) == Some(
            ErrorCode::ProposalAlreadyFinalized,
        ),
{
}

/// Once the output of a computation has been applied, a repeated output of
/// the same vote computation is refused, and so is any initialisation
/// output: each output changes the tally at most once.
pub proof fn lemma_output_applied_once(
    before: ProposalAccount,
    after: ProposalAccount,
    t: EncryptedTally,
    id: [u8; 32],
    verified: bool,
)
    requires
        tally_applied(before, after, t, id),
    ensures
        vote_callback_gate(after, verified, id) is Some,
        init_callback_gate(after, verified) is Some,
{
    assert(after.applied_computations@[before.applied_computations@.len() as int] == id);
}

/// A finalised proposal refuses every initialisation and vote output.
pub proof fn lemma_finalized_tally_untouched(p: ProposalAccount, id: [u8; 32], verified: bool)
    requires
        p.is_finalized,
    ensures
        init_callback_gate(p, verified) is Some,
        vote_callback_gate(p, verified, id) is Some,
{
}

} // verus!
