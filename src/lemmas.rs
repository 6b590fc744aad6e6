use vstd::prelude::*;

use crate::election::{CandidateData, ElectionData};
use crate::error::ElectionError;
use crate::instructions::{Apply, ChangeStage, Vote};
use crate::key::Pubkey;
use crate::stage::ElectionStage;

verus! {

/// The election and the candidacies created after each actor of
/// `applicants` applies in turn, each with no candidacy record yet; a failed
/// application creates nothing.
pub open spec fn applications(e: ElectionData, applicants: Seq<Pubkey>) -> (
    ElectionData,
    Seq<CandidateData>,
)
    decreases applicants.len(),
{
    if applicants.len() == 0 {
        (e, Seq::empty())
    } else {
        let (prev, created) = applications(e, applicants.drop_last());
        let ctx = Apply { candidate_data: None, election_data: prev, signer: applicants.last() };
        if ctx.error() is Some {
            (prev, created)
        } else {
            let next = ctx.applied();
            (next.election_data, created.push(next.candidate_data->Some_0))
        }
    }
}

/// The number of ballots in `ballots` that went to candidate `id`.
pub open spec fn votes_for(ballots: Seq<u64>, id: u64) -> nat
    decreases ballots.len(),
{
    if ballots.len() == 0 {
        0
    } else {
        votes_for(ballots.drop_last(), id) + if ballots.last() == id {
            1nat
        } else {
            0nat
        }
    }
}

/// The election after each ballot of `ballots` is recorded in turn, each
/// with its candidate's count just after it.
pub open spec fn tallied(e: ElectionData, ballots: Seq<u64>) -> ElectionData
    decreases ballots.len(),
{
    if ballots.len() == 0 {
        e
    } else {
        let id = ballots.last();
        tallied(e, ballots.drop_last()).with_vote(id, votes_for(ballots, id) as u64)
    }
}

/// Over any run of applications starting from no candidates, the count
/// equals the number of applications that succeeded, the candidacies carry
/// exactly the ids 1 to that count in order, and during the application
/// stage every application succeeds.
pub proof fn lemma_applications_number_candidates(e: ElectionData, applicants: Seq<Pubkey>)
    requires
        e.candidates == 0,
        applicants.len() < u64::MAX,
    ensures
        ({
            let (last, created) = applications(e, applicants);
            &&& last.candidates == created.len()
            &&& forall|i: int| 0 <= i < created.len() ==> #[trigger] created[i].id == i + 1
            &&& e.stage == ElectionStage::Application ==> created.len() == applicants.len()
                && last.stage == ElectionStage::Application
            &&& e.stage != ElectionStage::Application ==> created.len() == 0
        }),
    decreases applicants.len(),
{
    if applicants.len() > 0 {
        lemma_applications_number_candidates(e, applicants.drop_last());
        let (prev, created) = applications(e, applicants.drop_last());
        let ctx = Apply { candidate_data: None, election_data: prev, signer: applicants.last() };
        if ctx.error() is None {
            let next = ctx.applied();
            let grown = created.push(next.candidate_data->Some_0);
            assert forall|i: int| 0 <= i < grown.len() implies #[trigger] grown[i].id == i + 1 by {
                if i < created.len() {
                    assert(grown[i] == created[i]);
                }
            }
        }
    }
}

/// A closed election is final: every application, vote and stage change on
/// it fails, so nothing changes it any more.
pub proof fn lemma_closed_is_final(
    application: Apply,
    ballot: Vote,
    change: ChangeStage,
    new_stage: ElectionStage,
)
    requires
        application.election_data.stage == ElectionStage::Closed,
        ballot.election_data.stage == ElectionStage::Closed,
        change.election_data.stage == ElectionStage::Closed,
    ensures
        application.error() == Some(ElectionError::ApplicationIsClosed),
        ballot.error() == Some(ElectionError::NotVotingStage),
        change.error(new_stage) is Some,
{
}

/// A count never exceeds the number of ballots.
proof fn lemma_votes_for_bounded(ballots: Seq<u64>, id: u64)
    ensures
        votes_for(ballots, id) <= ballots.len(),
    decreases ballots.len(),
{
    if ballots.len() > 0 {
        lemma_votes_for_bounded(ballots.drop_last(), id);
    }
}

/// Over any run of ballots for real candidates (ids from 1) from an election
/// with no leader yet, the leader's recorded count equals its own count and
/// no candidate has more: it is the largest count of any candidate that has
/// ever led. Recording one more ballot never lowers it.
pub proof fn lemma_leader_holds_maximum(e: ElectionData, ballots: Seq<u64>)
    requires
        e.winners_id == 0,
        e.winners_votes == 0,
        forall|i: int| 0 <= i < ballots.len() ==> #[trigger] ballots[i] != 0,
        ballots.len() < u64::MAX,
    ensures
        tallied(e, ballots).winners_votes == votes_for(ballots, tallied(e, ballots).winners_id),
        forall|id: u64| #[trigger] votes_for(ballots, id) <= tallied(e, ballots).winners_votes,
        ballots.len() > 0 ==> tallied(e, ballots.drop_last()).winners_votes <= tallied(
            e,
            ballots,
        ).winners_votes,
    decreases ballots.len(),
{
    if ballots.len() > 0 {
        let prev = ballots.drop_last();
        let x = ballots.last();
        assert(x == ballots[ballots.len() - 1]);
        assert forall|i: int| 0 <= i < prev.len() implies #[trigger] prev[i] != 0 by {
            assert(prev[i] == ballots[i]);
        }
        lemma_leader_holds_maximum(e, prev);
        lemma_votes_for_bounded(prev, x);
        let t = tallied(e, prev);
        assert(votes_for(ballots, x) == votes_for(prev, x) + 1);
        assert forall|id: u64| #[trigger] votes_for(ballots, id) == votes_for(prev, id) + if x
            == id {
            1nat
        } else {
            0nat
        } by {}
        assert(votes_for(prev, 0) == 0) by {
            lemma_no_votes_for_zero(prev);
        }
    }
}

/// No ballot goes to id 0 when every ballot names a real candidate.
proof fn lemma_no_votes_for_zero(ballots: Seq<u64>)
    requires
        forall|i: int| 0 <= i < ballots.len() ==> #[trigger] ballots[i] != 0,
    ensures
        votes_for(ballots, 0) == 0,
    decreases ballots.len(),
{
    if ballots.len() > 0 {
        let prev = ballots.drop_last();
        assert forall|i: int| 0 <= i < prev.len() implies #[trigger] prev[i] != 0 by {
            assert(prev[i] == ballots[i]);
        }
        lemma_no_votes_for_zero(prev);
        assert(ballots[ballots.len() - 1] != 0);
    }
}

/// After a successful vote the actor's ballot exists, so any second vote by
/// the same actor in the same election, for any candidate, fails with
/// `AlreadyVoted` and leaves the first vote's count in place.
pub proof fn lemma_second_ballot_refused(first: Vote, candidate: CandidateData)
    requires
        first.error() is None,
        first.candidate_data.votes < u64::MAX,
    ensures
        ({
            let after = first.voted();
            let second = Vote { candidate_data: candidate, ..after };
            &&& second.error() == Some(ElectionError::AlreadyVoted)
            &&& after.candidate_data.votes == first.candidate_data.votes + 1
        }),
{
}

} // verus!
