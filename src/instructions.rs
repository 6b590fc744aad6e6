use vstd::prelude::*;

use crate::election::{CandidateData, ElectionData, MyVote};
use crate::error::ElectionError;
use crate::key::Pubkey;
use crate::stage::ElectionStage;

verus! {

/// The records that creating an election touches. `election_data` is the
/// record stored under (election id, signer), `None` while it does not exist.
#[derive(Clone, Debug)]
pub struct CreateElection {
    pub election_data: Option<ElectionData>,
    pub signer: Pubkey,
}

/// The records that an application touches. `candidate_data` is the record
/// stored under (signer, election), `None` while it does not exist: one
/// candidacy per actor and election.
#[derive(Clone, Debug)]
pub struct Apply {
    pub candidate_data: Option<CandidateData>,
    pub election_data: ElectionData,
    pub signer: Pubkey,
}

/// The records of a registration whose candidacy is keyed by the election alone.
#[derive(Clone, Debug)]
pub struct Register {
    pub candidate_data: Option<CandidateData>,
    pub election_data: ElectionData,
    pub signer: Pubkey,
}

/// The records that a stage change touches.
#[derive(Clone, Debug)]
pub struct ChangeStage {
    pub election_data: ElectionData,
    pub signer: Pubkey,
}

/// The records that a vote touches. `my_vote` is the ballot stored under
/// (signer, election), `None` while the signer has not voted there.
#[derive(Clone, Debug)]
pub struct Vote {
    pub my_vote: Option<MyVote>,
    pub candidate_data: CandidateData,
    pub signer: Pubkey,
    pub election_data: ElectionData,
}

impl CreateElection {
    /// Why creating an election with these records fails, if it does.
    pub open spec fn error(self) -> Option<ElectionError> {
        if self.election_data is Some {
            Some(ElectionError::AlreadyExists)
        } else {
            None
        }
    }

    /// The records after a successful creation.
    pub open spec fn created(self, election_id: String) -> CreateElection {
        CreateElection {
            election_data: Some(ElectionData::fresh(election_id, self.signer)),
            signer: self.signer,
        }
    }
}

impl Apply {
    /// Why this application fails, if it does.
    pub open spec fn error(self) -> Option<ElectionError> {
        if self.election_data.stage != ElectionStage::Application {
            Some(ElectionError::ApplicationIsClosed)
        } else if self.candidate_data is Some {
            Some(ElectionError::AlreadyExists)
        } else {
            None
        }
    }

    /// The records after a successful application: the count goes up by one
    /// and the new candidacy takes the new count as its id.
    pub open spec fn applied(self) -> Apply {
        let n = (self.election_data.candidates + 1) as u64;
        Apply {
            candidate_data: Some(CandidateData { id: n, pubkey: self.signer, votes: 0 }),
            election_data: ElectionData { candidates: n, ..self.election_data },
            signer: self.signer,
        }
    }
}

impl ChangeStage {
    /// Why moving to `new_stage` fails, if it does.
    pub open spec fn error(self, new_stage: ElectionStage) -> Option<ElectionError> {
        if self.election_data.initiator@ != self.signer@ {
            Some(ElectionError::NotInitiator)
        } else if self.election_data.stage == ElectionStage::Closed {
            Some(ElectionError::VotingEnded)
        } else {
            match new_stage {
                ElectionStage::Application => Some(ElectionError::NotInitiator),
                ElectionStage::Voting => if self.election_data.stage != ElectionStage::Application {
                    Some(ElectionError::ApplicationIsClosed)
                } else {
                    None
                },
                ElectionStage::Closed => if self.election_data.stage != ElectionStage::Voting {
                    Some(ElectionError::NotVotingStage)
                } else {
                    None
                },
            }
        }
    }

    /// The records after a successful move to `new_stage`.
    pub open spec fn changed(self, new_stage: ElectionStage) -> ChangeStage {
        ChangeStage {
            election_data: if new_stage == ElectionStage::Voting {
                self.election_data.application_closed()
            } else {
                self.election_data.voting_closed()
            },
            signer: self.signer,
        }
    }
}

impl Vote {
    /// Why this vote fails, if it does.
    pub open spec fn error(self) -> Option<ElectionError> {
        if self.election_data.stage != ElectionStage::Voting {
            Some(ElectionError::NotVotingStage)
        } else if self.my_vote is Some {
            Some(ElectionError::AlreadyVoted)
        } else {
            None
        }
    }

    /// The records after a successful vote: the candidate gains a vote, the
    /// ballot is recorded and the leader is updated with the new count.
    pub open spec fn voted(self) -> Vote {
        let c = self.candidate_data;
        let v = (c.votes + 1) as u64;
        Vote {
            my_vote: Some(MyVote { id: c.id, pubkey: c.pubkey }),
            candidate_data: CandidateData { votes: v, ..c },
            signer: self.signer,
            election_data: self.election_data.with_vote(c.id, v),
        }
    }
}

/// Creates an election in its application stage, initiated by the signer.
pub fn create_election(ctx: &mut CreateElection, election_id: String) -> (r: Result<
    (),
    ElectionError,
>)
    ensures
        old(ctx).error() matches Some(e) ==> r == Err::<(), ElectionError>(e) && *final(ctx)
            == *old(ctx),
        old(ctx).error() is None ==> r == Ok::<(), ElectionError>(()) && *final(ctx) == old(ctx).created(election_id),
{
    if ctx.election_data.is_some() {
        return Err(ElectionError::AlreadyExists);
    }
    ctx.election_data = Some(
        ElectionData {
            id: election_id,
            candidates: 0,
            stage: ElectionStage::Application,
            initiator: ctx.signer,
            winners_id: 0,
            winners_votes: 0,
        },
    );
    Ok(())
}

/// Registers the signer as the next candidate of an election that is taking
/// applications.
pub fn apply(ctx: &mut Apply) -> (r: Result<(), ElectionError>)
    requires
        old(ctx).error() is None ==> old(ctx).election_data.candidates < u64::MAX,
    ensures
        old(ctx).error() matches Some(e) ==> r == Err::<(), ElectionError>(e) && *final(ctx)
            == *old(ctx),
        old(ctx).error() is None ==> r == Ok::<(), ElectionError>(()) && *final(ctx) == old(ctx).applied(),
{
    if ctx.election_data.stage != ElectionStage::Application {
        return Err(ElectionError::ApplicationIsClosed);
    }
    if ctx.candidate_data.is_some() {
        return Err(ElectionError::AlreadyExists);
    }
    ctx.election_data.candidates = ctx.election_data.candidates + 1;
    ctx.candidate_data = Some(
        CandidateData { id: ctx.election_data.candidates, pubkey: ctx.signer, votes: 0 },
    );
    Ok(())
}

/// Moves the election to `new_stage` on the initiator's request. A move to
/// voting succeeds only from the application stage and closes an
/// uncontested election at once; a move to closed succeeds only from voting.
pub fn change_stage(ctx: &mut ChangeStage, new_stage: ElectionStage) -> (r: Result<
    (),
    ElectionError,
>)
    ensures
        old(ctx).error(new_stage) matches Some(e) ==> r == Err::<(), ElectionError>(e) && *final(ctx) == *old(ctx),
        old(ctx).error(new_stage) is None ==> r == Ok::<(), ElectionError>(()) && *final(ctx)
            == old(ctx).changed(new_stage),
        new_stage == ElectionStage::Voting && r is Ok ==> old(ctx).election_data.stage
            == ElectionStage::Application && final(ctx).election_data.stage == (if old(ctx).election_data.candidates == 1 {
            ElectionStage::Closed
        } else {
            ElectionStage::Voting
        }),
{
    if ctx.election_data.initiator != ctx.signer {
        return Err(ElectionError::NotInitiator);
    }
    if ctx.election_data.stage == ElectionStage::Closed {
        return Err(ElectionError::VotingEnded);
    }
    match new_stage {
        ElectionStage::Voting => ctx.election_data.close_application(),
        ElectionStage::Closed => ctx.election_data.close_voting(),
        ElectionStage::Application => Err(ElectionError::NotInitiator),
    }
}

/// Casts the signer's one ballot for the given candidate and updates the
/// running leader with the candidate's new count.
pub fn vote(ctx: &mut Vote) -> (r: Result<(), ElectionError>)
    requires
        old(ctx).candidate_data.id != 0,
        old(ctx).error() is None ==> old(ctx).candidate_data.votes < u64::MAX,
        old(ctx).error() is None && old(ctx).election_data.winners_id == old(ctx).candidate_data.id
            ==> old(ctx).election_data.winners_votes < u64::MAX,
    ensures
        old(ctx).error() matches Some(e) ==> r == Err::<(), ElectionError>(e) && *final(ctx)
            == *old(ctx),
        old(ctx).error() is None ==> r == Ok::<(), ElectionError>(()) && *final(ctx) == old(ctx).voted(),
{
    if ctx.election_data.stage != ElectionStage::Voting {
        return Err(ElectionError::NotVotingStage);
    }
    if ctx.my_vote.is_some() {
        return Err(ElectionError::AlreadyVoted);
    }
    ctx.candidate_data.votes = ctx.candidate_data.votes + 1;
    ctx.my_vote = Some(MyVote { id: ctx.candidate_data.id, pubkey: ctx.candidate_data.pubkey });
    ctx.election_data.record_vote(ctx.candidate_data.id, ctx.candidate_data.votes);
    Ok(())
}

} // verus!
