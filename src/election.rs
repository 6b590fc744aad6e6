use vstd::prelude::*;

use crate::error::ElectionError;
use crate::key::Pubkey;
use crate::stage::ElectionStage;

verus! {

/// The record of one election: its stage, its initiator and its running leader.
#[derive(Clone, Debug)]
pub struct ElectionData {
    /// The identifier the initiator chose.
    pub id: String,
    /// How many candidacies have been registered; also the last id handed out.
    pub candidates: u64,
    pub stage: ElectionStage,
    /// The only identity that may change the stage.
    pub initiator: Pubkey,
    /// The current leader's candidate id, 0 while there is none.
    pub winners_id: u64,
    /// The leader's vote count at its last update.
    pub winners_votes: u64,
}

/// The record of one candidacy in an election.
#[derive(Clone, Copy, Debug)]
pub struct CandidateData {
    /// Positive, dense and sequential in application order.
    pub id: u64,
    /// The applicant.
    pub pubkey: Pubkey,
    pub votes: u64,
}

/// The ballot marker of one voter in one election; its existence forbids a second vote.
#[derive(Clone, Copy, Debug)]
pub struct MyVote {
    /// The candidate the ballot went to.
    pub id: u64,
    /// That candidate's owner.
    pub pubkey: Pubkey,
}

impl ElectionData {
    /// A fresh election in its application stage.
    pub open spec fn fresh(id: String, initiator: Pubkey) -> ElectionData {
        ElectionData {
            id,
            candidates: 0,
            stage: ElectionStage::Application,
            initiator,
            winners_id: 0,
            winners_votes: 0,
        }
    }

    /// The election once applications close: an uncontested election (one
    /// candidate) closes at once with that candidate, id 1, as its leader;
    /// any other goes to voting.
    pub open spec fn application_closed(self) -> ElectionData {
        if self.candidates == 1 {
            ElectionData {
                stage: ElectionStage::Closed,
                winners_id: 1,
                winners_votes: 0,
                ..self
            }
        } else {
            ElectionData { stage: ElectionStage::Voting, ..self }
        }
    }

    /// The election once voting closes.
    pub open spec fn voting_closed(self) -> ElectionData {
        ElectionData { stage: ElectionStage::Closed, ..self }
    }

    /// The leader fields after candidate `id` reached `votes` votes: the
    /// leader keeps the lead until strictly overtaken.
    pub open spec fn with_vote(self, id: u64, votes: u64) -> ElectionData {
        if self.winners_id == id {
            ElectionData { winners_votes: (self.winners_votes + 1) as u64, ..self }
        } else if self.winners_votes >= votes {
            self
        } else {
            ElectionData { winners_id: id, winners_votes: votes, ..self }
        }
    }

    /// Ends the application stage, moving to voting, or straight to closed
    /// when exactly one candidate applied.
    pub fn close_application(&mut self) -> (r: Result<(), ElectionError>)
        ensures
            old(self).stage == ElectionStage::Application ==> r == Ok::<(), ElectionError>(())
                && *final(self) == old(self).application_closed(),
            old(self).stage != ElectionStage::Application ==> r == Err::<(), ElectionError>(
                ElectionError::ApplicationIsClosed,
            ) && *final(self) == *old(self),
    {
        if self.stage != ElectionStage::Application {
            return Err(ElectionError::ApplicationIsClosed);
        }
        if self.candidates == 1 {
            self.stage = ElectionStage::Closed;
            self.winners_id = 1;
            self.winners_votes = 0;
        } else {
            self.stage = ElectionStage::Voting;
        }
        Ok(())
    }

    /// Ends the voting stage.
    pub fn close_voting(&mut self) -> (r: Result<(), ElectionError>)
        ensures
            old(self).stage == ElectionStage::Voting ==> r == Ok::<(), ElectionError>(())
                && *final(self) == old(self).voting_closed(),
            old(self).stage != ElectionStage::Voting ==> r == Err::<(), ElectionError>(
                ElectionError::NotVotingStage,
            ) && *final(self) == *old(self),
    {
        if self.stage != ElectionStage::Voting {
            return Err(ElectionError::NotVotingStage);
        }
        self.stage = ElectionStage::Closed;
        Ok(())
    }

    /// Updates the running leader after candidate `id` reached `votes` votes.
    pub fn record_vote(&mut self, id: u64, votes: u64)
        requires
            old(self).winners_id == id ==> old(self).winners_votes < u64::MAX,
        ensures
            *final(self) == old(self).with_vote(id, votes),
    {
        if self.winners_id != id {
            if self.winners_votes >= votes {
                return ;
            }
            self.winners_id = id;
            self.winners_votes = votes;
        } else {
            self.winners_votes = self.winners_votes + 1;
        }
    }
}

} // verus!
