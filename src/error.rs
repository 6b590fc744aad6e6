use vstd::prelude::*;

verus! {

/// Every way an election operation can fail. A failed operation changes nothing.
#[derive(PartialEq, Eq, Structural, Clone, Copy, Debug)]
pub enum ElectionError {
    /// A record with this key already exists.
    AlreadyExists,
    /// An application, or the move to voting, outside the application stage.
    ApplicationIsClosed,
    /// A stage change by someone other than the initiator, or back to application.
    NotInitiator,
    /// A vote, or the close of voting, outside the voting stage.
    NotVotingStage,
    /// A stage change once the election is closed.
    VotingEnded,
    /// The actor already holds a ballot for this election.
    AlreadyVoted,
}

} // verus!
