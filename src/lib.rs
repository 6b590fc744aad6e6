use vstd::prelude::*;

pub mod key;
pub mod stage;
pub mod error;
pub mod election;
pub mod instructions;
pub mod lemmas;

pub use election::{CandidateData, ElectionData, MyVote};
pub use error::ElectionError;
pub use instructions::{apply, change_stage, create_election, vote, Apply, ChangeStage, CreateElection, Register, Vote};
pub use key::Pubkey;
pub use stage::ElectionStage;

verus! {

} // verus!
