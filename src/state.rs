//! Durable records of the voting program: the proposal, the per-voter guard,
//! the notifications it emits and the errors it reports.
use vstd::prelude::*;

verus! {

/// A proposal: its configuration, lifecycle flags and the opaque encrypted
/// tally with the nonce it was encrypted under.
#[derive(Clone, Debug)]
pub struct ProposalAccount {
    pub bump: u8,
    pub vote_state: [[u8; 32]; 5],
    pub id: u32,
    pub authority: [u8; 32],
    pub nonce: u128,
    pub title: String,
    pub options: Vec<String>,
    pub num_options: u8,
    pub deadline: i64,
    pub voice_credits: u64,
    pub quorum: u32,
    pub is_finalized: bool,
    pub voter_count: u32,
    /// Addresses of the computations whose outputs have been applied, in
    /// the order they were applied. A computation's address is derived from
    /// the identifier its submitter chose, and is unique to it.
    pub applied_computations: Vec<[u8; 32]>,
}

/// The guard that a first vote creates at the address derived from the
/// proposal and the voter; its existence is what blocks a second vote.
#[derive(Clone, Copy, Debug, PartialEq, Eq)]
pub struct VoterRecord {
    pub bump: u8,
    pub proposal: [u8; 32],
    pub voter: [u8; 32],
    pub has_voted: bool,
}

/// Notification that a vote was applied to the tally.
#[derive(Clone, Copy, Debug, PartialEq, Eq, Structural)]
pub struct VoteCastEvent {
    pub proposal_id: u32,
    pub timestamp: i64,
    pub voter_count: u32,
}

/// Notification carrying the plaintext results of a proposal.
#[derive(Clone, Copy, Debug, PartialEq, Eq, Structural)]
pub struct ResultsRevealedEvent {
    pub proposal_id: u32,
    pub option_0: u64,
    pub option_1: u64,
    pub option_2: u64,
    pub option_3: u64,
    pub total_votes: u64,
    pub winner: u8,
}

/// Errors of the voting program.
#[derive(Clone, Copy, Debug, PartialEq, Eq, Structural)]
pub enum ErrorCode {
    InvalidAuthority,
    AbortedComputation,
    ClusterNotSet,
    VotingPeriodEnded,
    VotingPeriodNotEnded,
    AlreadyVoted,
    InvalidChoice,
    ProposalAlreadyFinalized,
    QuorumNotMet,
    ComputationAlreadyApplied,
}

impl ErrorCode {
    /// The message shown for the error.
    pub open spec fn message_spec(self) -> &'static str {
        match self {
            ErrorCode::InvalidAuthority => "Invalid authority",
            ErrorCode::AbortedComputation => "Computation was aborted",
            ErrorCode::ClusterNotSet => "Cluster not set",
            ErrorCode::VotingPeriodEnded => "Voting period has ended",
            ErrorCode::VotingPeriodNotEnded => "Voting period has not ended yet",
            ErrorCode::AlreadyVoted => "Already voted on this proposal",
            ErrorCode::InvalidChoice => "Invalid option choice",
            ErrorCode::ProposalAlreadyFinalized => "Proposal already finalized",
            ErrorCode::QuorumNotMet => "Quorum not met",
            ErrorCode::ComputationAlreadyApplied => "Computation output already applied",
        }
    }

    /// The message shown for the error.
    pub fn message(&self) -> (r: &'static str)
        ensures
            r == self.message_spec(),
    {
        match self {
            ErrorCode::InvalidAuthority => "Invalid authority",
            ErrorCode::AbortedComputation => "Computation was aborted",
            ErrorCode::ClusterNotSet => "Cluster not set",
            ErrorCode::VotingPeriodEnded => "Voting period has ended",
            ErrorCode::VotingPeriodNotEnded => "Voting period has not ended yet",
            ErrorCode::AlreadyVoted => "Already voted on this proposal",
            ErrorCode::InvalidChoice => "Invalid option choice",
            ErrorCode::ProposalAlreadyFinalized => "Proposal already finalized",
            ErrorCode::QuorumNotMet => "Quorum not met",
            ErrorCode::ComputationAlreadyApplied => "Computation output already applied",
        }
    }
}

/// Whether two 32-byte addresses are the same.
pub fn same_address(a: &[u8; 32], b: &[u8; 32]) -> (r: bool)
    ensures
        r == (a@ == b@),
{
    let mut i: usize = 0;
    while i < 32
        invariant
            0 <= i <= 32,
            a@.len() == 32,
            b@.len() == 32,
            forall|j: int| 0 <= j < i ==> a@[j] == b@[j],
        decreases 32 - i,
    {
        if a[i] != b[i] {
            return false;
        }
        i = i + 1;
    }
    proof {
        assert(a@ =~= b@);
    }
    true
}

} // verus!
