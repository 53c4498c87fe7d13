//! The proposal state machine: each entry point checks its gates before it
//! mutates anything, and returns the argument list of the computation that it
//! submits; each callback applies a verified computation output, or changes
//! nothing when verification failed.
use vstd::prelude::*;
use crate::circuits::RevealedResults;
use crate::state::{
    ErrorCode, ProposalAccount, ResultsRevealedEvent, VoteCastEvent, VoterRecord, same_address,
};

verus! {

/// Byte offset of the stored tally inside a proposal account: an 8-byte
/// discriminator, then the bump.
pub const TALLY_OFFSET: u32 = 9;

/// Byte length of the stored tally: five 32-byte ciphertexts.
pub const TALLY_LENGTH: u32 = 160;

/// One positional argument of a computation request.
#[derive(Clone, Copy, Debug, PartialEq, Eq)]
pub enum Argument {
    /// A public 128-bit value, such as an encryption nonce.
    PlaintextU128(u128),
    /// The x25519 key that the following ciphertexts were encrypted to.
    X25519Pubkey([u8; 32]),
    /// One 32-byte ciphertext of a 64-bit value.
    EncryptedU64([u8; 32]),
    /// Ciphertexts read from an account, by byte offset and length.
    Account { key: [u8; 32], offset: u32, length: u32 },
}

/// An encrypted tally as the computation network returns it.
#[derive(Clone, Copy, Debug, PartialEq, Eq)]
pub struct EncryptedTally {
    pub ciphertexts: [[u8; 32]; 5],
    pub nonce: u128,
}

/// Whether every byte of a stored tally is zero.
pub open spec fn is_zero_state(v: [[u8; 32]; 5]) -> bool {
    forall|i: int, j: int| 0 <= i < 5 && 0 <= j < 32 ==> #[trigger] v@[i]@[j] == 0
}

/// Whether `p` is the proposal that `create_proposal` allocates for these
/// arguments.
pub open spec fn is_new_proposal(
    p: ProposalAccount,
    authority: [u8; 32],
    bump: u8,
    id: u32,
    title: String,
    options: Vec<String>,
    num_options: u8,
    deadline: i64,
    voice_credits: u64,
    quorum: u32,
    nonce: u128,
) -> bool {
    &&& p.bump == bump
    &&& is_zero_state(p.vote_state)
    &&& p.id == id
    &&& p.authority == authority
    &&& p.nonce == nonce
    &&& p.title == title
    &&& p.options == options
    &&& p.num_options == num_options
    &&& p.deadline == deadline
    &&& p.voice_credits == voice_credits
    &&& p.quorum == quorum
    &&& !p.is_finalized
    &&& p.voter_count == 0
    &&& p.applied_computations@.len() == 0
}

/// Arguments of the request that initialises a proposal's tally.
pub open spec fn init_tallies_args_spec(nonce: u128) -> Seq<Argument> {
    seq![Argument::PlaintextU128(nonce)]
}

/// The stored tally as an argument: read from the proposal's own account.
pub open spec fn stored_tally_args(p: ProposalAccount, proposal_key: [u8; 32]) -> Seq<Argument> {
    seq![
        Argument::PlaintextU128(p.nonce),
        Argument::Account { key: proposal_key, offset: TALLY_OFFSET, length: TALLY_LENGTH },
    ]
}

/// Arguments of the request that applies one ballot: the ballot's key, nonce
/// and four ciphertexts, then the stored tally.
pub open spec fn vote_args_spec(
    p: ProposalAccount,
    proposal_key: [u8; 32],
    ballot: [[u8; 32]; 4],
    pubkey: [u8; 32],
    vote_nonce: u128,
) -> Seq<Argument> {
    seq![
        Argument::X25519Pubkey(pubkey),
        Argument::PlaintextU128(vote_nonce),
        Argument::EncryptedU64(ballot[0]),
        Argument::EncryptedU64(ballot[1]),
        Argument::EncryptedU64(ballot[2]),
        Argument::EncryptedU64(ballot[3]),
    ] + stored_tally_args(p, proposal_key)
}

/// The first gate that a vote fails, if any: an existing guard, then the
/// deadline, then finalisation.
pub open spec fn cast_vote_gate(p: ProposalAccount, guard_exists: bool, now: i64) -> Option<ErrorCode> {
    if guard_exists {
        Some(ErrorCode::AlreadyVoted)
    } else if now >= p.deadline {
        Some(ErrorCode::VotingPeriodEnded)
    } else if p.is_finalized {
        Some(ErrorCode::ProposalAlreadyFinalized)
    } else {
        None
    }
}

/// The first gate that a reveal fails, if any: the caller's authority, then
/// the deadline, then finalisation, then the quorum.
pub open spec fn reveal_gate(p: ProposalAccount, caller: [u8; 32], now: i64) -> Option<ErrorCode> {
    if caller@ != p.authority@ {
        Some(ErrorCode::InvalidAuthority)
    } else if now < p.deadline {
        Some(ErrorCode::VotingPeriodNotEnded)
    } else if p.is_finalized {
        Some(ErrorCode::ProposalAlreadyFinalized)
    } else if p.voter_count < p.quorum {
        Some(ErrorCode::QuorumNotMet)
    } else {
        None
    }
}

/// `p` with one more voter counted.
pub open spec fn with_vote_counted(p: ProposalAccount) -> ProposalAccount {
    ProposalAccount { voter_count: (p.voter_count + 1) as u32, ..p }
}

/// The first reason to refuse an initialisation output, if any: a failed
/// verification, then finalisation, then an earlier applied output.
pub open spec fn init_callback_gate(p: ProposalAccount, verified: bool) -> Option<ErrorCode> {
    if !verified {
        Some(ErrorCode::AbortedComputation)
    } else if p.is_finalized {
        Some(ErrorCode::ProposalAlreadyFinalized)
    } else if p.applied_computations@.len() > 0 {
        Some(ErrorCode::ComputationAlreadyApplied)
    } else {
        None
    }
}

/// Whether the output of computation `id` has been applied to `p`.
pub open spec fn was_applied(p: ProposalAccount, id: [u8; 32]) -> bool {
    exists|j: int|
        0 <= j < p.applied_computations@.len() && (#[trigger] p.applied_computations@[j])@ == id@
}

/// The first reason to refuse the output of vote computation `id`, if any: a
/// failed verification, then finalisation, then `id` already applied.
pub open spec fn vote_callback_gate(p: ProposalAccount, verified: bool, id: [u8; 32]) -> Option<
    ErrorCode,
> {
    if !verified {
        Some(ErrorCode::AbortedComputation)
    } else if p.is_finalized {
        Some(ErrorCode::ProposalAlreadyFinalized)
    } else if was_applied(p, id) {
        Some(ErrorCode::ComputationAlreadyApplied)
    } else {
        None
    }
}

/// Whether `new` is `old` holding the tally `t`, with computation `id`
/// recorded as applied, and nothing else changed.
pub open spec fn tally_applied(
    old: ProposalAccount,
    new: ProposalAccount,
    t: EncryptedTally,
    id: [u8; 32],
) -> bool {
    &&& new.vote_state == t.ciphertexts
    &&& new.nonce == t.nonce
    &&& new.applied_computations@ == old.applied_computations@.push(id)
    &&& new.bump == old.bump
    &&& new.id == old.id
    &&& new.authority == old.authority
    &&& new.title == old.title
    &&& new.options == old.options
    &&& new.num_options == old.num_options
    &&& new.deadline == old.deadline
    &&& new.voice_credits == old.voice_credits
    &&& new.quorum == old.quorum
    &&& new.is_finalized == old.is_finalized
    &&& new.voter_count == old.voter_count
}

/// `p` marked finalised.
pub open spec fn finalized(p: ProposalAccount) -> ProposalAccount {
    ProposalAccount { is_finalized: true, ..p }
}

/// The results notification for `p`.
pub open spec fn results_event(p: ProposalAccount, o: RevealedResults) -> ResultsRevealedEvent {
    ResultsRevealedEvent {
        proposal_id: p.id,
        option_0: o.option_0,
        option_1: o.option_1,
        option_2: o.option_2,
        option_3: o.option_3,
        total_votes: o.total_votes,
        winner: o.winner,
    }
}

/// Arguments of the request that initialises a proposal's tally.
pub fn init_tallies_args(nonce: u128) -> (r: Vec<Argument>)
    ensures
        r@ == init_tallies_args_spec(nonce),
{
    vec![Argument::PlaintextU128(nonce)]
}

/// Creates a proposal owned by `authority`: not finalised, no voters, the
/// tally zeroed until the initialisation output arrives. Returns it with the
/// arguments of the initialisation request.
pub fn create_proposal(
    authority: [u8; 32],
    bump: u8,
    id: u32,
    title: String,
    options: Vec<String>,
    num_options: u8,
    deadline: i64,
    voice_credits: u64,
    quorum: u32,
    nonce: u128,
) -> (r: (ProposalAccount, Vec<Argument>))
    ensures
        is_new_proposal(
            r.0,
            authority,
            bump,
            id,
            title,
            options,
            num_options,
            deadline,
            voice_credits,
            quorum,
            nonce,
        ),
        r.1@ == init_tallies_args_spec(nonce),
{
    let proposal = ProposalAccount {
        bump,
        vote_state: [[0u8; 32]; 5],
        id,
        authority,
        nonce,
        title,
        options,
        num_options,
        deadline,
        voice_credits,
        quorum,
        is_finalized: false,
        voter_count: 0,
        applied_computations: Vec::new(),
    };
    (proposal, init_tallies_args(nonce))
}

/// Whether `id` is among the applied computation addresses.
pub fn is_applied(applied: &Vec<[u8; 32]>, id: &[u8; 32]) -> (r: bool)
    ensures
        r == exists|j: int| 0 <= j < applied@.len() && (#[trigger] applied@[j])@ == id@,
{
    let mut i: usize = 0;
    while i < applied.len()
        invariant
            0 <= i <= applied.len(),
            forall|j: int| 0 <= j < i ==> (#[trigger] applied@[j])@ != id@,
        decreases applied.len() - i,
    {
        if same_address(&applied[i], id) {
            return true;
        }
        i = i + 1;
    }
    false
}

/// Stores the initial tally of the computation at address `computation` once
/// its output has been verified; `None` stands for an output that failed
/// verification. The output is refused on a finalised proposal and once any
/// output has been applied; a refusal changes nothing.
pub fn init_tallies_callback(
    proposal: &mut ProposalAccount,
    computation: [u8; 32],
    output: Option<EncryptedTally>,
) -> (r: Result<(), ErrorCode>)
    ensures
        match r {
            Ok(_) => {
                &&& init_callback_gate(*old(proposal), output is Some) is None
                &&& tally_applied(*old(proposal), *final(proposal), output->0, computation)
            },
            Err(e) => {
                &&& init_callback_gate(*old(proposal), output is Some) == Some(e)
                &&& *final(proposal) == *old(proposal)
            },
        },
{
    let t = match output {
        Some(t) => t,
        None => {
            return Err(ErrorCode::AbortedComputation);
        },
    };
    if proposal.is_finalized {
        return Err(ErrorCode::ProposalAlreadyFinalized);
    }
    if proposal.applied_computations.len() > 0 {
        return Err(ErrorCode::ComputationAlreadyApplied);
    }
    proposal.vote_state = t.ciphertexts;
    proposal.nonce = t.nonce;
    proposal.applied_computations.push(computation);
    Ok(())
}

/// Arguments of the request that applies one ballot to the stored tally.
pub fn vote_args(
    proposal: &ProposalAccount,
    proposal_key: [u8; 32],
    ballot: [[u8; 32]; 4],
    pubkey: [u8; 32],
    vote_nonce: u128,
) -> (r: Vec<Argument>)
    ensures
        r@ == vote_args_spec(*proposal, proposal_key, ballot, pubkey, vote_nonce),
{
    let r = vec![
        Argument::X25519Pubkey(pubkey),
        Argument::PlaintextU128(vote_nonce),
        Argument::EncryptedU64(ballot[0]),
        Argument::EncryptedU64(ballot[1]),
        Argument::EncryptedU64(ballot[2]),
        Argument::EncryptedU64(ballot[3]),
        Argument::PlaintextU128(proposal.nonce),
        Argument::Account { key: proposal_key, offset: TALLY_OFFSET, length: TALLY_LENGTH },
    ];
    assert(r@ =~= vote_args_spec(*proposal, proposal_key, ballot, pubkey, vote_nonce));
    r
}

/// Submits a ballot. `voter_record` is the guard slot derived from this
/// proposal and `voter`: on success the guard is created and the voter
/// counted, and the vote request's arguments are returned. On any failure
/// nothing changes.
pub fn cast_vote(
    proposal: &mut ProposalAccount,
    proposal_key: [u8; 32],
    voter_record: &mut Option<VoterRecord>,
    voter: [u8; 32],
    record_bump: u8,
    now: i64,
    ballot: [[u8; 32]; 4],
    vote_encryption_pubkey: [u8; 32],
    vote_nonce: u128,
) -> (r: Result<Vec<Argument>, ErrorCode>)
    requires
        cast_vote_gate(*old(proposal), old(voter_record).is_some(), now) is None
            ==> old(proposal).voter_count < u32::MAX,
    ensures
        match r {
            Ok(args) => {
                &&& cast_vote_gate(*old(proposal), old(voter_record).is_some(), now) is None
                &&& *final(proposal) == with_vote_counted(*old(proposal))
                &&& *final(voter_record) == Some(
                    VoterRecord { bump: record_bump, proposal: proposal_key, voter, has_voted: true },
                )
                &&& args@ == vote_args_spec(
                    *old(proposal),
                    proposal_key,
                    ballot,
                    vote_encryption_pubkey,
                    vote_nonce,
                )
            },
            Err(e) => {
                &&& cast_vote_gate(*old(proposal), old(voter_record).is_some(), now) == Some(e)
                &&& *final(proposal) == *old(proposal)
                &&& *final(voter_record) == *old(voter_record)
            },
        },
{
    if voter_record.is_some() {
        return Err(ErrorCode::AlreadyVoted);
    }
    if now >= proposal.deadline {
        return Err(ErrorCode::VotingPeriodEnded);
    }
    if proposal.is_finalized {
        return Err(ErrorCode::ProposalAlreadyFinalized);
    }
    *voter_record = Some(
        VoterRecord { bump: record_bump, proposal: proposal_key, voter, has_voted: true },
    );
    proposal.voter_count = proposal.voter_count + 1;
    Ok(vote_args(proposal, proposal_key, ballot, vote_encryption_pubkey, vote_nonce))
}

/// Replaces the stored tally with the verified output of the vote
/// computation at address `computation`, records it as applied and reports the vote. The
/// output is refused when unverified, once results are out, and when that
/// computation was already applied; a refusal changes nothing and reports
/// nothing.
pub fn cast_vote_callback(
    proposal: &mut ProposalAccount,
    computation: [u8; 32],
    output: Option<EncryptedTally>,
    now: i64,
) -> (r: Result<VoteCastEvent, ErrorCode>)
    ensures
        match r {
            Ok(ev) => {
                &&& vote_callback_gate(*old(proposal), output is Some, computation) is None
                &&& tally_applied(*old(proposal), *final(proposal), output->0, computation)
                &&& ev == (VoteCastEvent {
                    proposal_id: old(proposal).id,
                    timestamp: now,
                    voter_count: old(proposal).voter_count,
                })
            },
            Err(e) => {
                &&& vote_callback_gate(*old(proposal), output is Some, computation) == Some(
                    e,
                )
                &&& *final(proposal) == *old(proposal)
            },
        },
{
    let t = match output {
        Some(t) => t,
        None => {
            return Err(ErrorCode::AbortedComputation);
        },
    };
    if proposal.is_finalized {
        return Err(ErrorCode::ProposalAlreadyFinalized);
    }
    if is_applied(&proposal.applied_computations, &computation) {
        return Err(ErrorCode::ComputationAlreadyApplied);
    }
    proposal.vote_state = t.ciphertexts;
    proposal.nonce = t.nonce;
    proposal.applied_computations.push(computation);
    Ok(VoteCastEvent { proposal_id: proposal.id, timestamp: now, voter_count: proposal.voter_count })
}

/// Submits the reveal of a proposal's results, when `caller` is its
/// authority, the deadline has passed, it is not finalised and the quorum is
/// met. Returns the reveal request's arguments.
pub fn reveal_results(
    proposal: &ProposalAccount,
    proposal_key: [u8; 32],
    caller: [u8; 32],
    now: i64,
) -> (r: Result<Vec<Argument>, ErrorCode>)
    ensures
        match r {
            Ok(args) => reveal_gate(*proposal, caller, now) is None && args@ == stored_tally_args(
                *proposal,
                proposal_key,
            ),
            Err(e) => reveal_gate(*proposal, caller, now) == Some(e),
        },
{
    if !same_address(&caller, &proposal.authority) {
        return Err(ErrorCode::InvalidAuthority);
    }
    if now < proposal.deadline {
        return Err(ErrorCode::VotingPeriodNotEnded);
    }
    if proposal.is_finalized {
        return Err(ErrorCode::ProposalAlreadyFinalized);
    }
    if proposal.voter_count < proposal.quorum {
        return Err(ErrorCode::QuorumNotMet);
    }
    let args = vec![
        Argument::PlaintextU128(proposal.nonce),
        Argument::Account { key: proposal_key, offset: TALLY_OFFSET, length: TALLY_LENGTH },
    ];
    assert(args@ =~= stored_tally_args(*proposal, proposal_key));
    Ok(args)
}

/// Finalises a proposal with a verified reveal output and publishes the
/// results. Fails with `AbortedComputation` on an unverified output, and with
/// `ProposalAlreadyFinalized` when results were already published; either way
/// nothing changes and nothing is published.
pub fn reveal_results_callback(
    proposal: &mut ProposalAccount,
    output: Option<RevealedResults>,
) -> (r: Result<ResultsRevealedEvent, ErrorCode>)
    ensures
        match r {
            Ok(ev) => {
                &&& output is Some && !old(proposal).is_finalized
                &&& *final(proposal) == finalized(*old(proposal))
                &&& ev == results_event(*old(proposal), output->0)
            },
            Err(e) => {
                &&& e == (if output is None {
                    ErrorCode::AbortedComputation
                } else {
                    ErrorCode::ProposalAlreadyFinalized
                })
                &&& (output is None || old(proposal).is_finalized)
                &&& *final(proposal) == *old(proposal)
            },
        },
{
    let o = match output {
        Some(o) => o,
        None => {
            return Err(ErrorCode::AbortedComputation);
        },
    };
    if proposal.is_finalized {
        return Err(ErrorCode::ProposalAlreadyFinalized);
    }
    proposal.is_finalized = true;
    Ok(
        ResultsRevealedEvent {
            proposal_id: proposal.id,
            option_0: o.option_0,
            option_1: o.option_1,
            option_2: o.option_2,
            option_3: o.option_3,
            total_votes: o.total_votes,
            winner: o.winner,
        },
    )
}

} // verus!
