//! The vote computation program: the logic that runs inside the isolated
//! execution environment, once per submission.
//!
//! Everything here is a pure function of the submission. That purity is
//! what makes the attested execution meaningful: re-running the program
//! on the same input must reproduce the same eligibility outcome and the
//! same committed proof value bit for bit.

use vstd::prelude::*;

verus! {

/// One vote submission: the private input of a single execution.
#[derive(Clone, Copy, Debug, PartialEq, Eq, Structural)]
pub struct VoteSubmission {
    pub voter_id: u64,
    pub proposal_id: u64,
    pub vote: bool,
}

/// The eligibility rule: a voter is eligible iff its id is even.
/// A placeholder for a real registry lookup; deterministic by construction.
pub open spec fn eligible(voter_id: u64) -> bool {
    voter_id % 2 == 0
}

/// The committed proof value: the sum of the voter id, the proposal id
/// and the vote bit, reduced modulo 2^64.
pub open spec fn proof_value(voter_id: u64, proposal_id: u64, vote: bool) -> u64 {
    ((voter_id + proposal_id + (if vote {
        1int
    } else {
        0int
    })) % 0x1_0000_0000_0000_0000) as u64
}

/// The outcome of one run of the vote computation program.
#[derive(Clone, Copy, Debug, PartialEq, Eq, Structural)]
pub enum VoteError {
    /// The voter failed the eligibility check; nothing was committed.
    NotEligible,
}

/// Decides whether the submitting voter may have this vote counted.
pub fn verify_voter_eligibility(voter_id: u64) -> (r: bool)
    ensures
        r == eligible(voter_id),
{
    voter_id % 2 == 0
}

/// Derives the proof value committed for an eligible vote. Wrapping
/// addition: overflow is expected and reduced modulo 2^64, never a fault.
pub fn generate_vote_proof(voter_id: u64, proposal_id: u64, vote: bool) -> (r: u64)
    ensures
        r == proof_value(voter_id, proposal_id, vote),
{
    let bit: u64 = if vote {
        1
    } else {
        0
    };
    let r = voter_id.wrapping_add(proposal_id).wrapping_add(bit);
    proof {
        lemma_wrapping_sum(voter_id, proposal_id, vote);
    }
    r
}

/// The wrapping-addition chain computes the single modular reduction that
/// `proof_value` states.
proof fn lemma_wrapping_sum(voter_id: u64, proposal_id: u64, vote: bool)
    ensures
        vstd::wrapping::u64_specs::wrapping_add(
            vstd::wrapping::u64_specs::wrapping_add(voter_id, proposal_id),
            if vote {
                1u64
            } else {
                0u64
            },
        ) == proof_value(voter_id, proposal_id, vote),
{
}

/// The one outcome the vote computation program may have on a given
/// submission: the proof value for an eligible voter, the ineligibility
/// failure for any other, and never anything else.
pub open spec fn computation_outcome(s: VoteSubmission) -> Result<u64, VoteError> {
    if eligible(s.voter_id) {
        Ok(proof_value(s.voter_id, s.proposal_id, s.vote))
    } else {
        Err(VoteError::NotEligible)
    }
}

/// One full run of the vote computation program on its private input:
/// check eligibility, then derive the value to commit. An ineligible
/// voter yields an error and no value is ever produced for it.
pub fn run_vote_computation(submission: VoteSubmission) -> (r: Result<u64, VoteError>)
    ensures
        r == computation_outcome(submission),
        r is Ok <==> eligible(submission.voter_id),
{
    if !verify_voter_eligibility(submission.voter_id) {
        return Err(VoteError::NotEligible);
    }
    Ok(generate_vote_proof(submission.voter_id, submission.proposal_id, submission.vote))
}

/// Determinism: the outcome of the vote computation is a function of the
/// submission alone, so any two results of running it on the same
/// submission — in particular, the results of repeated invocations — are
/// identical, in eligibility outcome and in committed proof value alike.
pub proof fn lemma_vote_computation_deterministic(
    s: VoteSubmission,
    r1: Result<u64, VoteError>,
    r2: Result<u64, VoteError>,
)
    requires
        r1 == computation_outcome(s),
        r2 == computation_outcome(s),
    ensures
        r1 == r2,
{
}

/// Eligibility gating: an ineligible voter's computation always ends in
/// the ineligibility failure — no proof value is ever derived for it, so
/// nothing is committed that a receipt could attest.
pub proof fn lemma_ineligible_voter_rejected(s: VoteSubmission)
    requires
        !eligible(s.voter_id),
    ensures
        computation_outcome(s) == Err::<u64, VoteError>(VoteError::NotEligible),
{
}

/// Proof derivation correctness: for an eligible voter the computation
/// commits exactly the sum of voter id, proposal id and vote bit, reduced
/// modulo 2^64.
pub proof fn lemma_eligible_voter_committed(s: VoteSubmission)
    requires
        eligible(s.voter_id),
    ensures
        computation_outcome(s) == Ok::<u64, VoteError>(
            (((s.voter_id + s.proposal_id + (if s.vote {
                1int
            } else {
                0int
            })) % 0x1_0000_0000_0000_0000) as u64),
        ),
{
}

} // verus!
