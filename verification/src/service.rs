//! Orchestration of one vote submission.
//!
//! One request is turned into one response in three steps: the request
//! shape is validated, the isolated execution environment is invoked once
//! with the submission as private input, and the receipt it returns is
//! encoded for transport. The environment itself is an external
//! collaborator: its invocation stands behind trusted wrappers, and the
//! verified logic states what holds of every outcome.

use vstd::prelude::*;
use crate::vote::VoteSubmission;

verus! {

/// An inbound request body after transport decoding: each field may be
/// missing or of the wrong type, in which case it is `None` here.
#[derive(Clone, Copy, Debug, PartialEq, Eq, Structural)]
pub struct VoteRequest {
    pub voter_id: Option<u64>,
    pub proposal_id: Option<u64>,
    pub vote: Option<bool>,
}

/// A request is well formed iff all three fields are present.
pub open spec fn well_formed(req: VoteRequest) -> bool {
    req.voter_id is Some && req.proposal_id is Some && req.vote is Some
}

/// Why a submission was not answered with a receipt.
#[derive(Clone, Copy, Debug, PartialEq, Eq, Structural)]
pub enum SubmitError {
    /// The request body does not have the shape of a vote submission;
    /// rejected before the execution environment is invoked.
    MalformedRequest,
    /// The execution environment failed to produce a receipt (the program
    /// aborted, for instance on an ineligible voter, or could not be run).
    ProofGenerationFailed,
    /// The receipt could not be encoded for transport. The present
    /// encoder is total on receipts, so this outcome is proved never to
    /// be produced; the variant names the remaining class of the failure
    /// taxonomy, for an encoder that can fail.
    SerializationFailed,
}

/// Validates the shape of a request and builds the submission, or rejects
/// it as malformed before anything else runs.
pub fn parse_submission(req: VoteRequest) -> (r: Result<VoteSubmission, SubmitError>)
    ensures
        r is Ok <==> well_formed(req),
        r is Ok ==> r->Ok_0 == (VoteSubmission {
            voter_id: req.voter_id->0,
            proposal_id: req.proposal_id->0,
            vote: req.vote->0,
        }),
        r is Err ==> r->Err_0 == SubmitError::MalformedRequest,
{
    match (req.voter_id, req.proposal_id, req.vote) {
        (Some(voter_id), Some(proposal_id), Some(vote)) => Ok(
            VoteSubmission { voter_id, proposal_id, vote },
        ),
        _ => Err(SubmitError::MalformedRequest),
    }
}

/// The receipt of one attested execution, opaque to the verified logic:
/// it is produced and checked only by the execution environment.
#[verifier::external_type_specification]
#[verifier::external_body]
pub struct ExReceipt(risc0_zkvm::Receipt);

/// Relies on risc0_zkvm's `ExternalProver` (the `r0vm` proving server)
/// and its `Prover::prove`: the submission is supplied as the private
/// input through an `ExecutorEnv`, the given program is executed in the
/// environment, and the receipt of a successful execution comes back.
/// Constructing the prover cannot fail, and every failure of the
/// invocation itself — the server missing, the program not loading, the
/// program aborting before committing — is an `Err` of `prove`, returned
/// here as `None`. Nothing is assumed of which outcome occurs.
#[verifier::external_body]
fn prove_vote(elf: &[u8], submission: &VoteSubmission) -> Option<risc0_zkvm::Receipt> {
    let env = risc0_zkvm::ExecutorEnv::builder()
        .write(&(submission.voter_id, submission.proposal_id, submission.vote))
        .ok()?
        .build()
        .ok()?;
    let prover = risc0_zkvm::ExternalProver::new("ipc", "r0vm");
    let info = risc0_zkvm::Prover::prove(&prover, env, elf).ok()?;
    Some(info.receipt)
}

/// Relies on bincode::serialize under its default, unlimited
/// configuration: it encodes the receipt as bytes. Encoding a `Receipt`
/// cannot fail: the unlimited configuration errors only on sequences of
/// unknown length or on custom `Serialize` impls that themselves fail,
/// and the receipt's whole `Serialize` graph is derived over plain data.
/// So a value is always returned; nothing is assumed of its contents.
#[verifier::external_body]
fn encode_receipt(receipt: &risc0_zkvm::Receipt) -> (r: Option<Vec<u8>>)
    ensures
        r is Some,
{
    bincode::serialize(receipt).ok()
}

/// Turns the outcome of one environment invocation into the response.
///
/// No receipt — the program could not be run, or aborted before
/// committing, as it does for an ineligible voter — is answered with a
/// failure status, never with success. A returned receipt is owed a
/// success response carrying its transport encoding: the encoder is
/// total on receipts, so the serialization failure of the taxonomy is
/// proved never to occur here.
pub fn respond_to_outcome(outcome: Option<risc0_zkvm::Receipt>) -> (r: Result<
    Vec<u8>,
    SubmitError,
>)
    ensures
        r is Ok <==> outcome is Some,
        outcome is None ==> r == Err::<Vec<u8>, SubmitError>(SubmitError::ProofGenerationFailed),
{
    match outcome {
        Some(receipt) => match encode_receipt(&receipt) {
            Some(bytes) => Ok(bytes),
            None => Err(SubmitError::SerializationFailed),
        },
        None => Err(SubmitError::ProofGenerationFailed),
    }
}

/// Handles one vote submission end to end: validate the request, invoke
/// the execution environment once, and answer with the encoding of the
/// receipt it returned.
///
/// A malformed request is rejected before the environment is invoked,
/// and is the only input answered with `MalformedRequest`; a well-formed
/// one is answered with success exactly when the environment returned a
/// receipt, and with the proof-generation failure otherwise. The program
/// (`elf`) is fixed configuration, resolved once at startup by the
/// caller.
pub fn submit_vote(elf: &[u8], req: VoteRequest) -> (r: Result<Vec<u8>, SubmitError>)
    ensures
        r == Err::<Vec<u8>, SubmitError>(SubmitError::MalformedRequest) <==> !well_formed(req),
        well_formed(req) ==> (r is Ok || r == Err::<Vec<u8>, SubmitError>(
            SubmitError::ProofGenerationFailed,
        )),
{
    let submission = match parse_submission(req) {
        Ok(submission) => submission,
        Err(e) => {
            return Err(e);
        },
    };
    respond_to_outcome(prove_vote(elf, &submission))
}

} // verus!
