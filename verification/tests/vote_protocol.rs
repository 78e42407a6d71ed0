use zkvote::service::{parse_submission, submit_vote, SubmitError, VoteRequest};
use zkvote::vote::{
    generate_vote_proof, run_vote_computation, verify_voter_eligibility, VoteError, VoteSubmission,
};

fn submission(voter_id: u64, proposal_id: u64, vote: bool) -> VoteSubmission {
    VoteSubmission { voter_id, proposal_id, vote }
}

#[test]
fn eligibility_is_parity_of_voter_id() {
    assert!(verify_voter_eligibility(0));
    assert!(verify_voter_eligibility(4));
    assert!(!verify_voter_eligibility(7));
    assert!(!verify_voter_eligibility(u64::MAX));
}

#[test]
fn proof_value_is_wrapping_sum() {
    assert_eq!(generate_vote_proof(4, 10, true), 15);
    assert_eq!(generate_vote_proof(4, 10, false), 14);
    assert_eq!(generate_vote_proof(0, 0, false), 0);
}

#[test]
fn proof_value_wraps_at_the_64_bit_boundary() {
    assert_eq!(generate_vote_proof(u64::MAX, u64::MAX, true), u64::MAX);
    assert_eq!(generate_vote_proof(u64::MAX, 1, false), 0);
    assert_eq!(generate_vote_proof(u64::MAX, 0, true), 0);
}

#[test]
fn repeated_runs_agree() {
    let s = submission(4, 10, true);
    let first = run_vote_computation(s);
    let second = run_vote_computation(s);
    assert_eq!(first, second);
    let t = submission(7, 10, true);
    assert_eq!(run_vote_computation(t), run_vote_computation(t));
}

#[test]
fn eligible_submission_commits_the_sum() {
    assert_eq!(run_vote_computation(submission(4, 10, true)), Ok(15));
    assert_eq!(run_vote_computation(submission(0, 5, false)), Ok(5));
}

#[test]
fn ineligible_submission_commits_nothing() {
    assert_eq!(run_vote_computation(submission(7, 10, true)), Err(VoteError::NotEligible));
    assert_eq!(run_vote_computation(submission(1, 0, false)), Err(VoteError::NotEligible));
}

#[test]
fn independent_submissions_get_their_own_values() {
    let a = run_vote_computation(submission(4, 10, true));
    let b = run_vote_computation(submission(8, 20, false));
    assert_eq!(a, Ok(15));
    assert_eq!(b, Ok(28));
}

#[test]
fn complete_request_parses_into_submission() {
    let req = VoteRequest { voter_id: Some(4), proposal_id: Some(10), vote: Some(true) };
    assert_eq!(parse_submission(req), Ok(submission(4, 10, true)));
}

#[test]
fn missing_proposal_id_is_malformed() {
    let req = VoteRequest { voter_id: Some(4), proposal_id: None, vote: Some(true) };
    assert_eq!(parse_submission(req), Err(SubmitError::MalformedRequest));
}

#[test]
fn missing_fields_are_malformed() {
    let req = VoteRequest { voter_id: None, proposal_id: Some(10), vote: Some(true) };
    assert_eq!(parse_submission(req), Err(SubmitError::MalformedRequest));
    let req = VoteRequest { voter_id: Some(4), proposal_id: Some(10), vote: None };
    assert_eq!(parse_submission(req), Err(SubmitError::MalformedRequest));
    let req = VoteRequest { voter_id: None, proposal_id: None, vote: None };
    assert_eq!(parse_submission(req), Err(SubmitError::MalformedRequest));
}

#[test]
fn malformed_request_is_rejected_before_the_environment_runs() {
    let req = VoteRequest { voter_id: Some(4), proposal_id: None, vote: Some(true) };
    let r = submit_vote(&[], req);
    assert_eq!(r, Err(SubmitError::MalformedRequest));
}

#[test]
fn environment_failure_is_distinct_from_a_malformed_request() {
    let req = VoteRequest { voter_id: Some(4), proposal_id: Some(10), vote: Some(true) };
    let r = submit_vote(&[], req);
    assert_eq!(r, Err(SubmitError::ProofGenerationFailed));
}

#[test]
fn a_failed_invocation_is_never_answered_with_success() {
    let r = zkvote::service::respond_to_outcome(None);
    assert_eq!(r, Err(SubmitError::ProofGenerationFailed));
}

#[test]
fn a_returned_receipt_is_answered_with_its_encoding() {
    let journal: Vec<u8> = vec![15, 0, 0, 0, 0, 0, 0, 0];
    let claim = risc0_zkvm::ReceiptClaim::ok(risc0_zkvm::sha::Digest::ZERO, journal.clone());
    let inner = risc0_zkvm::InnerReceipt::Fake(risc0_zkvm::FakeReceipt::new(claim));
    let receipt = risc0_zkvm::Receipt::new(inner, journal.clone());
    let bytes = zkvote::service::respond_to_outcome(Some(receipt))
        .expect("a returned receipt is owed a success response");
    let decoded: risc0_zkvm::Receipt =
        bincode::deserialize(&bytes).expect("the response is a decodable receipt encoding");
    assert_eq!(decoded.journal.bytes, journal);
}
