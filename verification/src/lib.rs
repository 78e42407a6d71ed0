//! Verified core of a private-voting proof service.
//!
//! The library has two halves. `vote` holds the vote computation program:
//! the eligibility rule and the derivation of the committed proof value,
//! a pure function of the submission. `service` holds the orchestration
//! logic that turns one request into one response: it validates the
//! request shape, drives a single invocation of the isolated execution
//! environment, and encodes the resulting receipt for transport.

pub mod service;
pub mod vote;
