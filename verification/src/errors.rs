//! The rejection kinds a transition can return. Every one is a synchronous,
//! value-returning failure: a rejected call leaves the record untouched.

use vstd::prelude::*;

verus! {

/// Why a transition was rejected.
#[derive(Clone, Copy, Debug, PartialEq, Eq, Structural)]
pub enum AgberoError {
    /// Task description longer than the record accepts.
    DescriptionTooLong,
    /// Collateral below the minimum.
    CollateralTooLow,
    /// Deadline not strictly in the future at creation.
    InvalidDeadline,
    /// The transition was invoked from a status other than its required
    /// predecessor.
    InvalidBondStatus,
    /// Stake or proof submission from an identity other than the agent.
    UnauthorizedAgent,
    /// Emergency slash from an identity other than the principal.
    UnauthorizedPrincipal,
    /// The agent tried to vote on its own work.
    AgentCannotVerify,
    /// Proof submitted after the deadline.
    DeadlineExceeded,
    /// Proof URI longer than the record accepts.
    ProofUriTooLong,
    /// Finalization attempted without sufficient consensus and before the
    /// grace deadline; the caller may retry later.
    QuorumNotReached,
    /// The vote list already holds as many votes as the record is sized for.
    TooManyVotes,
    /// The ledger could not move the value: the source balance was below the
    /// requested amount.
    TransferFailed,
}

impl AgberoError {
    /// A short human-readable description of the rejection.
    pub fn message(self) -> &'static str {
        match self {
            AgberoError::DescriptionTooLong => "description too long",
            AgberoError::CollateralTooLow => "collateral too low",
            AgberoError::InvalidDeadline => "invalid deadline",
            AgberoError::InvalidBondStatus => "invalid bond status",
            AgberoError::UnauthorizedAgent => "unauthorized agent",
            AgberoError::UnauthorizedPrincipal => "unauthorized principal",
            AgberoError::AgentCannotVerify => "agent cannot verify own work",
            AgberoError::DeadlineExceeded => "deadline exceeded",
            AgberoError::ProofUriTooLong => "proof URI too long",
            AgberoError::QuorumNotReached => "quorum not yet reached",
            AgberoError::TooManyVotes => "vote capacity reached",
            AgberoError::TransferFailed => "value transfer failed",
        }
    }
}

} // verus!
