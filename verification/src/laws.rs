//! The general properties of the escrow, each stated over the spec functions
//! the transition contracts use, and proved once for all inputs.

use vstd::prelude::*;
use crate::bond::{BondStatus, BondView, Identity, VerificationVote};
use crate::errors::AgberoError;
use crate::tally::{majority_approve, majority_reject};
use crate::transitions::{
    create_check, emergency_check, finalize_decision, finalize_eligible, stake_check,
    submit_check, verify_check, FinalizeOutcome, GRACE_PERIOD_SECS,
};

verus! {

/// Creation validates each input independently, in a fixed order: a
/// description over the limit is rejected as DescriptionTooLong; with the
/// description in bounds, collateral under the minimum is rejected as
/// CollateralTooLow; with both in bounds, a deadline not strictly in the
/// future is rejected as InvalidDeadline; and inputs that pass all three
/// checks are accepted.
pub proof fn lemma_creation_validation(
    task_description: Seq<char>,
    collateral_amount: u64,
    deadline: i64,
    now: i64,
)
    ensures
        task_description.len() > 500 ==> create_check(
            task_description,
            collateral_amount,
            deadline,
            now,
        ) == Some(AgberoError::DescriptionTooLong),
        task_description.len() <= 500 && collateral_amount < 1_000_000 ==> create_check(
            task_description,
            collateral_amount,
            deadline,
            now,
        ) == Some(AgberoError::CollateralTooLow),
        task_description.len() <= 500 && collateral_amount >= 1_000_000 && deadline <= now
            ==> create_check(task_description, collateral_amount, deadline, now) == Some(
            AgberoError::InvalidDeadline,
        ),
        task_description.len() <= 500 && collateral_amount >= 1_000_000 && deadline > now
            ==> create_check(task_description, collateral_amount, deadline, now) is None,
{
}

/// Status-guard completeness: every transition, invoked from a status other
/// than its required predecessor, is rejected as InvalidBondStatus — and the
/// transition contracts state that a rejected call leaves the record
/// unchanged.
pub proof fn lemma_status_guard_completeness(
    b: BondView,
    caller: Identity,
    proof_uri: Seq<char>,
    now: i64,
)
    ensures
        b.status != BondStatus::Pending ==> stake_check(b, caller) == Some(
            AgberoError::InvalidBondStatus,
        ),
        b.status != BondStatus::Active ==> submit_check(b, caller, proof_uri, now) == Some(
            AgberoError::InvalidBondStatus,
        ),
        b.status != BondStatus::PendingVerification ==> verify_check(b, caller) == Some(
            AgberoError::InvalidBondStatus,
        ),
        b.status != BondStatus::Active && b.status != BondStatus::PendingVerification
            ==> emergency_check(b, caller) == Some(AgberoError::InvalidBondStatus),
{
}

/// Authorization: with the status guard satisfied, staking and proof
/// submission from a non-agent identity are rejected as UnauthorizedAgent, an
/// emergency slash from a non-principal identity as UnauthorizedPrincipal,
/// and a vote from the agent's own identity as AgentCannotVerify.
pub proof fn lemma_authorization(b: BondView, caller: Identity, proof_uri: Seq<char>, now: i64)
    ensures
        b.status == BondStatus::Pending && caller != b.agent ==> stake_check(b, caller) == Some(
            AgberoError::UnauthorizedAgent,
        ),
        b.status == BondStatus::Active && caller != b.agent ==> submit_check(
            b,
            caller,
            proof_uri,
            now,
        ) == Some(AgberoError::UnauthorizedAgent),
        b.status == BondStatus::PendingVerification && caller == b.agent ==> verify_check(
            b,
            caller,
        ) == Some(AgberoError::AgentCannotVerify),
        (b.status == BondStatus::Active || b.status == BondStatus::PendingVerification) && caller
            != b.principal ==> emergency_check(b, caller) == Some(
            AgberoError::UnauthorizedPrincipal,
        ),
{
}

/// The two two-thirds majorities exclude each other: no non-empty vote
/// sequence carries both an approval and a rejection majority.
pub proof fn lemma_majorities_exclusive(votes: Seq<VerificationVote>)
    requires
        votes.len() >= 1,
    ensures
        !(majority_approve(votes) && majority_reject(votes)),
{
}

/// Grace-period auto-slash: short of quorum, once the grace period past the
/// deadline has elapsed, finalization resolves to Slash — whatever minority
/// votes were cast.
pub proof fn lemma_grace_auto_slash(votes: Seq<VerificationVote>, deadline: i64, now: i64)
    requires
        votes.len() < 3,
        now > deadline + GRACE_PERIOD_SECS,
    ensures
        finalize_decision(votes, deadline, now) == FinalizeOutcome::Slash,
{
}

/// Short of quorum and short of the grace deadline, finalization resolves to
/// nothing: the caller gets QuorumNotReached and must retry later.
pub proof fn lemma_no_quorum_no_resolution(votes: Seq<VerificationVote>, deadline: i64, now: i64)
    requires
        votes.len() < 3,
        now <= deadline + GRACE_PERIOD_SECS,
    ensures
        finalize_decision(votes, deadline, now) == FinalizeOutcome::NoQuorum,
{
}

/// Terminal states are final: once a bond is Completed or Slashed, every
/// transition's guard rejects it as InvalidBondStatus, and finalization is no
/// longer eligible — so, by the transition contracts, the record and the
/// drained vault never change again.
pub proof fn lemma_terminal_states_are_final(
    b: BondView,
    caller: Identity,
    proof_uri: Seq<char>,
    now: i64,
)
    requires
        b.status.is_terminal(),
    ensures
        stake_check(b, caller) == Some(AgberoError::InvalidBondStatus),
        submit_check(b, caller, proof_uri, now) == Some(AgberoError::InvalidBondStatus),
        verify_check(b, caller) == Some(AgberoError::InvalidBondStatus),
        emergency_check(b, caller) == Some(AgberoError::InvalidBondStatus),
        !finalize_eligible(b, now),
{
}

} // verus!
