//! The bond lifecycle state machine: one function per transition, each
//! validate-then-act. A rejected call returns its error with every record
//! untouched; an accepted call performs exactly the mutation and value
//! movement its contract states.

use vstd::prelude::*;
use vstd::string::StrSliceExecFns;
use crate::bond::{
    Bond, BondStatus, BondView, Identity, Vault, VerificationVote, MAX_BOND_ID_LEN,
    MAX_DESCRIPTION_LEN, MAX_PROOF_URI_LEN, MAX_VOTES, MIN_COLLATERAL,
};
use crate::errors::AgberoError;
use crate::ledger::transfer;
use crate::tally::{
    compute_tally, lemma_approve_count_bounds, majority_approve, majority_reject, quorum_reached,
};

verus! {

/// Seconds past the deadline before an unresolved bond may be auto-slashed.
pub const GRACE_PERIOD_SECS: i64 = 86400;

/// Which rejection, if any, bond creation returns, in the order the inputs
/// are checked.
pub open spec fn create_check(
    task_description: Seq<char>,
    collateral_amount: u64,
    deadline: i64,
    now: i64,
) -> Option<AgberoError> {
    if task_description.len() > MAX_DESCRIPTION_LEN {
        Some(AgberoError::DescriptionTooLong)
    } else if collateral_amount < MIN_COLLATERAL {
        Some(AgberoError::CollateralTooLow)
    } else if deadline <= now {
        Some(AgberoError::InvalidDeadline)
    } else {
        None
    }
}

/// Which rejection, if any, staking returns.
pub open spec fn stake_check(b: BondView, caller: Identity) -> Option<AgberoError> {
    if b.status != BondStatus::Pending {
        Some(AgberoError::InvalidBondStatus)
    } else if caller != b.agent {
        Some(AgberoError::UnauthorizedAgent)
    } else {
        None
    }
}

/// Which rejection, if any, proof submission returns.
pub open spec fn submit_check(
    b: BondView,
    caller: Identity,
    proof_uri: Seq<char>,
    now: i64,
) -> Option<AgberoError> {
    if b.status != BondStatus::Active {
        Some(AgberoError::InvalidBondStatus)
    } else if caller != b.agent {
        Some(AgberoError::UnauthorizedAgent)
    } else if now > b.deadline {
        Some(AgberoError::DeadlineExceeded)
    } else if proof_uri.len() > MAX_PROOF_URI_LEN {
        Some(AgberoError::ProofUriTooLong)
    } else {
        None
    }
}

/// Which rejection, if any, a verification vote returns.
pub open spec fn verify_check(b: BondView, caller: Identity) -> Option<AgberoError> {
    if b.status != BondStatus::PendingVerification {
        Some(AgberoError::InvalidBondStatus)
    } else if caller == b.agent {
        Some(AgberoError::AgentCannotVerify)
    } else if b.verification_votes.len() >= MAX_VOTES {
        Some(AgberoError::TooManyVotes)
    } else {
        None
    }
}

/// Which rejection, if any, an emergency slash returns.
pub open spec fn emergency_check(b: BondView, caller: Identity) -> Option<AgberoError> {
    if b.status != BondStatus::Active && b.status != BondStatus::PendingVerification {
        Some(AgberoError::InvalidBondStatus)
    } else if caller != b.principal {
        Some(AgberoError::UnauthorizedPrincipal)
    } else {
        None
    }
}

/// Finalization may run once proof awaits verification, or once an active
/// bond's deadline has lapsed.
pub open spec fn finalize_eligible(b: BondView, now: i64) -> bool {
    b.status == BondStatus::PendingVerification || (b.status == BondStatus::Active
        && now > b.deadline)
}

/// What an eligible finalization call resolves to.
#[derive(Clone, Copy, Debug, PartialEq, Eq, Structural)]
pub enum FinalizeOutcome {
    /// Quorum reached with a two-thirds approval: release the stake to the
    /// agent.
    Complete,
    /// Quorum reached with a two-thirds rejection, or the grace period past
    /// the deadline has elapsed: slash the stake to the principal.
    Slash,
    /// Neither consensus nor the grace deadline: nothing moves yet.
    NoQuorum,
}

/// The finalization decision, first match wins: approval majority, then
/// rejection majority, then the grace-period auto-slash, else no resolution.
pub open spec fn finalize_decision(
    votes: Seq<VerificationVote>,
    deadline: i64,
    now: i64,
) -> FinalizeOutcome {
    if quorum_reached(votes) && majority_approve(votes) {
        FinalizeOutcome::Complete
    } else if quorum_reached(votes) && majority_reject(votes) {
        FinalizeOutcome::Slash
    } else if now > deadline + GRACE_PERIOD_SECS {
        FinalizeOutcome::Slash
    } else {
        FinalizeOutcome::NoQuorum
    }
}

/// Whether the grace period past the deadline has elapsed.
pub fn grace_elapsed(deadline: i64, now: i64) -> (b: bool)
    ensures
        b == (now > deadline + GRACE_PERIOD_SECS),
{
    (now as i128) > (deadline as i128) + (GRACE_PERIOD_SECS as i128)
}

/// Create a bond: validate the inputs, then return the Pending record.
///
/// The caller supplies the current time and the address-derivation witness;
/// the record starts with no proof, no votes, and no completion stamp.
pub fn create_bond(
    bond_id: String,
    principal: Identity,
    agent: Identity,
    task_description: String,
    collateral_amount: u64,
    deadline: i64,
    now: i64,
    bump: u8,
) -> (r: Result<Bond, AgberoError>)
    requires
        bond_id@.len() <= MAX_BOND_ID_LEN,
    ensures
        (match r {
            Ok(bond) => {
                &&& create_check(task_description@, collateral_amount, deadline, now) is None
                &&& bond@ == (BondView {
                    bond_id: bond_id@,
                    principal,
                    agent,
                    task_description: task_description@,
                    collateral_amount,
                    deadline,
                    status: BondStatus::Pending,
                    created_at: now,
                    completed_at: 0,
                    verification_votes: Seq::<VerificationVote>::empty(),
                    proof_uri: Seq::<char>::empty(),
                    bump,
                })
                &&& bond@.wf()
            },
            Err(e) => Some(e) == create_check(task_description@, collateral_amount, deadline, now),
        }),
{
    if task_description.as_str().unicode_len() > MAX_DESCRIPTION_LEN {
        return Err(AgberoError::DescriptionTooLong);
    }
    if collateral_amount < MIN_COLLATERAL {
        return Err(AgberoError::CollateralTooLow);
    }
    if deadline <= now {
        return Err(AgberoError::InvalidDeadline);
    }
    let bond = Bond {
        bond_id,
        principal,
        agent,
        task_description,
        collateral_amount,
        deadline,
        status: BondStatus::Pending,
        created_at: now,
        completed_at: 0,
        verification_votes: Vec::new(),
        proof_uri: String::new(),
        bump,
    };
    proof {
        assert(bond@ =~= (BondView {
            bond_id: bond@.bond_id,
            principal,
            agent,
            task_description: bond@.task_description,
            collateral_amount,
            deadline,
            status: BondStatus::Pending,
            created_at: now,
            completed_at: 0,
            verification_votes: Seq::<VerificationVote>::empty(),
            proof_uri: Seq::<char>::empty(),
            bump,
        }));
    }
    Ok(bond)
}

/// Stake the collateral: the agent moves exactly `collateral_amount` into the
/// vault and the bond becomes Active. A failed transfer leaves everything
/// untouched.
pub fn stake_collateral(
    bond: &mut Bond,
    vault: &mut Vault,
    agent_funds: &mut u64,
    caller: Identity,
) -> (r: Result<(), AgberoError>)
    requires
        old(bond)@.wf(),
        old(vault).balance + old(bond).collateral_amount <= u64::MAX,
    ensures
        final(bond)@.wf(),
        (match r {
            Ok(()) => {
                &&& stake_check(old(bond)@, caller) is None
                &&& *old(agent_funds) >= old(bond).collateral_amount
                &&& final(bond)@ == (BondView { status: BondStatus::Active, ..old(bond)@ })
                &&& *final(agent_funds) == *old(agent_funds) - old(bond).collateral_amount
                &&& final(vault).balance == old(vault).balance + old(bond).collateral_amount
            },
            Err(e) => {
                &&& final(bond)@ == old(bond)@
                &&& *final(vault) == *old(vault)
                &&& *final(agent_funds) == *old(agent_funds)
                &&& (if stake_check(old(bond)@, caller) is Some {
                    Some(e) == stake_check(old(bond)@, caller)
                } else {
                    e == AgberoError::TransferFailed && *old(agent_funds) < old(
                        bond,
                    ).collateral_amount
                })
            },
        }),
{
    if bond.status != BondStatus::Pending {
        return Err(AgberoError::InvalidBondStatus);
    }
    if caller != bond.agent {
        return Err(AgberoError::UnauthorizedAgent);
    }
    let amount = bond.collateral_amount;
    if !transfer(agent_funds, &mut vault.balance, amount) {
        return Err(AgberoError::TransferFailed);
    }
    bond.status = BondStatus::Active;
    proof {
        assert(bond@ =~= (BondView { status: BondStatus::Active, ..old(bond)@ }));
    }
    Ok(())
}

/// Submit proof of completion: before the deadline the agent stores the proof
/// URI and the bond moves to PendingVerification. No value moves.
pub fn submit_proof(
    bond: &mut Bond,
    caller: Identity,
    proof_uri: String,
    now: i64,
) -> (r: Result<(), AgberoError>)
    requires
        old(bond)@.wf(),
    ensures
        final(bond)@.wf(),
        (match r {
            Ok(()) => {
                &&& submit_check(old(bond)@, caller, proof_uri@, now) is None
                &&& final(bond)@ == (BondView {
                    status: BondStatus::PendingVerification,
                    proof_uri: proof_uri@,
                    ..old(bond)@
                })
            },
            Err(e) => {
                &&& final(bond)@ == old(bond)@
                &&& Some(e) == submit_check(old(bond)@, caller, proof_uri@, now)
            },
        }),
{
    if bond.status != BondStatus::Active {
        return Err(AgberoError::InvalidBondStatus);
    }
    if caller != bond.agent {
        return Err(AgberoError::UnauthorizedAgent);
    }
    if now > bond.deadline {
        return Err(AgberoError::DeadlineExceeded);
    }
    if proof_uri.as_str().unicode_len() > MAX_PROOF_URI_LEN {
        return Err(AgberoError::ProofUriTooLong);
    }
    bond.proof_uri = proof_uri;
    bond.status = BondStatus::PendingVerification;
    proof {
        assert(bond@ =~= (BondView {
            status: BondStatus::PendingVerification,
            proof_uri: bond@.proof_uri,
            ..old(bond)@
        }));
    }
    Ok(())
}

/// Record a verification vote: any identity but the agent may vote while the
/// bond awaits verification and the vote list has room. The vote is appended;
/// nothing else changes.
pub fn verify_work(
    bond: &mut Bond,
    caller: Identity,
    approve: bool,
    now: i64,
) -> (r: Result<(), AgberoError>)
    requires
        old(bond)@.wf(),
    ensures
        final(bond)@.wf(),
        (match r {
            Ok(()) => {
                &&& verify_check(old(bond)@, caller) is None
                &&& final(bond)@ == (BondView {
                    verification_votes: old(bond)@.verification_votes.push(
                        VerificationVote { verifier: caller, approve, timestamp: now },
                    ),
                    ..old(bond)@
                })
            },
            Err(e) => {
                &&& final(bond)@ == old(bond)@
                &&& Some(e) == verify_check(old(bond)@, caller)
            },
        }),
{
    if bond.status != BondStatus::PendingVerification {
        return Err(AgberoError::InvalidBondStatus);
    }
    if caller == bond.agent {
        return Err(AgberoError::AgentCannotVerify);
    }
    if bond.verification_votes.len() >= MAX_VOTES {
        return Err(AgberoError::TooManyVotes);
    }
    bond.verification_votes.push(VerificationVote { verifier: caller, approve, timestamp: now });
    proof {
        assert(bond@ =~= (BondView {
            verification_votes: bond@.verification_votes,
            ..old(bond)@
        }));
    }
    Ok(())
}

/// Finalize the bond. Anyone may call once the bond awaits verification, or
/// once an active bond's deadline has lapsed. First match wins: a two-thirds
/// approval quorum completes the bond and drains the vault to the agent; a
/// two-thirds rejection quorum, or the elapsed grace period, slashes it to
/// the principal; otherwise nothing changes and the caller must retry later.
pub fn finalize_bond(
    bond: &mut Bond,
    vault: &mut Vault,
    agent_funds: &mut u64,
    principal_funds: &mut u64,
    now: i64,
) -> (r: Result<(), AgberoError>)
    requires
        old(bond)@.wf(),
        *old(agent_funds) + old(vault).balance <= u64::MAX,
        *old(principal_funds) + old(vault).balance <= u64::MAX,
    ensures
        final(bond)@.wf(),
        ({
            let b0 = old(bond)@;
            let d = finalize_decision(b0.verification_votes, b0.deadline, now);
            &&& !finalize_eligible(b0, now) ==> {
                &&& r == Err::<(), AgberoError>(AgberoError::InvalidBondStatus)
                &&& final(bond)@ == b0
                &&& *final(vault) == *old(vault)
                &&& *final(agent_funds) == *old(agent_funds)
                &&& *final(principal_funds) == *old(principal_funds)
            }
            &&& (finalize_eligible(b0, now) && d == FinalizeOutcome::Complete) ==> {
                &&& r == Ok::<(), AgberoError>(())
                &&& final(bond)@ == (BondView {
                    status: BondStatus::Completed,
                    completed_at: now,
                    ..b0
                })
                &&& final(vault).balance == 0
                &&& *final(agent_funds) == *old(agent_funds) + old(vault).balance
                &&& *final(principal_funds) == *old(principal_funds)
            }
            &&& (finalize_eligible(b0, now) && d == FinalizeOutcome::Slash) ==> {
                &&& r == Ok::<(), AgberoError>(())
                &&& final(bond)@ == (BondView {
                    status: BondStatus::Slashed,
                    completed_at: now,
                    ..b0
                })
                &&& final(vault).balance == 0
                &&& *final(agent_funds) == *old(agent_funds)
                &&& *final(principal_funds) == *old(principal_funds) + old(vault).balance
            }
            &&& (finalize_eligible(b0, now) && d == FinalizeOutcome::NoQuorum) ==> {
                &&& r == Err::<(), AgberoError>(AgberoError::QuorumNotReached)
                &&& final(bond)@ == b0
                &&& *final(vault) == *old(vault)
                &&& *final(agent_funds) == *old(agent_funds)
                &&& *final(principal_funds) == *old(principal_funds)
            }
        }),
{
    let eligible = bond.status == BondStatus::PendingVerification || (bond.status
        == BondStatus::Active && now > bond.deadline);
    if !eligible {
        return Err(AgberoError::InvalidBondStatus);
    }
    proof {
        lemma_approve_count_bounds(bond@.verification_votes);
    }
    let t = compute_tally(&bond.verification_votes);
    let quorum = t.has_quorum();
    if quorum && t.approves() {
        bond.status = BondStatus::Completed;
        bond.completed_at = now;
        let amount = vault.balance;
        let ok = transfer(&mut vault.balance, agent_funds, amount);
        assert(ok);
        proof {
            assert(bond@ =~= (BondView {
                status: BondStatus::Completed,
                completed_at: now,
                ..old(bond)@
            }));
        }
        Ok(())
    } else if quorum && t.rejects() {
        bond.status = BondStatus::Slashed;
        bond.completed_at = now;
        let amount = vault.balance;
        let ok = transfer(&mut vault.balance, principal_funds, amount);
        assert(ok);
        proof {
            assert(bond@ =~= (BondView {
                status: BondStatus::Slashed,
                completed_at: now,
                ..old(bond)@
            }));
        }
        Ok(())
    } else if grace_elapsed(bond.deadline, now) {
        bond.status = BondStatus::Slashed;
        bond.completed_at = now;
        let amount = vault.balance;
        let ok = transfer(&mut vault.balance, principal_funds, amount);
        assert(ok);
        proof {
            assert(bond@ =~= (BondView {
                status: BondStatus::Slashed,
                completed_at: now,
                ..old(bond)@
            }));
        }
        Ok(())
    } else {
        Err(AgberoError::QuorumNotReached)
    }
}

/// Emergency slash: the principal, and only the principal, may slash an
/// Active or PendingVerification bond at once, draining the vault to itself
/// regardless of any votes.
pub fn emergency_slash(
    bond: &mut Bond,
    vault: &mut Vault,
    principal_funds: &mut u64,
    caller: Identity,
    now: i64,
) -> (r: Result<(), AgberoError>)
    requires
        old(bond)@.wf(),
        *old(principal_funds) + old(vault).balance <= u64::MAX,
    ensures
        final(bond)@.wf(),
        (match r {
            Ok(()) => {
                &&& emergency_check(old(bond)@, caller) is None
                &&& final(bond)@ == (BondView {
                    status: BondStatus::Slashed,
                    completed_at: now,
                    ..old(bond)@
                })
                &&& final(vault).balance == 0
                &&& *final(principal_funds) == *old(principal_funds) + old(vault).balance
            },
            Err(e) => {
                &&& final(bond)@ == old(bond)@
                &&& *final(vault) == *old(vault)
                &&& *final(principal_funds) == *old(principal_funds)
                &&& Some(e) == emergency_check(old(bond)@, caller)
            },
        }),
{
    if bond.status != BondStatus::Active && bond.status != BondStatus::PendingVerification {
        return Err(AgberoError::InvalidBondStatus);
    }
    if caller != bond.principal {
        return Err(AgberoError::UnauthorizedPrincipal);
    }
    bond.status = BondStatus::Slashed;
    bond.completed_at = now;
    let amount = vault.balance;
    let ok = transfer(&mut vault.balance, principal_funds, amount);
    assert(ok);
    proof {
        assert(bond@ =~= (BondView {
            status: BondStatus::Slashed,
            completed_at: now,
            ..old(bond)@
        }));
    }
    Ok(())
}

} // verus!
