use agbero::bond::{Bond, BondStatus, Identity, Vault};
use agbero::errors::AgberoError;
use agbero::transitions::{
    create_bond, emergency_slash, finalize_bond, stake_collateral, submit_proof, verify_work,
};

const PRINCIPAL: u64 = 1;
const AGENT: u64 = 2;

fn id(n: u64) -> Identity {
    Identity { w0: n, w1: 0, w2: 0, w3: 0 }
}

fn fresh_bond() -> Bond {
    create_bond(
        "job-1".to_string(),
        id(PRINCIPAL),
        id(AGENT),
        "write a report".to_string(),
        2_000_000,
        1_100,
        100,
        254,
    )
    .unwrap()
}

fn staked_bond() -> (Bond, Vault, u64) {
    let mut bond = fresh_bond();
    let mut vault = Vault::new();
    let mut agent_funds: u64 = 5_000_000;
    stake_collateral(&mut bond, &mut vault, &mut agent_funds, id(AGENT)).unwrap();
    (bond, vault, agent_funds)
}

fn verifying_bond() -> (Bond, Vault, u64) {
    let (mut bond, vault, agent_funds) = staked_bond();
    submit_proof(&mut bond, id(AGENT), "ipfs://proof".to_string(), 500).unwrap();
    (bond, vault, agent_funds)
}

#[test]
fn stake_moves_collateral_and_activates() {
    let (bond, vault, agent_funds) = staked_bond();
    assert_eq!(bond.status, BondStatus::Active);
    assert_eq!(vault.balance, 2_000_000);
    assert_eq!(agent_funds, 3_000_000);
}

#[test]
fn stake_rejects_non_agent() {
    let mut bond = fresh_bond();
    let mut vault = Vault::new();
    let mut funds: u64 = 5_000_000;
    let before = bond.clone();
    let r = stake_collateral(&mut bond, &mut vault, &mut funds, id(99));
    assert_eq!(r.unwrap_err(), AgberoError::UnauthorizedAgent);
    assert_eq!(bond, before);
    assert_eq!(vault.balance, 0);
    assert_eq!(funds, 5_000_000);
}

#[test]
fn stake_rejects_wrong_status() {
    let (mut bond, mut vault, mut agent_funds) = staked_bond();
    let before = bond.clone();
    let r = stake_collateral(&mut bond, &mut vault, &mut agent_funds, id(AGENT));
    assert_eq!(r.unwrap_err(), AgberoError::InvalidBondStatus);
    assert_eq!(bond, before);
}

#[test]
fn stake_fails_atomically_on_insufficient_funds() {
    let mut bond = fresh_bond();
    let mut vault = Vault::new();
    let mut funds: u64 = 1_999_999;
    let r = stake_collateral(&mut bond, &mut vault, &mut funds, id(AGENT));
    assert_eq!(r.unwrap_err(), AgberoError::TransferFailed);
    assert_eq!(bond.status, BondStatus::Pending);
    assert_eq!(vault.balance, 0);
    assert_eq!(funds, 1_999_999);
}

#[test]
fn submit_proof_stores_uri() {
    let (bond, _, _) = verifying_bond();
    assert_eq!(bond.status, BondStatus::PendingVerification);
    assert_eq!(bond.proof_uri, "ipfs://proof");
}

#[test]
fn submit_proof_rejects_non_agent() {
    let (mut bond, _, _) = staked_bond();
    let r = submit_proof(&mut bond, id(PRINCIPAL), "uri".to_string(), 500);
    assert_eq!(r.unwrap_err(), AgberoError::UnauthorizedAgent);
    assert_eq!(bond.status, BondStatus::Active);
}

#[test]
fn submit_proof_rejects_after_deadline() {
    let (mut bond, _, _) = staked_bond();
    let r = submit_proof(&mut bond, id(AGENT), "uri".to_string(), 1_101);
    assert_eq!(r.unwrap_err(), AgberoError::DeadlineExceeded);
}

#[test]
fn submit_proof_rejects_long_uri() {
    let (mut bond, _, _) = staked_bond();
    let r = submit_proof(&mut bond, id(AGENT), "u".repeat(201), 500);
    assert_eq!(r.unwrap_err(), AgberoError::ProofUriTooLong);
    let r2 = submit_proof(&mut bond, id(AGENT), "u".repeat(200), 500);
    assert!(r2.is_ok());
}

#[test]
fn submit_proof_rejects_wrong_status() {
    let mut bond = fresh_bond();
    let r = submit_proof(&mut bond, id(AGENT), "uri".to_string(), 500);
    assert_eq!(r.unwrap_err(), AgberoError::InvalidBondStatus);
}

#[test]
fn verify_appends_vote() {
    let (mut bond, _, _) = verifying_bond();
    verify_work(&mut bond, id(10), true, 600).unwrap();
    assert_eq!(bond.verification_votes.len(), 1);
    assert_eq!(bond.verification_votes[0].verifier, id(10));
    assert!(bond.verification_votes[0].approve);
    assert_eq!(bond.verification_votes[0].timestamp, 600);
}

#[test]
fn verify_keeps_votes_in_append_order() {
    let (mut bond, _, _) = verifying_bond();
    verify_work(&mut bond, id(10), true, 600).unwrap();
    verify_work(&mut bond, id(11), false, 610).unwrap();
    verify_work(&mut bond, id(12), true, 620).unwrap();
    let verifiers: Vec<u64> = bond.verification_votes.iter().map(|v| v.verifier.w0).collect();
    assert_eq!(verifiers, vec![10, 11, 12]);
    let approvals: Vec<bool> = bond.verification_votes.iter().map(|v| v.approve).collect();
    assert_eq!(approvals, vec![true, false, true]);
}

#[test]
fn verify_rejects_agent_voting() {
    let (mut bond, _, _) = verifying_bond();
    let r = verify_work(&mut bond, id(AGENT), true, 600);
    assert_eq!(r.unwrap_err(), AgberoError::AgentCannotVerify);
    assert_eq!(bond.verification_votes.len(), 0);
}

#[test]
fn verify_rejects_wrong_status() {
    let (mut bond, _, _) = staked_bond();
    let r = verify_work(&mut bond, id(10), true, 600);
    assert_eq!(r.unwrap_err(), AgberoError::InvalidBondStatus);
}

#[test]
fn verify_caps_vote_count() {
    let (mut bond, _, _) = verifying_bond();
    for i in 0..10u64 {
        verify_work(&mut bond, id(100 + i), true, 600).unwrap();
    }
    let r = verify_work(&mut bond, id(200), true, 601);
    assert_eq!(r.unwrap_err(), AgberoError::TooManyVotes);
    assert_eq!(bond.verification_votes.len(), 10);
}

#[test]
fn scenario_a_approval_majority_completes() {
    let (mut bond, mut vault, mut agent_funds) = verifying_bond();
    let mut principal_funds: u64 = 0;
    verify_work(&mut bond, id(10), true, 600).unwrap();
    verify_work(&mut bond, id(11), true, 610).unwrap();
    verify_work(&mut bond, id(12), false, 620).unwrap();
    finalize_bond(&mut bond, &mut vault, &mut agent_funds, &mut principal_funds, 700).unwrap();
    assert_eq!(bond.status, BondStatus::Completed);
    assert_eq!(bond.completed_at, 700);
    assert_eq!(vault.balance, 0);
    assert_eq!(agent_funds, 5_000_000);
    assert_eq!(principal_funds, 0);
}

#[test]
fn scenario_b_rejection_majority_slashes() {
    let (mut bond, mut vault, mut agent_funds) = verifying_bond();
    let mut principal_funds: u64 = 0;
    verify_work(&mut bond, id(10), false, 600).unwrap();
    verify_work(&mut bond, id(11), false, 610).unwrap();
    verify_work(&mut bond, id(12), true, 620).unwrap();
    finalize_bond(&mut bond, &mut vault, &mut agent_funds, &mut principal_funds, 700).unwrap();
    assert_eq!(bond.status, BondStatus::Slashed);
    assert_eq!(bond.completed_at, 700);
    assert_eq!(vault.balance, 0);
    assert_eq!(agent_funds, 3_000_000);
    assert_eq!(principal_funds, 2_000_000);
}

#[test]
fn scenario_c_grace_lapse_auto_slashes() {
    let (mut bond, mut vault, mut agent_funds) = staked_bond();
    let mut principal_funds: u64 = 0;
    // No proof, no votes; the deadline and the full grace period elapse.
    let now = 1_100 + 86_400 + 1;
    finalize_bond(&mut bond, &mut vault, &mut agent_funds, &mut principal_funds, now).unwrap();
    assert_eq!(bond.status, BondStatus::Slashed);
    assert_eq!(vault.balance, 0);
    assert_eq!(principal_funds, 2_000_000);
}

#[test]
fn finalize_at_grace_deadline_still_waits() {
    let (mut bond, mut vault, mut agent_funds) = staked_bond();
    let mut principal_funds: u64 = 0;
    // Exactly at deadline + grace: the window has not yet elapsed.
    let now = 1_100 + 86_400;
    let r = finalize_bond(&mut bond, &mut vault, &mut agent_funds, &mut principal_funds, now);
    assert_eq!(r.unwrap_err(), AgberoError::QuorumNotReached);
    assert_eq!(bond.status, BondStatus::Active);
    assert_eq!(vault.balance, 2_000_000);
}

#[test]
fn scenario_d_emergency_slash_is_immediate() {
    let (mut bond, mut vault, _) = staked_bond();
    let mut principal_funds: u64 = 0;
    emergency_slash(&mut bond, &mut vault, &mut principal_funds, id(PRINCIPAL), 800).unwrap();
    assert_eq!(bond.status, BondStatus::Slashed);
    assert_eq!(bond.completed_at, 800);
    assert_eq!(vault.balance, 0);
    assert_eq!(principal_funds, 2_000_000);
}

#[test]
fn emergency_slash_rejects_non_principal() {
    let (mut bond, mut vault, _) = staked_bond();
    let mut principal_funds: u64 = 0;
    let r = emergency_slash(&mut bond, &mut vault, &mut principal_funds, id(AGENT), 800);
    assert_eq!(r.unwrap_err(), AgberoError::UnauthorizedPrincipal);
    assert_eq!(bond.status, BondStatus::Active);
    assert_eq!(vault.balance, 2_000_000);
}

#[test]
fn emergency_slash_rejects_pending_bond() {
    let mut bond = fresh_bond();
    let mut vault = Vault::new();
    let mut principal_funds: u64 = 0;
    let r = emergency_slash(&mut bond, &mut vault, &mut principal_funds, id(PRINCIPAL), 800);
    assert_eq!(r.unwrap_err(), AgberoError::InvalidBondStatus);
}

#[test]
fn finalize_rejects_pending_bond() {
    let mut bond = fresh_bond();
    let mut vault = Vault::new();
    let mut agent_funds: u64 = 0;
    let mut principal_funds: u64 = 0;
    let r = finalize_bond(&mut bond, &mut vault, &mut agent_funds, &mut principal_funds, 700);
    assert_eq!(r.unwrap_err(), AgberoError::InvalidBondStatus);
}

#[test]
fn finalize_rejects_active_bond_before_deadline() {
    let (mut bond, mut vault, mut agent_funds) = staked_bond();
    let mut principal_funds: u64 = 0;
    let before = bond.clone();
    let r = finalize_bond(&mut bond, &mut vault, &mut agent_funds, &mut principal_funds, 1_000);
    assert_eq!(r.unwrap_err(), AgberoError::InvalidBondStatus);
    assert_eq!(bond, before);
    assert_eq!(vault.balance, 2_000_000);
}

#[test]
fn finalize_without_quorum_asks_for_retry() {
    let (mut bond, mut vault, mut agent_funds) = verifying_bond();
    let mut principal_funds: u64 = 0;
    verify_work(&mut bond, id(10), true, 600).unwrap();
    verify_work(&mut bond, id(11), false, 610).unwrap();
    let before = bond.clone();
    let r = finalize_bond(&mut bond, &mut vault, &mut agent_funds, &mut principal_funds, 700);
    assert_eq!(r.unwrap_err(), AgberoError::QuorumNotReached);
    assert_eq!(bond, before);
    assert_eq!(vault.balance, 2_000_000);
    assert_eq!(agent_funds, 3_000_000);
    assert_eq!(principal_funds, 0);
}

#[test]
fn finalize_drains_stray_value_too() {
    let (mut bond, mut vault, mut agent_funds) = verifying_bond();
    let mut principal_funds: u64 = 0;
    // Stray value lands in the vault before the terminal transfer: the drain
    // sends whatever the vault holds, not merely the collateral.
    vault.balance += 777;
    verify_work(&mut bond, id(10), true, 600).unwrap();
    verify_work(&mut bond, id(11), true, 610).unwrap();
    verify_work(&mut bond, id(12), true, 620).unwrap();
    finalize_bond(&mut bond, &mut vault, &mut agent_funds, &mut principal_funds, 700).unwrap();
    assert_eq!(vault.balance, 0);
    assert_eq!(agent_funds, 3_000_000 + 2_000_000 + 777);
}

#[test]
fn terminal_states_block_every_transition() {
    let (mut bond, mut vault, mut agent_funds) = verifying_bond();
    let mut principal_funds: u64 = 0;
    verify_work(&mut bond, id(10), true, 600).unwrap();
    verify_work(&mut bond, id(11), true, 610).unwrap();
    verify_work(&mut bond, id(12), true, 620).unwrap();
    finalize_bond(&mut bond, &mut vault, &mut agent_funds, &mut principal_funds, 700).unwrap();
    assert_eq!(bond.status, BondStatus::Completed);

    let before = bond.clone();
    assert_eq!(
        stake_collateral(&mut bond, &mut vault, &mut agent_funds, id(AGENT)).unwrap_err(),
        AgberoError::InvalidBondStatus
    );
    assert_eq!(
        submit_proof(&mut bond, id(AGENT), "uri".to_string(), 700).unwrap_err(),
        AgberoError::InvalidBondStatus
    );
    assert_eq!(
        verify_work(&mut bond, id(10), true, 700).unwrap_err(),
        AgberoError::InvalidBondStatus
    );
    assert_eq!(
        emergency_slash(&mut bond, &mut vault, &mut principal_funds, id(PRINCIPAL), 700)
            .unwrap_err(),
        AgberoError::InvalidBondStatus
    );
    assert_eq!(
        finalize_bond(&mut bond, &mut vault, &mut agent_funds, &mut principal_funds, 700)
            .unwrap_err(),
        AgberoError::InvalidBondStatus
    );
    assert_eq!(bond, before);
    assert_eq!(vault.balance, 0);
}
