//! The data model of one escrow: the bond record, its vault, and the
//! identities and votes that appear in it.

use vstd::prelude::*;

verus! {

/// Longest bond identifier accepted, in characters.
pub const MAX_BOND_ID_LEN: usize = 50;

/// Longest task description accepted, in characters.
pub const MAX_DESCRIPTION_LEN: usize = 500;

/// Longest proof URI accepted, in characters.
pub const MAX_PROOF_URI_LEN: usize = 200;

/// Smallest collateral a bond may be created with, in minimal value units.
pub const MIN_COLLATERAL: u64 = 1_000_000;

/// The record stores at most this many verification votes.
pub const MAX_VOTES: usize = 10;

/// An identity (a 32-byte public key), held as four 64-bit words so that
/// equality is plain field equality.
#[derive(Clone, Copy, Debug, PartialEq, Eq, Structural)]
pub struct Identity {
    pub w0: u64,
    pub w1: u64,
    pub w2: u64,
    pub w3: u64,
}

/// Where a bond stands in its lifecycle.
#[derive(Clone, Copy, Debug, PartialEq, Eq, Structural)]
pub enum BondStatus {
    /// Created, waiting for the agent to stake.
    Pending,
    /// Collateral staked, work in progress.
    Active,
    /// Proof submitted, awaiting verification votes.
    PendingVerification,
    /// Work verified, stake released to the agent. Terminal.
    Completed,
    /// Work failed, stake slashed to the principal. Terminal.
    Slashed,
}

impl BondStatus {
    /// Completed and Slashed admit no further transition.
    pub open spec fn is_terminal(self) -> bool {
        self == BondStatus::Completed || self == BondStatus::Slashed
    }
}

/// One verifier's approve/reject vote.
#[derive(Clone, Copy, Debug, PartialEq, Eq, Structural)]
pub struct VerificationVote {
    pub verifier: Identity,
    pub approve: bool,
    pub timestamp: i64,
}

/// The escrow account paired 1:1 with a bond; it holds the staked value.
#[derive(Clone, Copy, Debug, PartialEq, Eq, Structural)]
pub struct Vault {
    pub balance: u64,
}

impl Vault {
    /// A fresh vault holds nothing.
    pub fn new() -> (v: Vault)
        ensures
            v.balance == 0,
    {
        Vault { balance: 0 }
    }
}

/// The persisted state of one escrow.
#[derive(Clone, Debug, PartialEq)]
pub struct Bond {
    pub bond_id: String,
    pub principal: Identity,
    pub agent: Identity,
    pub task_description: String,
    pub collateral_amount: u64,
    pub deadline: i64,
    pub status: BondStatus,
    pub created_at: i64,
    pub completed_at: i64,
    pub verification_votes: Vec<VerificationVote>,
    pub proof_uri: String,
    pub bump: u8,
}

/// The mathematical value of a bond record.
#[verifier::ext_equal]
pub struct BondView {
    pub bond_id: Seq<char>,
    pub principal: Identity,
    pub agent: Identity,
    pub task_description: Seq<char>,
    pub collateral_amount: u64,
    pub deadline: i64,
    pub status: BondStatus,
    pub created_at: i64,
    pub completed_at: i64,
    pub verification_votes: Seq<VerificationVote>,
    pub proof_uri: Seq<char>,
    pub bump: u8,
}

impl View for Bond {
    type V = BondView;

    open spec fn view(&self) -> BondView {
        BondView {
            bond_id: self.bond_id@,
            principal: self.principal,
            agent: self.agent,
            task_description: self.task_description@,
            collateral_amount: self.collateral_amount,
            deadline: self.deadline,
            status: self.status,
            created_at: self.created_at,
            completed_at: self.completed_at,
            verification_votes: self.verification_votes@,
            proof_uri: self.proof_uri@,
            bump: self.bump,
        }
    }
}

impl BondView {
    /// Well-formedness of a bond record: the bounds its storage is sized for,
    /// the collateral floor checked at creation, and the facts the lifecycle
    /// keeps true (no proof or votes before submission, no completion stamp
    /// before a terminal state).
    pub open spec fn wf(self) -> bool {
        &&& self.bond_id.len() <= MAX_BOND_ID_LEN
        &&& self.task_description.len() <= MAX_DESCRIPTION_LEN
        &&& self.proof_uri.len() <= MAX_PROOF_URI_LEN
        &&& self.verification_votes.len() <= MAX_VOTES
        &&& self.collateral_amount >= MIN_COLLATERAL
        &&& (self.status == BondStatus::Pending || self.status == BondStatus::Active)
            ==> (self.proof_uri.len() == 0 && self.verification_votes.len() == 0)
        &&& !self.status.is_terminal() ==> self.completed_at == 0
    }
}

} // verus!
