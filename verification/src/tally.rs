//! The verification quorum and its tally: how many votes there are, how many
//! approve, and which two-thirds majority, if any, the votes carry.

use vstd::prelude::*;
use crate::bond::VerificationVote;

verus! {

/// Votes needed before the tally may be acted upon.
pub const QUORUM: usize = 3;

/// How many of the votes approve.
pub open spec fn approve_count(votes: Seq<VerificationVote>) -> int
    decreases votes.len(),
{
    if votes.len() == 0 {
        0
    } else {
        approve_count(votes.drop_last()) + if votes.last().approve {
            1int
        } else {
            0int
        }
    }
}

/// How many of the votes reject.
pub open spec fn reject_count(votes: Seq<VerificationVote>) -> int {
    votes.len() - approve_count(votes)
}

/// At least `QUORUM` votes were cast.
pub open spec fn quorum_reached(votes: Seq<VerificationVote>) -> bool {
    votes.len() >= QUORUM
}

/// At least two thirds of the votes approve.
pub open spec fn majority_approve(votes: Seq<VerificationVote>) -> bool {
    approve_count(votes) * 3 >= votes.len() * 2
}

/// At least two thirds of the votes reject.
pub open spec fn majority_reject(votes: Seq<VerificationVote>) -> bool {
    reject_count(votes) * 3 >= votes.len() * 2
}

/// The approve count never leaves `[0, votes.len()]`.
pub proof fn lemma_approve_count_bounds(votes: Seq<VerificationVote>)
    ensures
        0 <= approve_count(votes) <= votes.len(),
    decreases votes.len(),
{
    if votes.len() > 0 {
        lemma_approve_count_bounds(votes.drop_last());
    }
}

/// Counting one more vote adds one exactly when that vote approves.
proof fn lemma_approve_count_take_step(votes: Seq<VerificationVote>, i: int)
    requires
        0 <= i < votes.len(),
    ensures
        approve_count(votes.take(i + 1)) == approve_count(votes.take(i)) + if votes[i].approve {
            1int
        } else {
            0int
        },
{
    assert(votes.take(i + 1).drop_last() =~= votes.take(i));
    assert(votes.take(i + 1).last() == votes[i]);
}

/// The tally of a vote sequence at finalization time.
#[derive(Clone, Copy, Debug, PartialEq, Eq, Structural)]
pub struct Tally {
    pub total: usize,
    pub approvals: usize,
    pub rejections: usize,
}

/// Count the votes. The result's fields are exactly the spec-level counts.
pub fn compute_tally(votes: &Vec<VerificationVote>) -> (t: Tally)
    ensures
        t.total == votes@.len(),
        t.approvals == approve_count(votes@),
        t.rejections == reject_count(votes@),
{
    let mut approvals: usize = 0;
    let n: usize = votes.len();
    for i in 0..n
        invariant
            n == votes@.len(),
            approvals == approve_count(votes@.take(i as int)),
            approvals <= i,
    {
        proof {
            lemma_approve_count_take_step(votes@, i as int);
        }
        if votes[i].approve {
            approvals = approvals + 1;
        }
    }
    proof {
        assert(votes@.take(n as int) =~= votes@);
        lemma_approve_count_bounds(votes@);
    }
    Tally { total: n, approvals, rejections: n - approvals }
}

impl Tally {
    /// Whether the quorum was reached.
    pub fn has_quorum(&self) -> (b: bool)
        ensures
            b == (self.total >= QUORUM),
    {
        self.total >= QUORUM
    }

    /// Whether at least two thirds of the votes approve.
    pub fn approves(&self) -> (b: bool)
        requires
            self.total <= crate::bond::MAX_VOTES,
            self.approvals <= self.total,
        ensures
            b == (self.approvals * 3 >= self.total * 2),
    {
        self.approvals * 3 >= self.total * 2
    }

    /// Whether at least two thirds of the votes reject.
    pub fn rejects(&self) -> (b: bool)
        requires
            self.total <= crate::bond::MAX_VOTES,
            self.rejections <= self.total,
        ensures
            b == (self.rejections * 3 >= self.total * 2),
    {
        self.rejections * 3 >= self.total * 2
    }
}

} // verus!
