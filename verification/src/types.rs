//! Shared types of the voting registry: account handles, voter records,
//! and the error taxonomy, together with the budget cost of a vote.

use vstd::prelude::*;

verus! {

/// An account handle: a fixed-size value derived from a public key by the
/// host environment, used only as an opaque, copyable identity compared
/// for equality.
pub type AccountId = u64;

/// The four caller-recoverable failures of the registry. None of them is
/// fatal: state is unchanged whenever one is returned.
#[derive(Clone, Copy, Debug, PartialEq, Eq)]
pub enum Error {
    /// A non-owner attempted an owner-gated operation.
    OnlyOwnerFunction,
    /// A referenced identity has no voter record.
    UnregisteredVoter,
    /// The caller's remaining vote budget is smaller than the requested
    /// vote's magnitude. The name is historical: it signals budget
    /// exhaustion, not repeat-vote detection.
    VoterAlreadyVoted,
    /// The caller attempted to vote for themselves.
    VoterEqualToCandidate,
}

/// A registered participant: an accruing signed reputation score, the
/// identity the record is keyed under, and the remaining vote budget.
#[derive(Clone, Copy, Debug, PartialEq, Eq)]
pub struct Voter {
    /// Starts at zero on registration; mutated only by votes cast against
    /// this voter by others.
    pub reputation: i128,
    /// The identity this record belongs to.
    pub address: AccountId,
    /// Remaining capacity to cast votes; decreases monotonically by the
    /// magnitude of each vote this voter casts, and is never replenished.
    pub available_votes: u128,
}

/// The budget cost of a signed vote amount: its absolute value. An upvote
/// and a downvote of the same size cost the same.
pub open spec fn magnitude(votes: int) -> nat {
    if votes >= 0 {
        votes as nat
    } else {
        (-votes) as nat
    }
}

/// Computes the magnitude of a signed vote amount as an unsigned quantity,
/// defined for the whole signed range.
pub fn unsigned_magnitude(votes: i128) -> (m: u128)
    ensures
        m == magnitude(votes as int),
{
    if votes >= 0 {
        votes as u128
    } else {
        ((-(votes + 1)) as u128) + 1
    }
}

} // verus!
