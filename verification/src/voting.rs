//! The voting engine: validation and atomic settlement of a single
//! reputation vote.
//!
//! A vote transfers `votes` reputation to the candidate (signed, so a
//! downvote decreases it) and debits the caller's budget by the vote's
//! magnitude. Every precondition is checked before any mutation, in the
//! fixed order below, so a failed call leaves the registry unchanged.

use vstd::prelude::*;
use crate::types::AccountId;
use crate::types::Error;
use crate::types::Voter;
use crate::types::magnitude;

verus! {

/// Holds when a vote passes every validation: the caller is registered
/// with enough remaining budget, is not voting for themselves, and the
/// candidate is registered.
pub open spec fn vote_applies(
    m: Map<AccountId, Voter>,
    caller: AccountId,
    candidate: AccountId,
    votes: int,
) -> bool {
    &&& m.contains_key(caller)
    &&& magnitude(votes) <= m[caller].available_votes
    &&& candidate != caller
    &&& m.contains_key(candidate)
}

/// The result of a vote, decided by the validations in the order they
/// are checked: unregistered caller, then exhausted budget, then
/// self-vote, then unregistered candidate.
pub open spec fn vote_outcome(
    m: Map<AccountId, Voter>,
    caller: AccountId,
    candidate: AccountId,
    votes: int,
) -> Result<(), Error> {
    if !m.contains_key(caller) {
        Err(Error::UnregisteredVoter)
    } else if m[caller].available_votes < magnitude(votes) {
        Err(Error::VoterAlreadyVoted)
    } else if candidate == caller {
        Err(Error::VoterEqualToCandidate)
    } else if !m.contains_key(candidate) {
        Err(Error::UnregisteredVoter)
    } else {
        Ok(())
    }
}

/// The mapping after a vote settles: the candidate's reputation moved by
/// `votes`, the caller's budget debited by the vote's magnitude, every
/// other record untouched.
pub open spec fn settled(
    m: Map<AccountId, Voter>,
    caller: AccountId,
    candidate: AccountId,
    votes: int,
) -> Map<AccountId, Voter>
    recommends
        vote_applies(m, caller, candidate, votes),
{
    let c = m[candidate];
    let v = m[caller];
    m.insert(
        candidate,
        (Voter {
            reputation: (c.reputation + votes) as i128,
            address: c.address,
            available_votes: c.available_votes,
        }),
    ).insert(
        caller,
        (Voter {
            reputation: v.reputation,
            address: v.address,
            available_votes: (v.available_votes - magnitude(votes)) as u128,
        }),
    )
}

} // verus!
