//! The voter registry: the authoritative store of registered voters and
//! the sole owner-authority gate.
//!
//! Abstractly the registry is a map from identity to voter record, an
//! insertion-ordered enumeration sequence of identities, and the fixed
//! owner identity. Removal deletes only the map entry and leaves the
//! enumeration sequence untouched, so the sequence may hold stale (or,
//! after re-registration, duplicate) entries; enumeration fails on the
//! first stale entry it meets.

use vstd::prelude::*;
use std::collections::HashMap;
use crate::types::AccountId;
use crate::types::Error;
use crate::types::Voter;
use crate::types::magnitude;
use crate::types::unsigned_magnitude;
use crate::voting::settled;
use crate::voting::vote_applies;
use crate::voting::vote_outcome;

verus! {

broadcast use vstd::std_specs::hash::group_hash_axioms;

/// The registry state: identity-to-record mapping, enumeration sequence,
/// and owner, fixed at construction.
pub struct OptionsAndFutures {
    pub(crate) voters: HashMap<AccountId, Voter>,
    pub(crate) voters_addresses: Vec<AccountId>,
    pub(crate) owner: AccountId,
}

/// Holds when every identity of the enumeration sequence still resolves
/// to a record, so that a full listing succeeds.
pub open spec fn resolvable(m: Map<AccountId, Voter>, ord: Seq<AccountId>) -> bool {
    forall|i: int| 0 <= i < ord.len() ==> m.contains_key(#[trigger] ord[i])
}

/// The full enumeration of the registry: each identity of the sequence
/// resolved to its record, in sequence order.
pub open spec fn listing(m: Map<AccountId, Voter>, ord: Seq<AccountId>) -> Seq<Voter> {
    ord.map(|i: int, a: AccountId| m[a])
}

impl OptionsAndFutures {
    /// The identity-to-record mapping, abstractly.
    pub closed spec fn voters_map(self) -> Map<AccountId, Voter> {
        self.voters@
    }

    /// The insertion-ordered enumeration sequence of registered
    /// identities, stale entries included.
    pub closed spec fn enumeration(self) -> Seq<AccountId> {
        self.voters_addresses@
    }

    /// The single identity authorized to register and remove voters.
    pub closed spec fn spec_owner(self) -> AccountId {
        self.owner
    }

    /// Well-formedness: every stored record carries the identity it is
    /// keyed under. Constructors establish it; every operation preserves
    /// it.
    pub open spec fn wf(self) -> bool {
        forall|a: AccountId| self.voters_map().contains_key(a) ==> (
        #[trigger] self.voters_map()[a]).address == a
    }

    /// Creates an empty registry owned by the invoking identity, which
    /// the host environment supplies as `caller`.
    pub fn new(caller: AccountId) -> (r: Self)
        ensures
            r.spec_owner() == caller,
            r.voters_map() == Map::<AccountId, Voter>::empty(),
            r.enumeration() == Seq::<AccountId>::empty(),
            r.wf(),
    {
        let voters: HashMap<AccountId, Voter> = HashMap::new();
        let voters_addresses: Vec<AccountId> = Vec::new();
        OptionsAndFutures { voters, voters_addresses, owner: caller }
    }

    /// Registers `voter` with the given budget and reputation zero.
    /// Owner-gated; performs no uniqueness check, so re-registering an
    /// identity overwrites its record and appends a duplicate enumeration
    /// entry.
    pub fn add_voter(&mut self, caller: AccountId, voter: AccountId, available_votes: u128) -> (r:
        Result<(), Error>)
        requires
            old(self).wf(),
        ensures
            final(self).wf(),
            final(self).spec_owner() == old(self).spec_owner(),
            caller != old(self).spec_owner() ==> {
                &&& r == Err::<(), Error>(Error::OnlyOwnerFunction)
                &&& final(self).voters_map() == old(self).voters_map()
                &&& final(self).enumeration() == old(self).enumeration()
            },
            caller == old(self).spec_owner() ==> {
                &&& r == Ok::<(), Error>(())
                &&& final(self).voters_map() == old(self).voters_map().insert(
                    voter,
                    (Voter { reputation: 0, address: voter, available_votes }),
                )
                &&& final(self).enumeration() == old(self).enumeration().push(voter)
            },
    {
        if caller != self.owner {
            return Err(Error::OnlyOwnerFunction);
        }
        self.voters_addresses.push(voter);
        self.voters.insert(voter, Voter { reputation: 0, address: voter, available_votes });
        proof {
            assert forall|a: AccountId| self.voters_map().contains_key(a) implies (
            #[trigger] self.voters_map()[a]).address == a by {
                if a != voter {
                    assert(old(self).voters_map().contains_key(a));
                }
            }
        }
        Ok(())
    }

    /// Deletes the record of `voter_address` from the mapping. Owner-gated
    /// and only for a registered identity. The enumeration sequence is
    /// left unchanged, so a stale reference remains.
    pub fn remove_voter(&mut self, caller: AccountId, voter_address: AccountId) -> (r: Result<
        (),
        Error,
    >)
        requires
            old(self).wf(),
        ensures
            final(self).wf(),
            final(self).spec_owner() == old(self).spec_owner(),
            final(self).enumeration() == old(self).enumeration(),
            caller != old(self).spec_owner() ==> {
                &&& r == Err::<(), Error>(Error::OnlyOwnerFunction)
                &&& final(self).voters_map() == old(self).voters_map()
            },
            caller == old(self).spec_owner() && !old(self).voters_map().contains_key(voter_address)
                ==> {
                &&& r == Err::<(), Error>(Error::UnregisteredVoter)
                &&& final(self).voters_map() == old(self).voters_map()
            },
            caller == old(self).spec_owner() && old(self).voters_map().contains_key(voter_address)
                ==> {
                &&& r == Ok::<(), Error>(())
                &&& final(self).voters_map() == old(self).voters_map().remove(voter_address)
            },
    {
        if caller != self.owner {
            return Err(Error::OnlyOwnerFunction);
        }
        if !self.voters.contains_key(&voter_address) {
            return Err(Error::UnregisteredVoter);
        }
        self.voters.remove(&voter_address);
        proof {
            assert forall|a: AccountId| self.voters_map().contains_key(a) implies (
            #[trigger] self.voters_map()[a]).address == a by {
                assert(old(self).voters_map().contains_key(a));
            }
        }
        Ok(())
    }

    /// Resolves every identity of the enumeration sequence to its record,
    /// in order. Fails on the first identity whose record no longer
    /// exists; no partial or filtered result is returned.
    pub fn get_voters(&self) -> (r: Result<Vec<Voter>, Error>)
        ensures
            resolvable(self.voters_map(), self.enumeration()) ==> {
                &&& r is Ok
                &&& r->Ok_0@ == listing(self.voters_map(), self.enumeration())
            },
            !resolvable(self.voters_map(), self.enumeration()) ==> r == Err::<Vec<Voter>, Error>(
                Error::UnregisteredVoter,
            ),
    {
        let ghost m = self.voters_map();
        let ghost ord = self.enumeration();
        let mut voters: Vec<Voter> = Vec::new();
        let n: usize = self.voters_addresses.len();
        let mut idx: usize = 0;
        while idx < n
            invariant
                n == ord.len(),
                idx <= n,
                m == self.voters_map(),
                ord == self.enumeration(),
                forall|i: int| 0 <= i < idx ==> m.contains_key(#[trigger] ord[i]),
                voters@ == listing(m, ord.take(idx as int)),
            decreases n - idx,
        {
            let a: AccountId = self.voters_addresses[idx];
            match self.voters.get(&a) {
                Some(v) => {
                    voters.push(*v);
                    proof {
                        assert(voters@ =~= listing(m, ord.take(idx + 1 as int)));
                    }
                },
                None => {
                    assert(!resolvable(m, ord));
                    return Err(Error::UnregisteredVoter);
                },
            }
            idx += 1;
        }
        proof {
            assert(ord.take(n as int) =~= ord);
        }
        Ok(voters)
    }
}

// The voting engine: `vote` settles a reputation transfer against the
// registry; its validation and settlement rules are the spec functions
// of the `voting` module.
impl OptionsAndFutures {
    /// Casts `votes` from `caller` onto `candidate_address`. Validates in
    /// order — caller registered, budget sufficient, no self-vote,
    /// candidate registered — and only then settles both records; any
    /// failure mutates nothing. The candidate's reputation moves by the
    /// signed amount while the caller's budget always pays its magnitude,
    /// so upvotes and downvotes of the same size cost the same.
    pub fn vote(&mut self, caller: AccountId, candidate_address: AccountId, votes: i128) -> (r:
        Result<(), Error>)
        requires
            old(self).wf(),
            vote_applies(old(self).voters_map(), caller, candidate_address, votes as int)
                ==> i128::MIN <= old(self).voters_map()[candidate_address].reputation + votes
                <= i128::MAX,
        ensures
            final(self).wf(),
            final(self).spec_owner() == old(self).spec_owner(),
            final(self).enumeration() == old(self).enumeration(),
            r == vote_outcome(old(self).voters_map(), caller, candidate_address, votes as int),
            r is Err ==> final(self).voters_map() == old(self).voters_map(),
            r is Ok ==> final(self).voters_map() == settled(
                old(self).voters_map(),
                caller,
                candidate_address,
                votes as int,
            ),
            r is Ok ==> {
                &&& final(self).voters_map().dom() == old(self).voters_map().dom()
                &&& final(self).voters_map()[candidate_address].reputation == old(
                    self,
                ).voters_map()[candidate_address].reputation + votes
                &&& final(self).voters_map()[candidate_address].available_votes == old(
                    self,
                ).voters_map()[candidate_address].available_votes
                &&& final(self).voters_map()[caller].available_votes == old(
                    self,
                ).voters_map()[caller].available_votes - magnitude(votes as int)
                &&& final(self).voters_map()[caller].reputation == old(
                    self,
                ).voters_map()[caller].reputation
                &&& forall|a: AccountId|
                    a != caller && a != candidate_address && old(self).voters_map().contains_key(a)
                        ==> final(self).voters_map()[a] == old(self).voters_map()[a]
            },
    {
        let mut voter: Voter = match self.voters.get(&caller) {
            Some(v) => *v,
            None => { return Err(Error::UnregisteredVoter) },
        };
        let mag: u128 = unsigned_magnitude(votes);
        if voter.available_votes < mag {
            return Err(Error::VoterAlreadyVoted);
        }
        if candidate_address == voter.address {
            return Err(Error::VoterEqualToCandidate);
        }
        let mut candidate: Voter = match self.voters.get(&candidate_address) {
            Some(c) => *c,
            None => { return Err(Error::UnregisteredVoter) },
        };
        candidate.reputation = candidate.reputation + votes;
        voter.available_votes = voter.available_votes - mag;
        self.voters.insert(candidate_address, candidate);
        self.voters.insert(caller, voter);
        Ok(())
    }
}

} // verus!
