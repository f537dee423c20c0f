//! Registry-wide laws that relate several operations, stated over the
//! abstract state and proved once and for all.

use vstd::prelude::*;
use crate::registry::OptionsAndFutures;
use crate::registry::listing;
use crate::registry::resolvable;
use crate::types::AccountId;
use crate::types::Error;
use crate::types::Voter;
use crate::types::magnitude;
use crate::voting::vote_outcome;

verus! {

/// A vote cast from an unregistered identity always fails with
/// `UnregisteredVoter`, whoever the candidate and whatever the amount.
/// By `vote`'s contract, an erring call leaves the registry unchanged.
pub proof fn lemma_unregistered_caller_rejected(
    m: Map<AccountId, Voter>,
    caller: AccountId,
    candidate: AccountId,
    votes: int,
)
    requires
        !m.contains_key(caller),
    ensures
        vote_outcome(m, caller, candidate, votes) == Err::<(), Error>(Error::UnregisteredVoter),
{
}

/// A registered voter with enough budget for the amount can never vote
/// for themselves: the outcome is `VoterEqualToCandidate`. The budget
/// condition matters, because exhaustion is checked first: a self-vote
/// beyond the remaining budget fails with `VoterAlreadyVoted` instead.
/// By `vote`'s contract, an erring call leaves the registry unchanged.
pub proof fn lemma_self_vote_rejected(m: Map<AccountId, Voter>, caller: AccountId, votes: int)
    requires
        m.contains_key(caller),
        magnitude(votes) <= m[caller].available_votes,
    ensures
        vote_outcome(m, caller, caller, votes) == Err::<(), Error>(Error::VoterEqualToCandidate),
{
}

/// A vote whose magnitude exceeds the caller's remaining budget always
/// fails with `VoterAlreadyVoted` — the budget-exhaustion error —
/// whoever the candidate. By `vote`'s contract, an erring call leaves
/// the registry unchanged.
pub proof fn lemma_over_budget_rejected(
    m: Map<AccountId, Voter>,
    caller: AccountId,
    candidate: AccountId,
    votes: int,
)
    requires
        m.contains_key(caller),
        m[caller].available_votes < magnitude(votes),
    ensures
        vote_outcome(m, caller, candidate, votes) == Err::<(), Error>(Error::VoterAlreadyVoted),
{
}

/// Registering a fresh identity and then listing the voters yields a
/// listing that still succeeds and includes exactly one record for that
/// identity: reputation zero and the given budget, at the end.
///
/// `pre` and `post` are related exactly as `add_voter`'s contract relates
/// the registry before and after the owner registers `a` with budget
/// `available_votes`; fresh means `a` is not yet enumerated, and the
/// listing of `pre` must itself succeed for a listing of `post` to exist.
pub proof fn lemma_register_then_list(
    pre: OptionsAndFutures,
    post: OptionsAndFutures,
    a: AccountId,
    available_votes: u128,
)
    requires
        pre.wf(),
        resolvable(pre.voters_map(), pre.enumeration()),
        !pre.enumeration().contains(a),
        post.voters_map() == pre.voters_map().insert(
            a,
            (Voter { reputation: 0, address: a, available_votes }),
        ),
        post.enumeration() == pre.enumeration().push(a),
    ensures
        resolvable(post.voters_map(), post.enumeration()),
        listing(post.voters_map(), post.enumeration()).len() == pre.enumeration().len() + 1,
        listing(post.voters_map(), post.enumeration()).last() == (Voter {
            reputation: 0,
            address: a,
            available_votes,
        }),
        forall|i: int|
            0 <= i < listing(post.voters_map(), post.enumeration()).len() && (#[trigger] listing(
                post.voters_map(),
                post.enumeration(),
            )[i]).address == a ==> i == pre.enumeration().len(),
{
    let m1 = post.voters_map();
    let ord1 = post.enumeration();
    let l = listing(m1, ord1);
    assert forall|i: int| 0 <= i < ord1.len() implies m1.contains_key(#[trigger] ord1[i]) by {
        if i < pre.enumeration().len() {
            assert(pre.voters_map().contains_key(pre.enumeration()[i]));
        }
    }
    assert(l.last() == m1[a]);
    assert forall|i: int|
        0 <= i < l.len() && (#[trigger] l[i]).address == a implies i == pre.enumeration().len() by {
        if i < pre.enumeration().len() {
            let b = pre.enumeration()[i];
            assert(pre.enumeration().contains(a)) by {
                assert(pre.voters_map().contains_key(b));
                assert(pre.voters_map()[b].address == b);
                assert(l[i] == m1[b]);
                assert(b == a);
            }
        }
    }
}

} // verus!
