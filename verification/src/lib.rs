//! A reputation-weighted delegated-voting registry.
//!
//! An owner-administered set of registered voters, each holding a fixed
//! vote budget and an accruing signed reputation score, who may cast
//! weighted votes onto other registered voters' reputation. Every public
//! operation takes the caller's identity as an explicit argument; the
//! host environment that supplies identities and persists the state is
//! out of scope.

mod laws;
mod registry;
mod types;
mod voting;

pub use laws::lemma_over_budget_rejected;
pub use laws::lemma_register_then_list;
pub use laws::lemma_self_vote_rejected;
pub use laws::lemma_unregistered_caller_rejected;
pub use registry::OptionsAndFutures;
pub use registry::listing;
pub use registry::resolvable;
pub use types::AccountId;
pub use types::Error;
pub use types::Voter;
pub use types::magnitude;
pub use types::unsigned_magnitude;
pub use voting::settled;
pub use voting::vote_applies;
pub use voting::vote_outcome;
