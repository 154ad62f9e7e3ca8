//! What the treasury keeps from block to block.
use crate::account::{account_of, pallet_account};
use crate::config::{Config, Constants};
use crate::types::{AccountId, ProposalIndex, ProposalOf};
use core::marker::PhantomData;
use std::collections::BTreeMap;
use vstd::prelude::*;

verus! {

/// The treasury of one chain.
#[verifier::reject_recursive_types(T)]
pub struct Pallet<T: Config> {
    /// The chain's constants.
    pub constants: Constants,
    /// The index that the next waiting proposal gets, which is above each index on the waiting
    /// list. A spend that finds it above zero lowers it by one.
    pub waiting_proposal_count: ProposalIndex,
    /// Proposals that are waiting to be made.
    pub waiting_proposals: BTreeMap<ProposalIndex, ProposalOf>,
    /// Number of proposals that have been made.
    pub proposal_count: ProposalIndex,
    /// Proposals that have been made.
    pub proposals: BTreeMap<ProposalIndex, ProposalOf>,
    /// Proposal indices that have been approved but not yet awarded.
    pub approvals: Vec<ProposalIndex>,
    /// The chain.
    pub config: PhantomData<T>,
}

/// What a treasury holds, as mathematical values.
#[verifier::ext_equal]
pub struct State {
    pub waiting_proposal_count: int,
    pub waiting_proposals: Map<ProposalIndex, ProposalOf>,
    pub proposal_count: int,
    pub proposals: Map<ProposalIndex, ProposalOf>,
    pub approvals: Seq<ProposalIndex>,
}

impl<T: Config> View for Pallet<T> {
    type V = State;

    open spec fn view(&self) -> State {
        State {
            waiting_proposal_count: self.waiting_proposal_count as int,
            waiting_proposals: self.waiting_proposals@,
            proposal_count: self.proposal_count as int,
            proposals: self.proposals@,
            approvals: self.approvals@,
        }
    }
}

/// Whether the counts of payments of a proposal fit together: none was made too many, and a
/// proposal that asked for payments is still owed one.
pub open spec fn occurrences_fit(proposal: ProposalOf) -> bool {
    &&& proposal.remaining_occurs <= proposal.occurs
    &&& proposal.occurs > 0 ==> proposal.remaining_occurs > 0
}

impl State {
    /// What every treasury that starts empty keeps to: indices are handed out from the counts,
    /// only proposals that were made are approved, and the queue of approvals is bounded.
    pub open spec fn wf(self, max_approvals: u32) -> bool {
        &&& 0 <= self.proposal_count <= ProposalIndex::MAX
        &&& 0 <= self.waiting_proposal_count <= ProposalIndex::MAX
        &&& forall|index: ProposalIndex| #[trigger]
            self.proposals.contains_key(index) ==> index < self.proposal_count && occurrences_fit(
                self.proposals[index],
            )
        &&& forall|index: ProposalIndex| #[trigger]
            self.waiting_proposals.contains_key(index) ==> index < self.waiting_proposal_count
                && occurrences_fit(self.waiting_proposals[index])
        &&& forall|i: int|
            0 <= i < self.approvals.len() ==> #[trigger] self.approvals[i] < self.proposal_count
        &&& self.approvals.len() <= max_approvals
    }

    /// A treasury in which nothing was ever proposed.
    pub open spec fn empty() -> State {
        State {
            waiting_proposal_count: 0,
            waiting_proposals: Map::empty(),
            proposal_count: 0,
            proposals: Map::empty(),
            approvals: Seq::empty(),
        }
    }
}

impl<T: Config> Pallet<T> {
    /// Whether the treasury is one that can come about.
    pub open spec fn wf(&self) -> bool {
        self@.wf(self.constants.max_approvals)
    }

    /// A treasury in which nothing was ever proposed, with the constants that the chain names.
    pub fn new() -> (pallet: Self)
        ensures
            pallet@ == State::empty(),
            pallet@.proposal_count == 0,
            pallet@.waiting_proposal_count == 0,
            pallet@.approvals.len() == 0,
            forall|index: ProposalIndex| !#[trigger] pallet@.proposals.contains_key(index),
            forall|index: ProposalIndex| !#[trigger] pallet@.waiting_proposals.contains_key(index),
            pallet.wf(),
            call_ensures(T::constants, (), pallet.constants),
    {
        Pallet {
            constants: T::constants(),
            waiting_proposal_count: 0,
            waiting_proposals: BTreeMap::new(),
            proposal_count: 0,
            proposals: BTreeMap::new(),
            approvals: Vec::new(),
            config: PhantomData,
        }
    }

    /// The account ID of the treasury pot.
    ///
    /// This actually does computation. If you need to keep using it, then make sure you cache the
    /// value and only call this once.
    pub fn account_id(&self) -> (account: AccountId)
        ensures
            account == account_of(self.constants.pallet_id),
    {
        pallet_account(self.constants.pallet_id)
    }
}

} // verus!
