//! What a chain chooses when it takes the treasury in.
use crate::hooks::SpendFunds;
use crate::types::{Balance, BlockNumber, Weight};
use vstd::prelude::*;

verus! {

/// The constants of a treasury.
#[derive(Clone, Copy, Debug, PartialEq, Eq)]
pub struct Constants {
    /// Fraction of a proposal's value that should be bonded in order to place the proposal, in
    /// parts per million. An accepted proposal gets these back. A rejected proposal does not.
    pub proposal_bond: u32,
    /// Minimum amount of funds that should be placed in a deposit for making a proposal.
    pub proposal_bond_minimum: Balance,
    /// The first blocks of each spend period, in which new proposals are taken up at once; after
    /// that they have to wait for the next period.
    pub allowed_proposal_period: BlockNumber,
    /// Period between successive spends.
    pub spend_period: BlockNumber,
    /// Share of spare funds (if any) that are burnt per spend period, in parts per million.
    pub burn: u32,
    /// The treasury's pallet id, used for deriving its sovereign account ID.
    pub pallet_id: [u8; 8],
    /// The maximum number of approvals that can wait in the spending queue.
    pub max_approvals: u32,
}

/// The weights of the treasury's operations.
pub trait WeightInfo {
    /// The weight of making a proposal.
    fn propose_spend() -> (weight: Weight);

    /// The weight of rejecting a proposal.
    fn reject_proposal() -> (weight: Weight);

    /// The weight of approving a proposal while up to `p` approvals are in the queue.
    fn approve_proposal(p: u32) -> (weight: Weight);

    /// The weight of a spend that finds `p` approvals in the queue.
    fn on_initialize_proposals(p: u32) -> (weight: Weight);
}

/// The choices of one chain.
pub trait Config {
    /// What the chain's currency hands out for funds that were created and are not yet paid for.
    /// The treasury only passes it on.
    type PositiveImbalance;

    /// Runtime hooks to external pallet using treasury to compute spend funds.
    type SpendFunds: SpendFunds<Self::PositiveImbalance>;

    /// Weight information for the operations of the treasury.
    type WeightInfo: WeightInfo;

    /// The constants of the treasury.
    fn constants() -> (constants: Constants);
}

} // verus!
