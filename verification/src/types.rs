//! The plain data of the treasury: proposals, events, errors, and the actions that an operation
//! asks of the chain around it.
use vstd::prelude::*;

verus! {

/// An account of the chain, by its 32 raw bytes.
pub type AccountId = [u8; 32];

/// An amount of the chain's currency.
pub type Balance = u128;

/// A block's height.
pub type BlockNumber = u64;

/// A measure of the work a block has to carry.
pub type Weight = u64;

/// An index of a proposal. Just a `u32`.
pub type ProposalIndex = u32;

/// A spending proposal.
#[derive(Clone, Copy, Debug, PartialEq, Eq)]
pub struct Proposal<AccountId, Balance> {
    /// The account proposing it.
    pub proposer: AccountId,
    /// The amount of one payment, which is made each time the proposal is accepted.
    pub value: Balance,
    /// The account to whom the payment should be made if the proposal is accepted.
    pub beneficiary: AccountId,
    /// The amount held on deposit (reserved) for making this proposal.
    pub bond: Balance,
    /// How many times should this be repeated.
    pub occurs: u32,
    /// How many times left to be repeated.
    pub remaining_occurs: u32,
}

/// A proposal over this chain's accounts and balances.
pub type ProposalOf = Proposal<AccountId, Balance>;

/// What the treasury announces.
#[derive(Clone, Copy, Debug, PartialEq, Eq)]
pub enum Event {
    /// New proposal. \[proposal_index\]
    Proposed(ProposalIndex),
    /// New waiting proposal. \[proposal_index\]
    WaitingProposed(ProposalIndex),
    /// Move Proposal from Waiting to Proposed. It carries the waiting count that the spend period
    /// ended with.
    WaitingProposalTransfered(ProposalIndex),
    /// We have ended a spend period and will now allocate funds. \[budget_remaining\]
    Spending(Balance),
    /// Some funds have been allocated. \[proposal_index, award, beneficiary\]
    Awarded(ProposalIndex, Balance, AccountId),
    /// A proposal was rejected; funds were slashed. \[proposal_index, slashed\]
    Rejected(ProposalIndex, Balance),
    /// Some of our funds have been burnt. \[burn\]
    Burnt(Balance),
    /// Spending has finished; this is the amount that rolls over until next spend.
    /// \[budget_remaining\]
    Rollover(Balance),
    /// Some funds have been deposited. \[deposit\]
    Deposit(Balance),
}

/// Why the treasury refuses a request.
#[derive(Clone, Copy, Debug, PartialEq, Eq)]
pub enum Error {
    /// Proposer's balance is too low.
    InsufficientProposersBalance,
    /// No proposal or bounty at that index.
    InvalidIndex,
    /// Too many approvals in the queue.
    TooManyApprovals,
}

/// Why a request of a user of the chain fails.
#[derive(Clone, Copy, Debug, PartialEq, Eq)]
pub enum DispatchError {
    /// The request does not come from whom it has to come.
    BadOrigin,
    /// The request names an account that cannot be found.
    CannotLookup,
    /// The treasury refuses the request.
    Module(Error),
}

/// One thing that the chain's currency, or its event log, has to do for the treasury. The actions
/// of an operation are to be carried out in the order in which they are handed out.
#[derive(Clone, Copy, Debug, PartialEq, Eq)]
pub enum Action {
    /// Move `amount` of the free balance of `who` to its reserve. Whether this succeeded decides
    /// what becomes of the proposal that it is for.
    Reserve { who: AccountId, amount: Balance },
    /// Move `amount` of the reserve of `who` back to its free balance.
    Unreserve { who: AccountId, amount: Balance },
    /// Take `amount` from the reserve of `who`, or what there is of it, and hand it to the chain's
    /// handler for slashes. How much was taken is what the rejection announces.
    SlashReserved { who: AccountId, amount: Balance },
    /// Create `amount` in the account `who`, and add what was created to the imbalance of the
    /// spend that is under way.
    DepositCreating { who: AccountId, amount: Balance },
    /// Add `amount` to the imbalance of the spend that is under way, and hand the opposite
    /// imbalance to the chain's handler for burnt funds.
    Burn { amount: Balance },
    /// Settle the imbalance of the spend that is under way against the account `who`, which is to
    /// be kept alive.
    Settle { who: AccountId },
    /// Resolve an incoming imbalance of `amount` into the account `who`, creating it if needed.
    ResolveCreating { who: AccountId, amount: Balance },
    /// Set the free balance of `who` to `amount`.
    MakeFreeBalanceBe { who: AccountId, amount: Balance },
    /// Announce an event.
    DepositEvent(Event),
}

} // verus!
