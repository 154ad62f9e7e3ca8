//! # Treasury
//!
//! The treasury provides a "pot" of funds that can be managed by stakeholders in the system and a
//! structure for making spending proposals from this pot.
//!
//! ## Overview
//!
//! The treasury itself provides the pot to store funds, and a means for stakeholders to propose,
//! approve, and deny expenditures. The chain will need to provide a method (e.g. inflation, fees)
//! for collecting funds.
//!
//! Funds are moved by the chain's currency, not here. An operation of the treasury decides, keeps
//! its own books, and hands out the actions that are to be carried out, in order. Where the
//! outcome of an action matters, the operation comes in steps, and the next step is told of it.
//!
//! ### Terminology
//!
//! - **Proposal:** A suggestion to allocate funds from the pot to a beneficiary, at once or in
//!   several payments, each of which has to be approved.
//! - **Beneficiary:** An account who will receive the funds from a proposal iff the proposal is
//!   approved.
//! - **Deposit:** Funds that a proposer must lock when making a proposal. The deposit will be
//!   returned or slashed if the proposal is approved or rejected respectively.
//! - **Pot:** Unspent funds accumulated by the treasury.
//! - **Waiting list:** Proposals that were made too late in a spend period. They are taken up when
//!   the period ends.
//!
//! ## Interface
//!
//! - `propose_spend`, `record_proposal` - Make a spending proposal and stake the required deposit.
//! - `reject_proposal`, `record_rejection` - Reject a proposal, slashing the deposit.
//! - `approve_proposal` - Accept the proposal, returning the deposit.
//! - `on_initialize`, or `spend_funds` alone, then `run_hooks` and `finish_spending` - Spend at the
//!   end of a spend period.
pub mod account;
pub mod config;
pub mod genesis;
pub mod hook_laws;
pub mod hook_tuples;
pub mod hooks;
pub mod permill;
pub mod promotion;
pub mod proposals;
pub mod spend;
pub mod state;
pub mod types;
pub mod walk;

pub use config::{Config, Constants, WeightInfo};
pub use genesis::GenesisConfig;
pub use hooks::SpendFunds;
pub use proposals::ProposalRequest;
pub use spend::{SpendEnd, SpendStep, Spending};
pub use state::Pallet;
pub use types::{
    AccountId, Action, Balance, BlockNumber, DispatchError, Error, Event, Proposal, ProposalIndex,
    ProposalOf, Weight,
};
