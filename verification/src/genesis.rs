//! The start of a chain.
use crate::account::account_of;
use crate::config::Config;
use crate::state::Pallet;
use crate::types::{Action, Balance};
use vstd::prelude::*;

verus! {

/// What the treasury is given at the start of a chain: nothing but its account.
#[derive(Clone, Copy, Debug, PartialEq, Eq)]
pub struct GenesisConfig;

impl Default for GenesisConfig {
    fn default() -> (config: Self)
        ensures
            config == GenesisConfig,
    {
        GenesisConfig
    }
}

impl GenesisConfig {
    /// Create Treasury account: where the account holds less than the least that an account may
    /// hold, its free balance is to be raised to that.
    pub fn build<T: Config>(
        &self,
        pallet: &Pallet<T>,
        free_balance: Balance,
        minimum_balance: Balance,
    ) -> (action: Option<Action>)
        ensures
            action == if free_balance < minimum_balance {
                Some(
                    Action::MakeFreeBalanceBe {
                        who: account_of(pallet.constants.pallet_id),
                        amount: minimum_balance,
                    },
                )
            } else {
                None
            },
    {
        if free_balance < minimum_balance {
            Some(
                Action::MakeFreeBalanceBe { who: pallet.account_id(), amount: minimum_balance },
            )
        } else {
            None
        }
    }
}

} // verus!
