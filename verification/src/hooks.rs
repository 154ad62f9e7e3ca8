//! Other parts of a chain may spend from the treasury too, at the end of each spend period.
use crate::types::{Balance, Weight};
use vstd::prelude::*;

verus! {

/// The variables that a hook may change, at one moment.
#[verifier::reject_recursive_types(PositiveImbalance)]
pub struct HookState<PositiveImbalance> {
    pub budget_remaining: Balance,
    pub imbalance: PositiveImbalance,
    pub total_weight: Weight,
    pub missed_any: bool,
}

/// A trait to allow the treasury to spend its funds for other purposes.
/// There is an expectation that the implementer of this trait will correctly manage
/// the mutable variables passed to it:
/// * `budget_remaining`: How much available funds that can be spent by the treasury. As funds are
///   spent, you must correctly deduct from this value.
/// * `imbalance`: Any imbalances that you create should be subsumed in here to maximize efficiency
///   of updating the total issuance. (i.e. `deposit_creating`)
/// * `total_weight`: Track any weight that your `spend_fund` implementation uses by updating this
///   value.
/// * `missed_any`: If there were items that you want to spend on, but there were not enough funds,
///   mark this value as `true`. This will prevent the treasury from burning the excess funds.
pub trait SpendFunds<PositiveImbalance> {
    /// Whether a call that finds the variables as in `pre` may leave them as in `post`. A hook
    /// that does not say is taken to promise nothing.
    open spec fn spends(
        pre: HookState<PositiveImbalance>,
        post: HookState<PositiveImbalance>,
    ) -> bool {
        true
    }

    fn spend_funds(
        budget_remaining: &mut Balance,
        imbalance: &mut PositiveImbalance,
        total_weight: &mut Weight,
        missed_any: &mut bool,
    )
        ensures
            Self::spends(
                (HookState {
                    budget_remaining: *old(budget_remaining),
                    imbalance: *old(imbalance),
                    total_weight: *old(total_weight),
                    missed_any: *old(missed_any),
                }),
                (HookState {
                    budget_remaining: *final(budget_remaining),
                    imbalance: *final(imbalance),
                    total_weight: *final(total_weight),
                    missed_any: *final(missed_any),
                }),
            ),
    ;
}

} // verus!
