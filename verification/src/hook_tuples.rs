//! A chain may name several hooks at once: they run one after the other, each on what the one
//! before it has left.
use crate::hooks::{HookState, SpendFunds};
use crate::types::{Balance, Weight};
use vstd::prelude::*;

verus! {

/// No hook changes nothing.
impl<P> SpendFunds<P> for () {
    open spec fn spends(pre: HookState<P>, post: HookState<P>) -> bool {
        post == pre
    }

    fn spend_funds(
        budget_remaining: &mut Balance,
        imbalance: &mut P,
        total_weight: &mut Weight,
        missed_any: &mut bool,
    ) {
    }
}

impl<P, H1: SpendFunds<P>> SpendFunds<P> for (H1,) {
    open spec fn spends(pre: HookState<P>, post: HookState<P>) -> bool {
        H1::spends(pre, post)
    }

    fn spend_funds(
        budget_remaining: &mut Balance,
        imbalance: &mut P,
        total_weight: &mut Weight,
        missed_any: &mut bool,
    ) {
        H1::spend_funds(budget_remaining, imbalance, total_weight, missed_any);
    }
}

impl<P, H1: SpendFunds<P>, H2: SpendFunds<P>> SpendFunds<P> for (H1, H2) {
    open spec fn spends(pre: HookState<P>, post: HookState<P>) -> bool {
        exists|mid: HookState<P>| #[trigger]
            H1::spends(pre, mid) && <(H2,) as SpendFunds<P>>::spends(mid, post)
    }

    fn spend_funds(
        budget_remaining: &mut Balance,
        imbalance: &mut P,
        total_weight: &mut Weight,
        missed_any: &mut bool,
    ) {
        H1::spend_funds(budget_remaining, imbalance, total_weight, missed_any);
        <(H2,) as SpendFunds<P>>::spend_funds(
            budget_remaining,
            imbalance,
            total_weight,
            missed_any,
        );
    }
}

impl<
    P, H1: SpendFunds<P>, H2: SpendFunds<P>, H3: SpendFunds<P>,
> SpendFunds<P> for (
    H1, H2, H3,
) {
    open spec fn spends(pre: HookState<P>, post: HookState<P>) -> bool {
        exists|mid: HookState<P>| #[trigger]
            H1::spends(pre, mid) && <(H2, H3) as SpendFunds<P>>::spends(mid, post)
    }

    fn spend_funds(
        budget_remaining: &mut Balance,
        imbalance: &mut P,
        total_weight: &mut Weight,
        missed_any: &mut bool,
    ) {
        H1::spend_funds(budget_remaining, imbalance, total_weight, missed_any);
        <(H2, H3) as SpendFunds<P>>::spend_funds(
            budget_remaining,
            imbalance,
            total_weight,
            missed_any,
        );
    }
}

impl<
    P, H1: SpendFunds<P>, H2: SpendFunds<P>, H3: SpendFunds<P>, H4: SpendFunds<P>,
> SpendFunds<P> for (
    H1, H2, H3, H4,
) {
    open spec fn spends(pre: HookState<P>, post: HookState<P>) -> bool {
        exists|mid: HookState<P>| #[trigger]
            H1::spends(pre, mid) && <(H2, H3, H4) as SpendFunds<P>>::spends(mid, post)
    }

    fn spend_funds(
        budget_remaining: &mut Balance,
        imbalance: &mut P,
        total_weight: &mut Weight,
        missed_any: &mut bool,
    ) {
        H1::spend_funds(budget_remaining, imbalance, total_weight, missed_any);
        <(H2, H3, H4) as SpendFunds<P>>::spend_funds(
            budget_remaining,
            imbalance,
            total_weight,
            missed_any,
        );
    }
}

impl<
    P, H1: SpendFunds<P>, H2: SpendFunds<P>, H3: SpendFunds<P>, H4: SpendFunds<P>,
    H5: SpendFunds<P>,
> SpendFunds<P> for (
    H1, H2, H3, H4, H5,
) {
    open spec fn spends(pre: HookState<P>, post: HookState<P>) -> bool {
        exists|mid: HookState<P>| #[trigger]
            H1::spends(pre, mid) && <(H2, H3, H4, H5) as SpendFunds<P>>::spends(mid, post)
    }

    fn spend_funds(
        budget_remaining: &mut Balance,
        imbalance: &mut P,
        total_weight: &mut Weight,
        missed_any: &mut bool,
    ) {
        H1::spend_funds(budget_remaining, imbalance, total_weight, missed_any);
        <(H2, H3, H4, H5) as SpendFunds<P>>::spend_funds(
            budget_remaining,
            imbalance,
            total_weight,
            missed_any,
        );
    }
}

impl<
    P, H1: SpendFunds<P>, H2: SpendFunds<P>, H3: SpendFunds<P>, H4: SpendFunds<P>,
    H5: SpendFunds<P>, H6: SpendFunds<P>,
> SpendFunds<P> for (
    H1, H2, H3, H4, H5, H6,
) {
    open spec fn spends(pre: HookState<P>, post: HookState<P>) -> bool {
        exists|mid: HookState<P>| #[trigger]
            H1::spends(pre, mid) && <(H2, H3, H4, H5, H6) as SpendFunds<P>>::spends(mid, post)
    }

    fn spend_funds(
        budget_remaining: &mut Balance,
        imbalance: &mut P,
        total_weight: &mut Weight,
        missed_any: &mut bool,
    ) {
        H1::spend_funds(budget_remaining, imbalance, total_weight, missed_any);
        <(H2, H3, H4, H5, H6) as SpendFunds<P>>::spend_funds(
            budget_remaining,
            imbalance,
            total_weight,
            missed_any,
        );
    }
}

impl<
    P, H1: SpendFunds<P>, H2: SpendFunds<P>, H3: SpendFunds<P>, H4: SpendFunds<P>,
    H5: SpendFunds<P>, H6: SpendFunds<P>, H7: SpendFunds<P>,
> SpendFunds<P> for (
    H1, H2, H3, H4, H5, H6, H7,
) {
    open spec fn spends(pre: HookState<P>, post: HookState<P>) -> bool {
        exists|mid: HookState<P>| #[trigger]
            H1::spends(pre, mid) && <(H2, H3, H4, H5, H6, H7) as SpendFunds<P>>::spends(mid, post)
    }

    fn spend_funds(
        budget_remaining: &mut Balance,
        imbalance: &mut P,
        total_weight: &mut Weight,
        missed_any: &mut bool,
    ) {
        H1::spend_funds(budget_remaining, imbalance, total_weight, missed_any);
        <(H2, H3, H4, H5, H6, H7) as SpendFunds<P>>::spend_funds(
            budget_remaining,
            imbalance,
            total_weight,
            missed_any,
        );
    }
}

impl<
    P, H1: SpendFunds<P>, H2: SpendFunds<P>, H3: SpendFunds<P>, H4: SpendFunds<P>,
    H5: SpendFunds<P>, H6: SpendFunds<P>, H7: SpendFunds<P>, H8: SpendFunds<P>,
> SpendFunds<P> for (
    H1, H2, H3, H4, H5, H6, H7, H8,
) {
    open spec fn spends(pre: HookState<P>, post: HookState<P>) -> bool {
        exists|mid: HookState<P>| #[trigger]
            H1::spends(pre, mid)
                && <(H2, H3, H4, H5, H6, H7, H8) as SpendFunds<P>>::spends(mid, post)
    }

    fn spend_funds(
        budget_remaining: &mut Balance,
        imbalance: &mut P,
        total_weight: &mut Weight,
        missed_any: &mut bool,
    ) {
        H1::spend_funds(budget_remaining, imbalance, total_weight, missed_any);
        <(H2, H3, H4, H5, H6, H7, H8) as SpendFunds<P>>::spend_funds(
            budget_remaining,
            imbalance,
            total_weight,
            missed_any,
        );
    }
}

impl<
    P, H1: SpendFunds<P>, H2: SpendFunds<P>, H3: SpendFunds<P>, H4: SpendFunds<P>,
    H5: SpendFunds<P>, H6: SpendFunds<P>, H7: SpendFunds<P>, H8: SpendFunds<P>,
    H9: SpendFunds<P>,
> SpendFunds<P> for (
    H1, H2, H3, H4, H5, H6, H7, H8, H9,
) {
    open spec fn spends(pre: HookState<P>, post: HookState<P>) -> bool {
        exists|mid: HookState<P>| #[trigger]
            H1::spends(pre, mid)
                && <(H2, H3, H4, H5, H6, H7, H8, H9) as SpendFunds<P>>::spends(mid, post)
    }

    fn spend_funds(
        budget_remaining: &mut Balance,
        imbalance: &mut P,
        total_weight: &mut Weight,
        missed_any: &mut bool,
    ) {
        H1::spend_funds(budget_remaining, imbalance, total_weight, missed_any);
        <(
            H2, H3, H4, H5, H6, H7, H8, H9,
        ) as SpendFunds<P>>::spend_funds(
            budget_remaining,
            imbalance,
            total_weight,
            missed_any,
        );
    }
}

impl<
    P, H1: SpendFunds<P>, H2: SpendFunds<P>, H3: SpendFunds<P>, H4: SpendFunds<P>,
    H5: SpendFunds<P>, H6: SpendFunds<P>, H7: SpendFunds<P>, H8: SpendFunds<P>,
    H9: SpendFunds<P>, H10: SpendFunds<P>,
> SpendFunds<P> for (
    H1, H2, H3, H4, H5, H6, H7, H8, H9, H10,
) {
    open spec fn spends(pre: HookState<P>, post: HookState<P>) -> bool {
        exists|mid: HookState<P>| #[trigger]
            H1::spends(pre, mid)
                && <(H2, H3, H4, H5, H6, H7, H8, H9, H10) as SpendFunds<P>>::spends(mid, post)
    }

    fn spend_funds(
        budget_remaining: &mut Balance,
        imbalance: &mut P,
        total_weight: &mut Weight,
        missed_any: &mut bool,
    ) {
        H1::spend_funds(budget_remaining, imbalance, total_weight, missed_any);
        <(
            H2, H3, H4, H5, H6, H7, H8, H9, H10,
        ) as SpendFunds<P>>::spend_funds(
            budget_remaining,
            imbalance,
            total_weight,
            missed_any,
        );
    }
}

impl<
    P, H1: SpendFunds<P>, H2: SpendFunds<P>, H3: SpendFunds<P>, H4: SpendFunds<P>,
    H5: SpendFunds<P>, H6: SpendFunds<P>, H7: SpendFunds<P>, H8: SpendFunds<P>,
    H9: SpendFunds<P>, H10: SpendFunds<P>, H11: SpendFunds<P>,
> SpendFunds<P> for (
    H1, H2, H3, H4, H5, H6, H7, H8, H9, H10, H11,
) {
    open spec fn spends(pre: HookState<P>, post: HookState<P>) -> bool {
        exists|mid: HookState<P>| #[trigger]
            H1::spends(pre, mid) && <(
                H2, H3, H4, H5, H6, H7, H8, H9, H10, H11,
            ) as SpendFunds<P>>::spends(mid, post)
    }

    fn spend_funds(
        budget_remaining: &mut Balance,
        imbalance: &mut P,
        total_weight: &mut Weight,
        missed_any: &mut bool,
    ) {
        H1::spend_funds(budget_remaining, imbalance, total_weight, missed_any);
        <(
            H2, H3, H4, H5, H6, H7, H8, H9, H10, H11,
        ) as SpendFunds<P>>::spend_funds(
            budget_remaining,
            imbalance,
            total_weight,
            missed_any,
        );
    }
}

impl<
    P, H1: SpendFunds<P>, H2: SpendFunds<P>, H3: SpendFunds<P>, H4: SpendFunds<P>,
    H5: SpendFunds<P>, H6: SpendFunds<P>, H7: SpendFunds<P>, H8: SpendFunds<P>,
    H9: SpendFunds<P>, H10: SpendFunds<P>, H11: SpendFunds<P>, H12: SpendFunds<P>,
> SpendFunds<P> for (
    H1, H2, H3, H4, H5, H6, H7, H8, H9, H10, H11, H12,
) {
    open spec fn spends(pre: HookState<P>, post: HookState<P>) -> bool {
        exists|mid: HookState<P>| #[trigger]
            H1::spends(pre, mid) && <(
                H2, H3, H4, H5, H6, H7, H8, H9, H10, H11, H12,
            ) as SpendFunds<P>>::spends(mid, post)
    }

    fn spend_funds(
        budget_remaining: &mut Balance,
        imbalance: &mut P,
        total_weight: &mut Weight,
        missed_any: &mut bool,
    ) {
        H1::spend_funds(budget_remaining, imbalance, total_weight, missed_any);
        <(
            H2, H3, H4, H5, H6, H7, H8, H9, H10, H11, H12,
        ) as SpendFunds<P>>::spend_funds(
            budget_remaining,
            imbalance,
            total_weight,
            missed_any,
        );
    }
}

impl<
    P, H1: SpendFunds<P>, H2: SpendFunds<P>, H3: SpendFunds<P>, H4: SpendFunds<P>,
    H5: SpendFunds<P>, H6: SpendFunds<P>, H7: SpendFunds<P>, H8: SpendFunds<P>,
    H9: SpendFunds<P>, H10: SpendFunds<P>, H11: SpendFunds<P>, H12: SpendFunds<P>,
    H13: SpendFunds<P>,
> SpendFunds<P> for (
    H1, H2, H3, H4, H5, H6, H7, H8, H9, H10, H11, H12, H13,
) {
    open spec fn spends(pre: HookState<P>, post: HookState<P>) -> bool {
        exists|mid: HookState<P>| #[trigger]
            H1::spends(pre, mid) && <(
                H2, H3, H4, H5, H6, H7, H8, H9, H10, H11, H12, H13,
            ) as SpendFunds<P>>::spends(mid, post)
    }

    fn spend_funds(
        budget_remaining: &mut Balance,
        imbalance: &mut P,
        total_weight: &mut Weight,
        missed_any: &mut bool,
    ) {
        H1::spend_funds(budget_remaining, imbalance, total_weight, missed_any);
        <(
            H2, H3, H4, H5, H6, H7, H8, H9, H10, H11, H12, H13,
        ) as SpendFunds<P>>::spend_funds(
            budget_remaining,
            imbalance,
            total_weight,
            missed_any,
        );
    }
}

impl<
    P, H1: SpendFunds<P>, H2: SpendFunds<P>, H3: SpendFunds<P>, H4: SpendFunds<P>,
    H5: SpendFunds<P>, H6: SpendFunds<P>, H7: SpendFunds<P>, H8: SpendFunds<P>,
    H9: SpendFunds<P>, H10: SpendFunds<P>, H11: SpendFunds<P>, H12: SpendFunds<P>,
    H13: SpendFunds<P>, H14: SpendFunds<P>,
> SpendFunds<P> for (
    H1, H2, H3, H4, H5, H6, H7, H8, H9, H10, H11, H12, H13, H14,
) {
    open spec fn spends(pre: HookState<P>, post: HookState<P>) -> bool {
        exists|mid: HookState<P>| #[trigger]
            H1::spends(pre, mid) && <(
                H2, H3, H4, H5, H6, H7, H8, H9, H10, H11, H12, H13, H14,
            ) as SpendFunds<P>>::spends(mid, post)
    }

    fn spend_funds(
        budget_remaining: &mut Balance,
        imbalance: &mut P,
        total_weight: &mut Weight,
        missed_any: &mut bool,
    ) {
        H1::spend_funds(budget_remaining, imbalance, total_weight, missed_any);
        <(
            H2, H3, H4, H5, H6, H7, H8, H9, H10, H11, H12, H13, H14,
        ) as SpendFunds<P>>::spend_funds(
            budget_remaining,
            imbalance,
            total_weight,
            missed_any,
        );
    }
}

impl<
    P, H1: SpendFunds<P>, H2: SpendFunds<P>, H3: SpendFunds<P>, H4: SpendFunds<P>,
    H5: SpendFunds<P>, H6: SpendFunds<P>, H7: SpendFunds<P>, H8: SpendFunds<P>,
    H9: SpendFunds<P>, H10: SpendFunds<P>, H11: SpendFunds<P>, H12: SpendFunds<P>,
    H13: SpendFunds<P>, H14: SpendFunds<P>, H15: SpendFunds<P>,
> SpendFunds<P> for (
    H1, H2, H3, H4, H5, H6, H7, H8, H9, H10, H11, H12, H13, H14, H15,
) {
    open spec fn spends(pre: HookState<P>, post: HookState<P>) -> bool {
        exists|mid: HookState<P>| #[trigger]
            H1::spends(pre, mid) && <(
                H2, H3, H4, H5, H6, H7, H8, H9, H10, H11, H12, H13, H14, H15,
            ) as SpendFunds<P>>::spends(mid, post)
    }

    fn spend_funds(
        budget_remaining: &mut Balance,
        imbalance: &mut P,
        total_weight: &mut Weight,
        missed_any: &mut bool,
    ) {
        H1::spend_funds(budget_remaining, imbalance, total_weight, missed_any);
        <(
            H2, H3, H4, H5, H6, H7, H8, H9, H10, H11, H12, H13, H14, H15,
        ) as SpendFunds<P>>::spend_funds(
            budget_remaining,
            imbalance,
            total_weight,
            missed_any,
        );
    }
}

impl<
    P, H1: SpendFunds<P>, H2: SpendFunds<P>, H3: SpendFunds<P>, H4: SpendFunds<P>,
    H5: SpendFunds<P>, H6: SpendFunds<P>, H7: SpendFunds<P>, H8: SpendFunds<P>,
    H9: SpendFunds<P>, H10: SpendFunds<P>, H11: SpendFunds<P>, H12: SpendFunds<P>,
    H13: SpendFunds<P>, H14: SpendFunds<P>, H15: SpendFunds<P>, H16: SpendFunds<P>,
> SpendFunds<P> for (
    H1, H2, H3, H4, H5, H6, H7, H8, H9, H10, H11, H12, H13, H14, H15, H16,
) {
    open spec fn spends(pre: HookState<P>, post: HookState<P>) -> bool {
        exists|mid: HookState<P>| #[trigger]
            H1::spends(pre, mid) && <(
                H2, H3, H4, H5, H6, H7, H8, H9, H10, H11, H12, H13, H14, H15, H16,
            ) as SpendFunds<P>>::spends(mid, post)
    }

    fn spend_funds(
        budget_remaining: &mut Balance,
        imbalance: &mut P,
        total_weight: &mut Weight,
        missed_any: &mut bool,
    ) {
        H1::spend_funds(budget_remaining, imbalance, total_weight, missed_any);
        <(
            H2, H3, H4, H5, H6, H7, H8, H9, H10, H11, H12, H13, H14, H15, H16,
        ) as SpendFunds<P>>::spend_funds(
            budget_remaining,
            imbalance,
            total_weight,
            missed_any,
        );
    }
}

impl<
    P, H1: SpendFunds<P>, H2: SpendFunds<P>, H3: SpendFunds<P>, H4: SpendFunds<P>,
    H5: SpendFunds<P>, H6: SpendFunds<P>, H7: SpendFunds<P>, H8: SpendFunds<P>,
    H9: SpendFunds<P>, H10: SpendFunds<P>, H11: SpendFunds<P>, H12: SpendFunds<P>,
    H13: SpendFunds<P>, H14: SpendFunds<P>, H15: SpendFunds<P>, H16: SpendFunds<P>,
    H17: SpendFunds<P>,
> SpendFunds<P> for (
    H1, H2, H3, H4, H5, H6, H7, H8, H9, H10, H11, H12, H13, H14, H15, H16, H17,
) {
    open spec fn spends(pre: HookState<P>, post: HookState<P>) -> bool {
        exists|mid: HookState<P>| #[trigger]
            H1::spends(pre, mid) && <(
                H2, H3, H4, H5, H6, H7, H8, H9, H10, H11, H12, H13, H14, H15, H16, H17,
            ) as SpendFunds<P>>::spends(mid, post)
    }

    fn spend_funds(
        budget_remaining: &mut Balance,
        imbalance: &mut P,
        total_weight: &mut Weight,
        missed_any: &mut bool,
    ) {
        H1::spend_funds(budget_remaining, imbalance, total_weight, missed_any);
        <(
            H2, H3, H4, H5, H6, H7, H8, H9, H10, H11, H12, H13, H14, H15, H16, H17,
        ) as SpendFunds<P>>::spend_funds(
            budget_remaining,
            imbalance,
            total_weight,
            missed_any,
        );
    }
}

impl<
    P, H1: SpendFunds<P>, H2: SpendFunds<P>, H3: SpendFunds<P>, H4: SpendFunds<P>,
    H5: SpendFunds<P>, H6: SpendFunds<P>, H7: SpendFunds<P>, H8: SpendFunds<P>,
    H9: SpendFunds<P>, H10: SpendFunds<P>, H11: SpendFunds<P>, H12: SpendFunds<P>,
    H13: SpendFunds<P>, H14: SpendFunds<P>, H15: SpendFunds<P>, H16: SpendFunds<P>,
    H17: SpendFunds<P>, H18: SpendFunds<P>,
> SpendFunds<P> for (
    H1, H2, H3, H4, H5, H6, H7, H8, H9, H10, H11, H12, H13, H14, H15, H16, H17, H18,
) {
    open spec fn spends(pre: HookState<P>, post: HookState<P>) -> bool {
        exists|mid: HookState<P>| #[trigger]
            H1::spends(pre, mid) && <(
                H2, H3, H4, H5, H6, H7, H8, H9, H10, H11, H12, H13, H14, H15, H16, H17, H18,
            ) as SpendFunds<P>>::spends(mid, post)
    }

    fn spend_funds(
        budget_remaining: &mut Balance,
        imbalance: &mut P,
        total_weight: &mut Weight,
        missed_any: &mut bool,
    ) {
        H1::spend_funds(budget_remaining, imbalance, total_weight, missed_any);
        <(
            H2, H3, H4, H5, H6, H7, H8, H9, H10, H11, H12, H13, H14, H15, H16, H17, H18,
        ) as SpendFunds<P>>::spend_funds(
            budget_remaining,
            imbalance,
            total_weight,
            missed_any,
        );
    }
}

impl<
    P, H1: SpendFunds<P>, H2: SpendFunds<P>, H3: SpendFunds<P>, H4: SpendFunds<P>,
    H5: SpendFunds<P>, H6: SpendFunds<P>, H7: SpendFunds<P>, H8: SpendFunds<P>,
    H9: SpendFunds<P>, H10: SpendFunds<P>, H11: SpendFunds<P>, H12: SpendFunds<P>,
    H13: SpendFunds<P>, H14: SpendFunds<P>, H15: SpendFunds<P>, H16: SpendFunds<P>,
    H17: SpendFunds<P>, H18: SpendFunds<P>, H19: SpendFunds<P>,
> SpendFunds<P> for (
    H1, H2, H3, H4, H5, H6, H7, H8, H9, H10, H11, H12, H13, H14, H15, H16, H17, H18, H19,
) {
    open spec fn spends(pre: HookState<P>, post: HookState<P>) -> bool {
        exists|mid: HookState<P>| #[trigger]
            H1::spends(pre, mid) && <(
                H2, H3, H4, H5, H6, H7, H8, H9, H10, H11, H12, H13, H14, H15, H16, H17, H18, H19,
            ) as SpendFunds<P>>::spends(mid, post)
    }

    fn spend_funds(
        budget_remaining: &mut Balance,
        imbalance: &mut P,
        total_weight: &mut Weight,
        missed_any: &mut bool,
    ) {
        H1::spend_funds(budget_remaining, imbalance, total_weight, missed_any);
        <(
            H2, H3, H4, H5, H6, H7, H8, H9, H10, H11, H12, H13, H14, H15, H16, H17, H18, H19,
        ) as SpendFunds<P>>::spend_funds(
            budget_remaining,
            imbalance,
            total_weight,
            missed_any,
        );
    }
}

impl<
    P, H1: SpendFunds<P>, H2: SpendFunds<P>, H3: SpendFunds<P>, H4: SpendFunds<P>,
    H5: SpendFunds<P>, H6: SpendFunds<P>, H7: SpendFunds<P>, H8: SpendFunds<P>,
    H9: SpendFunds<P>, H10: SpendFunds<P>, H11: SpendFunds<P>, H12: SpendFunds<P>,
    H13: SpendFunds<P>, H14: SpendFunds<P>, H15: SpendFunds<P>, H16: SpendFunds<P>,
    H17: SpendFunds<P>, H18: SpendFunds<P>, H19: SpendFunds<P>, H20: SpendFunds<P>,
> SpendFunds<P> for (
    H1, H2, H3, H4, H5, H6, H7, H8, H9, H10, H11, H12, H13, H14, H15, H16, H17, H18, H19, H20,
) {
    open spec fn spends(pre: HookState<P>, post: HookState<P>) -> bool {
        exists|mid: HookState<P>| #[trigger]
            H1::spends(pre, mid) && <(
                H2, H3, H4, H5, H6, H7, H8, H9, H10, H11, H12, H13, H14, H15, H16, H17, H18, H19,
                H20,
            ) as SpendFunds<P>>::spends(mid, post)
    }

    fn spend_funds(
        budget_remaining: &mut Balance,
        imbalance: &mut P,
        total_weight: &mut Weight,
        missed_any: &mut bool,
    ) {
        H1::spend_funds(budget_remaining, imbalance, total_weight, missed_any);
        <(
            H2, H3, H4, H5, H6, H7, H8, H9, H10, H11, H12, H13, H14, H15, H16, H17, H18, H19,
            H20,
        ) as SpendFunds<P>>::spend_funds(
            budget_remaining,
            imbalance,
            total_weight,
            missed_any,
        );
    }
}

impl<
    P, H1: SpendFunds<P>, H2: SpendFunds<P>, H3: SpendFunds<P>, H4: SpendFunds<P>,
    H5: SpendFunds<P>, H6: SpendFunds<P>, H7: SpendFunds<P>, H8: SpendFunds<P>,
    H9: SpendFunds<P>, H10: SpendFunds<P>, H11: SpendFunds<P>, H12: SpendFunds<P>,
    H13: SpendFunds<P>, H14: SpendFunds<P>, H15: SpendFunds<P>, H16: SpendFunds<P>,
    H17: SpendFunds<P>, H18: SpendFunds<P>, H19: SpendFunds<P>, H20: SpendFunds<P>,
    H21: SpendFunds<P>,
> SpendFunds<P> for (
    H1, H2, H3, H4, H5, H6, H7, H8, H9, H10, H11, H12, H13, H14, H15, H16, H17, H18, H19, H20,
    H21,
) {
    open spec fn spends(pre: HookState<P>, post: HookState<P>) -> bool {
        exists|mid: HookState<P>| #[trigger]
            H1::spends(pre, mid) && <(
                H2, H3, H4, H5, H6, H7, H8, H9, H10, H11, H12, H13, H14, H15, H16, H17, H18, H19,
                H20, H21,
            ) as SpendFunds<P>>::spends(mid, post)
    }

    fn spend_funds(
        budget_remaining: &mut Balance,
        imbalance: &mut P,
        total_weight: &mut Weight,
        missed_any: &mut bool,
    ) {
        H1::spend_funds(budget_remaining, imbalance, total_weight, missed_any);
        <(
            H2, H3, H4, H5, H6, H7, H8, H9, H10, H11, H12, H13, H14, H15, H16, H17, H18, H19,
            H20, H21,
        ) as SpendFunds<P>>::spend_funds(
            budget_remaining,
            imbalance,
            total_weight,
            missed_any,
        );
    }
}

impl<
    P, H1: SpendFunds<P>, H2: SpendFunds<P>, H3: SpendFunds<P>, H4: SpendFunds<P>,
    H5: SpendFunds<P>, H6: SpendFunds<P>, H7: SpendFunds<P>, H8: SpendFunds<P>,
    H9: SpendFunds<P>, H10: SpendFunds<P>, H11: SpendFunds<P>, H12: SpendFunds<P>,
    H13: SpendFunds<P>, H14: SpendFunds<P>, H15: SpendFunds<P>, H16: SpendFunds<P>,
    H17: SpendFunds<P>, H18: SpendFunds<P>, H19: SpendFunds<P>, H20: SpendFunds<P>,
    H21: SpendFunds<P>, H22: SpendFunds<P>,
> SpendFunds<P> for (
    H1, H2, H3, H4, H5, H6, H7, H8, H9, H10, H11, H12, H13, H14, H15, H16, H17, H18, H19, H20,
    H21, H22,
) {
    open spec fn spends(pre: HookState<P>, post: HookState<P>) -> bool {
        exists|mid: HookState<P>| #[trigger]
            H1::spends(pre, mid) && <(
                H2, H3, H4, H5, H6, H7, H8, H9, H10, H11, H12, H13, H14, H15, H16, H17, H18, H19,
                H20, H21, H22,
            ) as SpendFunds<P>>::spends(mid, post)
    }

    fn spend_funds(
        budget_remaining: &mut Balance,
        imbalance: &mut P,
        total_weight: &mut Weight,
        missed_any: &mut bool,
    ) {
        H1::spend_funds(budget_remaining, imbalance, total_weight, missed_any);
        <(
            H2, H3, H4, H5, H6, H7, H8, H9, H10, H11, H12, H13, H14, H15, H16, H17, H18, H19,
            H20, H21, H22,
        ) as SpendFunds<P>>::spend_funds(
            budget_remaining,
            imbalance,
            total_weight,
            missed_any,
        );
    }
}

impl<
    P, H1: SpendFunds<P>, H2: SpendFunds<P>, H3: SpendFunds<P>, H4: SpendFunds<P>,
    H5: SpendFunds<P>, H6: SpendFunds<P>, H7: SpendFunds<P>, H8: SpendFunds<P>,
    H9: SpendFunds<P>, H10: SpendFunds<P>, H11: SpendFunds<P>, H12: SpendFunds<P>,
    H13: SpendFunds<P>, H14: SpendFunds<P>, H15: SpendFunds<P>, H16: SpendFunds<P>,
    H17: SpendFunds<P>, H18: SpendFunds<P>, H19: SpendFunds<P>, H20: SpendFunds<P>,
    H21: SpendFunds<P>, H22: SpendFunds<P>, H23: SpendFunds<P>,
> SpendFunds<P> for (
    H1, H2, H3, H4, H5, H6, H7, H8, H9, H10, H11, H12, H13, H14, H15, H16, H17, H18, H19, H20,
    H21, H22, H23,
) {
    open spec fn spends(pre: HookState<P>, post: HookState<P>) -> bool {
        exists|mid: HookState<P>| #[trigger]
            H1::spends(pre, mid) && <(
                H2, H3, H4, H5, H6, H7, H8, H9, H10, H11, H12, H13, H14, H15, H16, H17, H18, H19,
                H20, H21, H22, H23,
            ) as SpendFunds<P>>::spends(mid, post)
    }

    fn spend_funds(
        budget_remaining: &mut Balance,
        imbalance: &mut P,
        total_weight: &mut Weight,
        missed_any: &mut bool,
    ) {
        H1::spend_funds(budget_remaining, imbalance, total_weight, missed_any);
        <(
            H2, H3, H4, H5, H6, H7, H8, H9, H10, H11, H12, H13, H14, H15, H16, H17, H18, H19,
            H20, H21, H22, H23,
        ) as SpendFunds<P>>::spend_funds(
            budget_remaining,
            imbalance,
            total_weight,
            missed_any,
        );
    }
}

impl<
    P, H1: SpendFunds<P>, H2: SpendFunds<P>, H3: SpendFunds<P>, H4: SpendFunds<P>,
    H5: SpendFunds<P>, H6: SpendFunds<P>, H7: SpendFunds<P>, H8: SpendFunds<P>,
    H9: SpendFunds<P>, H10: SpendFunds<P>, H11: SpendFunds<P>, H12: SpendFunds<P>,
    H13: SpendFunds<P>, H14: SpendFunds<P>, H15: SpendFunds<P>, H16: SpendFunds<P>,
    H17: SpendFunds<P>, H18: SpendFunds<P>, H19: SpendFunds<P>, H20: SpendFunds<P>,
    H21: SpendFunds<P>, H22: SpendFunds<P>, H23: SpendFunds<P>, H24: SpendFunds<P>,
> SpendFunds<P> for (
    H1, H2, H3, H4, H5, H6, H7, H8, H9, H10, H11, H12, H13, H14, H15, H16, H17, H18, H19, H20,
    H21, H22, H23, H24,
) {
    open spec fn spends(pre: HookState<P>, post: HookState<P>) -> bool {
        exists|mid: HookState<P>| #[trigger]
            H1::spends(pre, mid) && <(
                H2, H3, H4, H5, H6, H7, H8, H9, H10, H11, H12, H13, H14, H15, H16, H17, H18, H19,
                H20, H21, H22, H23, H24,
            ) as SpendFunds<P>>::spends(mid, post)
    }

    fn spend_funds(
        budget_remaining: &mut Balance,
        imbalance: &mut P,
        total_weight: &mut Weight,
        missed_any: &mut bool,
    ) {
        H1::spend_funds(budget_remaining, imbalance, total_weight, missed_any);
        <(
            H2, H3, H4, H5, H6, H7, H8, H9, H10, H11, H12, H13, H14, H15, H16, H17, H18, H19,
            H20, H21, H22, H23, H24,
        ) as SpendFunds<P>>::spend_funds(
            budget_remaining,
            imbalance,
            total_weight,
            missed_any,
        );
    }
}

impl<
    P, H1: SpendFunds<P>, H2: SpendFunds<P>, H3: SpendFunds<P>, H4: SpendFunds<P>,
    H5: SpendFunds<P>, H6: SpendFunds<P>, H7: SpendFunds<P>, H8: SpendFunds<P>,
    H9: SpendFunds<P>, H10: SpendFunds<P>, H11: SpendFunds<P>, H12: SpendFunds<P>,
    H13: SpendFunds<P>, H14: SpendFunds<P>, H15: SpendFunds<P>, H16: SpendFunds<P>,
    H17: SpendFunds<P>, H18: SpendFunds<P>, H19: SpendFunds<P>, H20: SpendFunds<P>,
    H21: SpendFunds<P>, H22: SpendFunds<P>, H23: SpendFunds<P>, H24: SpendFunds<P>,
    H25: SpendFunds<P>,
> SpendFunds<P> for (
    H1, H2, H3, H4, H5, H6, H7, H8, H9, H10, H11, H12, H13, H14, H15, H16, H17, H18, H19, H20,
    H21, H22, H23, H24, H25,
) {
    open spec fn spends(pre: HookState<P>, post: HookState<P>) -> bool {
        exists|mid: HookState<P>| #[trigger]
            H1::spends(pre, mid) && <(
                H2, H3, H4, H5, H6, H7, H8, H9, H10, H11, H12, H13, H14, H15, H16, H17, H18, H19,
                H20, H21, H22, H23, H24, H25,
            ) as SpendFunds<P>>::spends(mid, post)
    }

    fn spend_funds(
        budget_remaining: &mut Balance,
        imbalance: &mut P,
        total_weight: &mut Weight,
        missed_any: &mut bool,
    ) {
        H1::spend_funds(budget_remaining, imbalance, total_weight, missed_any);
        <(
            H2, H3, H4, H5, H6, H7, H8, H9, H10, H11, H12, H13, H14, H15, H16, H17, H18, H19,
            H20, H21, H22, H23, H24, H25,
        ) as SpendFunds<P>>::spend_funds(
            budget_remaining,
            imbalance,
            total_weight,
            missed_any,
        );
    }
}

impl<
    P, H1: SpendFunds<P>, H2: SpendFunds<P>, H3: SpendFunds<P>, H4: SpendFunds<P>,
    H5: SpendFunds<P>, H6: SpendFunds<P>, H7: SpendFunds<P>, H8: SpendFunds<P>,
    H9: SpendFunds<P>, H10: SpendFunds<P>, H11: SpendFunds<P>, H12: SpendFunds<P>,
    H13: SpendFunds<P>, H14: SpendFunds<P>, H15: SpendFunds<P>, H16: SpendFunds<P>,
    H17: SpendFunds<P>, H18: SpendFunds<P>, H19: SpendFunds<P>, H20: SpendFunds<P>,
    H21: SpendFunds<P>, H22: SpendFunds<P>, H23: SpendFunds<P>, H24: SpendFunds<P>,
    H25: SpendFunds<P>, H26: SpendFunds<P>,
> SpendFunds<P> for (
    H1, H2, H3, H4, H5, H6, H7, H8, H9, H10, H11, H12, H13, H14, H15, H16, H17, H18, H19, H20,
    H21, H22, H23, H24, H25, H26,
) {
    open spec fn spends(pre: HookState<P>, post: HookState<P>) -> bool {
        exists|mid: HookState<P>| #[trigger]
            H1::spends(pre, mid) && <(
                H2, H3, H4, H5, H6, H7, H8, H9, H10, H11, H12, H13, H14, H15, H16, H17, H18, H19,
                H20, H21, H22, H23, H24, H25, H26,
            ) as SpendFunds<P>>::spends(mid, post)
    }

    fn spend_funds(
        budget_remaining: &mut Balance,
        imbalance: &mut P,
        total_weight: &mut Weight,
        missed_any: &mut bool,
    ) {
        H1::spend_funds(budget_remaining, imbalance, total_weight, missed_any);
        <(
            H2, H3, H4, H5, H6, H7, H8, H9, H10, H11, H12, H13, H14, H15, H16, H17, H18, H19,
            H20, H21, H22, H23, H24, H25, H26,
        ) as SpendFunds<P>>::spend_funds(
            budget_remaining,
            imbalance,
            total_weight,
            missed_any,
        );
    }
}

impl<
    P, H1: SpendFunds<P>, H2: SpendFunds<P>, H3: SpendFunds<P>, H4: SpendFunds<P>,
    H5: SpendFunds<P>, H6: SpendFunds<P>, H7: SpendFunds<P>, H8: SpendFunds<P>,
    H9: SpendFunds<P>, H10: SpendFunds<P>, H11: SpendFunds<P>, H12: SpendFunds<P>,
    H13: SpendFunds<P>, H14: SpendFunds<P>, H15: SpendFunds<P>, H16: SpendFunds<P>,
    H17: SpendFunds<P>, H18: SpendFunds<P>, H19: SpendFunds<P>, H20: SpendFunds<P>,
    H21: SpendFunds<P>, H22: SpendFunds<P>, H23: SpendFunds<P>, H24: SpendFunds<P>,
    H25: SpendFunds<P>, H26: SpendFunds<P>, H27: SpendFunds<P>,
> SpendFunds<P> for (
    H1, H2, H3, H4, H5, H6, H7, H8, H9, H10, H11, H12, H13, H14, H15, H16, H17, H18, H19, H20,
    H21, H22, H23, H24, H25, H26, H27,
) {
    open spec fn spends(pre: HookState<P>, post: HookState<P>) -> bool {
        exists|mid: HookState<P>| #[trigger]
            H1::spends(pre, mid) && <(
                H2, H3, H4, H5, H6, H7, H8, H9, H10, H11, H12, H13, H14, H15, H16, H17, H18, H19,
                H20, H21, H22, H23, H24, H25, H26, H27,
            ) as SpendFunds<P>>::spends(mid, post)
    }

    fn spend_funds(
        budget_remaining: &mut Balance,
        imbalance: &mut P,
        total_weight: &mut Weight,
        missed_any: &mut bool,
    ) {
        H1::spend_funds(budget_remaining, imbalance, total_weight, missed_any);
        <(
            H2, H3, H4, H5, H6, H7, H8, H9, H10, H11, H12, H13, H14, H15, H16, H17, H18, H19,
            H20, H21, H22, H23, H24, H25, H26, H27,
        ) as SpendFunds<P>>::spend_funds(
            budget_remaining,
            imbalance,
            total_weight,
            missed_any,
        );
    }
}

impl<
    P, H1: SpendFunds<P>, H2: SpendFunds<P>, H3: SpendFunds<P>, H4: SpendFunds<P>,
    H5: SpendFunds<P>, H6: SpendFunds<P>, H7: SpendFunds<P>, H8: SpendFunds<P>,
    H9: SpendFunds<P>, H10: SpendFunds<P>, H11: SpendFunds<P>, H12: SpendFunds<P>,
    H13: SpendFunds<P>, H14: SpendFunds<P>, H15: SpendFunds<P>, H16: SpendFunds<P>,
    H17: SpendFunds<P>, H18: SpendFunds<P>, H19: SpendFunds<P>, H20: SpendFunds<P>,
    H21: SpendFunds<P>, H22: SpendFunds<P>, H23: SpendFunds<P>, H24: SpendFunds<P>,
    H25: SpendFunds<P>, H26: SpendFunds<P>, H27: SpendFunds<P>, H28: SpendFunds<P>,
> SpendFunds<P> for (
    H1, H2, H3, H4, H5, H6, H7, H8, H9, H10, H11, H12, H13, H14, H15, H16, H17, H18, H19, H20,
    H21, H22, H23, H24, H25, H26, H27, H28,
) {
    open spec fn spends(pre: HookState<P>, post: HookState<P>) -> bool {
        exists|mid: HookState<P>| #[trigger]
            H1::spends(pre, mid) && <(
                H2, H3, H4, H5, H6, H7, H8, H9, H10, H11, H12, H13, H14, H15, H16, H17, H18, H19,
                H20, H21, H22, H23, H24, H25, H26, H27, H28,
            ) as SpendFunds<P>>::spends(mid, post)
    }

    fn spend_funds(
        budget_remaining: &mut Balance,
        imbalance: &mut P,
        total_weight: &mut Weight,
        missed_any: &mut bool,
    ) {
        H1::spend_funds(budget_remaining, imbalance, total_weight, missed_any);
        <(
            H2, H3, H4, H5, H6, H7, H8, H9, H10, H11, H12, H13, H14, H15, H16, H17, H18, H19,
            H20, H21, H22, H23, H24, H25, H26, H27, H28,
        ) as SpendFunds<P>>::spend_funds(
            budget_remaining,
            imbalance,
            total_weight,
            missed_any,
        );
    }
}

impl<
    P, H1: SpendFunds<P>, H2: SpendFunds<P>, H3: SpendFunds<P>, H4: SpendFunds<P>,
    H5: SpendFunds<P>, H6: SpendFunds<P>, H7: SpendFunds<P>, H8: SpendFunds<P>,
    H9: SpendFunds<P>, H10: SpendFunds<P>, H11: SpendFunds<P>, H12: SpendFunds<P>,
    H13: SpendFunds<P>, H14: SpendFunds<P>, H15: SpendFunds<P>, H16: SpendFunds<P>,
    H17: SpendFunds<P>, H18: SpendFunds<P>, H19: SpendFunds<P>, H20: SpendFunds<P>,
    H21: SpendFunds<P>, H22: SpendFunds<P>, H23: SpendFunds<P>, H24: SpendFunds<P>,
    H25: SpendFunds<P>, H26: SpendFunds<P>, H27: SpendFunds<P>, H28: SpendFunds<P>,
    H29: SpendFunds<P>,
> SpendFunds<P> for (
    H1, H2, H3, H4, H5, H6, H7, H8, H9, H10, H11, H12, H13, H14, H15, H16, H17, H18, H19, H20,
    H21, H22, H23, H24, H25, H26, H27, H28, H29,
) {
    open spec fn spends(pre: HookState<P>, post: HookState<P>) -> bool {
        exists|mid: HookState<P>| #[trigger]
            H1::spends(pre, mid) && <(
                H2, H3, H4, H5, H6, H7, H8, H9, H10, H11, H12, H13, H14, H15, H16, H17, H18, H19,
                H20, H21, H22, H23, H24, H25, H26, H27, H28, H29,
            ) as SpendFunds<P>>::spends(mid, post)
    }

    fn spend_funds(
        budget_remaining: &mut Balance,
        imbalance: &mut P,
        total_weight: &mut Weight,
        missed_any: &mut bool,
    ) {
        H1::spend_funds(budget_remaining, imbalance, total_weight, missed_any);
        <(
            H2, H3, H4, H5, H6, H7, H8, H9, H10, H11, H12, H13, H14, H15, H16, H17, H18, H19,
            H20, H21, H22, H23, H24, H25, H26, H27, H28, H29,
        ) as SpendFunds<P>>::spend_funds(
            budget_remaining,
            imbalance,
            total_weight,
            missed_any,
        );
    }
}

impl<
    P, H1: SpendFunds<P>, H2: SpendFunds<P>, H3: SpendFunds<P>, H4: SpendFunds<P>,
    H5: SpendFunds<P>, H6: SpendFunds<P>, H7: SpendFunds<P>, H8: SpendFunds<P>,
    H9: SpendFunds<P>, H10: SpendFunds<P>, H11: SpendFunds<P>, H12: SpendFunds<P>,
    H13: SpendFunds<P>, H14: SpendFunds<P>, H15: SpendFunds<P>, H16: SpendFunds<P>,
    H17: SpendFunds<P>, H18: SpendFunds<P>, H19: SpendFunds<P>, H20: SpendFunds<P>,
    H21: SpendFunds<P>, H22: SpendFunds<P>, H23: SpendFunds<P>, H24: SpendFunds<P>,
    H25: SpendFunds<P>, H26: SpendFunds<P>, H27: SpendFunds<P>, H28: SpendFunds<P>,
    H29: SpendFunds<P>, H30: SpendFunds<P>,
> SpendFunds<P> for (
    H1, H2, H3, H4, H5, H6, H7, H8, H9, H10, H11, H12, H13, H14, H15, H16, H17, H18, H19, H20,
    H21, H22, H23, H24, H25, H26, H27, H28, H29, H30,
) {
    open spec fn spends(pre: HookState<P>, post: HookState<P>) -> bool {
        exists|mid: HookState<P>| #[trigger]
            H1::spends(pre, mid) && <(
                H2, H3, H4, H5, H6, H7, H8, H9, H10, H11, H12, H13, H14, H15, H16, H17, H18, H19,
                H20, H21, H22, H23, H24, H25, H26, H27, H28, H29, H30,
            ) as SpendFunds<P>>::spends(mid, post)
    }

    fn spend_funds(
        budget_remaining: &mut Balance,
        imbalance: &mut P,
        total_weight: &mut Weight,
        missed_any: &mut bool,
    ) {
        H1::spend_funds(budget_remaining, imbalance, total_weight, missed_any);
        <(
            H2, H3, H4, H5, H6, H7, H8, H9, H10, H11, H12, H13, H14, H15, H16, H17, H18, H19,
            H20, H21, H22, H23, H24, H25, H26, H27, H28, H29, H30,
        ) as SpendFunds<P>>::spend_funds(
            budget_remaining,
            imbalance,
            total_weight,
            missed_any,
        );
    }
}

} // verus!
