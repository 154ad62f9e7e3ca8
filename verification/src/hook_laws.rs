//! What several hooks come to: each of them runs, in the order in which the chain names them. The
//! laws hand out the states that the hooks pass on, from the first to the last.
use crate::hooks::{HookState, SpendFunds};
use vstd::prelude::*;

verus! {

/// No hooks leave everything as it is.
pub proof fn law_no_hooks<P>(pre: HookState<P>, post: HookState<P>)
    requires
        <() as SpendFunds<P>>::spends(pre, post),
    ensures
        post == pre,
{
}

/// A single hook runs.
pub proof fn law_hooks_in_order_1<P, H1: SpendFunds<P>>(
    pre: HookState<P>,
    post: HookState<P>,
) -> (states: Seq<HookState<P>>)
    requires
        <(H1,) as SpendFunds<P>>::spends(pre, post),
    ensures
        states.len() == 2,
        states[0] == pre,
        H1::spends(states[0], states[1]),
        states[1] == post,
{
    seq![pre, post]
}

/// Each hook finds what the one before it has left.
pub proof fn law_hooks_in_order_2<P, H1: SpendFunds<P>, H2: SpendFunds<P>>(
    pre: HookState<P>,
    post: HookState<P>,
) -> (states: Seq<HookState<P>>)
    requires
        <(H1, H2) as SpendFunds<P>>::spends(pre, post),
    ensures
        states.len() == 3,
        states[0] == pre,
        H1::spends(states[0], states[1]),
        H2::spends(states[1], states[2]),
        states[2] == post,
{
    let mid = choose|mid: HookState<P>| #[trigger]
        H1::spends(pre, mid) && <(H2,) as SpendFunds<P>>::spends(mid, post);
    let rest = law_hooks_in_order_1::<P, H2>(mid, post);
    seq![pre] + rest
}

/// Each hook finds what the one before it has left.
pub proof fn law_hooks_in_order_3<
    P, H1: SpendFunds<P>, H2: SpendFunds<P>, H3: SpendFunds<P>,
>(
    pre: HookState<P>,
    post: HookState<P>,
) -> (states: Seq<HookState<P>>)
    requires
        <(H1, H2, H3) as SpendFunds<P>>::spends(pre, post),
    ensures
        states.len() == 4,
        states[0] == pre,
        H1::spends(states[0], states[1]),
        H2::spends(states[1], states[2]),
        H3::spends(states[2], states[3]),
        states[3] == post,
{
    let mid = choose|mid: HookState<P>| #[trigger]
        H1::spends(pre, mid) && <(H2, H3) as SpendFunds<P>>::spends(mid, post);
    let rest = law_hooks_in_order_2::<P, H2, H3>(mid, post);
    seq![pre] + rest
}

/// Each hook finds what the one before it has left.
pub proof fn law_hooks_in_order_4<
    P, H1: SpendFunds<P>, H2: SpendFunds<P>, H3: SpendFunds<P>, H4: SpendFunds<P>,
>(
    pre: HookState<P>,
    post: HookState<P>,
) -> (states: Seq<HookState<P>>)
    requires
        <(H1, H2, H3, H4) as SpendFunds<P>>::spends(pre, post),
    ensures
        states.len() == 5,
        states[0] == pre,
        H1::spends(states[0], states[1]),
        H2::spends(states[1], states[2]),
        H3::spends(states[2], states[3]),
        H4::spends(states[3], states[4]),
        states[4] == post,
{
    let mid = choose|mid: HookState<P>| #[trigger]
        H1::spends(pre, mid) && <(H2, H3, H4) as SpendFunds<P>>::spends(mid, post);
    let rest = law_hooks_in_order_3::<P, H2, H3, H4>(mid, post);
    seq![pre] + rest
}

/// Each hook finds what the one before it has left.
pub proof fn law_hooks_in_order_5<
    P, H1: SpendFunds<P>, H2: SpendFunds<P>, H3: SpendFunds<P>, H4: SpendFunds<P>,
    H5: SpendFunds<P>,
>(
    pre: HookState<P>,
    post: HookState<P>,
) -> (states: Seq<HookState<P>>)
    requires
        <(H1, H2, H3, H4, H5) as SpendFunds<P>>::spends(pre, post),
    ensures
        states.len() == 6,
        states[0] == pre,
        H1::spends(states[0], states[1]),
        H2::spends(states[1], states[2]),
        H3::spends(states[2], states[3]),
        H4::spends(states[3], states[4]),
        H5::spends(states[4], states[5]),
        states[5] == post,
{
    let mid = choose|mid: HookState<P>| #[trigger]
        H1::spends(pre, mid) && <(H2, H3, H4, H5) as SpendFunds<P>>::spends(mid, post);
    let rest = law_hooks_in_order_4::<P, H2, H3, H4, H5>(mid, post);
    seq![pre] + rest
}

/// Each hook finds what the one before it has left.
pub proof fn law_hooks_in_order_6<
    P, H1: SpendFunds<P>, H2: SpendFunds<P>, H3: SpendFunds<P>, H4: SpendFunds<P>,
    H5: SpendFunds<P>, H6: SpendFunds<P>,
>(
    pre: HookState<P>,
    post: HookState<P>,
) -> (states: Seq<HookState<P>>)
    requires
        <(H1, H2, H3, H4, H5, H6) as SpendFunds<P>>::spends(pre, post),
    ensures
        states.len() == 7,
        states[0] == pre,
        H1::spends(states[0], states[1]),
        H2::spends(states[1], states[2]),
        H3::spends(states[2], states[3]),
        H4::spends(states[3], states[4]),
        H5::spends(states[4], states[5]),
        H6::spends(states[5], states[6]),
        states[6] == post,
{
    let mid = choose|mid: HookState<P>| #[trigger]
        H1::spends(pre, mid)
            && <(H2, H3, H4, H5, H6) as SpendFunds<P>>::spends(mid, post);
    let rest = law_hooks_in_order_5::<P, H2, H3, H4, H5, H6>(mid, post);
    seq![pre] + rest
}

/// Each hook finds what the one before it has left.
pub proof fn law_hooks_in_order_7<
    P, H1: SpendFunds<P>, H2: SpendFunds<P>, H3: SpendFunds<P>, H4: SpendFunds<P>,
    H5: SpendFunds<P>, H6: SpendFunds<P>, H7: SpendFunds<P>,
>(
    pre: HookState<P>,
    post: HookState<P>,
) -> (states: Seq<HookState<P>>)
    requires
        <(H1, H2, H3, H4, H5, H6, H7) as SpendFunds<P>>::spends(pre, post),
    ensures
        states.len() == 8,
        states[0] == pre,
        H1::spends(states[0], states[1]),
        H2::spends(states[1], states[2]),
        H3::spends(states[2], states[3]),
        H4::spends(states[3], states[4]),
        H5::spends(states[4], states[5]),
        H6::spends(states[5], states[6]),
        H7::spends(states[6], states[7]),
        states[7] == post,
{
    let mid = choose|mid: HookState<P>| #[trigger]
        H1::spends(pre, mid)
            && <(H2, H3, H4, H5, H6, H7) as SpendFunds<P>>::spends(mid, post);
    let rest = law_hooks_in_order_6::<P, H2, H3, H4, H5, H6, H7>(mid, post);
    seq![pre] + rest
}

/// Each hook finds what the one before it has left.
pub proof fn law_hooks_in_order_8<
    P, H1: SpendFunds<P>, H2: SpendFunds<P>, H3: SpendFunds<P>, H4: SpendFunds<P>,
    H5: SpendFunds<P>, H6: SpendFunds<P>, H7: SpendFunds<P>, H8: SpendFunds<P>,
>(
    pre: HookState<P>,
    post: HookState<P>,
) -> (states: Seq<HookState<P>>)
    requires
        <(H1, H2, H3, H4, H5, H6, H7, H8) as SpendFunds<P>>::spends(pre, post),
    ensures
        states.len() == 9,
        states[0] == pre,
        H1::spends(states[0], states[1]),
        H2::spends(states[1], states[2]),
        H3::spends(states[2], states[3]),
        H4::spends(states[3], states[4]),
        H5::spends(states[4], states[5]),
        H6::spends(states[5], states[6]),
        H7::spends(states[6], states[7]),
        H8::spends(states[7], states[8]),
        states[8] == post,
{
    let mid = choose|mid: HookState<P>| #[trigger]
        H1::spends(pre, mid)
            && <(H2, H3, H4, H5, H6, H7, H8) as SpendFunds<P>>::spends(mid, post);
    let rest = law_hooks_in_order_7::<P, H2, H3, H4, H5, H6, H7, H8>(mid, post);
    seq![pre] + rest
}

/// Each hook finds what the one before it has left.
pub proof fn law_hooks_in_order_9<
    P, H1: SpendFunds<P>, H2: SpendFunds<P>, H3: SpendFunds<P>, H4: SpendFunds<P>,
    H5: SpendFunds<P>, H6: SpendFunds<P>, H7: SpendFunds<P>, H8: SpendFunds<P>,
    H9: SpendFunds<P>,
>(
    pre: HookState<P>,
    post: HookState<P>,
) -> (states: Seq<HookState<P>>)
    requires
        <(H1, H2, H3, H4, H5, H6, H7, H8, H9) as SpendFunds<P>>::spends(pre, post),
    ensures
        states.len() == 10,
        states[0] == pre,
        H1::spends(states[0], states[1]),
        H2::spends(states[1], states[2]),
        H3::spends(states[2], states[3]),
        H4::spends(states[3], states[4]),
        H5::spends(states[4], states[5]),
        H6::spends(states[5], states[6]),
        H7::spends(states[6], states[7]),
        H8::spends(states[7], states[8]),
        H9::spends(states[8], states[9]),
        states[9] == post,
{
    let mid = choose|mid: HookState<P>| #[trigger]
        H1::spends(pre, mid)
            && <(H2, H3, H4, H5, H6, H7, H8, H9) as SpendFunds<P>>::spends(mid, post);
    let rest = law_hooks_in_order_8::<P, H2, H3, H4, H5, H6, H7, H8, H9>(mid, post);
    seq![pre] + rest
}

/// Each hook finds what the one before it has left.
pub proof fn law_hooks_in_order_10<
    P, H1: SpendFunds<P>, H2: SpendFunds<P>, H3: SpendFunds<P>, H4: SpendFunds<P>,
    H5: SpendFunds<P>, H6: SpendFunds<P>, H7: SpendFunds<P>, H8: SpendFunds<P>,
    H9: SpendFunds<P>, H10: SpendFunds<P>,
>(
    pre: HookState<P>,
    post: HookState<P>,
) -> (states: Seq<HookState<P>>)
    requires
        <(
            H1, H2, H3, H4, H5, H6, H7, H8, H9, H10,
        ) as SpendFunds<P>>::spends(pre, post),
    ensures
        states.len() == 11,
        states[0] == pre,
        H1::spends(states[0], states[1]),
        H2::spends(states[1], states[2]),
        H3::spends(states[2], states[3]),
        H4::spends(states[3], states[4]),
        H5::spends(states[4], states[5]),
        H6::spends(states[5], states[6]),
        H7::spends(states[6], states[7]),
        H8::spends(states[7], states[8]),
        H9::spends(states[8], states[9]),
        H10::spends(states[9], states[10]),
        states[10] == post,
{
    let mid = choose|mid: HookState<P>| #[trigger]
        H1::spends(pre, mid)
            && <(H2, H3, H4, H5, H6, H7, H8, H9, H10) as SpendFunds<P>>::spends(mid, post);
    let rest = law_hooks_in_order_9::<P, H2, H3, H4, H5, H6, H7, H8, H9, H10>(mid, post);
    seq![pre] + rest
}

/// Each hook finds what the one before it has left.
pub proof fn law_hooks_in_order_11<
    P, H1: SpendFunds<P>, H2: SpendFunds<P>, H3: SpendFunds<P>, H4: SpendFunds<P>,
    H5: SpendFunds<P>, H6: SpendFunds<P>, H7: SpendFunds<P>, H8: SpendFunds<P>,
    H9: SpendFunds<P>, H10: SpendFunds<P>, H11: SpendFunds<P>,
>(
    pre: HookState<P>,
    post: HookState<P>,
) -> (states: Seq<HookState<P>>)
    requires
        <(
            H1, H2, H3, H4, H5, H6, H7, H8, H9, H10, H11,
        ) as SpendFunds<P>>::spends(pre, post),
    ensures
        states.len() == 12,
        states[0] == pre,
        H1::spends(states[0], states[1]),
        H2::spends(states[1], states[2]),
        H3::spends(states[2], states[3]),
        H4::spends(states[3], states[4]),
        H5::spends(states[4], states[5]),
        H6::spends(states[5], states[6]),
        H7::spends(states[6], states[7]),
        H8::spends(states[7], states[8]),
        H9::spends(states[8], states[9]),
        H10::spends(states[9], states[10]),
        H11::spends(states[10], states[11]),
        states[11] == post,
{
    let mid = choose|mid: HookState<P>| #[trigger]
        H1::spends(pre, mid) && <(
            H2, H3, H4, H5, H6, H7, H8, H9, H10, H11,
        ) as SpendFunds<P>>::spends(mid, post);
    let rest = law_hooks_in_order_10::<P, H2, H3, H4, H5, H6, H7, H8, H9, H10, H11>(mid, post);
    seq![pre] + rest
}

/// Each hook finds what the one before it has left.
pub proof fn law_hooks_in_order_12<
    P, H1: SpendFunds<P>, H2: SpendFunds<P>, H3: SpendFunds<P>, H4: SpendFunds<P>,
    H5: SpendFunds<P>, H6: SpendFunds<P>, H7: SpendFunds<P>, H8: SpendFunds<P>,
    H9: SpendFunds<P>, H10: SpendFunds<P>, H11: SpendFunds<P>, H12: SpendFunds<P>,
>(
    pre: HookState<P>,
    post: HookState<P>,
) -> (states: Seq<HookState<P>>)
    requires
        <(
            H1, H2, H3, H4, H5, H6, H7, H8, H9, H10, H11, H12,
        ) as SpendFunds<P>>::spends(pre, post),
    ensures
        states.len() == 13,
        states[0] == pre,
        H1::spends(states[0], states[1]),
        H2::spends(states[1], states[2]),
        H3::spends(states[2], states[3]),
        H4::spends(states[3], states[4]),
        H5::spends(states[4], states[5]),
        H6::spends(states[5], states[6]),
        H7::spends(states[6], states[7]),
        H8::spends(states[7], states[8]),
        H9::spends(states[8], states[9]),
        H10::spends(states[9], states[10]),
        H11::spends(states[10], states[11]),
        H12::spends(states[11], states[12]),
        states[12] == post,
{
    let mid = choose|mid: HookState<P>| #[trigger]
        H1::spends(pre, mid) && <(
            H2, H3, H4, H5, H6, H7, H8, H9, H10, H11, H12,
        ) as SpendFunds<P>>::spends(mid, post);
    let rest = law_hooks_in_order_11::<P, H2, H3, H4, H5, H6, H7, H8, H9, H10, H11, H12>(mid, post);
    seq![pre] + rest
}

/// Each hook finds what the one before it has left.
pub proof fn law_hooks_in_order_13<
    P, H1: SpendFunds<P>, H2: SpendFunds<P>, H3: SpendFunds<P>, H4: SpendFunds<P>,
    H5: SpendFunds<P>, H6: SpendFunds<P>, H7: SpendFunds<P>, H8: SpendFunds<P>,
    H9: SpendFunds<P>, H10: SpendFunds<P>, H11: SpendFunds<P>, H12: SpendFunds<P>,
    H13: SpendFunds<P>,
>(
    pre: HookState<P>,
    post: HookState<P>,
) -> (states: Seq<HookState<P>>)
    requires
        <(
            H1, H2, H3, H4, H5, H6, H7, H8, H9, H10, H11, H12, H13,
        ) as SpendFunds<P>>::spends(pre, post),
    ensures
        states.len() == 14,
        states[0] == pre,
        H1::spends(states[0], states[1]),
        H2::spends(states[1], states[2]),
        H3::spends(states[2], states[3]),
        H4::spends(states[3], states[4]),
        H5::spends(states[4], states[5]),
        H6::spends(states[5], states[6]),
        H7::spends(states[6], states[7]),
        H8::spends(states[7], states[8]),
        H9::spends(states[8], states[9]),
        H10::spends(states[9], states[10]),
        H11::spends(states[10], states[11]),
        H12::spends(states[11], states[12]),
        H13::spends(states[12], states[13]),
        states[13] == post,
{
    let mid = choose|mid: HookState<P>| #[trigger]
        H1::spends(pre, mid) && <(
            H2, H3, H4, H5, H6, H7, H8, H9, H10, H11, H12, H13,
        ) as SpendFunds<P>>::spends(mid, post);
    let rest = law_hooks_in_order_12::<
        P, H2, H3, H4, H5, H6, H7, H8, H9, H10, H11, H12, H13,
    >(mid, post);
    seq![pre] + rest
}

/// Each hook finds what the one before it has left.
pub proof fn law_hooks_in_order_14<
    P, H1: SpendFunds<P>, H2: SpendFunds<P>, H3: SpendFunds<P>, H4: SpendFunds<P>,
    H5: SpendFunds<P>, H6: SpendFunds<P>, H7: SpendFunds<P>, H8: SpendFunds<P>,
    H9: SpendFunds<P>, H10: SpendFunds<P>, H11: SpendFunds<P>, H12: SpendFunds<P>,
    H13: SpendFunds<P>, H14: SpendFunds<P>,
>(
    pre: HookState<P>,
    post: HookState<P>,
) -> (states: Seq<HookState<P>>)
    requires
        <(
            H1, H2, H3, H4, H5, H6, H7, H8, H9, H10, H11, H12, H13, H14,
        ) as SpendFunds<P>>::spends(pre, post),
    ensures
        states.len() == 15,
        states[0] == pre,
        H1::spends(states[0], states[1]),
        H2::spends(states[1], states[2]),
        H3::spends(states[2], states[3]),
        H4::spends(states[3], states[4]),
        H5::spends(states[4], states[5]),
        H6::spends(states[5], states[6]),
        H7::spends(states[6], states[7]),
        H8::spends(states[7], states[8]),
        H9::spends(states[8], states[9]),
        H10::spends(states[9], states[10]),
        H11::spends(states[10], states[11]),
        H12::spends(states[11], states[12]),
        H13::spends(states[12], states[13]),
        H14::spends(states[13], states[14]),
        states[14] == post,
{
    let mid = choose|mid: HookState<P>| #[trigger]
        H1::spends(pre, mid) && <(
            H2, H3, H4, H5, H6, H7, H8, H9, H10, H11, H12, H13, H14,
        ) as SpendFunds<P>>::spends(mid, post);
    let rest = law_hooks_in_order_13::<
        P, H2, H3, H4, H5, H6, H7, H8, H9, H10, H11, H12, H13, H14,
    >(mid, post);
    seq![pre] + rest
}

/// Each hook finds what the one before it has left.
pub proof fn law_hooks_in_order_15<
    P, H1: SpendFunds<P>, H2: SpendFunds<P>, H3: SpendFunds<P>, H4: SpendFunds<P>,
    H5: SpendFunds<P>, H6: SpendFunds<P>, H7: SpendFunds<P>, H8: SpendFunds<P>,
    H9: SpendFunds<P>, H10: SpendFunds<P>, H11: SpendFunds<P>, H12: SpendFunds<P>,
    H13: SpendFunds<P>, H14: SpendFunds<P>, H15: SpendFunds<P>,
>(
    pre: HookState<P>,
    post: HookState<P>,
) -> (states: Seq<HookState<P>>)
    requires
        <(
            H1, H2, H3, H4, H5, H6, H7, H8, H9, H10, H11, H12, H13, H14, H15,
        ) as SpendFunds<P>>::spends(pre, post),
    ensures
        states.len() == 16,
        states[0] == pre,
        H1::spends(states[0], states[1]),
        H2::spends(states[1], states[2]),
        H3::spends(states[2], states[3]),
        H4::spends(states[3], states[4]),
        H5::spends(states[4], states[5]),
        H6::spends(states[5], states[6]),
        H7::spends(states[6], states[7]),
        H8::spends(states[7], states[8]),
        H9::spends(states[8], states[9]),
        H10::spends(states[9], states[10]),
        H11::spends(states[10], states[11]),
        H12::spends(states[11], states[12]),
        H13::spends(states[12], states[13]),
        H14::spends(states[13], states[14]),
        H15::spends(states[14], states[15]),
        states[15] == post,
{
    let mid = choose|mid: HookState<P>| #[trigger]
        H1::spends(pre, mid) && <(
            H2, H3, H4, H5, H6, H7, H8, H9, H10, H11, H12, H13, H14, H15,
        ) as SpendFunds<P>>::spends(mid, post);
    let rest = law_hooks_in_order_14::<
        P, H2, H3, H4, H5, H6, H7, H8, H9, H10, H11, H12, H13, H14, H15,
    >(mid, post);
    seq![pre] + rest
}

/// Each hook finds what the one before it has left.
pub proof fn law_hooks_in_order_16<
    P, H1: SpendFunds<P>, H2: SpendFunds<P>, H3: SpendFunds<P>, H4: SpendFunds<P>,
    H5: SpendFunds<P>, H6: SpendFunds<P>, H7: SpendFunds<P>, H8: SpendFunds<P>,
    H9: SpendFunds<P>, H10: SpendFunds<P>, H11: SpendFunds<P>, H12: SpendFunds<P>,
    H13: SpendFunds<P>, H14: SpendFunds<P>, H15: SpendFunds<P>, H16: SpendFunds<P>,
>(
    pre: HookState<P>,
    post: HookState<P>,
) -> (states: Seq<HookState<P>>)
    requires
        <(
            H1, H2, H3, H4, H5, H6, H7, H8, H9, H10, H11, H12, H13, H14, H15, H16,
        ) as SpendFunds<P>>::spends(pre, post),
    ensures
        states.len() == 17,
        states[0] == pre,
        H1::spends(states[0], states[1]),
        H2::spends(states[1], states[2]),
        H3::spends(states[2], states[3]),
        H4::spends(states[3], states[4]),
        H5::spends(states[4], states[5]),
        H6::spends(states[5], states[6]),
        H7::spends(states[6], states[7]),
        H8::spends(states[7], states[8]),
        H9::spends(states[8], states[9]),
        H10::spends(states[9], states[10]),
        H11::spends(states[10], states[11]),
        H12::spends(states[11], states[12]),
        H13::spends(states[12], states[13]),
        H14::spends(states[13], states[14]),
        H15::spends(states[14], states[15]),
        H16::spends(states[15], states[16]),
        states[16] == post,
{
    let mid = choose|mid: HookState<P>| #[trigger]
        H1::spends(pre, mid) && <(
            H2, H3, H4, H5, H6, H7, H8, H9, H10, H11, H12, H13, H14, H15, H16,
        ) as SpendFunds<P>>::spends(mid, post);
    let rest = law_hooks_in_order_15::<
        P, H2, H3, H4, H5, H6, H7, H8, H9, H10, H11, H12, H13, H14, H15, H16,
    >(mid, post);
    seq![pre] + rest
}

/// Each hook finds what the one before it has left.
pub proof fn law_hooks_in_order_17<
    P, H1: SpendFunds<P>, H2: SpendFunds<P>, H3: SpendFunds<P>, H4: SpendFunds<P>,
    H5: SpendFunds<P>, H6: SpendFunds<P>, H7: SpendFunds<P>, H8: SpendFunds<P>,
    H9: SpendFunds<P>, H10: SpendFunds<P>, H11: SpendFunds<P>, H12: SpendFunds<P>,
    H13: SpendFunds<P>, H14: SpendFunds<P>, H15: SpendFunds<P>, H16: SpendFunds<P>,
    H17: SpendFunds<P>,
>(
    pre: HookState<P>,
    post: HookState<P>,
) -> (states: Seq<HookState<P>>)
    requires
        <(
            H1, H2, H3, H4, H5, H6, H7, H8, H9, H10, H11, H12, H13, H14, H15, H16, H17,
        ) as SpendFunds<P>>::spends(pre, post),
    ensures
        states.len() == 18,
        states[0] == pre,
        H1::spends(states[0], states[1]),
        H2::spends(states[1], states[2]),
        H3::spends(states[2], states[3]),
        H4::spends(states[3], states[4]),
        H5::spends(states[4], states[5]),
        H6::spends(states[5], states[6]),
        H7::spends(states[6], states[7]),
        H8::spends(states[7], states[8]),
        H9::spends(states[8], states[9]),
        H10::spends(states[9], states[10]),
        H11::spends(states[10], states[11]),
        H12::spends(states[11], states[12]),
        H13::spends(states[12], states[13]),
        H14::spends(states[13], states[14]),
        H15::spends(states[14], states[15]),
        H16::spends(states[15], states[16]),
        H17::spends(states[16], states[17]),
        states[17] == post,
{
    let mid = choose|mid: HookState<P>| #[trigger]
        H1::spends(pre, mid) && <(
            H2, H3, H4, H5, H6, H7, H8, H9, H10, H11, H12, H13, H14, H15, H16, H17,
        ) as SpendFunds<P>>::spends(mid, post);
    let rest = law_hooks_in_order_16::<
        P, H2, H3, H4, H5, H6, H7, H8, H9, H10, H11, H12, H13, H14, H15, H16, H17,
    >(mid, post);
    seq![pre] + rest
}

/// Each hook finds what the one before it has left.
pub proof fn law_hooks_in_order_18<
    P, H1: SpendFunds<P>, H2: SpendFunds<P>, H3: SpendFunds<P>, H4: SpendFunds<P>,
    H5: SpendFunds<P>, H6: SpendFunds<P>, H7: SpendFunds<P>, H8: SpendFunds<P>,
    H9: SpendFunds<P>, H10: SpendFunds<P>, H11: SpendFunds<P>, H12: SpendFunds<P>,
    H13: SpendFunds<P>, H14: SpendFunds<P>, H15: SpendFunds<P>, H16: SpendFunds<P>,
    H17: SpendFunds<P>, H18: SpendFunds<P>,
>(
    pre: HookState<P>,
    post: HookState<P>,
) -> (states: Seq<HookState<P>>)
    requires
        <(
            H1, H2, H3, H4, H5, H6, H7, H8, H9, H10, H11, H12, H13, H14, H15, H16, H17, H18,
        ) as SpendFunds<P>>::spends(pre, post),
    ensures
        states.len() == 19,
        states[0] == pre,
        H1::spends(states[0], states[1]),
        H2::spends(states[1], states[2]),
        H3::spends(states[2], states[3]),
        H4::spends(states[3], states[4]),
        H5::spends(states[4], states[5]),
        H6::spends(states[5], states[6]),
        H7::spends(states[6], states[7]),
        H8::spends(states[7], states[8]),
        H9::spends(states[8], states[9]),
        H10::spends(states[9], states[10]),
        H11::spends(states[10], states[11]),
        H12::spends(states[11], states[12]),
        H13::spends(states[12], states[13]),
        H14::spends(states[13], states[14]),
        H15::spends(states[14], states[15]),
        H16::spends(states[15], states[16]),
        H17::spends(states[16], states[17]),
        H18::spends(states[17], states[18]),
        states[18] == post,
{
    let mid = choose|mid: HookState<P>| #[trigger]
        H1::spends(pre, mid) && <(
            H2, H3, H4, H5, H6, H7, H8, H9, H10, H11, H12, H13, H14, H15, H16, H17, H18,
        ) as SpendFunds<P>>::spends(mid, post);
    let rest = law_hooks_in_order_17::<
        P, H2, H3, H4, H5, H6, H7, H8, H9, H10, H11, H12, H13, H14, H15, H16, H17, H18,
    >(mid, post);
    seq![pre] + rest
}

/// Each hook finds what the one before it has left.
pub proof fn law_hooks_in_order_19<
    P, H1: SpendFunds<P>, H2: SpendFunds<P>, H3: SpendFunds<P>, H4: SpendFunds<P>,
    H5: SpendFunds<P>, H6: SpendFunds<P>, H7: SpendFunds<P>, H8: SpendFunds<P>,
    H9: SpendFunds<P>, H10: SpendFunds<P>, H11: SpendFunds<P>, H12: SpendFunds<P>,
    H13: SpendFunds<P>, H14: SpendFunds<P>, H15: SpendFunds<P>, H16: SpendFunds<P>,
    H17: SpendFunds<P>, H18: SpendFunds<P>, H19: SpendFunds<P>,
>(
    pre: HookState<P>,
    post: HookState<P>,
) -> (states: Seq<HookState<P>>)
    requires
        <(
            H1, H2, H3, H4, H5, H6, H7, H8, H9, H10, H11, H12, H13, H14, H15, H16, H17, H18, H19,
        ) as SpendFunds<P>>::spends(pre, post),
    ensures
        states.len() == 20,
        states[0] == pre,
        H1::spends(states[0], states[1]),
        H2::spends(states[1], states[2]),
        H3::spends(states[2], states[3]),
        H4::spends(states[3], states[4]),
        H5::spends(states[4], states[5]),
        H6::spends(states[5], states[6]),
        H7::spends(states[6], states[7]),
        H8::spends(states[7], states[8]),
        H9::spends(states[8], states[9]),
        H10::spends(states[9], states[10]),
        H11::spends(states[10], states[11]),
        H12::spends(states[11], states[12]),
        H13::spends(states[12], states[13]),
        H14::spends(states[13], states[14]),
        H15::spends(states[14], states[15]),
        H16::spends(states[15], states[16]),
        H17::spends(states[16], states[17]),
        H18::spends(states[17], states[18]),
        H19::spends(states[18], states[19]),
        states[19] == post,
{
    let mid = choose|mid: HookState<P>| #[trigger]
        H1::spends(pre, mid) && <(
            H2, H3, H4, H5, H6, H7, H8, H9, H10, H11, H12, H13, H14, H15, H16, H17, H18, H19,
        ) as SpendFunds<P>>::spends(mid, post);
    let rest = law_hooks_in_order_18::<
        P, H2, H3, H4, H5, H6, H7, H8, H9, H10, H11, H12, H13, H14, H15, H16, H17, H18, H19,
    >(mid, post);
    seq![pre] + rest
}

/// Each hook finds what the one before it has left.
pub proof fn law_hooks_in_order_20<
    P, H1: SpendFunds<P>, H2: SpendFunds<P>, H3: SpendFunds<P>, H4: SpendFunds<P>,
    H5: SpendFunds<P>, H6: SpendFunds<P>, H7: SpendFunds<P>, H8: SpendFunds<P>,
    H9: SpendFunds<P>, H10: SpendFunds<P>, H11: SpendFunds<P>, H12: SpendFunds<P>,
    H13: SpendFunds<P>, H14: SpendFunds<P>, H15: SpendFunds<P>, H16: SpendFunds<P>,
    H17: SpendFunds<P>, H18: SpendFunds<P>, H19: SpendFunds<P>, H20: SpendFunds<P>,
>(
    pre: HookState<P>,
    post: HookState<P>,
) -> (states: Seq<HookState<P>>)
    requires
        <(
            H1, H2, H3, H4, H5, H6, H7, H8, H9, H10, H11, H12, H13, H14, H15, H16, H17, H18, H19,
            H20,
        ) as SpendFunds<P>>::spends(pre, post),
    ensures
        states.len() == 21,
        states[0] == pre,
        H1::spends(states[0], states[1]),
        H2::spends(states[1], states[2]),
        H3::spends(states[2], states[3]),
        H4::spends(states[3], states[4]),
        H5::spends(states[4], states[5]),
        H6::spends(states[5], states[6]),
        H7::spends(states[6], states[7]),
        H8::spends(states[7], states[8]),
        H9::spends(states[8], states[9]),
        H10::spends(states[9], states[10]),
        H11::spends(states[10], states[11]),
        H12::spends(states[11], states[12]),
        H13::spends(states[12], states[13]),
        H14::spends(states[13], states[14]),
        H15::spends(states[14], states[15]),
        H16::spends(states[15], states[16]),
        H17::spends(states[16], states[17]),
        H18::spends(states[17], states[18]),
        H19::spends(states[18], states[19]),
        H20::spends(states[19], states[20]),
        states[20] == post,
{
    let mid = choose|mid: HookState<P>| #[trigger]
        H1::spends(pre, mid) && <(
            H2, H3, H4, H5, H6, H7, H8, H9, H10, H11, H12, H13, H14, H15, H16, H17, H18, H19,
            H20,
        ) as SpendFunds<P>>::spends(mid, post);
    let rest = law_hooks_in_order_19::<
        P, H2, H3, H4, H5, H6, H7, H8, H9, H10, H11, H12, H13, H14, H15, H16, H17, H18, H19, H20,
    >(mid, post);
    seq![pre] + rest
}

/// Each hook finds what the one before it has left.
pub proof fn law_hooks_in_order_21<
    P, H1: SpendFunds<P>, H2: SpendFunds<P>, H3: SpendFunds<P>, H4: SpendFunds<P>,
    H5: SpendFunds<P>, H6: SpendFunds<P>, H7: SpendFunds<P>, H8: SpendFunds<P>,
    H9: SpendFunds<P>, H10: SpendFunds<P>, H11: SpendFunds<P>, H12: SpendFunds<P>,
    H13: SpendFunds<P>, H14: SpendFunds<P>, H15: SpendFunds<P>, H16: SpendFunds<P>,
    H17: SpendFunds<P>, H18: SpendFunds<P>, H19: SpendFunds<P>, H20: SpendFunds<P>,
    H21: SpendFunds<P>,
>(
    pre: HookState<P>,
    post: HookState<P>,
) -> (states: Seq<HookState<P>>)
    requires
        <(
            H1, H2, H3, H4, H5, H6, H7, H8, H9, H10, H11, H12, H13, H14, H15, H16, H17, H18, H19,
            H20, H21,
        ) as SpendFunds<P>>::spends(pre, post),
    ensures
        states.len() == 22,
        states[0] == pre,
        H1::spends(states[0], states[1]),
        H2::spends(states[1], states[2]),
        H3::spends(states[2], states[3]),
        H4::spends(states[3], states[4]),
        H5::spends(states[4], states[5]),
        H6::spends(states[5], states[6]),
        H7::spends(states[6], states[7]),
        H8::spends(states[7], states[8]),
        H9::spends(states[8], states[9]),
        H10::spends(states[9], states[10]),
        H11::spends(states[10], states[11]),
        H12::spends(states[11], states[12]),
        H13::spends(states[12], states[13]),
        H14::spends(states[13], states[14]),
        H15::spends(states[14], states[15]),
        H16::spends(states[15], states[16]),
        H17::spends(states[16], states[17]),
        H18::spends(states[17], states[18]),
        H19::spends(states[18], states[19]),
        H20::spends(states[19], states[20]),
        H21::spends(states[20], states[21]),
        states[21] == post,
{
    let mid = choose|mid: HookState<P>| #[trigger]
        H1::spends(pre, mid) && <(
            H2, H3, H4, H5, H6, H7, H8, H9, H10, H11, H12, H13, H14, H15, H16, H17, H18, H19,
            H20, H21,
        ) as SpendFunds<P>>::spends(mid, post);
    let rest = law_hooks_in_order_20::<
        P, H2, H3, H4, H5, H6, H7, H8, H9, H10, H11, H12, H13, H14, H15, H16, H17, H18, H19, H20,
        H21,
    >(mid, post);
    seq![pre] + rest
}

/// Each hook finds what the one before it has left.
pub proof fn law_hooks_in_order_22<
    P, H1: SpendFunds<P>, H2: SpendFunds<P>, H3: SpendFunds<P>, H4: SpendFunds<P>,
    H5: SpendFunds<P>, H6: SpendFunds<P>, H7: SpendFunds<P>, H8: SpendFunds<P>,
    H9: SpendFunds<P>, H10: SpendFunds<P>, H11: SpendFunds<P>, H12: SpendFunds<P>,
    H13: SpendFunds<P>, H14: SpendFunds<P>, H15: SpendFunds<P>, H16: SpendFunds<P>,
    H17: SpendFunds<P>, H18: SpendFunds<P>, H19: SpendFunds<P>, H20: SpendFunds<P>,
    H21: SpendFunds<P>, H22: SpendFunds<P>,
>(
    pre: HookState<P>,
    post: HookState<P>,
) -> (states: Seq<HookState<P>>)
    requires
        <(
            H1, H2, H3, H4, H5, H6, H7, H8, H9, H10, H11, H12, H13, H14, H15, H16, H17, H18, H19,
            H20, H21, H22,
        ) as SpendFunds<P>>::spends(pre, post),
    ensures
        states.len() == 23,
        states[0] == pre,
        H1::spends(states[0], states[1]),
        H2::spends(states[1], states[2]),
        H3::spends(states[2], states[3]),
        H4::spends(states[3], states[4]),
        H5::spends(states[4], states[5]),
        H6::spends(states[5], states[6]),
        H7::spends(states[6], states[7]),
        H8::spends(states[7], states[8]),
        H9::spends(states[8], states[9]),
        H10::spends(states[9], states[10]),
        H11::spends(states[10], states[11]),
        H12::spends(states[11], states[12]),
        H13::spends(states[12], states[13]),
        H14::spends(states[13], states[14]),
        H15::spends(states[14], states[15]),
        H16::spends(states[15], states[16]),
        H17::spends(states[16], states[17]),
        H18::spends(states[17], states[18]),
        H19::spends(states[18], states[19]),
        H20::spends(states[19], states[20]),
        H21::spends(states[20], states[21]),
        H22::spends(states[21], states[22]),
        states[22] == post,
{
    let mid = choose|mid: HookState<P>| #[trigger]
        H1::spends(pre, mid) && <(
            H2, H3, H4, H5, H6, H7, H8, H9, H10, H11, H12, H13, H14, H15, H16, H17, H18, H19,
            H20, H21, H22,
        ) as SpendFunds<P>>::spends(mid, post);
    let rest = law_hooks_in_order_21::<
        P, H2, H3, H4, H5, H6, H7, H8, H9, H10, H11, H12, H13, H14, H15, H16, H17, H18, H19, H20,
        H21, H22,
    >(mid, post);
    seq![pre] + rest
}

/// Each hook finds what the one before it has left.
pub proof fn law_hooks_in_order_23<
    P, H1: SpendFunds<P>, H2: SpendFunds<P>, H3: SpendFunds<P>, H4: SpendFunds<P>,
    H5: SpendFunds<P>, H6: SpendFunds<P>, H7: SpendFunds<P>, H8: SpendFunds<P>,
    H9: SpendFunds<P>, H10: SpendFunds<P>, H11: SpendFunds<P>, H12: SpendFunds<P>,
    H13: SpendFunds<P>, H14: SpendFunds<P>, H15: SpendFunds<P>, H16: SpendFunds<P>,
    H17: SpendFunds<P>, H18: SpendFunds<P>, H19: SpendFunds<P>, H20: SpendFunds<P>,
    H21: SpendFunds<P>, H22: SpendFunds<P>, H23: SpendFunds<P>,
>(
    pre: HookState<P>,
    post: HookState<P>,
) -> (states: Seq<HookState<P>>)
    requires
        <(
            H1, H2, H3, H4, H5, H6, H7, H8, H9, H10, H11, H12, H13, H14, H15, H16, H17, H18, H19,
            H20, H21, H22, H23,
        ) as SpendFunds<P>>::spends(pre, post),
    ensures
        states.len() == 24,
        states[0] == pre,
        H1::spends(states[0], states[1]),
        H2::spends(states[1], states[2]),
        H3::spends(states[2], states[3]),
        H4::spends(states[3], states[4]),
        H5::spends(states[4], states[5]),
        H6::spends(states[5], states[6]),
        H7::spends(states[6], states[7]),
        H8::spends(states[7], states[8]),
        H9::spends(states[8], states[9]),
        H10::spends(states[9], states[10]),
        H11::spends(states[10], states[11]),
        H12::spends(states[11], states[12]),
        H13::spends(states[12], states[13]),
        H14::spends(states[13], states[14]),
        H15::spends(states[14], states[15]),
        H16::spends(states[15], states[16]),
        H17::spends(states[16], states[17]),
        H18::spends(states[17], states[18]),
        H19::spends(states[18], states[19]),
        H20::spends(states[19], states[20]),
        H21::spends(states[20], states[21]),
        H22::spends(states[21], states[22]),
        H23::spends(states[22], states[23]),
        states[23] == post,
{
    let mid = choose|mid: HookState<P>| #[trigger]
        H1::spends(pre, mid) && <(
            H2, H3, H4, H5, H6, H7, H8, H9, H10, H11, H12, H13, H14, H15, H16, H17, H18, H19,
            H20, H21, H22, H23,
        ) as SpendFunds<P>>::spends(mid, post);
    let rest = law_hooks_in_order_22::<
        P, H2, H3, H4, H5, H6, H7, H8, H9, H10, H11, H12, H13, H14, H15, H16, H17, H18, H19, H20,
        H21, H22, H23,
    >(mid, post);
    seq![pre] + rest
}

/// Each hook finds what the one before it has left.
pub proof fn law_hooks_in_order_24<
    P, H1: SpendFunds<P>, H2: SpendFunds<P>, H3: SpendFunds<P>, H4: SpendFunds<P>,
    H5: SpendFunds<P>, H6: SpendFunds<P>, H7: SpendFunds<P>, H8: SpendFunds<P>,
    H9: SpendFunds<P>, H10: SpendFunds<P>, H11: SpendFunds<P>, H12: SpendFunds<P>,
    H13: SpendFunds<P>, H14: SpendFunds<P>, H15: SpendFunds<P>, H16: SpendFunds<P>,
    H17: SpendFunds<P>, H18: SpendFunds<P>, H19: SpendFunds<P>, H20: SpendFunds<P>,
    H21: SpendFunds<P>, H22: SpendFunds<P>, H23: SpendFunds<P>, H24: SpendFunds<P>,
>(
    pre: HookState<P>,
    post: HookState<P>,
) -> (states: Seq<HookState<P>>)
    requires
        <(
            H1, H2, H3, H4, H5, H6, H7, H8, H9, H10, H11, H12, H13, H14, H15, H16, H17, H18, H19,
            H20, H21, H22, H23, H24,
        ) as SpendFunds<P>>::spends(pre, post),
    ensures
        states.len() == 25,
        states[0] == pre,
        H1::spends(states[0], states[1]),
        H2::spends(states[1], states[2]),
        H3::spends(states[2], states[3]),
        H4::spends(states[3], states[4]),
        H5::spends(states[4], states[5]),
        H6::spends(states[5], states[6]),
        H7::spends(states[6], states[7]),
        H8::spends(states[7], states[8]),
        H9::spends(states[8], states[9]),
        H10::spends(states[9], states[10]),
        H11::spends(states[10], states[11]),
        H12::spends(states[11], states[12]),
        H13::spends(states[12], states[13]),
        H14::spends(states[13], states[14]),
        H15::spends(states[14], states[15]),
        H16::spends(states[15], states[16]),
        H17::spends(states[16], states[17]),
        H18::spends(states[17], states[18]),
        H19::spends(states[18], states[19]),
        H20::spends(states[19], states[20]),
        H21::spends(states[20], states[21]),
        H22::spends(states[21], states[22]),
        H23::spends(states[22], states[23]),
        H24::spends(states[23], states[24]),
        states[24] == post,
{
    let mid = choose|mid: HookState<P>| #[trigger]
        H1::spends(pre, mid) && <(
            H2, H3, H4, H5, H6, H7, H8, H9, H10, H11, H12, H13, H14, H15, H16, H17, H18, H19,
            H20, H21, H22, H23, H24,
        ) as SpendFunds<P>>::spends(mid, post);
    let rest = law_hooks_in_order_23::<
        P, H2, H3, H4, H5, H6, H7, H8, H9, H10, H11, H12, H13, H14, H15, H16, H17, H18, H19, H20,
        H21, H22, H23, H24,
    >(mid, post);
    seq![pre] + rest
}

/// Each hook finds what the one before it has left.
pub proof fn law_hooks_in_order_25<
    P, H1: SpendFunds<P>, H2: SpendFunds<P>, H3: SpendFunds<P>, H4: SpendFunds<P>,
    H5: SpendFunds<P>, H6: SpendFunds<P>, H7: SpendFunds<P>, H8: SpendFunds<P>,
    H9: SpendFunds<P>, H10: SpendFunds<P>, H11: SpendFunds<P>, H12: SpendFunds<P>,
    H13: SpendFunds<P>, H14: SpendFunds<P>, H15: SpendFunds<P>, H16: SpendFunds<P>,
    H17: SpendFunds<P>, H18: SpendFunds<P>, H19: SpendFunds<P>, H20: SpendFunds<P>,
    H21: SpendFunds<P>, H22: SpendFunds<P>, H23: SpendFunds<P>, H24: SpendFunds<P>,
    H25: SpendFunds<P>,
>(
    pre: HookState<P>,
    post: HookState<P>,
) -> (states: Seq<HookState<P>>)
    requires
        <(
            H1, H2, H3, H4, H5, H6, H7, H8, H9, H10, H11, H12, H13, H14, H15, H16, H17, H18, H19,
            H20, H21, H22, H23, H24, H25,
        ) as SpendFunds<P>>::spends(pre, post),
    ensures
        states.len() == 26,
        states[0] == pre,
        H1::spends(states[0], states[1]),
        H2::spends(states[1], states[2]),
        H3::spends(states[2], states[3]),
        H4::spends(states[3], states[4]),
        H5::spends(states[4], states[5]),
        H6::spends(states[5], states[6]),
        H7::spends(states[6], states[7]),
        H8::spends(states[7], states[8]),
        H9::spends(states[8], states[9]),
        H10::spends(states[9], states[10]),
        H11::spends(states[10], states[11]),
        H12::spends(states[11], states[12]),
        H13::spends(states[12], states[13]),
        H14::spends(states[13], states[14]),
        H15::spends(states[14], states[15]),
        H16::spends(states[15], states[16]),
        H17::spends(states[16], states[17]),
        H18::spends(states[17], states[18]),
        H19::spends(states[18], states[19]),
        H20::spends(states[19], states[20]),
        H21::spends(states[20], states[21]),
        H22::spends(states[21], states[22]),
        H23::spends(states[22], states[23]),
        H24::spends(states[23], states[24]),
        H25::spends(states[24], states[25]),
        states[25] == post,
{
    let mid = choose|mid: HookState<P>| #[trigger]
        H1::spends(pre, mid) && <(
            H2, H3, H4, H5, H6, H7, H8, H9, H10, H11, H12, H13, H14, H15, H16, H17, H18, H19,
            H20, H21, H22, H23, H24, H25,
        ) as SpendFunds<P>>::spends(mid, post);
    let rest = law_hooks_in_order_24::<
        P, H2, H3, H4, H5, H6, H7, H8, H9, H10, H11, H12, H13, H14, H15, H16, H17, H18, H19, H20,
        H21, H22, H23, H24, H25,
    >(mid, post);
    seq![pre] + rest
}

/// Each hook finds what the one before it has left.
pub proof fn law_hooks_in_order_26<
    P, H1: SpendFunds<P>, H2: SpendFunds<P>, H3: SpendFunds<P>, H4: SpendFunds<P>,
    H5: SpendFunds<P>, H6: SpendFunds<P>, H7: SpendFunds<P>, H8: SpendFunds<P>,
    H9: SpendFunds<P>, H10: SpendFunds<P>, H11: SpendFunds<P>, H12: SpendFunds<P>,
    H13: SpendFunds<P>, H14: SpendFunds<P>, H15: SpendFunds<P>, H16: SpendFunds<P>,
    H17: SpendFunds<P>, H18: SpendFunds<P>, H19: SpendFunds<P>, H20: SpendFunds<P>,
    H21: SpendFunds<P>, H22: SpendFunds<P>, H23: SpendFunds<P>, H24: SpendFunds<P>,
    H25: SpendFunds<P>, H26: SpendFunds<P>,
>(
    pre: HookState<P>,
    post: HookState<P>,
) -> (states: Seq<HookState<P>>)
    requires
        <(
            H1, H2, H3, H4, H5, H6, H7, H8, H9, H10, H11, H12, H13, H14, H15, H16, H17, H18, H19,
            H20, H21, H22, H23, H24, H25, H26,
        ) as SpendFunds<P>>::spends(pre, post),
    ensures
        states.len() == 27,
        states[0] == pre,
        H1::spends(states[0], states[1]),
        H2::spends(states[1], states[2]),
        H3::spends(states[2], states[3]),
        H4::spends(states[3], states[4]),
        H5::spends(states[4], states[5]),
        H6::spends(states[5], states[6]),
        H7::spends(states[6], states[7]),
        H8::spends(states[7], states[8]),
        H9::spends(states[8], states[9]),
        H10::spends(states[9], states[10]),
        H11::spends(states[10], states[11]),
        H12::spends(states[11], states[12]),
        H13::spends(states[12], states[13]),
        H14::spends(states[13], states[14]),
        H15::spends(states[14], states[15]),
        H16::spends(states[15], states[16]),
        H17::spends(states[16], states[17]),
        H18::spends(states[17], states[18]),
        H19::spends(states[18], states[19]),
        H20::spends(states[19], states[20]),
        H21::spends(states[20], states[21]),
        H22::spends(states[21], states[22]),
        H23::spends(states[22], states[23]),
        H24::spends(states[23], states[24]),
        H25::spends(states[24], states[25]),
        H26::spends(states[25], states[26]),
        states[26] == post,
{
    let mid = choose|mid: HookState<P>| #[trigger]
        H1::spends(pre, mid) && <(
            H2, H3, H4, H5, H6, H7, H8, H9, H10, H11, H12, H13, H14, H15, H16, H17, H18, H19,
            H20, H21, H22, H23, H24, H25, H26,
        ) as SpendFunds<P>>::spends(mid, post);
    let rest = law_hooks_in_order_25::<
        P, H2, H3, H4, H5, H6, H7, H8, H9, H10, H11, H12, H13, H14, H15, H16, H17, H18, H19, H20,
        H21, H22, H23, H24, H25, H26,
    >(mid, post);
    seq![pre] + rest
}

/// Each hook finds what the one before it has left.
pub proof fn law_hooks_in_order_27<
    P, H1: SpendFunds<P>, H2: SpendFunds<P>, H3: SpendFunds<P>, H4: SpendFunds<P>,
    H5: SpendFunds<P>, H6: SpendFunds<P>, H7: SpendFunds<P>, H8: SpendFunds<P>,
    H9: SpendFunds<P>, H10: SpendFunds<P>, H11: SpendFunds<P>, H12: SpendFunds<P>,
    H13: SpendFunds<P>, H14: SpendFunds<P>, H15: SpendFunds<P>, H16: SpendFunds<P>,
    H17: SpendFunds<P>, H18: SpendFunds<P>, H19: SpendFunds<P>, H20: SpendFunds<P>,
    H21: SpendFunds<P>, H22: SpendFunds<P>, H23: SpendFunds<P>, H24: SpendFunds<P>,
    H25: SpendFunds<P>, H26: SpendFunds<P>, H27: SpendFunds<P>,
>(
    pre: HookState<P>,
    post: HookState<P>,
) -> (states: Seq<HookState<P>>)
    requires
        <(
            H1, H2, H3, H4, H5, H6, H7, H8, H9, H10, H11, H12, H13, H14, H15, H16, H17, H18, H19,
            H20, H21, H22, H23, H24, H25, H26, H27,
        ) as SpendFunds<P>>::spends(pre, post),
    ensures
        states.len() == 28,
        states[0] == pre,
        H1::spends(states[0], states[1]),
        H2::spends(states[1], states[2]),
        H3::spends(states[2], states[3]),
        H4::spends(states[3], states[4]),
        H5::spends(states[4], states[5]),
        H6::spends(states[5], states[6]),
        H7::spends(states[6], states[7]),
        H8::spends(states[7], states[8]),
        H9::spends(states[8], states[9]),
        H10::spends(states[9], states[10]),
        H11::spends(states[10], states[11]),
        H12::spends(states[11], states[12]),
        H13::spends(states[12], states[13]),
        H14::spends(states[13], states[14]),
        H15::spends(states[14], states[15]),
        H16::spends(states[15], states[16]),
        H17::spends(states[16], states[17]),
        H18::spends(states[17], states[18]),
        H19::spends(states[18], states[19]),
        H20::spends(states[19], states[20]),
        H21::spends(states[20], states[21]),
        H22::spends(states[21], states[22]),
        H23::spends(states[22], states[23]),
        H24::spends(states[23], states[24]),
        H25::spends(states[24], states[25]),
        H26::spends(states[25], states[26]),
        H27::spends(states[26], states[27]),
        states[27] == post,
{
    let mid = choose|mid: HookState<P>| #[trigger]
        H1::spends(pre, mid) && <(
            H2, H3, H4, H5, H6, H7, H8, H9, H10, H11, H12, H13, H14, H15, H16, H17, H18, H19,
            H20, H21, H22, H23, H24, H25, H26, H27,
        ) as SpendFunds<P>>::spends(mid, post);
    let rest = law_hooks_in_order_26::<
        P, H2, H3, H4, H5, H6, H7, H8, H9, H10, H11, H12, H13, H14, H15, H16, H17, H18, H19, H20,
        H21, H22, H23, H24, H25, H26, H27,
    >(mid, post);
    seq![pre] + rest
}

/// Each hook finds what the one before it has left.
pub proof fn law_hooks_in_order_28<
    P, H1: SpendFunds<P>, H2: SpendFunds<P>, H3: SpendFunds<P>, H4: SpendFunds<P>,
    H5: SpendFunds<P>, H6: SpendFunds<P>, H7: SpendFunds<P>, H8: SpendFunds<P>,
    H9: SpendFunds<P>, H10: SpendFunds<P>, H11: SpendFunds<P>, H12: SpendFunds<P>,
    H13: SpendFunds<P>, H14: SpendFunds<P>, H15: SpendFunds<P>, H16: SpendFunds<P>,
    H17: SpendFunds<P>, H18: SpendFunds<P>, H19: SpendFunds<P>, H20: SpendFunds<P>,
    H21: SpendFunds<P>, H22: SpendFunds<P>, H23: SpendFunds<P>, H24: SpendFunds<P>,
    H25: SpendFunds<P>, H26: SpendFunds<P>, H27: SpendFunds<P>, H28: SpendFunds<P>,
>(
    pre: HookState<P>,
    post: HookState<P>,
) -> (states: Seq<HookState<P>>)
    requires
        <(
            H1, H2, H3, H4, H5, H6, H7, H8, H9, H10, H11, H12, H13, H14, H15, H16, H17, H18, H19,
            H20, H21, H22, H23, H24, H25, H26, H27, H28,
        ) as SpendFunds<P>>::spends(pre, post),
    ensures
        states.len() == 29,
        states[0] == pre,
        H1::spends(states[0], states[1]),
        H2::spends(states[1], states[2]),
        H3::spends(states[2], states[3]),
        H4::spends(states[3], states[4]),
        H5::spends(states[4], states[5]),
        H6::spends(states[5], states[6]),
        H7::spends(states[6], states[7]),
        H8::spends(states[7], states[8]),
        H9::spends(states[8], states[9]),
        H10::spends(states[9], states[10]),
        H11::spends(states[10], states[11]),
        H12::spends(states[11], states[12]),
        H13::spends(states[12], states[13]),
        H14::spends(states[13], states[14]),
        H15::spends(states[14], states[15]),
        H16::spends(states[15], states[16]),
        H17::spends(states[16], states[17]),
        H18::spends(states[17], states[18]),
        H19::spends(states[18], states[19]),
        H20::spends(states[19], states[20]),
        H21::spends(states[20], states[21]),
        H22::spends(states[21], states[22]),
        H23::spends(states[22], states[23]),
        H24::spends(states[23], states[24]),
        H25::spends(states[24], states[25]),
        H26::spends(states[25], states[26]),
        H27::spends(states[26], states[27]),
        H28::spends(states[27], states[28]),
        states[28] == post,
{
    let mid = choose|mid: HookState<P>| #[trigger]
        H1::spends(pre, mid) && <(
            H2, H3, H4, H5, H6, H7, H8, H9, H10, H11, H12, H13, H14, H15, H16, H17, H18, H19,
            H20, H21, H22, H23, H24, H25, H26, H27, H28,
        ) as SpendFunds<P>>::spends(mid, post);
    let rest = law_hooks_in_order_27::<
        P, H2, H3, H4, H5, H6, H7, H8, H9, H10, H11, H12, H13, H14, H15, H16, H17, H18, H19, H20,
        H21, H22, H23, H24, H25, H26, H27, H28,
    >(mid, post);
    seq![pre] + rest
}

/// Each hook finds what the one before it has left.
pub proof fn law_hooks_in_order_29<
    P, H1: SpendFunds<P>, H2: SpendFunds<P>, H3: SpendFunds<P>, H4: SpendFunds<P>,
    H5: SpendFunds<P>, H6: SpendFunds<P>, H7: SpendFunds<P>, H8: SpendFunds<P>,
    H9: SpendFunds<P>, H10: SpendFunds<P>, H11: SpendFunds<P>, H12: SpendFunds<P>,
    H13: SpendFunds<P>, H14: SpendFunds<P>, H15: SpendFunds<P>, H16: SpendFunds<P>,
    H17: SpendFunds<P>, H18: SpendFunds<P>, H19: SpendFunds<P>, H20: SpendFunds<P>,
    H21: SpendFunds<P>, H22: SpendFunds<P>, H23: SpendFunds<P>, H24: SpendFunds<P>,
    H25: SpendFunds<P>, H26: SpendFunds<P>, H27: SpendFunds<P>, H28: SpendFunds<P>,
    H29: SpendFunds<P>,
>(
    pre: HookState<P>,
    post: HookState<P>,
) -> (states: Seq<HookState<P>>)
    requires
        <(
            H1, H2, H3, H4, H5, H6, H7, H8, H9, H10, H11, H12, H13, H14, H15, H16, H17, H18, H19,
            H20, H21, H22, H23, H24, H25, H26, H27, H28, H29,
        ) as SpendFunds<P>>::spends(pre, post),
    ensures
        states.len() == 30,
        states[0] == pre,
        H1::spends(states[0], states[1]),
        H2::spends(states[1], states[2]),
        H3::spends(states[2], states[3]),
        H4::spends(states[3], states[4]),
        H5::spends(states[4], states[5]),
        H6::spends(states[5], states[6]),
        H7::spends(states[6], states[7]),
        H8::spends(states[7], states[8]),
        H9::spends(states[8], states[9]),
        H10::spends(states[9], states[10]),
        H11::spends(states[10], states[11]),
        H12::spends(states[11], states[12]),
        H13::spends(states[12], states[13]),
        H14::spends(states[13], states[14]),
        H15::spends(states[14], states[15]),
        H16::spends(states[15], states[16]),
        H17::spends(states[16], states[17]),
        H18::spends(states[17], states[18]),
        H19::spends(states[18], states[19]),
        H20::spends(states[19], states[20]),
        H21::spends(states[20], states[21]),
        H22::spends(states[21], states[22]),
        H23::spends(states[22], states[23]),
        H24::spends(states[23], states[24]),
        H25::spends(states[24], states[25]),
        H26::spends(states[25], states[26]),
        H27::spends(states[26], states[27]),
        H28::spends(states[27], states[28]),
        H29::spends(states[28], states[29]),
        states[29] == post,
{
    let mid = choose|mid: HookState<P>| #[trigger]
        H1::spends(pre, mid) && <(
            H2, H3, H4, H5, H6, H7, H8, H9, H10, H11, H12, H13, H14, H15, H16, H17, H18, H19,
            H20, H21, H22, H23, H24, H25, H26, H27, H28, H29,
        ) as SpendFunds<P>>::spends(mid, post);
    let rest = law_hooks_in_order_28::<
        P, H2, H3, H4, H5, H6, H7, H8, H9, H10, H11, H12, H13, H14, H15, H16, H17, H18, H19, H20,
        H21, H22, H23, H24, H25, H26, H27, H28, H29,
    >(mid, post);
    seq![pre] + rest
}

/// Each hook finds what the one before it has left.
pub proof fn law_hooks_in_order_30<
    P, H1: SpendFunds<P>, H2: SpendFunds<P>, H3: SpendFunds<P>, H4: SpendFunds<P>,
    H5: SpendFunds<P>, H6: SpendFunds<P>, H7: SpendFunds<P>, H8: SpendFunds<P>,
    H9: SpendFunds<P>, H10: SpendFunds<P>, H11: SpendFunds<P>, H12: SpendFunds<P>,
    H13: SpendFunds<P>, H14: SpendFunds<P>, H15: SpendFunds<P>, H16: SpendFunds<P>,
    H17: SpendFunds<P>, H18: SpendFunds<P>, H19: SpendFunds<P>, H20: SpendFunds<P>,
    H21: SpendFunds<P>, H22: SpendFunds<P>, H23: SpendFunds<P>, H24: SpendFunds<P>,
    H25: SpendFunds<P>, H26: SpendFunds<P>, H27: SpendFunds<P>, H28: SpendFunds<P>,
    H29: SpendFunds<P>, H30: SpendFunds<P>,
>(
    pre: HookState<P>,
    post: HookState<P>,
) -> (states: Seq<HookState<P>>)
    requires
        <(
            H1, H2, H3, H4, H5, H6, H7, H8, H9, H10, H11, H12, H13, H14, H15, H16, H17, H18, H19,
            H20, H21, H22, H23, H24, H25, H26, H27, H28, H29, H30,
        ) as SpendFunds<P>>::spends(pre, post),
    ensures
        states.len() == 31,
        states[0] == pre,
        H1::spends(states[0], states[1]),
        H2::spends(states[1], states[2]),
        H3::spends(states[2], states[3]),
        H4::spends(states[3], states[4]),
        H5::spends(states[4], states[5]),
        H6::spends(states[5], states[6]),
        H7::spends(states[6], states[7]),
        H8::spends(states[7], states[8]),
        H9::spends(states[8], states[9]),
        H10::spends(states[9], states[10]),
        H11::spends(states[10], states[11]),
        H12::spends(states[11], states[12]),
        H13::spends(states[12], states[13]),
        H14::spends(states[13], states[14]),
        H15::spends(states[14], states[15]),
        H16::spends(states[15], states[16]),
        H17::spends(states[16], states[17]),
        H18::spends(states[17], states[18]),
        H19::spends(states[18], states[19]),
        H20::spends(states[19], states[20]),
        H21::spends(states[20], states[21]),
        H22::spends(states[21], states[22]),
        H23::spends(states[22], states[23]),
        H24::spends(states[23], states[24]),
        H25::spends(states[24], states[25]),
        H26::spends(states[25], states[26]),
        H27::spends(states[26], states[27]),
        H28::spends(states[27], states[28]),
        H29::spends(states[28], states[29]),
        H30::spends(states[29], states[30]),
        states[30] == post,
{
    let mid = choose|mid: HookState<P>| #[trigger]
        H1::spends(pre, mid) && <(
            H2, H3, H4, H5, H6, H7, H8, H9, H10, H11, H12, H13, H14, H15, H16, H17, H18, H19,
            H20, H21, H22, H23, H24, H25, H26, H27, H28, H29, H30,
        ) as SpendFunds<P>>::spends(mid, post);
    let rest = law_hooks_in_order_29::<
        P, H2, H3, H4, H5, H6, H7, H8, H9, H10, H11, H12, H13, H14, H15, H16, H17, H18, H19, H20,
        H21, H22, H23, H24, H25, H26, H27, H28, H29, H30,
    >(mid, post);
    seq![pre] + rest
}

} // verus!
