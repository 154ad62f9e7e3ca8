//! Paying for what was approved: one walk through the queue of approvals.
use crate::config::Constants;
use crate::proposals::{bond_of, chunk_of, law_chunks_add_up, request_of};
use crate::state::{occurrences_fit, State};
use crate::types::{
    AccountId, Action, Balance, BlockNumber, Event, Proposal, ProposalIndex, ProposalOf,
};
use std::collections::BTreeMap;
use vstd::prelude::*;

verus! {

broadcast use vstd::std_specs::btree::group_btree_axioms;

/// How far a spend has come when it has gone through some of the approvals.
#[verifier::ext_equal]
pub struct Walk {
    /// What is left to spend.
    pub budget: int,
    /// The proposals that are still to be paid for, in part or in whole.
    pub proposals: Map<ProposalIndex, ProposalOf>,
    /// The approvals that stay in the queue, since there was not enough to pay for them.
    pub kept: Seq<ProposalIndex>,
    /// What the payments ask of the chain.
    pub actions: Seq<Action>,
    /// Whether each proposal that was paid for still had a payment due.
    pub sound: bool,
}

/// What one payment for the proposal asks of the chain: the deposit goes back to the proposer,
/// the beneficiary is paid, and the award is announced.
pub open spec fn award_actions(index: ProposalIndex, proposal: ProposalOf) -> Seq<Action> {
    seq![
        Action::Unreserve { who: proposal.proposer, amount: proposal.bond },
        Action::DepositCreating { who: proposal.beneficiary, amount: proposal.value },
        Action::DepositEvent(Event::Awarded(index, proposal.value, proposal.beneficiary)),
    ]
}

/// The proposals once one payment was made for the one at `index`: it is owed one payment less,
/// and is gone if that was the last.
pub open spec fn after_award(
    proposals: Map<ProposalIndex, ProposalOf>,
    index: ProposalIndex,
) -> Map<ProposalIndex, ProposalOf> {
    let proposal = proposals[index];
    if proposal.remaining_occurs <= 1 {
        proposals.remove(index)
    } else {
        proposals.insert(
            index,
            Proposal { remaining_occurs: (proposal.remaining_occurs - 1) as u32, ..proposal },
        )
    }
}

/// One approval more: it is dropped if there is no such proposal, paid for if the budget allows
/// it, and kept for the next spend otherwise.
pub open spec fn walk_step(before: Walk, index: ProposalIndex) -> Walk {
    if !before.proposals.contains_key(index) {
        before
    } else {
        let proposal = before.proposals[index];
        if proposal.value <= before.budget {
            Walk {
                budget: before.budget - proposal.value,
                proposals: after_award(before.proposals, index),
                kept: before.kept,
                actions: before.actions + award_actions(index, proposal),
                sound: before.sound && proposal.remaining_occurs > 0,
            }
        } else {
            Walk { kept: before.kept.push(index), ..before }
        }
    }
}

/// A spend of `budget` that has gone through `approvals`, first to last.
pub open spec fn walk(
    approvals: Seq<ProposalIndex>,
    proposals: Map<ProposalIndex, ProposalOf>,
    budget: int,
) -> Walk
    decreases approvals.len(),
{
    if approvals.len() == 0 {
        Walk {
            budget,
            proposals,
            kept: Seq::empty(),
            actions: Seq::empty(),
            sound: true,
        }
    } else {
        walk_step(walk(approvals.drop_last(), proposals, budget), approvals.last())
    }
}

impl State {
    /// The treasury once a spend of `budget` has gone through its approvals.
    pub open spec fn spent(self, budget: int) -> State {
        let walked = walk(self.approvals, self.proposals, budget);
        State { proposals: walked.proposals, approvals: walked.kept, ..self }
    }
}

/// What going through the approvals comes to.
pub(crate) struct WalkResult {
    pub budget_remaining: Balance,
    pub kept: Vec<ProposalIndex>,
    pub missed_any: bool,
    pub actions: Vec<Action>,
}

/// If a walk pays for a proposal that has no payment due, so does every longer one.
proof fn lemma_unsound_stays(
    approvals: Seq<ProposalIndex>,
    proposals: Map<ProposalIndex, ProposalOf>,
    budget: int,
    n: int,
)
    requires
        0 <= n <= approvals.len(),
        !walk(approvals.take(n), proposals, budget).sound,
    ensures
        !walk(approvals, proposals, budget).sound,
    decreases approvals.len() - n,
{
    if n < approvals.len() {
        assert(approvals.take(n + 1).drop_last() =~= approvals.take(n));
        lemma_unsound_stays(approvals, proposals, budget, n + 1);
    } else {
        assert(approvals.take(n) =~= approvals);
    }
}

/// Goes through the approvals and pays for what the budget allows. `None` if a proposal that has
/// no payment due would be paid for; the proposals are then left as they were at that point.
pub(crate) fn walk_approvals(
    proposals: &mut BTreeMap<ProposalIndex, ProposalOf>,
    approvals: &Vec<ProposalIndex>,
    budget: Balance,
) -> (result: Option<WalkResult>)
    ensures
        ({
            let walked = walk(approvals@, old(proposals)@, budget as int);
            match result {
                Some(r) => {
                    &&& walked.sound
                    &&& final(proposals)@ == walked.proposals
                    &&& r.budget_remaining == walked.budget
                    &&& r.kept@ == walked.kept
                    &&& r.missed_any == (walked.kept.len() > 0)
                    &&& r.actions@ == walked.actions
                },
                None => !walked.sound,
            }
        }),
{
    let mut budget_remaining: Balance = budget;
    let mut missed_any = false;
    let mut kept: Vec<ProposalIndex> = Vec::new();
    let mut actions: Vec<Action> = Vec::new();
    let ghost start = proposals@;
    let mut i: usize = 0;
    assert(approvals@.take(0) =~= Seq::empty());
    while i < approvals.len()
        invariant
            i <= approvals.len(),
            start == old(proposals)@,
            ({
                let walked = walk(approvals@.take(i as int), start, budget as int);
                &&& walked.sound
                &&& proposals@ == walked.proposals
                &&& budget_remaining == walked.budget
                &&& kept@ == walked.kept
                &&& missed_any == (walked.kept.len() > 0)
                &&& actions@ == walked.actions
            }),
        decreases approvals.len() - i,
    {
        let index = approvals[i];
        assert(approvals@.take(i + 1).drop_last() =~= approvals@.take(i as int));
        let ghost before = walk(approvals@.take(i as int), start, budget as int);
        assert(walk(approvals@.take(i + 1), start, budget as int) == walk_step(before, index));
        let found: Option<ProposalOf> = match proposals.get(&index) {
            Some(proposal) => Some(*proposal),
            None => None,
        };
        if let Some(mut proposal) = found {
            if proposal.value <= budget_remaining {
                if proposal.remaining_occurs == 0 {
                    proof {
                        lemma_unsound_stays(approvals@, start, budget as int, i + 1);
                    }
                    return None;
                }
                let ghost paid = proposal;
                budget_remaining = budget_remaining - proposal.value;
                proposal.remaining_occurs = proposal.remaining_occurs - 1;
                if proposal.remaining_occurs == 0 {
                    proposals.remove(&index);
                } else {
                    proposals.insert(index, proposal);
                }
                actions.push(
                    Action::Unreserve { who: proposal.proposer, amount: proposal.bond },
                );
                actions.push(
                    Action::DepositCreating {
                        who: proposal.beneficiary,
                        amount: proposal.value,
                    },
                );
                actions.push(
                    Action::DepositEvent(
                        Event::Awarded(index, proposal.value, proposal.beneficiary),
                    ),
                );
                assert(actions@ =~= before.actions + award_actions(index, paid));
            } else {
                missed_any = true;
                kept.push(index);
            }
        }
        i = i + 1;
    }
    assert(approvals@.take(approvals.len() as int) =~= approvals@);
    Some(WalkResult { budget_remaining, kept, missed_any, actions })
}

/// How much one action adds to the imbalance that a spend has to settle.
pub open spec fn created_by(action: Action) -> int {
    match action {
        Action::DepositCreating { amount, .. } => amount as int,
        Action::Burn { amount } => amount as int,
        _ => 0,
    }
}

/// How much the actions add to the imbalance that a spend has to settle.
pub open spec fn created(actions: Seq<Action>) -> int
    decreases actions.len(),
{
    if actions.len() == 0 {
        0
    } else {
        created(actions.drop_last()) + created_by(actions.last())
    }
}

/// Whether an action announces an award for the proposal at `index`.
pub open spec fn is_award(action: Action, index: ProposalIndex) -> bool {
    action matches Action::DepositEvent(Event::Awarded(i, _, _)) && i == index
}

/// How many of the actions are of the given kind.
pub open spec fn count(actions: Seq<Action>, kind: spec_fn(Action) -> bool) -> nat
    decreases actions.len(),
{
    if actions.len() == 0 {
        0
    } else {
        count(actions.drop_last(), kind) + if kind(actions.last()) {
            1nat
        } else {
            0nat
        }
    }
}

/// How many awards for the proposal at `index` the actions announce.
pub open spec fn awards(actions: Seq<Action>, index: ProposalIndex) -> nat {
    count(actions, |action: Action| is_award(action, index))
}

/// How many payments are still to be made for the proposal at `index`.
pub open spec fn owed(proposals: Map<ProposalIndex, ProposalOf>, index: ProposalIndex) -> nat {
    if proposals.contains_key(index) {
        proposals[index].remaining_occurs as nat
    } else {
        0
    }
}

/// What two runs of actions create together is the sum of what each creates.
pub proof fn lemma_created_adds(first: Seq<Action>, second: Seq<Action>)
    ensures
        created(first + second) == created(first) + created(second),
    decreases second.len(),
{
    if second.len() == 0 {
        assert(first + second =~= first);
    } else {
        assert((first + second).drop_last() =~= first + second.drop_last());
        lemma_created_adds(first, second.drop_last());
    }
}

/// Two runs of actions together hold as many of a kind as the two of them.
pub proof fn lemma_count_adds(
    first: Seq<Action>,
    second: Seq<Action>,
    kind: spec_fn(Action) -> bool,
)
    ensures
        count(first + second, kind) == count(first, kind) + count(second, kind),
    decreases second.len(),
{
    if second.len() == 0 {
        assert(first + second =~= first);
    } else {
        assert((first + second).drop_last() =~= first + second.drop_last());
        lemma_count_adds(first, second.drop_last(), kind);
    }
}

proof fn lemma_awards_add(first: Seq<Action>, second: Seq<Action>, index: ProposalIndex)
    ensures
        awards(first + second, index) == awards(first, index) + awards(second, index),
{
    lemma_count_adds(first, second, |action: Action| is_award(action, index));
}

/// One award creates the proposal's value, and counts once for the proposal and not for others.
proof fn lemma_one_award(index: ProposalIndex, proposal: ProposalOf, other: ProposalIndex)
    ensures
        created(award_actions(index, proposal)) == proposal.value,
        awards(award_actions(index, proposal), other) == if other == index {
            1nat
        } else {
            0nat
        },
{
    let actions = award_actions(index, proposal);
    assert(actions.drop_last().drop_last().drop_last() =~= Seq::empty());
    reveal_with_fuel(created, 4);
    reveal_with_fuel(count, 4);
}

/// All that is paid comes out of the budget, and the budget is never overdrawn.
pub proof fn law_walk_spends_the_budget(
    approvals: Seq<ProposalIndex>,
    proposals: Map<ProposalIndex, ProposalOf>,
    budget: int,
)
    requires
        0 <= budget,
    ensures
        ({
            let walked = walk(approvals, proposals, budget);
            &&& 0 <= walked.budget <= budget
            &&& created(walked.actions) + walked.budget == budget
        }),
    decreases approvals.len(),
{
    if approvals.len() > 0 {
        let before = walk(approvals.drop_last(), proposals, budget);
        let index = approvals.last();
        law_walk_spends_the_budget(approvals.drop_last(), proposals, budget);
        if before.proposals.contains_key(index) {
            lemma_created_adds(before.actions, award_actions(index, before.proposals[index]));
            lemma_one_award(index, before.proposals[index], index);
        }
    }
}

/// A spend changes nothing of a proposal but how many payments are still to be made, of which
/// there are no more than before, and nothing at all of a proposal that was not approved.
pub proof fn law_walk_changes_only_occurrences(
    approvals: Seq<ProposalIndex>,
    proposals: Map<ProposalIndex, ProposalOf>,
    budget: int,
    index: ProposalIndex,
)
    ensures
        ({
            let after = walk(approvals, proposals, budget).proposals;
            &&& after.contains_key(index) ==> {
                &&& proposals.contains_key(index)
                &&& after[index].remaining_occurs <= proposals[index].remaining_occurs
                &&& after[index] == (Proposal {
                    remaining_occurs: after[index].remaining_occurs,
                    ..proposals[index]
                })
            }
            &&& !approvals.contains(index) ==> {
                &&& after.contains_key(index) == proposals.contains_key(index)
                &&& proposals.contains_key(index) ==> after[index] == proposals[index]
            }
        }),
    decreases approvals.len(),
{
    if approvals.len() > 0 {
        law_walk_changes_only_occurrences(approvals.drop_last(), proposals, budget, index);
        assert(approvals.contains(approvals.last())) by {
            assert(approvals[approvals.len() - 1] == approvals.last());
        }
        if approvals.drop_last().contains(index) {
            let i = choose|i: int|
                0 <= i < approvals.drop_last().len() && approvals.drop_last()[i] == index;
            assert(approvals[i] == index);
        }
    }
}

/// Of each proposal, the payments that a spend makes and those still to be made afterwards add up
/// to those that were to be made before: none is made too many, and none is forgotten.
pub proof fn law_walk_counts_payments(
    approvals: Seq<ProposalIndex>,
    proposals: Map<ProposalIndex, ProposalOf>,
    budget: int,
    index: ProposalIndex,
)
    requires
        walk(approvals, proposals, budget).sound,
    ensures
        ({
            let walked = walk(approvals, proposals, budget);
            awards(walked.actions, index) + owed(walked.proposals, index) == owed(proposals, index)
        }),
    decreases approvals.len(),
{
    if approvals.len() > 0 {
        let before = walk(approvals.drop_last(), proposals, budget);
        let paid = approvals.last();
        law_walk_counts_payments(approvals.drop_last(), proposals, budget, index);
        if before.proposals.contains_key(paid) {
            let proposal = before.proposals[paid];
            lemma_awards_add(before.actions, award_actions(paid, proposal), index);
            lemma_one_award(paid, proposal, index);
        }
    }
}

/// An approval that stays in the queue is one whose proposal still stands and costs more than
/// what is left.
pub proof fn law_kept_cannot_be_paid(
    approvals: Seq<ProposalIndex>,
    proposals: Map<ProposalIndex, ProposalOf>,
    budget: int,
    i: int,
)
    requires
        0 <= i < walk(approvals, proposals, budget).kept.len(),
    ensures
        ({
            let walked = walk(approvals, proposals, budget);
            &&& walked.proposals.contains_key(walked.kept[i])
            &&& walked.budget < walked.proposals[walked.kept[i]].value
        }),
    decreases approvals.len(),
{
    if approvals.len() > 0 {
        let before = walk(approvals.drop_last(), proposals, budget);
        if i < before.kept.len() {
            law_kept_cannot_be_paid(approvals.drop_last(), proposals, budget, i);
        }
    }
}

/// Whether `part` is what is left of `whole` when some of its items are taken out.
pub open spec fn is_left_of(part: Seq<ProposalIndex>, whole: Seq<ProposalIndex>) -> bool {
    exists|places: Seq<int>| #[trigger] places_in(places, part, whole)
}

/// Whether the items of `part` stand in `whole` at the rising `places`.
pub open spec fn places_in(
    places: Seq<int>,
    part: Seq<ProposalIndex>,
    whole: Seq<ProposalIndex>,
) -> bool {
    &&& places.len() == part.len()
    &&& forall|i: int|
        0 <= i < places.len() ==> 0 <= #[trigger] places[i] < whole.len() && whole[places[i]]
            == part[i]
    &&& forall|i: int, j: int| 0 <= i < j < places.len() ==> places[i] < places[j]
}

/// The approvals that stay in the queue keep their order.
pub proof fn law_kept_in_order(
    approvals: Seq<ProposalIndex>,
    proposals: Map<ProposalIndex, ProposalOf>,
    budget: int,
)
    ensures
        is_left_of(walk(approvals, proposals, budget).kept, approvals),
    decreases approvals.len(),
{
    let kept = walk(approvals, proposals, budget).kept;
    if approvals.len() == 0 {
        assert(places_in(Seq::empty(), kept, approvals));
    } else {
        let shorter = approvals.drop_last();
        let before = walk(shorter, proposals, budget).kept;
        law_kept_in_order(shorter, proposals, budget);
        let places = choose|places: Seq<int>| #[trigger] places_in(places, before, shorter);
        if kept.len() == before.len() {
            assert(kept == before);
            assert(places_in(places, kept, approvals)) by {
                assert forall|i: int| 0 <= i < places.len() implies 0 <= #[trigger] places[i]
                    < approvals.len() && approvals[places[i]] == kept[i] by {
                    assert(shorter[places[i]] == approvals[places[i]]);
                }
            }
        } else {
            let longer = places.push(approvals.len() - 1);
            assert(places_in(longer, kept, approvals)) by {
                assert forall|i: int| 0 <= i < longer.len() implies 0 <= #[trigger] longer[i]
                    < approvals.len() && approvals[longer[i]] == kept[i] by {
                    if i < places.len() {
                        assert(longer[i] == places[i]);
                        assert(shorter[places[i]] == approvals[places[i]]);
                        assert(kept[i] == before[i]);
                    }
                }
            }
        }
    }
}

/// An approval of a proposal that does not exist is dropped: nothing is paid for it, and it does
/// not stay in the queue.
pub proof fn law_missing_is_dropped(
    approvals: Seq<ProposalIndex>,
    proposals: Map<ProposalIndex, ProposalOf>,
    budget: int,
    index: ProposalIndex,
)
    requires
        !proposals.contains_key(index),
    ensures
        ({
            let walked = walk(approvals, proposals, budget);
            &&& awards(walked.actions, index) == 0
            &&& !walked.kept.contains(index)
        }),
    decreases approvals.len(),
{
    if approvals.len() > 0 {
        let before = walk(approvals.drop_last(), proposals, budget);
        let last = approvals.last();
        law_missing_is_dropped(approvals.drop_last(), proposals, budget, index);
        law_walk_changes_only_occurrences(approvals.drop_last(), proposals, budget, index);
        if before.proposals.contains_key(last) {
            let proposal = before.proposals[last];
            lemma_awards_add(before.actions, award_actions(last, proposal), index);
            lemma_one_award(last, proposal, index);
            let kept = walk(approvals, proposals, budget).kept;
            if kept.contains(index) {
                let i = choose|i: int| 0 <= i < kept.len() && kept[i] == index;
                assert(i < before.kept.len());
                assert(before.kept[i] == index);
            }
        }
    }
}

/// Only what was approved is paid for.
pub proof fn law_only_approved_is_paid(
    approvals: Seq<ProposalIndex>,
    proposals: Map<ProposalIndex, ProposalOf>,
    budget: int,
    index: ProposalIndex,
)
    requires
        !approvals.contains(index),
    ensures
        awards(walk(approvals, proposals, budget).actions, index) == 0,
    decreases approvals.len(),
{
    if approvals.len() > 0 {
        let before = walk(approvals.drop_last(), proposals, budget);
        let last = approvals.last();
        assert(approvals[approvals.len() - 1] == last);
        if approvals.drop_last().contains(index) {
            let i = choose|i: int|
                0 <= i < approvals.drop_last().len() && approvals.drop_last()[i] == index;
            assert(approvals[i] == index);
        }
        law_only_approved_is_paid(approvals.drop_last(), proposals, budget, index);
        if before.proposals.contains_key(last) {
            let proposal = before.proposals[last];
            lemma_awards_add(before.actions, award_actions(last, proposal), index);
            lemma_one_award(last, proposal, index);
        }
    }
}

/// What was approved is paid for, or stays in the queue for want of funds.
pub proof fn law_approved_is_paid_or_kept(
    approvals: Seq<ProposalIndex>,
    proposals: Map<ProposalIndex, ProposalOf>,
    budget: int,
    index: ProposalIndex,
)
    requires
        approvals.contains(index),
        proposals.contains_key(index),
    ensures
        ({
            let walked = walk(approvals, proposals, budget);
            awards(walked.actions, index) > 0 || walked.kept.contains(index)
        }),
    decreases approvals.len(),
{
    let shorter = approvals.drop_last();
    let before = walk(shorter, proposals, budget);
    let walked = walk(approvals, proposals, budget);
    let last = approvals.last();
    if before.proposals.contains_key(last) {
        let proposal = before.proposals[last];
        lemma_awards_add(before.actions, award_actions(last, proposal), index);
        lemma_one_award(last, proposal, index);
    }
    if shorter.contains(index) {
        law_approved_is_paid_or_kept(shorter, proposals, budget, index);
        if before.kept.contains(index) {
            let i = choose|i: int| 0 <= i < before.kept.len() && before.kept[i] == index;
            assert(walked.kept[i] == index);
        }
    } else {
        let i = choose|i: int| 0 <= i < approvals.len() && approvals[i] == index;
        if i < shorter.len() {
            assert(shorter[i] == index);
        }
        law_walk_changes_only_occurrences(shorter, proposals, budget, index);
        if before.proposals[index].value > before.budget {
            assert(walked.kept[before.kept.len() as int] == index);
        }
    }
}

/// Where each proposal has a payment due, a spend never pays for one that has none.
pub proof fn law_due_payments_are_sound(
    approvals: Seq<ProposalIndex>,
    proposals: Map<ProposalIndex, ProposalOf>,
    budget: int,
)
    requires
        forall|index: ProposalIndex| #[trigger]
            proposals.contains_key(index) ==> proposals[index].remaining_occurs > 0,
    ensures
        walk(approvals, proposals, budget).sound,
        forall|index: ProposalIndex| #[trigger]
            walk(approvals, proposals, budget).proposals.contains_key(index) ==> walk(
                approvals,
                proposals,
                budget,
            ).proposals[index].remaining_occurs > 0,
    decreases approvals.len(),
{
    if approvals.len() > 0 {
        law_due_payments_are_sound(approvals.drop_last(), proposals, budget);
    }
}

/// A spend keeps the treasury valid.
pub proof fn law_spent_keeps_wf(state: State, max_approvals: u32, budget: int)
    requires
        state.wf(max_approvals),
    ensures
        state.spent(budget).wf(max_approvals),
{
    assert(state.approvals =~= state.approvals.take(state.approvals.len() as int));
    lemma_walk_keeps_wf(state, max_approvals, budget, state.approvals);
}

proof fn lemma_walk_keeps_wf(
    state: State,
    max_approvals: u32,
    budget: int,
    approvals: Seq<ProposalIndex>,
)
    requires
        state.wf(max_approvals),
        approvals.len() <= state.approvals.len(),
        approvals == state.approvals.take(approvals.len() as int),
    ensures
        ({
            let walked = walk(approvals, state.proposals, budget);
            &&& walked.kept.len() <= approvals.len()
            &&& forall|index: ProposalIndex| #[trigger]
                walked.proposals.contains_key(index) ==> index < state.proposal_count
                    && occurrences_fit(walked.proposals[index])
            &&& forall|i: int|
                0 <= i < walked.kept.len() ==> #[trigger] walked.kept[i] < state.proposal_count
        }),
    decreases approvals.len(),
{
    if approvals.len() > 0 {
        let shorter = approvals.drop_last();
        assert(shorter =~= state.approvals.take(shorter.len() as int));
        lemma_walk_keeps_wf(state, max_approvals, budget, shorter);
        assert(approvals.last() == state.approvals[approvals.len() - 1]);
        let before = walk(shorter, state.proposals, budget);
        let walked = walk(approvals, state.proposals, budget);
        assert forall|index: ProposalIndex| #[trigger]
            walked.proposals.contains_key(index) implies index < state.proposal_count
            && occurrences_fit(walked.proposals[index]) by {
            assert(before.proposals.contains_key(index));
        }
        assert forall|i: int| 0 <= i < walked.kept.len() implies #[trigger] walked.kept[i]
            < state.proposal_count by {
            if i < before.kept.len() {
                assert(walked.kept[i] == before.kept[i]);
            }
        }
    }
}

/// Going through approvals among which `index` is not leaves the proposal there out of account.
proof fn lemma_walk_passes_over(
    approvals: Seq<ProposalIndex>,
    proposals: Map<ProposalIndex, ProposalOf>,
    budget: int,
    index: ProposalIndex,
    proposal: ProposalOf,
)
    requires
        !approvals.contains(index),
    ensures
        ({
            let without = walk(approvals, proposals, budget);
            walk(approvals, proposals.insert(index, proposal), budget) == Walk {
                proposals: without.proposals.insert(index, proposal),
                ..without
            }
        }),
    decreases approvals.len(),
{
    if approvals.len() > 0 {
        let shorter = approvals.drop_last();
        let last = approvals.last();
        assert(approvals[approvals.len() - 1] == last);
        if shorter.contains(index) {
            let i = choose|i: int| 0 <= i < shorter.len() && shorter[i] == index;
            assert(approvals[i] == index);
        }
        lemma_walk_passes_over(shorter, proposals, budget, index, proposal);
        let without = walk(approvals, proposals, budget);
        let with = walk(approvals, proposals.insert(index, proposal), budget);
        assert(with.proposals =~= without.proposals.insert(index, proposal));
    }
}

/// What a proposal is made for: once it was made and approved, a spend that can still afford it
/// when it has gone through the queue before it gives its proposer the deposit back that was
/// reserved for it, and pays its beneficiary one of the payments that were asked for.
pub proof fn law_approved_proposal_is_paid(
    state: State,
    max_approvals: u32,
    constants: Constants,
    n: BlockNumber,
    proposer: AccountId,
    value: Balance,
    beneficiary: AccountId,
    chunks: u32,
    budget: int,
)
    requires
        state.wf(max_approvals),
        state.proposal_count < ProposalIndex::MAX,
        chunks > 0,
        chunk_of(value, chunks) <= walk(state.approvals, state.proposals, budget).budget,
        !request_of(constants, n, proposer, value, beneficiary, chunks).waiting,
    ensures
        ({
            let request = request_of(constants, n, proposer, value, beneficiary, chunks);
            let index = state.proposal_count as ProposalIndex;
            let made = state.recorded(request).approved(index);
            let queue = walk(state.approvals, state.proposals, budget);
            let walked = walk(made.approvals, made.proposals, budget);
            &&& walked.sound == queue.sound
            &&& walked.kept == queue.kept
            &&& walked.budget == queue.budget - chunk_of(value, chunks)
            &&& owed(walked.proposals, index) == chunks - 1
            &&& walked.actions == queue.actions + award_actions(index, request.proposal)
            &&& request.reserve == Action::Reserve {
                who: proposer,
                amount: bond_of(constants, value) as Balance,
            }
            &&& award_actions(index, request.proposal) == seq![
                Action::Unreserve { who: proposer, amount: bond_of(constants, value) as Balance },
                Action::DepositCreating {
                    who: beneficiary,
                    amount: chunk_of(value, chunks) as Balance,
                },
                Action::DepositEvent(
                    Event::Awarded(index, chunk_of(value, chunks) as Balance, beneficiary),
                ),
            ]
        }),
{
    let request = request_of(constants, n, proposer, value, beneficiary, chunks);
    let index = state.proposal_count as ProposalIndex;
    let made = state.recorded(request).approved(index);
    law_chunks_add_up(value, chunks);
    assert(!state.approvals.contains(index)) by {
        if state.approvals.contains(index) {
            let i = choose|i: int| 0 <= i < state.approvals.len() && state.approvals[i] == index;
            assert(state.approvals[i] < state.proposal_count);
        }
    }
    lemma_walk_passes_over(state.approvals, state.proposals, budget, index, request.proposal);
    assert(made.approvals.drop_last() =~= state.approvals);
    assert(made.approvals.last() == index);
}

/// Paying for approvals announces awards and nothing else.
pub proof fn law_walk_announces_awards_only(
    approvals: Seq<ProposalIndex>,
    proposals: Map<ProposalIndex, ProposalOf>,
    budget: int,
    kind: spec_fn(Action) -> bool,
)
    requires
        forall|action: Action| #[trigger]
            kind(action) ==> action is DepositEvent && !(action->DepositEvent_0 is Awarded),
    ensures
        count(walk(approvals, proposals, budget).actions, kind) == 0,
    decreases approvals.len(),
{
    if approvals.len() > 0 {
        let before = walk(approvals.drop_last(), proposals, budget);
        let index = approvals.last();
        law_walk_announces_awards_only(approvals.drop_last(), proposals, budget, kind);
        if before.proposals.contains_key(index) {
            let paid = award_actions(index, before.proposals[index]);
            lemma_count_adds(before.actions, paid, kind);
            assert(paid.drop_last().drop_last().drop_last() =~= Seq::empty());
            reveal_with_fuel(count, 4);
        }
    }
}

/// A spend that finds no approvals changes nothing.
pub proof fn law_walk_of_nothing(proposals: Map<ProposalIndex, ProposalOf>, budget: int)
    ensures
        ({
            let walked = walk(Seq::empty(), proposals, budget);
            &&& walked.budget == budget
            &&& walked.proposals == proposals
            &&& walked.kept.len() == 0
            &&& walked.actions.len() == 0
            &&& walked.sound
        }),
{
}

/// What one approval more at the end of the queue makes of a spend. If there is no such proposal
/// any more, nothing. If what is left does not suffice, the approval stays, behind the others that
/// stay. Otherwise the proposal is paid once: its deposit goes back to its proposer, its value to
/// its beneficiary, and it is owed one payment less, or is gone if that was the last.
pub proof fn law_one_approval_more(
    approvals: Seq<ProposalIndex>,
    proposals: Map<ProposalIndex, ProposalOf>,
    budget: int,
    index: ProposalIndex,
    other: ProposalIndex,
)
    ensures
        ({
            let before = walk(approvals, proposals, budget);
            let after = walk(approvals.push(index), proposals, budget);
            let stands = before.proposals.contains_key(index);
            let paid = before.proposals[index];
            let due = paid.remaining_occurs;
            &&& !stands || paid.value > before.budget ==> {
                &&& after.budget == before.budget
                &&& after.proposals == before.proposals
                &&& after.actions == before.actions
                &&& after.sound == before.sound
            }
            &&& !stands ==> after.kept == before.kept
            &&& stands && paid.value > before.budget ==> after.kept == before.kept.push(index)
            &&& stands && paid.value <= before.budget ==> {
                &&& after.budget == before.budget - paid.value
                &&& after.kept == before.kept
                &&& after.sound == (before.sound && due > 0)
                &&& after.actions == before.actions.push(
                    Action::Unreserve { who: paid.proposer, amount: paid.bond },
                ).push(
                    Action::DepositCreating { who: paid.beneficiary, amount: paid.value },
                ).push(Action::DepositEvent(Event::Awarded(index, paid.value, paid.beneficiary)))
                &&& due == 1 ==> !after.proposals.contains_key(index)
                &&& due > 1 ==> {
                    let left = after.proposals[index];
                    &&& after.proposals.contains_key(index)
                    &&& left.remaining_occurs == due - 1
                    &&& left.occurs == paid.occurs
                    &&& left.proposer == paid.proposer
                    &&& left.beneficiary == paid.beneficiary
                    &&& left.value == paid.value
                    &&& left.bond == paid.bond
                }
                &&& other != index ==> {
                    &&& after.proposals.contains_key(other) == before.proposals.contains_key(other)
                    &&& before.proposals.contains_key(other) ==> after.proposals[other]
                        == before.proposals[other]
                }
            }
        }),
{
    let before = walk(approvals, proposals, budget);
    let after = walk(approvals.push(index), proposals, budget);
    assert(approvals.push(index).drop_last() =~= approvals);
    let paid = before.proposals[index];
    if before.proposals.contains_key(index) && paid.value <= before.budget {
        assert(after.actions =~= before.actions.push(
            Action::Unreserve { who: paid.proposer, amount: paid.bond },
        ).push(Action::DepositCreating { who: paid.beneficiary, amount: paid.value }).push(
            Action::DepositEvent(Event::Awarded(index, paid.value, paid.beneficiary)),
        ));
    }
}

/// A spend asks of the chain nothing but payments, and each of them, be it the first of its
/// proposal or the last, is as the proposal was made: for an approved proposal, the deposit goes
/// back to the one who made it, the value goes to its beneficiary, and just that is announced.
pub proof fn law_each_payment_is_as_proposed(
    approvals: Seq<ProposalIndex>,
    proposals: Map<ProposalIndex, ProposalOf>,
    budget: int,
    k: int,
)
    requires
        0 <= k,
        3 * k < walk(approvals, proposals, budget).actions.len(),
    ensures
        ({
            let actions = walk(approvals, proposals, budget).actions;
            &&& actions.len() % 3 == 0
            &&& actions[3 * k + 2] matches Action::DepositEvent(Event::Awarded(index, amount, to))
            &&& approvals.contains(index)
            &&& proposals.contains_key(index)
            &&& amount == proposals[index].value
            &&& to == proposals[index].beneficiary
            &&& actions[3 * k] == Action::Unreserve {
                who: proposals[index].proposer,
                amount: proposals[index].bond,
            }
            &&& actions[3 * k + 1] == Action::DepositCreating { who: to, amount }
        }),
    decreases approvals.len(),
{
    if approvals.len() > 0 {
        let shorter = approvals.drop_last();
        let last = approvals.last();
        let before = walk(shorter, proposals, budget);
        lemma_actions_in_threes(shorter, proposals, budget);
        law_walk_changes_only_occurrences(shorter, proposals, budget, last);
        assert(approvals[approvals.len() - 1] == last);
        if 3 * k < before.actions.len() {
            law_each_payment_is_as_proposed(shorter, proposals, budget, k);
            let index = before.actions[3 * k + 2]->DepositEvent_0->Awarded_0;
            let i = choose|i: int| 0 <= i < shorter.len() && shorter[i] == index;
            assert(approvals[i] == index);
        }
        lemma_actions_in_threes(approvals, proposals, budget);
    }
}

proof fn lemma_actions_in_threes(
    approvals: Seq<ProposalIndex>,
    proposals: Map<ProposalIndex, ProposalOf>,
    budget: int,
)
    ensures
        walk(approvals, proposals, budget).actions.len() % 3 == 0,
    decreases approvals.len(),
{
    if approvals.len() > 0 {
        lemma_actions_in_threes(approvals.drop_last(), proposals, budget);
    }
}

/// How much the actions create in the account `who`.
pub open spec fn received(actions: Seq<Action>, who: AccountId) -> int
    decreases actions.len(),
{
    if actions.len() == 0 {
        0
    } else {
        received(actions.drop_last(), who) + match actions.last() {
            Action::DepositCreating { who: to, amount } if to == who => amount as int,
            _ => 0,
        }
    }
}

/// How much the actions give back to `who` of what it has in reserve.
pub open spec fn returned(actions: Seq<Action>, who: AccountId) -> int
    decreases actions.len(),
{
    if actions.len() == 0 {
        0
    } else {
        returned(actions.drop_last(), who) + match actions.last() {
            Action::Unreserve { who: to, amount } if to == who => amount as int,
            _ => 0,
        }
    }
}

/// How much `who` is to get for the awards that the actions announce, as the beneficiary of the
/// proposals that they are for.
pub open spec fn value_awarded(
    actions: Seq<Action>,
    proposals: Map<ProposalIndex, ProposalOf>,
    who: AccountId,
) -> int
    decreases actions.len(),
{
    if actions.len() == 0 {
        0
    } else {
        value_awarded(actions.drop_last(), proposals, who) + match actions.last() {
            Action::DepositEvent(Event::Awarded(index, _, _)) if proposals[index].beneficiary
                == who => proposals[index].value as int,
            _ => 0,
        }
    }
}

/// How much `who` is to get back for the awards that the actions announce, as the one who made the
/// proposals that they are for.
pub open spec fn bonds_awarded(
    actions: Seq<Action>,
    proposals: Map<ProposalIndex, ProposalOf>,
    who: AccountId,
) -> int
    decreases actions.len(),
{
    if actions.len() == 0 {
        0
    } else {
        bonds_awarded(actions.drop_last(), proposals, who) + match actions.last() {
            Action::DepositEvent(Event::Awarded(index, _, _)) if proposals[index].proposer
                == who => proposals[index].bond as int,
            _ => 0,
        }
    }
}

/// Over a spend, each account is paid the values of the awards for the proposals of which it is the
/// beneficiary, and gets back the deposits of the awards for those that it has made, and no more.
pub proof fn law_accounts_get_what_was_awarded(
    approvals: Seq<ProposalIndex>,
    proposals: Map<ProposalIndex, ProposalOf>,
    budget: int,
    who: AccountId,
)
    ensures
        ({
            let actions = walk(approvals, proposals, budget).actions;
            &&& received(actions, who) == value_awarded(actions, proposals, who)
            &&& returned(actions, who) == bonds_awarded(actions, proposals, who)
        }),
    decreases approvals.len(),
{
    if approvals.len() > 0 {
        let shorter = approvals.drop_last();
        let last = approvals.last();
        let before = walk(shorter, proposals, budget);
        let after = walk(approvals, proposals, budget);
        law_accounts_get_what_was_awarded(shorter, proposals, budget, who);
        law_walk_changes_only_occurrences(shorter, proposals, budget, last);
        if after.actions != before.actions {
            assert(after.actions.drop_last().drop_last().drop_last() =~= before.actions);
            reveal_with_fuel(received, 4);
            reveal_with_fuel(returned, 4);
            reveal_with_fuel(value_awarded, 4);
            reveal_with_fuel(bonds_awarded, 4);
        }
    }
}

/// An approval that is given is paid for: whichever proposal it is for, and however many of its
/// payments were made, if the proposal still stands when the queue before it was gone through and
/// what is then left suffices, the spend makes one payment more, as it was proposed.
pub proof fn law_approval_is_paid(
    state: State,
    max_approvals: u32,
    index: ProposalIndex,
    budget: int,
)
    requires
        state.approval(max_approvals, true, index) is Ok,
        walk(state.approvals, state.proposals, budget).proposals.contains_key(index),
        state.proposals[index].value <= walk(state.approvals, state.proposals, budget).budget,
    ensures
        ({
            let after = state.approved(index);
            let before = walk(state.approvals, state.proposals, budget);
            let walked = walk(after.approvals, after.proposals, budget);
            let proposal = state.proposals[index];
            &&& walked.budget == before.budget - proposal.value
            &&& walked.kept == before.kept
            &&& walked.actions == before.actions.push(
                Action::Unreserve { who: proposal.proposer, amount: proposal.bond },
            ).push(
                Action::DepositCreating { who: proposal.beneficiary, amount: proposal.value },
            ).push(
                Action::DepositEvent(
                    Event::Awarded(index, proposal.value, proposal.beneficiary),
                ),
            )
        }),
{
    law_one_approval_more(state.approvals, state.proposals, budget, index, index);
    law_walk_changes_only_occurrences(state.approvals, state.proposals, budget, index);
}

/// A spend changes the proposals and the queue of approvals, and nothing else of the treasury.
pub proof fn law_spent_changes_proposals_and_queue(state: State, budget: int)
    ensures
        ({
            let after = state.spent(budget);
            &&& after.proposals == walk(state.approvals, state.proposals, budget).proposals
            &&& after.approvals == walk(state.approvals, state.proposals, budget).kept
            &&& after.proposal_count == state.proposal_count
            &&& after.waiting_proposal_count == state.waiting_proposal_count
            &&& after.waiting_proposals == state.waiting_proposals
        }),
{
}

} // verus!
