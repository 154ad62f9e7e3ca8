//! Taking up the proposals that waited for a spend period to end.
use crate::config::Config;
use crate::state::{occurrences_fit, Pallet, State};
use crate::types::{Action, Event, ProposalIndex, ProposalOf};
use crate::walk::{count, created, lemma_count_adds, lemma_created_adds};
use vstd::prelude::*;

verus! {

broadcast use vstd::std_specs::btree::group_btree_axioms;

impl State {
    /// The treasury once the first `n` slots of the waiting list were handled: what waited there
    /// was made a proposal under the next free index, and the slot is empty.
    pub open spec fn promoted(self, n: nat) -> State
        decreases n,
    {
        if n == 0 {
            self
        } else {
            let before = self.promoted((n - 1) as nat);
            let slot = (n - 1) as ProposalIndex;
            let waiting_proposals = before.waiting_proposals.remove(slot);
            let waiting_proposal_count = self.waiting_proposal_count - 1;
            if self.waiting_proposals.contains_key(slot) {
                State {
                    waiting_proposal_count,
                    waiting_proposals,
                    proposal_count: before.proposal_count + 1,
                    proposals: before.proposals.insert(
                        before.proposal_count as ProposalIndex,
                        self.waiting_proposals[slot],
                    ),
                    ..before
                }
            } else {
                State { waiting_proposal_count, waiting_proposals, ..before }
            }
        }
    }

    /// What is announced when slot `slot` of the waiting list is handled: that the proposal in it
    /// was moved, and the index that it got. Nothing is announced for an empty slot.
    pub open spec fn slot_actions(self, slot: nat) -> Seq<Action> {
        if self.waiting_proposals.contains_key(slot as ProposalIndex) {
            seq![
                Action::DepositEvent(
                    Event::WaitingProposalTransfered(self.waiting_proposal_count as ProposalIndex),
                ),
                Action::DepositEvent(
                    Event::Proposed(self.promoted(slot).proposal_count as ProposalIndex),
                ),
            ]
        } else {
            Seq::empty()
        }
    }

    /// What is announced when the first `n` slots of the waiting list are handled.
    pub open spec fn promotion_actions(self, n: nat) -> Seq<Action>
        decreases n,
    {
        if n == 0 {
            Seq::empty()
        } else {
            self.promotion_actions((n - 1) as nat) + self.slot_actions((n - 1) as nat)
        }
    }

    /// How many of the first `n` slots of the waiting list hold a proposal.
    pub open spec fn waiting_before(self, n: nat) -> nat
        decreases n,
    {
        if n == 0 {
            0
        } else {
            self.waiting_before((n - 1) as nat) + if self.waiting_proposals.contains_key(
                (n - 1) as ProposalIndex,
            ) {
                1nat
            } else {
                0nat
            }
        }
    }

    /// The treasury once its whole waiting list was handled.
    pub open spec fn all_promoted(self) -> State {
        self.promoted(self.waiting_proposal_count as nat)
    }
}

/// Each proposal that is taken up adds one to the number of proposals.
pub proof fn law_promoted_count(state: State, n: nat)
    ensures
        state.promoted(n).proposal_count == state.proposal_count + state.waiting_before(n),
    decreases n,
{
    if n > 0 {
        law_promoted_count(state, (n - 1) as nat);
    }
}

proof fn lemma_waiting_before_grows(state: State, n: nat, m: nat)
    requires
        n <= m,
    ensures
        state.waiting_before(n) <= state.waiting_before(m),
    decreases m,
{
    if n < m {
        lemma_waiting_before_grows(state, n, (m - 1) as nat);
    }
}

/// What the first `n` slots come to, slot by slot.
proof fn lemma_promoted(state: State, max_approvals: u32, n: nat)
    requires
        state.wf(max_approvals),
        n <= state.waiting_proposal_count,
        state.proposal_count + state.waiting_before(n) <= ProposalIndex::MAX,
    ensures
        ({
            let after = state.promoted(n);
            &&& after.approvals == state.approvals
            &&& after.waiting_proposal_count == if n > 0 {
                state.waiting_proposal_count - 1
            } else {
                state.waiting_proposal_count
            }
            &&& forall|slot: ProposalIndex| #[trigger]
                after.waiting_proposals.contains_key(slot) ==> slot >= n
                    && state.waiting_proposals.contains_key(slot) && after.waiting_proposals[slot]
                    == state.waiting_proposals[slot]
            &&& forall|index: ProposalIndex| #[trigger]
                after.proposals.contains_key(index) ==> index < state.proposal_count
                    + state.waiting_before(n) && occurrences_fit(after.proposals[index])
            &&& forall|index: ProposalIndex|
                index < state.proposal_count ==> {
                    &&& #[trigger] after.proposals.contains_key(index)
                        == state.proposals.contains_key(index)
                    &&& after.proposals[index] == state.proposals[index]
                }
            &&& forall|slot: ProposalIndex|
                slot < n && #[trigger] state.waiting_proposals.contains_key(slot) ==> {
                    let index = (state.proposal_count + state.waiting_before(
                        slot as nat,
                    )) as ProposalIndex;
                    &&& after.proposals.contains_key(index)
                    &&& after.proposals[index] == state.waiting_proposals[slot]
                }
        }),
    decreases n,
{
    if n > 0 {
        let m = (n - 1) as nat;
        lemma_promoted(state, max_approvals, m);
        law_promoted_count(state, m);
        let before = state.promoted(m);
        let after = state.promoted(n);
        let last = m as ProposalIndex;
        let next = before.proposal_count as ProposalIndex;
        assert forall|slot: ProposalIndex| slot < n && #[trigger]
            state.waiting_proposals.contains_key(slot) implies {
            let index = (state.proposal_count + state.waiting_before(
                slot as nat,
            )) as ProposalIndex;
            &&& after.proposals.contains_key(index)
            &&& after.proposals[index] == state.waiting_proposals[slot]
        } by {
            if slot < m {
                lemma_waiting_before_grows(state, slot as nat + 1, m);
            }
        }
        assert forall|index: ProposalIndex| #[trigger]
            after.proposals.contains_key(index) implies index < state.proposal_count
            + state.waiting_before(n) && occurrences_fit(after.proposals[index]) by {
            if !(state.waiting_proposals.contains_key(last) && index == next) {
                assert(before.proposals.contains_key(index));
            }
        }
        assert forall|slot: ProposalIndex| #[trigger]
            after.waiting_proposals.contains_key(slot) implies slot >= n
            && state.waiting_proposals.contains_key(slot) && after.waiting_proposals[slot]
            == state.waiting_proposals[slot] by {
            assert(before.waiting_proposals.contains_key(slot));
        }
        assert forall|index: ProposalIndex| index < state.proposal_count implies {
            &&& #[trigger] after.proposals.contains_key(index) == state.proposals.contains_key(
                index,
            )
            &&& after.proposals[index] == state.proposals[index]
        } by {
            assert(before.proposals.contains_key(index) == state.proposals.contains_key(index));
        }
    }
}

/// At the end of a spend the waiting list is empty: each proposal on it was made a proposal, in
/// the order of the list, under the indices that come next. The proposals that there were keep
/// their indices, and the queue of approvals stays as it is.
pub proof fn law_waiting_is_taken_up(state: State, max_approvals: u32)
    requires
        state.wf(max_approvals),
        state.all_promoted().proposal_count <= ProposalIndex::MAX,
    ensures
        ({
            let after = state.all_promoted();
            &&& after.waiting_proposals == Map::<ProposalIndex, ProposalOf>::empty()
            &&& after.approvals == state.approvals
            &&& after.proposal_count == state.proposal_count + state.waiting_before(
                state.waiting_proposal_count as nat,
            )
            &&& forall|index: ProposalIndex|
                index < state.proposal_count ==> {
                    &&& #[trigger] after.proposals.contains_key(index)
                        == state.proposals.contains_key(index)
                    &&& after.proposals[index] == state.proposals[index]
                }
            &&& forall|slot: ProposalIndex| #[trigger]
                state.waiting_proposals.contains_key(slot) ==> {
                    let index = (state.proposal_count + state.waiting_before(
                        slot as nat,
                    )) as ProposalIndex;
                    &&& after.proposals.contains_key(index)
                    &&& after.proposals[index] == state.waiting_proposals[slot]
                }
        }),
{
    let n = state.waiting_proposal_count as nat;
    law_promoted_count(state, n);
    lemma_promoted(state, max_approvals, n);
    let after = state.all_promoted();
    assert forall|slot: ProposalIndex| !after.waiting_proposals.contains_key(slot) by {
        if after.waiting_proposals.contains_key(slot) {
            assert(state.waiting_proposals.contains_key(slot));
        }
    }
    assert(after.waiting_proposals =~= Map::<ProposalIndex, ProposalOf>::empty());
}

/// The index that the next waiting proposal gets is lowered by one in a spend, if it is above
/// zero.
pub proof fn law_waiting_count(state: State, max_approvals: u32)
    requires
        state.wf(max_approvals),
        state.all_promoted().proposal_count <= ProposalIndex::MAX,
    ensures
        state.all_promoted().waiting_proposal_count == if state.waiting_proposal_count > 0 {
            state.waiting_proposal_count - 1
        } else {
            0
        },
{
    law_promoted_count(state, state.waiting_proposal_count as nat);
    lemma_promoted(state, max_approvals, state.waiting_proposal_count as nat);
}

/// Taking up the waiting list keeps the treasury valid.
pub proof fn law_promoted_keeps_wf(state: State, max_approvals: u32)
    requires
        state.wf(max_approvals),
        state.all_promoted().proposal_count <= ProposalIndex::MAX,
    ensures
        state.all_promoted().wf(max_approvals),
{
    let n = state.waiting_proposal_count as nat;
    law_promoted_count(state, n);
    lemma_promoted(state, max_approvals, n);
    law_waiting_is_taken_up(state, max_approvals);
    let after = state.all_promoted();
    assert forall|i: int| 0 <= i < after.approvals.len() implies #[trigger] after.approvals[i]
        < after.proposal_count by {
        assert(state.approvals[i] < state.proposal_count);
    }
}

/// The place of a waiting proposal among those that are taken up is the number of slots before it
/// that hold a proposal.
pub proof fn law_waiting_before_counts_slots(state: State, n: nat)
    requires
        n <= ProposalIndex::MAX,
    ensures
        state.waiting_proposals.dom().filter(|slot: ProposalIndex| slot < n).finite(),
        state.waiting_proposals.dom().filter(|slot: ProposalIndex| slot < n).len()
            == state.waiting_before(n),
    decreases n,
{
    let slots = state.waiting_proposals.dom().filter(|slot: ProposalIndex| slot < n);
    if n == 0 {
        assert(slots =~= Set::empty());
    } else {
        let m = (n - 1) as nat;
        law_waiting_before_counts_slots(state, m);
        let before = state.waiting_proposals.dom().filter(|slot: ProposalIndex| slot < m);
        if state.waiting_proposals.contains_key(m as ProposalIndex) {
            assert(slots =~= before.insert(m as ProposalIndex));
        } else {
            assert(slots =~= before);
        }
    }
}

/// For each slot that holds a proposal, in the order of the list, the move is announced and then
/// the index that the proposal gets: the first free one, and one more for each proposal that was
/// taken up before it. Nothing else is announced.
pub proof fn law_each_move_is_announced(state: State, n: nat, slot: ProposalIndex)
    requires
        n <= ProposalIndex::MAX,
    ensures
        state.promotion_actions(n).len() == 2 * state.waiting_before(n),
        slot < n && state.waiting_proposals.contains_key(slot) ==> {
            let actions = state.promotion_actions(n);
            let place = state.waiting_before(slot as nat) as int;
            &&& 2 * place + 1 < actions.len()
            &&& actions[2 * place] == Action::DepositEvent(
                Event::WaitingProposalTransfered(state.waiting_proposal_count as ProposalIndex),
            )
            &&& actions[2 * place + 1] == Action::DepositEvent(
                Event::Proposed((state.proposal_count + place) as ProposalIndex),
            )
        },
    decreases n,
{
    if n > 0 {
        let m = (n - 1) as nat;
        law_each_move_is_announced(state, m, slot);
        law_promoted_count(state, m);
    }
}

/// Taking up the waiting list moves no funds.
pub proof fn law_promotion_creates_nothing(state: State, n: nat)
    ensures
        created(state.promotion_actions(n)) == 0,
    decreases n,
{
    if n > 0 {
        let m = (n - 1) as nat;
        law_promotion_creates_nothing(state, m);
        let announced = state.slot_actions(m);
        lemma_created_adds(state.promotion_actions(m), announced);
        if announced.len() > 0 {
            assert(announced.drop_last().drop_last() =~= Seq::empty());
        }
        reveal_with_fuel(created, 3);
    }
}

/// Taking up the waiting list announces proposals that are moved and made, and nothing else.
pub proof fn law_promotion_announces_moves_only(
    state: State,
    n: nat,
    kind: spec_fn(Action) -> bool,
)
    requires
        forall|action: Action| #[trigger]
            kind(action) ==> action is DepositEvent && !(action->DepositEvent_0 is Proposed)
                && !(action->DepositEvent_0 is WaitingProposalTransfered),
    ensures
        count(state.promotion_actions(n), kind) == 0,
    decreases n,
{
    if n > 0 {
        let m = (n - 1) as nat;
        law_promotion_announces_moves_only(state, m, kind);
        let announced = state.slot_actions(m);
        lemma_count_adds(state.promotion_actions(m), announced, kind);
        if announced.len() > 0 {
            assert(announced.drop_last().drop_last() =~= Seq::empty());
        }
        reveal_with_fuel(count, 3);
    }
}

impl<T: Config> Pallet<T> {
    /// Whether there are indices enough for all that is waiting.
    pub fn promotable(&self) -> (promotable: bool)
        ensures
            promotable == (self@.all_promoted().proposal_count <= ProposalIndex::MAX),
    {
        let mut count: ProposalIndex = self.proposal_count;
        for slot in 0..self.waiting_proposal_count
            invariant
                count == self@.proposal_count + self@.waiting_before(slot as nat),
        {
            if self.waiting_proposals.contains_key(&slot) {
                if count == ProposalIndex::MAX {
                    proof {
                        let n = self@.waiting_proposal_count as nat;
                        lemma_waiting_before_grows(self@, (slot + 1) as nat, n);
                        law_promoted_count(self@, n);
                    }
                    return false;
                }
                count = count + 1;
            }
        }
        proof {
            law_promoted_count(self@, self@.waiting_proposal_count as nat);
        }
        true
    }

    /// Makes a proposal of each one that is waiting.
    pub(crate) fn promote_waiting(&mut self, actions: &mut Vec<Action>)
        requires
            old(self)@.all_promoted().proposal_count <= ProposalIndex::MAX,
        ensures
            final(self).constants == old(self).constants,
            final(self)@ == old(self)@.all_promoted(),
            final(actions)@ == old(actions)@ + old(self)@.promotion_actions(
                old(self)@.waiting_proposal_count as nat,
            ),
    {
        let ghost start = self@;
        let ghost announced = actions@;
        let waiting = self.waiting_proposal_count;
        assert(actions@ =~= announced + start.promotion_actions(0));
        for slot in 0..waiting
            invariant
                start == old(self)@,
                announced == old(actions)@,
                waiting == start.waiting_proposal_count,
                start.promoted(waiting as nat).proposal_count <= ProposalIndex::MAX,
                self.constants == old(self).constants,
                self@ == start.promoted(slot as nat),
                actions@ == announced + start.promotion_actions(slot as nat),
                forall|i: ProposalIndex|
                    slot <= i ==> (#[trigger] self.waiting_proposals@.contains_key(i)
                        == start.waiting_proposals.contains_key(i)),
                forall|i: ProposalIndex|
                    slot <= i && self.waiting_proposals@.contains_key(i)
                        ==> #[trigger] self.waiting_proposals@[i] == start.waiting_proposals[i],
        {
            let next = self.proposal_count;
            let found: Option<ProposalOf> = match self.waiting_proposals.get(&slot) {
                Some(proposal) => Some(*proposal),
                None => None,
            };
            proof {
                law_promoted_count(start, (slot + 1) as nat);
                law_promoted_count(start, waiting as nat);
                lemma_waiting_before_grows(start, (slot + 1) as nat, waiting as nat);
            }
            if let Some(proposal) = found {
                self.proposal_count = next + 1;
                self.proposals.insert(next, proposal);
                actions.push(Action::DepositEvent(Event::WaitingProposalTransfered(waiting)));
                actions.push(Action::DepositEvent(Event::Proposed(next)));
            }
            self.waiting_proposal_count = waiting - 1;
            self.waiting_proposals.remove(&slot);
            assert(self@ =~= start.promoted((slot + 1) as nat));
            assert(actions@ =~= announced + start.promotion_actions((slot + 1) as nat));
        }
    }
}

} // verus!
