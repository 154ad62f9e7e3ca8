//! Spending, at the end of each spend period.
use crate::account::account_of;
use crate::config::{Config, Constants, WeightInfo};
use crate::hooks::{HookState, SpendFunds};
use crate::permill::{law_share_is_nearest, law_share_within_value, permill_mul, share_of};
use crate::promotion::{
    law_promoted_keeps_wf, law_promotion_announces_moves_only, law_promotion_creates_nothing,
};
use crate::state::{Pallet, State};
use crate::types::{Action, Balance, BlockNumber, Event, ProposalIndex, Weight};
use crate::walk::{
    count, created, law_spent_keeps_wf, law_walk_announces_awards_only, law_walk_spends_the_budget,
    lemma_count_adds, lemma_created_adds, walk, walk_approvals,
};
use vstd::prelude::*;

verus! {

/// A spend between two of its steps: what is left to spend, whether something was left unpaid for
/// want of funds, and the weight so far.
#[derive(Clone, Copy, Debug, PartialEq, Eq)]
pub struct Spending {
    pub budget_remaining: Balance,
    pub missed_any: bool,
    pub total_weight: Weight,
}

/// A spend that has paid for the approvals, and what is to be done before it goes on.
#[derive(Debug, PartialEq, Eq)]
pub struct SpendStep {
    /// Number of approvals before the spend.
    pub approvals: u32,
    pub spending: Spending,
    pub actions: Vec<Action>,
}

/// A spend that is over: its weight, and what is left to be done.
#[derive(Debug, PartialEq, Eq)]
pub struct SpendEnd {
    pub total_weight: Weight,
    pub actions: Vec<Action>,
}

/// The funds that may be spent, out of an account that has to keep the minimum balance.
pub open spec fn pot_of(free_balance: Balance, minimum_balance: Balance) -> int {
    if free_balance >= minimum_balance {
        free_balance - minimum_balance
    } else {
        0
    }
}

/// What is burnt of the funds that are left over: a fixed share of them, and nothing where an
/// approved payment has to wait for funds.
pub open spec fn burn_of(burn: u32, spending: Spending) -> int {
    if spending.missed_any {
        0
    } else {
        share_of(burn, spending.budget_remaining as int)
    }
}

/// What burning asks of the chain.
pub open spec fn burn_actions(burn: u32, spending: Spending) -> Seq<Action> {
    let amount = burn_of(burn, spending) as Balance;
    if spending.missed_any {
        Seq::empty()
    } else {
        seq![Action::Burn { amount }, Action::DepositEvent(Event::Burnt(amount))]
    }
}

impl State {
    /// What the last part of a spend asks of the chain.
    pub open spec fn finish_actions(self, constants: Constants, spending: Spending) -> Seq<Action> {
        let burn = burn_of(constants.burn, spending);
        burn_actions(constants.burn, spending) + seq![
            Action::Settle { who: account_of(constants.pallet_id) },
        ] + self.promotion_actions(self.waiting_proposal_count as nat) + seq![
            Action::DepositEvent(Event::Rollover((spending.budget_remaining - burn) as Balance)),
        ]
    }
}

/// Whether block `n` ends a spend period, so that there is a spend.
pub open spec fn spends_at(constants: Constants, n: int) -> bool {
    n % constants.spend_period as int == 0
}

/// How many blocks after block `m` the next spend comes, block `m` included.
pub open spec fn next_spend_after(constants: Constants, m: int) -> int {
    let into_period = m % constants.spend_period as int;
    if into_period == 0 {
        0
    } else {
        constants.spend_period - into_period
    }
}

/// Of as many blocks in a row as a spend period has, exactly one has a spend.
pub proof fn law_one_spend_a_period(constants: Constants, m: int, i: int)
    requires
        constants.spend_period != 0,
        0 <= m,
        0 <= i < constants.spend_period,
    ensures
        0 <= next_spend_after(constants, m) < constants.spend_period,
        spends_at(constants, m + i) <==> i == next_spend_after(constants, m),
{
    let s = constants.spend_period as int;
    let r = m % s;
    vstd::arithmetic::div_mod::lemma_mod_bound(m, s);
    vstd::arithmetic::div_mod::lemma_add_mod_noop(m, i, s);
    vstd::arithmetic::div_mod::lemma_small_mod(i as nat, s as nat);
    assert((m + i) % s == (r + i) % s);
    if r + i < s {
        vstd::arithmetic::div_mod::lemma_small_mod((r + i) as nat, s as nat);
    } else {
        vstd::arithmetic::div_mod::lemma_mod_add_multiples_vanish(r + i - s, s);
        vstd::arithmetic::div_mod::lemma_small_mod((r + i - s) as nat, s as nat);
    }
}

/// Successive spends are exactly one spend period apart.
pub proof fn law_spends_are_a_period_apart(constants: Constants, m: int, later: int)
    requires
        constants.spend_period != 0,
        0 <= m < later,
        spends_at(constants, m),
        spends_at(constants, later),
        forall|n: int| m < n < later ==> !spends_at(constants, n),
    ensures
        later == m + constants.spend_period,
{
    let s = constants.spend_period as int;
    vstd::arithmetic::div_mod::lemma_mod_add_multiples_vanish(m, s);
    assert(spends_at(constants, m + s));
    if later < m + s {
        law_one_spend_a_period(constants, m, later - m);
    }
}

/// Whether `step` is the first step of a spend of `pot` by the treasury `state`, but for its
/// weight.
pub open spec fn is_first_step(state: State, pot: int, step: SpendStep) -> bool {
    let walked = walk(state.approvals, state.proposals, pot);
    &&& step.approvals == state.approvals.len()
    &&& step.spending.budget_remaining == walked.budget
    &&& step.spending.missed_any == (walked.kept.len() > 0)
    &&& step.actions@ == seq![Action::DepositEvent(Event::Spending(pot as Balance))]
        + walked.actions
}

/// What is burnt is part of what is left over.
pub proof fn law_burn_within_budget(burn: u32, spending: Spending)
    ensures
        0 <= burn_of(burn, spending) <= spending.budget_remaining,
{
    law_share_within_value(burn, spending.budget_remaining as int);
}

/// Where nothing was missed, what is burnt is the integer nearest to the chain's share of what is
/// left over, however much that is; where something was missed it is nothing.
pub proof fn law_burn_is_exact(burn: u32, spending: Spending)
    ensures
        ({
            let left = spending.budget_remaining;
            let burnt = burn_of(burn, spending);
            &&& spending.missed_any ==> burnt == 0
            &&& !spending.missed_any && burn <= 1_000_000 ==> -500_000 <= 1_000_000 * burnt - left
                * burn && 1_000_000 * burnt - left * burn < 500_000
            &&& !spending.missed_any && burn >= 1_000_000 ==> burnt == left
        }),
{
    law_share_is_nearest(burn, spending.budget_remaining as int);
}

/// What the last step of a spend asks for where nothing was missed: some of what is left over is
/// burnt, which is announced, the treasury's account is settled, the waiting list is taken up, and
/// the rest of what is left over rolls over. What is burnt is the integer nearest to the chain's
/// share of it.
pub proof fn law_surplus_is_burnt_in_part(state: State, constants: Constants, spending: Spending)
    requires
        !spending.missed_any,
    ensures
        ({
            let actions = state.finish_actions(constants, spending);
            let left = spending.budget_remaining;
            let promoting = state.promotion_actions(state.waiting_proposal_count as nat);
            &&& actions.len() == promoting.len() + 4
            &&& actions[0] matches Action::Burn { amount }
            &&& amount <= left
            &&& constants.burn <= 1_000_000 ==> -500_000 <= 1_000_000 * amount - left
                * constants.burn && 1_000_000 * amount - left * constants.burn < 500_000
            &&& constants.burn >= 1_000_000 ==> amount == left
            &&& actions[1] == Action::DepositEvent(Event::Burnt(amount))
            &&& actions[2] == Action::Settle { who: account_of(constants.pallet_id) }
            &&& actions.subrange(3, actions.len() - 1) == promoting
            &&& actions.last() == Action::DepositEvent(Event::Rollover((left - amount) as Balance))
        }),
{
    law_burn_within_budget(constants.burn, spending);
    law_burn_is_exact(constants.burn, spending);
    let actions = state.finish_actions(constants, spending);
    assert(actions.subrange(3, actions.len() - 1) =~= state.promotion_actions(
        state.waiting_proposal_count as nat,
    ));
}

/// What the last step of a spend asks for where something was missed: the treasury's account is
/// settled, the waiting list is taken up, and all that is left over rolls over.
pub proof fn law_missed_keeps_the_surplus(state: State, constants: Constants, spending: Spending)
    requires
        spending.missed_any,
    ensures
        ({
            let actions = state.finish_actions(constants, spending);
            let promoting = state.promotion_actions(state.waiting_proposal_count as nat);
            &&& actions.len() == promoting.len() + 2
            &&& actions[0] == Action::Settle { who: account_of(constants.pallet_id) }
            &&& actions.subrange(1, actions.len() - 1) == promoting
            &&& actions.last() == Action::DepositEvent(Event::Rollover(spending.budget_remaining))
        }),
{
    let actions = state.finish_actions(constants, spending);
    assert(actions.subrange(1, actions.len() - 1) =~= state.promotion_actions(
        state.waiting_proposal_count as nat,
    ));
}

/// The pot is all but the minimum balance of what the account holds, and nothing where it holds
/// less than that.
pub proof fn law_pot_leaves_the_minimum(free_balance: Balance, minimum_balance: Balance)
    ensures
        free_balance >= minimum_balance ==> pot_of(free_balance, minimum_balance) + minimum_balance
            == free_balance,
        free_balance < minimum_balance ==> pot_of(free_balance, minimum_balance) == 0,
{
}

/// There is a spend at each block whose number is a multiple of the spend period, and at no other.
pub proof fn law_spends_at_multiples(constants: Constants, period: int, i: int)
    requires
        0 <= period,
        0 <= i < constants.spend_period,
    ensures
        spends_at(constants, period * constants.spend_period + i) <==> i == 0,
{
    vstd::arithmetic::div_mod::lemma_fundamental_div_mod_converse(
        period * constants.spend_period + i,
        constants.spend_period as int,
        period,
        i,
    );
}

/// The first step of a spend says how many approvals there were, what is left of the pot when they
/// were gone through, and whether one of them had to stay; it announces the pot, and then asks for
/// the payments.
pub proof fn law_first_step_reports_the_payments(state: State, pot: int, step: SpendStep)
    requires
        is_first_step(state, pot, step),
    ensures
        ({
            let walked = walk(state.approvals, state.proposals, pot);
            &&& step.approvals == state.approvals.len()
            &&& step.spending.budget_remaining == walked.budget
            &&& step.spending.missed_any <==> walked.kept.len() > 0
            &&& step.actions@.len() == walked.actions.len() + 1
            &&& step.actions@[0] == Action::DepositEvent(Event::Spending(pot as Balance))
            &&& forall|i: int|
                0 <= i < walked.actions.len() ==> step.actions@[i + 1]
                    == #[trigger] walked.actions[i]
        }),
{
}

/// The last step of a spend adds what is burnt to the imbalance, and nothing else.
pub proof fn law_finish_creates_the_burn(state: State, constants: Constants, spending: Spending)
    ensures
        created(state.finish_actions(constants, spending)) == burn_of(constants.burn, spending),
{
    law_burn_within_budget(constants.burn, spending);
    let burn = burn_of(constants.burn, spending);
    let burning = burn_actions(constants.burn, spending);
    let settling = seq![Action::Settle { who: account_of(constants.pallet_id) }];
    let promoting = state.promotion_actions(state.waiting_proposal_count as nat);
    let ending = seq![
        Action::DepositEvent(Event::Rollover((spending.budget_remaining - burn) as Balance)),
    ];
    lemma_created_adds(burning, settling);
    lemma_created_adds(burning + settling, promoting);
    lemma_created_adds(burning + settling + promoting, ending);
    law_promotion_creates_nothing(state, state.waiting_proposal_count as nat);
    reveal_with_fuel(created, 3);
    assert(settling.drop_last() =~= Seq::empty());
    assert(ending.drop_last() =~= Seq::empty());
    if !spending.missed_any {
        assert(burning.drop_last().drop_last() =~= Seq::empty());
    }
}

/// Where an approved payment has to wait for funds, nothing is burnt: all that is left rolls over
/// to the next spend.
pub proof fn law_missed_rolls_over(state: State, constants: Constants, spending: Spending)
    requires
        spending.missed_any,
    ensures
        state.finish_actions(constants, spending).last() == Action::DepositEvent(
            Event::Rollover(spending.budget_remaining),
        ),
        created(state.finish_actions(constants, spending)) == 0,
{
    law_finish_creates_the_burn(state, constants, spending);
}

/// A spend never takes more out of the treasury's account than the pot, so the account keeps the
/// minimum balance: what is paid for approvals, what the hooks take from the budget, and what is
/// burnt add up to the pot less what rolls over. `state` is the treasury before the spend and
/// `after` what the hooks have left of it.
pub proof fn law_account_is_kept_alive(
    state: State,
    constants: Constants,
    free_balance: Balance,
    minimum_balance: Balance,
    after: Spending,
)
    requires
        after.budget_remaining <= walk(
            state.approvals,
            state.proposals,
            pot_of(free_balance, minimum_balance),
        ).budget,
    ensures
        ({
            let pot = pot_of(free_balance, minimum_balance);
            let walked = walk(state.approvals, state.proposals, pot);
            let taken = created(walked.actions) + (walked.budget - after.budget_remaining)
                + created(state.spent(pot).finish_actions(constants, after));
            let rollover = after.budget_remaining - burn_of(constants.burn, after);
            &&& 0 <= rollover
            &&& taken + rollover == pot
            &&& free_balance >= minimum_balance ==> free_balance - taken >= minimum_balance
        }),
{
    let pot = pot_of(free_balance, minimum_balance);
    law_walk_spends_the_budget(state.approvals, state.proposals, pot);
    law_finish_creates_the_burn(state.spent(pot), constants, after);
    law_burn_within_budget(constants.burn, after);
}

/// Whether an action announces that a spend begins.
pub open spec fn is_spending(action: Action) -> bool {
    action matches Action::DepositEvent(Event::Spending(_))
}

/// Whether an action announces that a spend is over.
pub open spec fn is_rollover(action: Action) -> bool {
    action matches Action::DepositEvent(Event::Rollover(_))
}

/// A spend announces once that it begins, in its first step, and once that it is over, in its last.
/// `after` is what the hooks have left of it, and `later` the treasury at that time.
pub proof fn law_spend_is_announced_once(
    state: State,
    pot: int,
    step: SpendStep,
    later: State,
    constants: Constants,
    after: Spending,
)
    requires
        is_first_step(state, pot, step),
    ensures
        count(step.actions@, |action: Action| is_spending(action)) == 1,
        count(step.actions@, |action: Action| is_rollover(action)) == 0,
        count(
            later.finish_actions(constants, after),
            |action: Action| is_spending(action),
        ) == 0,
        count(
            later.finish_actions(constants, after),
            |action: Action| is_rollover(action),
        ) == 1,
{
    let spending = |action: Action| is_spending(action);
    let rollover = |action: Action| is_rollover(action);
    lemma_announced(state, pot, step, later, constants, after, spending);
    lemma_announced(state, pot, step, later, constants, after, rollover);
}

/// Of a kind of announcement that neither an award nor the waiting list makes, a spend makes what
/// its beginning, its burning and its end make.
proof fn lemma_announced(
    state: State,
    pot: int,
    step: SpendStep,
    later: State,
    constants: Constants,
    after: Spending,
    kind: spec_fn(Action) -> bool,
)
    requires
        is_first_step(state, pot, step),
        forall|action: Action| #[trigger]
            kind(action) ==> is_spending(action) || is_rollover(action),
    ensures
        count(step.actions@, kind) == if kind(
            Action::DepositEvent(Event::Spending(pot as Balance)),
        ) {
            1nat
        } else {
            0nat
        },
        count(later.finish_actions(constants, after), kind) == if kind(
            Action::DepositEvent(
                Event::Rollover(
                    (after.budget_remaining - burn_of(constants.burn, after)) as Balance,
                ),
            ),
        ) {
            1nat
        } else {
            0nat
        },
{
    let beginning = seq![Action::DepositEvent(Event::Spending(pot as Balance))];
    let walked = walk(state.approvals, state.proposals, pot);
    let burning = burn_actions(constants.burn, after);
    let settling = seq![Action::Settle { who: account_of(constants.pallet_id) }];
    let promoting = later.promotion_actions(later.waiting_proposal_count as nat);
    let burn = burn_of(constants.burn, after);
    let ending = seq![
        Action::DepositEvent(Event::Rollover((after.budget_remaining - burn) as Balance)),
    ];
    lemma_count_adds(beginning, walked.actions, kind);
    law_walk_announces_awards_only(state.approvals, state.proposals, pot, kind);
    lemma_count_adds(burning, settling, kind);
    lemma_count_adds(burning + settling, promoting, kind);
    lemma_count_adds(burning + settling + promoting, ending, kind);
    law_promotion_announces_moves_only(later, later.waiting_proposal_count as nat, kind);
    reveal_with_fuel(count, 3);
    assert(beginning.drop_last() =~= Seq::empty());
    assert(settling.drop_last() =~= Seq::empty());
    assert(ending.drop_last() =~= Seq::empty());
    if !after.missed_any {
        assert(burning.drop_last().drop_last() =~= Seq::empty());
    }
}

impl<T: Config> Pallet<T> {
    /// Return the amount of money in the pot.
    // The existential deposit is not part of the pot so treasury account never gets deleted.
    pub fn pot(free_balance: Balance, minimum_balance: Balance) -> (pot: Balance)
        ensures
            pot == pot_of(free_balance, minimum_balance),
            free_balance >= minimum_balance ==> pot + minimum_balance == free_balance,
            free_balance < minimum_balance ==> pot == 0,
    {
        free_balance.saturating_sub(minimum_balance)
    }

    /// Whether a spend of `budget` would find a payment due for each proposal that it pays for.
    /// It does not where a proposal that was made without any payments is approved and can be
    /// paid for.
    pub fn spendable(&self, budget: Balance) -> (spendable: bool)
        ensures
            spendable == walk(self@.approvals, self@.proposals, budget as int).sound,
    {
        let mut proposals = self.proposals.clone();
        walk_approvals(&mut proposals, &self.approvals, budget).is_some()
    }

    /// Spend some money! The first step of a spend, which pays for the approvals: each of them in
    /// turn is paid for out of the pot, kept in the queue where the pot does not suffice, or
    /// dropped where its proposal is gone. The balances are those of the treasury's account, and
    /// the least that an account may hold.
    pub fn spend_funds(
        &mut self,
        free_balance: Balance,
        minimum_balance: Balance,
    ) -> (step: SpendStep)
        requires
            old(self)@.approvals.len() <= u32::MAX,
            walk(
                old(self)@.approvals,
                old(self)@.proposals,
                pot_of(free_balance, minimum_balance),
            ).sound,
        ensures
            final(self).constants == old(self).constants,
            old(self).wf() ==> final(self).wf(),
            final(self)@ == old(self)@.spent(pot_of(free_balance, minimum_balance)),
            is_first_step(old(self)@, pot_of(free_balance, minimum_balance), step),
            call_ensures(
                T::WeightInfo::on_initialize_proposals,
                (step.approvals,),
                step.spending.total_weight,
            ),
    {
        let budget = Self::pot(free_balance, minimum_balance);
        let approvals = self.approvals.len() as u32;
        let mut actions: Vec<Action> = Vec::new();
        actions.push(Action::DepositEvent(Event::Spending(budget)));
        let mut walked = walk_approvals(&mut self.proposals, &self.approvals, budget).unwrap();
        self.approvals = walked.kept;
        actions.append(&mut walked.actions);
        proof {
            assert(self@ =~= old(self)@.spent(budget as int));
            if old(self).wf() {
                law_spent_keeps_wf(old(self)@, self.constants.max_approvals, budget as int);
            }
        }
        let total_weight = T::WeightInfo::on_initialize_proposals(approvals);
        SpendStep {
            approvals,
            spending: Spending {
                budget_remaining: walked.budget_remaining,
                missed_any: walked.missed_any,
                total_weight,
            },
            actions,
        }
    }

    /// The second step of a spend: the other spenders of the chain get their turn, and may take
    /// from the budget.
    pub fn run_hooks(spending: Spending, imbalance: &mut T::PositiveImbalance) -> (after: Spending)
        ensures
            T::SpendFunds::spends(
                (HookState {
                    budget_remaining: spending.budget_remaining,
                    imbalance: *old(imbalance),
                    total_weight: spending.total_weight,
                    missed_any: spending.missed_any,
                }),
                (HookState {
                    budget_remaining: after.budget_remaining,
                    imbalance: *final(imbalance),
                    total_weight: after.total_weight,
                    missed_any: after.missed_any,
                }),
            ),
    {
        let mut budget_remaining: Balance = spending.budget_remaining;
        let mut total_weight: Weight = spending.total_weight;
        let mut missed_any = spending.missed_any;
        T::SpendFunds::spend_funds(
            &mut budget_remaining,
            imbalance,
            &mut total_weight,
            &mut missed_any,
        );
        Spending { budget_remaining, missed_any, total_weight }
    }

    /// The last step of a spend: burn some proportion of the remaining budget if we run a surplus,
    /// settle the account, and take up the proposals that waited for the period to end.
    pub fn finish_spending(&mut self, spending: Spending) -> (end: SpendEnd)
        requires
            old(self)@.all_promoted().proposal_count <= ProposalIndex::MAX,
        ensures
            final(self).constants == old(self).constants,
            old(self).wf() ==> final(self).wf(),
            final(self)@ == old(self)@.all_promoted(),
            end.total_weight == spending.total_weight,
            end.actions@ == old(self)@.finish_actions(old(self).constants, spending),
    {
        let mut actions: Vec<Action> = Vec::new();
        let mut budget_remaining: Balance = spending.budget_remaining;
        proof {
            law_share_within_value(self.constants.burn, spending.budget_remaining as int);
        }
        if !spending.missed_any {
            // Burn some proportion of the remaining budget if we run a surplus.
            let share = permill_mul(self.constants.burn, budget_remaining);
            let burn = if share < budget_remaining {
                share
            } else {
                budget_remaining
            };
            budget_remaining = budget_remaining - burn;
            actions.push(Action::Burn { amount: burn });
            actions.push(Action::DepositEvent(Event::Burnt(burn)));
        }
        assert(actions@ =~= burn_actions(self.constants.burn, spending));
        actions.push(Action::Settle { who: self.account_id() });
        self.promote_waiting(&mut actions);
        proof {
            if old(self).wf() {
                law_promoted_keeps_wf(old(self)@, self.constants.max_approvals);
            }
        }
        actions.push(Action::DepositEvent(Event::Rollover(budget_remaining)));
        assert(actions@ =~= old(self)@.finish_actions(old(self).constants, spending));
        SpendEnd { total_weight: spending.total_weight, actions }
    }

    /// What the treasury does at the start of block `n`: it spends if a spend period ends there,
    /// and does nothing, at no weight, otherwise.
    pub fn on_initialize(
        &mut self,
        n: BlockNumber,
        free_balance: Balance,
        minimum_balance: Balance,
    ) -> (step: Option<SpendStep>)
        requires
            old(self).constants.spend_period != 0,
            spends_at(old(self).constants, n as int) ==> {
                &&& old(self)@.approvals.len() <= u32::MAX
                &&& walk(
                    old(self)@.approvals,
                    old(self)@.proposals,
                    pot_of(free_balance, minimum_balance),
                ).sound
            },
        ensures
            final(self).constants == old(self).constants,
            old(self).wf() ==> final(self).wf(),
            match step {
                Some(step) => {
                    let pot = pot_of(free_balance, minimum_balance);
                    &&& spends_at(old(self).constants, n as int)
                    &&& final(self)@ == old(self)@.spent(pot)
                    &&& is_first_step(old(self)@, pot, step)
                    &&& call_ensures(
                        T::WeightInfo::on_initialize_proposals,
                        (step.approvals,),
                        step.spending.total_weight,
                    )
                },
                None => {
                    &&& !spends_at(old(self).constants, n as int)
                    &&& final(self)@ == old(self)@
                },
            },
    {
        // Check to see if we should spend some funds!
        if n % self.constants.spend_period == 0 {
            Some(self.spend_funds(free_balance, minimum_balance))
        } else {
            None
        }
    }
}

} // verus!
