use pallet_treasury::{
    AccountId, Action, Balance, Config, Constants, Event, GenesisConfig, Pallet, SpendFunds,
    Spending, Weight, WeightInfo,
};

struct Weights;

impl WeightInfo for Weights {
    fn propose_spend() -> Weight {
        1
    }

    fn reject_proposal() -> Weight {
        2
    }

    fn approve_proposal(p: u32) -> Weight {
        3 * p as Weight
    }

    fn on_initialize_proposals(p: u32) -> Weight {
        100 + p as Weight
    }
}

/// Spends a third of the budget, at a weight of its own.
struct Third;

impl SpendFunds<u128> for Third {
    fn spend_funds(
        budget_remaining: &mut Balance,
        imbalance: &mut u128,
        total_weight: &mut Weight,
        _missed_any: &mut bool,
    ) {
        let third = *budget_remaining / 3;
        *budget_remaining -= third;
        *imbalance += third;
        *total_weight += 5;
    }
}

/// Never finds enough.
struct Greedy;

impl SpendFunds<u128> for Greedy {
    fn spend_funds(
        budget_remaining: &mut Balance,
        _imbalance: &mut u128,
        total_weight: &mut Weight,
        missed_any: &mut bool,
    ) {
        *total_weight += *budget_remaining as Weight;
        *missed_any = true;
    }
}

fn constants() -> Constants {
    Constants {
        proposal_bond: 50_000,
        proposal_bond_minimum: 1,
        allowed_proposal_period: 4,
        spend_period: 10,
        burn: 500_000,
        pallet_id: *b"py/trsry",
        max_approvals: 100,
    }
}

struct Chain;

impl Config for Chain {
    type PositiveImbalance = u128;
    type SpendFunds = ();
    type WeightInfo = Weights;

    fn constants() -> Constants {
        constants()
    }
}

struct HookedChain;

impl Config for HookedChain {
    type PositiveImbalance = u128;
    type SpendFunds = (Third, Third, Greedy);
    type WeightInfo = Weights;

    fn constants() -> Constants {
        constants()
    }
}

const ALICE: AccountId = [1; 32];
const BOB: AccountId = [2; 32];

fn treasury() -> Pallet<Chain> {
    Pallet::new()
}

fn propose(pallet: &mut Pallet<Chain>, block: u64, value: u128, chunks: u32) {
    let request = pallet.propose_spend(block, Some(ALICE), value, Some(BOB), chunks).unwrap();
    pallet.record_proposal(request, true).unwrap();
}

fn event(event: Event) -> Action {
    Action::DepositEvent(event)
}

fn award(index: u32, bond: u128, value: u128) -> Vec<Action> {
    vec![
        Action::Unreserve { who: ALICE, amount: bond },
        Action::DepositCreating { who: BOB, amount: value },
        event(Event::Awarded(index, value, BOB)),
    ]
}

#[test]
fn the_pot_leaves_the_minimum_balance() {
    assert_eq!(Pallet::<Chain>::pot(101, 1), 100);
    assert_eq!(Pallet::<Chain>::pot(1, 1), 0);
    assert_eq!(Pallet::<Chain>::pot(0, 1), 0);
}

#[test]
fn genesis_fills_the_account_up_to_the_minimum() {
    let pallet = treasury();
    let genesis = GenesisConfig::default();
    assert_eq!(
        genesis.build(&pallet, 3, 4),
        Some(Action::MakeFreeBalanceBe { who: pallet.account_id(), amount: 4 })
    );
    assert_eq!(genesis.build(&pallet, 4, 4), None);
}

#[test]
fn spends_happen_once_a_period() {
    for n in 0..30 {
        let step = treasury().on_initialize(n, 101, 1);
        assert_eq!(step.is_some(), n % 10 == 0);
    }
}

#[test]
fn an_empty_spend_burns_half_and_rolls_the_rest_over() {
    let mut pallet = treasury();
    let step = pallet.spend_funds(101, 1);
    assert_eq!(step.approvals, 0);
    assert_eq!(step.actions, vec![event(Event::Spending(100))]);
    assert_eq!(
        step.spending,
        Spending { budget_remaining: 100, missed_any: false, total_weight: 100 }
    );
    let mut imbalance = 0;
    let after = Pallet::<Chain>::run_hooks(step.spending, &mut imbalance);
    assert_eq!(after, step.spending);
    let end = pallet.finish_spending(after);
    assert_eq!(end.total_weight, 100);
    assert_eq!(
        end.actions,
        vec![
            Action::Burn { amount: 50 },
            event(Event::Burnt(50)),
            Action::Settle { who: pallet.account_id() },
            event(Event::Rollover(50)),
        ]
    );
}

#[test]
fn burning_rounds_to_the_nearest() {
    let mut pallet = treasury();
    pallet.constants.burn = 333_333;
    let spending = Spending { budget_remaining: 5, missed_any: false, total_weight: 0 };
    let end = pallet.finish_spending(spending);
    assert_eq!(end.actions[0], Action::Burn { amount: 2 });
    assert_eq!(end.actions[3], event(Event::Rollover(3)));
}

#[test]
fn an_approved_proposal_is_paid() {
    let mut pallet = treasury();
    propose(&mut pallet, 0, 60, 1);
    pallet.approve_proposal(true, 0).unwrap();
    let step = pallet.spend_funds(101, 1);
    let mut expected = vec![event(Event::Spending(100))];
    expected.extend(award(0, 3, 60));
    assert_eq!(step.approvals, 1);
    assert_eq!(step.actions, expected);
    assert_eq!(
        step.spending,
        Spending { budget_remaining: 40, missed_any: false, total_weight: 101 }
    );
    assert_eq!(pallet.proposals(0), None);
    assert!(pallet.approvals().is_empty());
}

#[test]
fn what_cannot_be_paid_stays_in_the_queue() {
    let mut pallet = treasury();
    for value in [60, 80, 30, 20] {
        propose(&mut pallet, 0, value, 1);
    }
    for index in [0, 1, 2, 3] {
        pallet.approve_proposal(true, index).unwrap();
    }
    let step = pallet.spend_funds(101, 1);
    let mut expected = vec![event(Event::Spending(100))];
    expected.extend(award(0, 3, 60));
    expected.extend(award(2, 1, 30));
    assert_eq!(step.actions, expected);
    assert_eq!(step.spending.budget_remaining, 10);
    assert!(step.spending.missed_any);
    assert_eq!(*pallet.approvals(), vec![1, 3]);
    assert_eq!(pallet.proposals(1).unwrap().remaining_occurs, 1);
    assert_eq!(pallet.proposals(0), None);
    // Nothing is burnt while payments have to wait.
    let end = pallet.finish_spending(step.spending);
    assert_eq!(
        end.actions,
        vec![Action::Settle { who: pallet.account_id() }, event(Event::Rollover(10))]
    );
}

#[test]
fn each_payment_of_a_proposal_takes_an_approval() {
    let mut pallet = treasury();
    propose(&mut pallet, 0, 90, 3);
    pallet.approve_proposal(true, 0).unwrap();
    pallet.approve_proposal(true, 0).unwrap();
    let step = pallet.spend_funds(101, 1);
    let mut expected = vec![event(Event::Spending(100))];
    expected.extend(award(0, 4, 30));
    expected.extend(award(0, 4, 30));
    assert_eq!(step.actions, expected);
    assert_eq!(pallet.proposals(0).unwrap().remaining_occurs, 1);
    assert_eq!(pallet.proposals(0).unwrap().occurs, 3);
    assert!(pallet.approvals().is_empty());
    assert_eq!(pallet.spend_funds(101, 1).actions, vec![event(Event::Spending(100))]);
    pallet.approve_proposal(true, 0).unwrap();
    pallet.approve_proposal(true, 0).unwrap();
    let step = pallet.spend_funds(101, 1);
    // The last payment takes the proposal away, and the approval that is left is dropped.
    assert_eq!(step.spending.budget_remaining, 70);
    assert!(!step.spending.missed_any);
    assert_eq!(pallet.proposals(0), None);
    assert!(pallet.approvals().is_empty());
}

#[test]
fn a_rejected_proposal_is_not_paid() {
    let mut pallet = treasury();
    propose(&mut pallet, 0, 60, 1);
    pallet.approve_proposal(true, 0).unwrap();
    pallet.reject_proposal(true, 0).unwrap();
    let step = pallet.spend_funds(101, 1);
    assert_eq!(step.approvals, 1);
    assert_eq!(step.actions, vec![event(Event::Spending(100))]);
    assert!(!step.spending.missed_any);
    assert!(pallet.approvals().is_empty());
}

#[test]
fn a_proposal_without_payments_cannot_be_spent_on() {
    let mut pallet = treasury();
    propose(&mut pallet, 0, 60, 0);
    assert!(pallet.spendable(100));
    pallet.approve_proposal(true, 0).unwrap();
    assert!(!pallet.spendable(100));
    assert!(!pallet.spendable(60));
    // It is not reached where it cannot be afforded.
    assert!(pallet.spendable(59));
    let step = pallet.spend_funds(60, 1);
    assert!(step.spending.missed_any);
    assert_eq!(*pallet.approvals(), vec![0]);
}

#[test]
fn hooks_run_one_after_the_other() {
    let spending = Spending { budget_remaining: 90, missed_any: false, total_weight: 7 };
    let mut imbalance = 1;
    let after = Pallet::<HookedChain>::run_hooks(spending, &mut imbalance);
    assert_eq!(after, Spending { budget_remaining: 40, missed_any: true, total_weight: 57 });
    assert_eq!(imbalance, 51);
}

#[test]
fn waiting_proposals_are_taken_up_when_the_period_ends() {
    let mut pallet = treasury();
    propose(&mut pallet, 0, 10, 1);
    propose(&mut pallet, 5, 20, 1);
    propose(&mut pallet, 6, 30, 1);
    assert!(pallet.promotable());
    let spending = Spending { budget_remaining: 40, missed_any: true, total_weight: 9 };
    let end = pallet.finish_spending(spending);
    assert_eq!(
        end.actions,
        vec![
            Action::Settle { who: pallet.account_id() },
            event(Event::WaitingProposalTransfered(2)),
            event(Event::Proposed(1)),
            event(Event::WaitingProposalTransfered(2)),
            event(Event::Proposed(2)),
            event(Event::Rollover(40)),
        ]
    );
    assert_eq!(pallet.proposal_count(), 3);
    assert_eq!(pallet.proposals(0).unwrap().value, 10);
    assert_eq!(pallet.proposals(1).unwrap().value, 20);
    assert_eq!(pallet.proposals(2).unwrap().value, 30);
    assert_eq!(pallet.waiting_proposals(0), None);
    assert_eq!(pallet.waiting_proposals(1), None);
    assert_eq!(pallet.waiting_proposal_count(), 1);
}

#[test]
fn empty_slots_of_the_waiting_list_are_passed_over() {
    let mut pallet = treasury();
    propose(&mut pallet, 5, 20, 1);
    propose(&mut pallet, 6, 30, 1);
    let spending = Spending { budget_remaining: 40, missed_any: true, total_weight: 9 };
    pallet.finish_spending(spending);
    propose(&mut pallet, 15, 70, 1);
    assert_eq!(pallet.waiting_proposals(1).unwrap().value, 70);
    let end = pallet.finish_spending(spending);
    assert_eq!(
        end.actions,
        vec![
            Action::Settle { who: pallet.account_id() },
            event(Event::WaitingProposalTransfered(2)),
            event(Event::Proposed(2)),
            event(Event::Rollover(40)),
        ]
    );
    assert_eq!(pallet.proposal_count(), 3);
    assert_eq!(pallet.proposals(2).unwrap().value, 70);
    assert_eq!(pallet.waiting_proposal_count(), 1);
    // The slot is empty now.
    let end = pallet.finish_spending(spending);
    assert_eq!(
        end.actions,
        vec![Action::Settle { who: pallet.account_id() }, event(Event::Rollover(40))]
    );
    assert_eq!(pallet.proposal_count(), 3);
    assert_eq!(pallet.waiting_proposal_count(), 0);
}

#[test]
fn indices_can_run_out() {
    let mut pallet = treasury();
    propose(&mut pallet, 5, 20, 1);
    pallet.proposal_count = u32::MAX - 1;
    assert!(pallet.promotable());
    propose(&mut pallet, 5, 20, 1);
    assert!(!pallet.promotable());
}

#[test]
fn a_spend_takes_the_pot_at_most() {
    let mut pallet = treasury();
    for value in [25, 33, 50] {
        propose(&mut pallet, 0, value, 1);
    }
    for index in 0..3 {
        pallet.approve_proposal(true, index).unwrap();
    }
    let step = pallet.spend_funds(111, 1);
    let end = pallet.finish_spending(step.spending);
    let mut taken = 0;
    let mut rollover = 0;
    for action in step.actions.iter().chain(end.actions.iter()) {
        match action {
            Action::DepositCreating { amount, .. } => taken += amount,
            Action::Burn { amount } => taken += amount,
            Action::DepositEvent(Event::Rollover(amount)) => rollover = *amount,
            _ => {}
        }
    }
    assert_eq!(taken, 25 + 33 + 50 + 1);
    assert_eq!(taken + rollover, 110);
}

#[test]
fn what_was_not_approved_is_left_alone() {
    let mut pallet = treasury();
    propose(&mut pallet, 0, 10, 1);
    propose(&mut pallet, 0, 20, 2);
    let untouched = pallet.proposals(0);
    pallet.approve_proposal(true, 1).unwrap();
    let step = pallet.spend_funds(101, 1);
    let mut expected = vec![event(Event::Spending(100))];
    expected.extend(award(1, 1, 10));
    assert_eq!(step.actions, expected);
    assert_eq!(pallet.proposals(0), untouched);
    assert_eq!(pallet.proposal_count(), 2);
}

#[test]
fn of_each_period_of_blocks_one_has_a_spend() {
    for first in 0..25 {
        let mut spends = Vec::new();
        for n in first..first + 10 {
            if treasury().on_initialize(n, 101, 1).is_some() {
                spends.push(n - first);
            }
        }
        let into_period = first % 10;
        assert_eq!(spends, vec![if into_period == 0 { 0 } else { 10 - into_period }]);
    }
}

#[test]
fn a_spend_is_announced_once() {
    let mut pallet = treasury();
    propose(&mut pallet, 0, 60, 1);
    propose(&mut pallet, 5, 20, 1);
    pallet.approve_proposal(true, 0).unwrap();
    let step = pallet.spend_funds(101, 1);
    let end = pallet.finish_spending(step.spending);
    let spending = |action: &&Action| matches!(action, Action::DepositEvent(Event::Spending(_)));
    let rollover = |action: &&Action| matches!(action, Action::DepositEvent(Event::Rollover(_)));
    assert_eq!(step.actions.iter().filter(spending).count(), 1);
    assert_eq!(step.actions.iter().filter(rollover).count(), 0);
    assert_eq!(end.actions.iter().filter(spending).count(), 0);
    assert_eq!(end.actions.iter().filter(rollover).count(), 1);
}

#[test]
fn a_proposal_is_paid_after_the_queue_before_it() {
    let mut pallet = treasury();
    propose(&mut pallet, 0, 200, 1);
    propose(&mut pallet, 0, 30, 1);
    propose(&mut pallet, 0, 70, 1);
    for index in 0..3 {
        pallet.approve_proposal(true, index).unwrap();
    }
    let step = pallet.spend_funds(101, 1);
    let mut expected = vec![event(Event::Spending(100))];
    expected.extend(award(1, 1, 30));
    expected.extend(award(2, 3, 70));
    assert_eq!(step.actions, expected);
    assert_eq!(*pallet.approvals(), vec![0]);
    assert_eq!(step.spending.budget_remaining, 0);
}
