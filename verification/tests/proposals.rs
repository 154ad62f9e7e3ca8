use pallet_treasury::{
    AccountId, Action, Config, Constants, DispatchError, Error, Event, Pallet, Proposal, Weight,
    WeightInfo,
};

struct Weights;

impl WeightInfo for Weights {
    fn propose_spend() -> Weight {
        1
    }

    fn reject_proposal() -> Weight {
        2
    }

    fn approve_proposal(p: u32) -> Weight {
        3 * p as Weight
    }

    fn on_initialize_proposals(p: u32) -> Weight {
        4 * p as Weight
    }
}

struct Chain;

impl Config for Chain {
    type PositiveImbalance = u128;
    type SpendFunds = ();
    type WeightInfo = Weights;

    fn constants() -> Constants {
        Constants {
            proposal_bond: 50_000,
            proposal_bond_minimum: 7,
            allowed_proposal_period: 4,
            spend_period: 10,
            burn: 500_000,
            pallet_id: *b"py/trsry",
            max_approvals: 2,
        }
    }
}

const ALICE: AccountId = [1; 32];
const BOB: AccountId = [2; 32];

fn treasury() -> Pallet<Chain> {
    Pallet::new()
}

fn propose(pallet: &mut Pallet<Chain>, block: u64, value: u128, chunks: u32) -> Vec<Action> {
    let request = pallet.propose_spend(block, Some(ALICE), value, Some(BOB), chunks).unwrap();
    pallet.record_proposal(request, true).unwrap()
}

#[test]
fn a_new_treasury_is_empty() {
    let pallet = treasury();
    assert_eq!(pallet.proposal_count(), 0);
    assert_eq!(pallet.waiting_proposal_count(), 0);
    assert_eq!(pallet.proposals(0), None);
    assert_eq!(pallet.waiting_proposals(0), None);
    assert!(pallet.approvals().is_empty());
    assert_eq!(pallet.constants, Chain::constants());
}

#[test]
fn the_account_is_derived_from_the_pallet_id() {
    let mut expected = [0u8; 32];
    expected[..12].copy_from_slice(b"modlpy/trsry");
    assert_eq!(treasury().account_id(), expected);
}

#[test]
fn other_pallets_have_other_accounts() {
    let mut other = treasury();
    other.constants.pallet_id = *b"py/trsrz";
    assert_ne!(other.account_id(), treasury().account_id());
}

#[test]
fn bonds_are_a_fraction_with_a_minimum() {
    let pallet = treasury();
    assert_eq!(pallet.calculate_bond(0), 7);
    assert_eq!(pallet.calculate_bond(100), 7);
    assert_eq!(pallet.calculate_bond(1_000), 50);
    // A half is rounded down, more than a half up.
    assert_eq!(pallet.calculate_bond(1_010), 50);
    assert_eq!(pallet.calculate_bond(1_011), 51);
    assert_eq!(pallet.calculate_bond(u128::MAX), u128::MAX / 20 + 1);
}

#[test]
fn fractions_over_one_count_as_one() {
    let mut pallet = treasury();
    pallet.constants.proposal_bond = 2_000_000;
    assert_eq!(pallet.calculate_bond(1_234), 1_234);
    pallet.constants.proposal_bond = 0;
    assert_eq!(pallet.calculate_bond(1_234), 7);
}

#[test]
fn a_request_reserves_the_bond_and_splits_the_value() {
    let pallet = treasury();
    let request = pallet.propose_spend(3, Some(ALICE), 1_001, Some(BOB), 4).unwrap();
    assert_eq!(request.reserve, Action::Reserve { who: ALICE, amount: 50 });
    assert_eq!(
        request.proposal,
        Proposal {
            proposer: ALICE,
            value: 250,
            beneficiary: BOB,
            bond: 50,
            occurs: 4,
            remaining_occurs: 4,
        }
    );
    assert!(!request.waiting);
}

#[test]
fn no_chunks_means_the_whole_value() {
    let pallet = treasury();
    let request = pallet.propose_spend(3, Some(ALICE), 1_001, Some(BOB), 0).unwrap();
    assert_eq!(request.proposal.value, 1_001);
    assert_eq!(request.proposal.occurs, 0);
    assert_eq!(request.proposal.remaining_occurs, 0);
}

#[test]
fn late_requests_have_to_wait() {
    let pallet = treasury();
    for (block, waiting) in [(0, false), (3, false), (4, true), (9, true), (10, false), (14, true)] {
        let request = pallet.propose_spend(block, Some(ALICE), 5, Some(BOB), 1).unwrap();
        assert_eq!(request.waiting, waiting);
    }
}

#[test]
fn requests_must_be_signed() {
    let pallet = treasury();
    assert_eq!(pallet.propose_spend(0, None, 5, Some(BOB), 1), Err(DispatchError::BadOrigin));
    assert_eq!(pallet.propose_spend(0, None, 5, None, 1), Err(DispatchError::BadOrigin));
}

#[test]
fn the_beneficiary_must_be_found() {
    let pallet = treasury();
    assert_eq!(pallet.propose_spend(0, Some(ALICE), 5, None, 1), Err(DispatchError::CannotLookup));
}

#[test]
fn a_proposal_without_its_deposit_is_refused() {
    let mut pallet = treasury();
    let request = pallet.propose_spend(0, Some(ALICE), 5, Some(BOB), 1).unwrap();
    assert_eq!(
        pallet.record_proposal(request, false),
        Err(DispatchError::Module(Error::InsufficientProposersBalance))
    );
    assert_eq!(pallet.proposal_count(), 0);
    assert_eq!(pallet.proposals(0), None);
}

#[test]
fn proposals_are_numbered() {
    let mut pallet = treasury();
    assert_eq!(propose(&mut pallet, 0, 5, 1), vec![Action::DepositEvent(Event::Proposed(0))]);
    assert_eq!(propose(&mut pallet, 1, 6, 2), vec![Action::DepositEvent(Event::Proposed(1))]);
    assert_eq!(pallet.proposal_count(), 2);
    assert_eq!(pallet.proposals(0).unwrap().value, 5);
    assert_eq!(pallet.proposals(1).unwrap().value, 3);
    assert_eq!(pallet.waiting_proposal_count(), 0);
}

#[test]
fn waiting_proposals_are_numbered_apart() {
    let mut pallet = treasury();
    propose(&mut pallet, 0, 5, 1);
    assert_eq!(propose(&mut pallet, 5, 6, 1), vec![Action::DepositEvent(Event::WaitingProposed(0))]);
    assert_eq!(propose(&mut pallet, 6, 7, 1), vec![Action::DepositEvent(Event::WaitingProposed(1))]);
    assert_eq!(pallet.proposal_count(), 1);
    assert_eq!(pallet.waiting_proposal_count(), 2);
    assert_eq!(pallet.waiting_proposals(1).unwrap().value, 7);
    assert_eq!(pallet.proposals(1), None);
}

#[test]
fn waiting_proposals_cannot_be_decided() {
    let mut pallet = treasury();
    propose(&mut pallet, 5, 6, 1);
    let invalid = DispatchError::Module(Error::InvalidIndex);
    assert_eq!(pallet.approve_proposal(true, 0), Err(invalid));
    assert_eq!(pallet.reject_proposal(true, 0), Err(invalid));
}

#[test]
fn a_rejection_slashes_the_deposit() {
    let mut pallet = treasury();
    propose(&mut pallet, 0, 1_000, 1);
    assert_eq!(
        pallet.reject_proposal(true, 0),
        Ok(Action::SlashReserved { who: ALICE, amount: 50 })
    );
    assert_eq!(
        pallet.record_rejection(0, 50),
        vec![Action::DepositEvent(Event::Rejected(0, 50))]
    );
    assert_eq!(pallet.proposals(0), None);
    assert_eq!(pallet.proposal_count(), 1);
}

#[test]
fn a_rejection_announces_what_was_slashed() {
    let mut pallet = treasury();
    propose(&mut pallet, 0, 1_000, 2);
    pallet.approve_proposal(true, 0).unwrap();
    // The first payment gives the bond back, so that nothing of it is left to slash.
    pallet.spend_funds(1_001, 1);
    assert_eq!(
        pallet.reject_proposal(true, 0),
        Ok(Action::SlashReserved { who: ALICE, amount: 50 })
    );
    assert_eq!(pallet.record_rejection(0, 0), vec![Action::DepositEvent(Event::Rejected(0, 0))]);
}

#[test]
fn a_rejected_proposal_is_gone() {
    let mut pallet = treasury();
    propose(&mut pallet, 0, 1_000, 1);
    pallet.reject_proposal(true, 0).unwrap();
    let invalid = DispatchError::Module(Error::InvalidIndex);
    assert_eq!(pallet.reject_proposal(true, 0), Err(invalid));
    assert_eq!(pallet.approve_proposal(true, 0), Err(invalid));
}

#[test]
fn decisions_need_the_right_origin() {
    let mut pallet = treasury();
    propose(&mut pallet, 0, 1_000, 1);
    assert_eq!(pallet.reject_proposal(false, 0), Err(DispatchError::BadOrigin));
    assert_eq!(pallet.approve_proposal(false, 0), Err(DispatchError::BadOrigin));
    assert_eq!(pallet.approve_proposal(false, 9), Err(DispatchError::BadOrigin));
    assert!(pallet.proposals(0).is_some());
    assert!(pallet.approvals().is_empty());
}

#[test]
fn unknown_proposals_cannot_be_decided() {
    let mut pallet = treasury();
    let invalid = DispatchError::Module(Error::InvalidIndex);
    assert_eq!(pallet.reject_proposal(true, 0), Err(invalid));
    assert_eq!(pallet.approve_proposal(true, 0), Err(invalid));
}

#[test]
fn approvals_are_bounded() {
    let mut pallet = treasury();
    for _ in 0..3 {
        propose(&mut pallet, 0, 1_000, 1);
    }
    assert_eq!(pallet.approve_proposal(true, 2), Ok(()));
    assert_eq!(pallet.approve_proposal(true, 0), Ok(()));
    assert_eq!(
        pallet.approve_proposal(true, 1),
        Err(DispatchError::Module(Error::TooManyApprovals))
    );
    assert_eq!(*pallet.approvals(), vec![2, 0]);
}

#[test]
fn incoming_funds_go_to_the_account() {
    let pallet = treasury();
    assert_eq!(
        pallet.on_nonzero_unbalanced(12),
        vec![
            Action::ResolveCreating { who: pallet.account_id(), amount: 12 },
            Action::DepositEvent(Event::Deposit(12)),
        ]
    );
}

#[test]
fn larger_spends_need_no_smaller_a_bond() {
    let pallet = treasury();
    let mut last = 0;
    for value in 0..2_000 {
        let bond = pallet.calculate_bond(value);
        assert!(last <= bond);
        assert!(bond >= 7);
        last = bond;
    }
    assert_eq!(last, 100);
}

#[test]
fn payments_add_up_to_no_more_than_the_value() {
    let pallet = treasury();
    for chunks in 1..50 {
        let request = pallet.propose_spend(0, Some(ALICE), 1_001, Some(BOB), chunks).unwrap();
        let total = request.proposal.value * chunks as u128;
        assert!(total <= 1_001);
        assert!(1_001 - total < chunks as u128);
    }
}
