//! Making, rejecting and approving proposals.
use crate::account::account_of;
use crate::config::{Config, Constants};
use crate::permill::{
    law_share_is_nearest, law_share_monotone, law_share_within_value, permill_mul, share_of,
};
use crate::state::{occurrences_fit, Pallet, State};
use crate::types::{
    AccountId, Action, Balance, BlockNumber, DispatchError, Error, Event, Proposal, ProposalIndex,
    ProposalOf,
};
use vstd::prelude::*;

verus! {

broadcast use vstd::std_specs::btree::group_btree_axioms;

/// A proposal that is made as soon as its deposit is reserved.
#[derive(Clone, Copy, Debug, PartialEq, Eq)]
pub struct ProposalRequest {
    /// What has to succeed first.
    pub reserve: Action,
    /// The proposal.
    pub proposal: ProposalOf,
    /// Whether it has to wait for the next spend period.
    pub waiting: bool,
}

/// The needed bond for a proposal whose spend is `value`.
pub open spec fn bond_of(constants: Constants, value: Balance) -> int {
    let share = share_of(constants.proposal_bond, value as int);
    if share > constants.proposal_bond_minimum {
        share
    } else {
        constants.proposal_bond_minimum as int
    }
}

/// The amount of each of `chunks` equal payments out of `value`, and all of it at once where no
/// number of payments is named.
pub open spec fn chunk_of(value: Balance, chunks: u32) -> int {
    if chunks > 0 {
        value as int / chunks as int
    } else {
        value as int
    }
}

/// Whether a proposal that is made at block `n` has to wait for the next spend period.
pub open spec fn has_to_wait(constants: Constants, n: BlockNumber) -> bool {
    n as int % constants.spend_period as int >= constants.allowed_proposal_period
}

/// What a request to spend `value` in `chunks` payments comes to at block `n`.
pub open spec fn request_of(
    constants: Constants,
    n: BlockNumber,
    proposer: AccountId,
    value: Balance,
    beneficiary: AccountId,
    chunks: u32,
) -> ProposalRequest {
    let bond = bond_of(constants, value) as Balance;
    ProposalRequest {
        reserve: Action::Reserve { who: proposer, amount: bond },
        proposal: Proposal {
            proposer,
            value: chunk_of(value, chunks) as Balance,
            beneficiary,
            bond,
            occurs: chunks,
            remaining_occurs: chunks,
        },
        waiting: has_to_wait(constants, n),
    }
}

impl State {
    /// The index that a request's proposal gets.
    pub open spec fn next_index(self, waiting: bool) -> int {
        if waiting {
            self.waiting_proposal_count
        } else {
            self.proposal_count
        }
    }

    /// The treasury once the request's proposal was made.
    pub open spec fn recorded(self, request: ProposalRequest) -> State {
        let index = self.next_index(request.waiting) as ProposalIndex;
        if request.waiting {
            State {
                waiting_proposal_count: self.waiting_proposal_count + 1,
                waiting_proposals: self.waiting_proposals.insert(index, request.proposal),
                ..self
            }
        } else {
            State {
                proposal_count: self.proposal_count + 1,
                proposals: self.proposals.insert(index, request.proposal),
                ..self
            }
        }
    }

    /// What is announced when the request's proposal is made.
    pub open spec fn recorded_event(self, request: ProposalRequest) -> Event {
        let index = self.next_index(request.waiting) as ProposalIndex;
        if request.waiting {
            Event::WaitingProposed(index)
        } else {
            Event::Proposed(index)
        }
    }

    /// The answer to a rejection of the proposal at `index`: the slash that is asked of the chain,
    /// or why nothing is rejected.
    pub open spec fn rejection(self, allowed: bool, index: ProposalIndex) -> Result<
        Action,
        DispatchError,
    > {
        if !allowed {
            Err(DispatchError::BadOrigin)
        } else if !self.proposals.contains_key(index) {
            Err(DispatchError::Module(Error::InvalidIndex))
        } else {
            let proposal = self.proposals[index];
            Ok(Action::SlashReserved { who: proposal.proposer, amount: proposal.bond })
        }
    }

    /// The treasury once the proposal at `index` was rejected.
    pub open spec fn rejected(self, index: ProposalIndex) -> State {
        State { proposals: self.proposals.remove(index), ..self }
    }

    /// The answer to an approval of the proposal at `index`.
    pub open spec fn approval(
        self,
        max_approvals: u32,
        allowed: bool,
        index: ProposalIndex,
    ) -> Result<(), DispatchError> {
        if !allowed {
            Err(DispatchError::BadOrigin)
        } else if !self.proposals.contains_key(index) {
            Err(DispatchError::Module(Error::InvalidIndex))
        } else if self.approvals.len() >= max_approvals {
            Err(DispatchError::Module(Error::TooManyApprovals))
        } else {
            Ok(())
        }
    }

    /// The treasury once the proposal at `index` was approved.
    pub open spec fn approved(self, index: ProposalIndex) -> State {
        State { approvals: self.approvals.push(index), ..self }
    }
}

/// A bond is at least the minimum and at least the fraction of the value that has to be bonded,
/// and no more than the larger of the minimum and the value. In particular it is an amount.
pub proof fn law_bond_bounds(constants: Constants, value: Balance)
    ensures
        constants.proposal_bond_minimum <= bond_of(constants, value),
        share_of(constants.proposal_bond, value as int) <= bond_of(constants, value),
        bond_of(constants, value) <= constants.proposal_bond_minimum || bond_of(constants, value)
            <= value,
{
    law_share_within_value(constants.proposal_bond, value as int);
}

/// A larger spend needs no smaller a bond.
pub proof fn law_bond_monotone(constants: Constants, value: Balance, more: Balance)
    requires
        value <= more,
    ensures
        bond_of(constants, value) <= bond_of(constants, more),
{
    law_share_monotone(
        constants.proposal_bond,
        constants.proposal_bond,
        value as int,
        more as int,
    );
}

/// The payments of a proposal together are no more than the value that was asked for, and fall
/// short of it by less than one unit for each payment.
pub proof fn law_chunks_add_up(value: Balance, chunks: u32)
    requires
        chunks > 0,
    ensures
        0 <= chunk_of(value, chunks) <= value,
        chunk_of(value, chunks) * chunks <= value,
        value - chunk_of(value, chunks) * chunks < chunks,
{
    vstd::arithmetic::div_mod::lemma_fundamental_div_mod(value as int, chunks as int);
    let chunk = chunk_of(value, chunks);
    assert(chunk * chunks == chunks * chunk) by (nonlinear_arith);
    assert(0 <= (value as int) % (chunks as int) && (value as int) % (chunks as int) < chunks);
    assert(0 <= chunk <= value) by (nonlinear_arith)
        requires
            chunk == value as int / chunks as int,
            chunks > 0,
            value >= 0,
    ;
}

/// The proposal of a request asks for as many payments as it is still owed.
pub proof fn law_request_fits(
    constants: Constants,
    n: BlockNumber,
    proposer: AccountId,
    value: Balance,
    beneficiary: AccountId,
    chunks: u32,
)
    ensures
        occurrences_fit(
            request_of(constants, n, proposer, value, beneficiary, chunks).proposal,
        ),
{
}

/// A proposal that was made is found under the index that was announced, on the list of the
/// proposals or on the waiting list, and every other one stays as it is.
pub proof fn law_recorded_is_found(
    state: State,
    request: ProposalRequest,
    other: ProposalIndex,
)
    requires
        0 <= state.next_index(request.waiting) < ProposalIndex::MAX,
    ensures
        ({
            let index = state.next_index(request.waiting) as ProposalIndex;
            let after = state.recorded(request);
            let (list, list_after, kept, kept_after) = if request.waiting {
                (
                    state.waiting_proposals,
                    after.waiting_proposals,
                    state.proposals,
                    after.proposals,
                )
            } else {
                (
                    state.proposals,
                    after.proposals,
                    state.waiting_proposals,
                    after.waiting_proposals,
                )
            };
            &&& state.recorded_event(request) == if request.waiting {
                Event::WaitingProposed(index)
            } else {
                Event::Proposed(index)
            }
            &&& list_after.contains_key(index)
            &&& list_after[index] == request.proposal
            &&& other != index ==> {
                &&& list_after.contains_key(other) == list.contains_key(other)
                &&& list.contains_key(other) ==> list_after[other] == list[other]
            }
            &&& kept_after == kept
            &&& after.approvals == state.approvals
        }),
{
}

/// A rejection asks to slash what was reserved for the proposal, from the one who made it.
pub proof fn law_rejection_slashes_the_deposit(
    state: State,
    constants: Constants,
    n: BlockNumber,
    proposer: AccountId,
    value: Balance,
    beneficiary: AccountId,
    chunks: u32,
)
    requires
        0 <= state.proposal_count < ProposalIndex::MAX,
        !has_to_wait(constants, n),
    ensures
        ({
            let request = request_of(constants, n, proposer, value, beneficiary, chunks);
            let index = state.proposal_count as ProposalIndex;
            let amount = bond_of(constants, value) as Balance;
            &&& request.reserve == Action::Reserve { who: proposer, amount }
            &&& state.recorded(request).rejection(true, index) == Ok::<Action, DispatchError>(
                Action::SlashReserved { who: proposer, amount },
            )
        }),
{
}

/// A rejected proposal is gone: it can be neither rejected again nor approved.
pub proof fn law_rejected_is_gone(state: State, max_approvals: u32, index: ProposalIndex)
    ensures
        ({
            let invalid = DispatchError::Module(Error::InvalidIndex);
            &&& state.rejected(index).rejection(true, index) == Err::<Action, DispatchError>(
                invalid,
            )
            &&& state.rejected(index).approval(max_approvals, true, index) == Err::<
                (),
                DispatchError,
            >(invalid)
        }),
{
}

/// A proposal on the waiting list can be neither approved nor rejected before it is taken up.
pub proof fn law_waiting_cannot_be_decided(
    state: State,
    max_approvals: u32,
    request: ProposalRequest,
    index: ProposalIndex,
)
    requires
        request.waiting,
    ensures
        state.recorded(request).rejection(true, index) == state.rejection(true, index),
        state.recorded(request).approval(max_approvals, true, index) == state.approval(
            max_approvals,
            true,
            index,
        ),
{
}

/// A bond is the minimum, or more than that and then the integer nearest to the fraction of the
/// value that has to be bonded. It is the minimum only where that integer is no more.
pub proof fn law_bond_is_exact(constants: Constants, value: Balance)
    ensures
        ({
            let minimum = constants.proposal_bond_minimum;
            let parts = constants.proposal_bond;
            let bond = bond_of(constants, value);
            &&& minimum <= bond
            &&& bond > minimum && parts <= 1_000_000 ==> -500_000 <= 1_000_000 * bond - value
                * parts && 1_000_000 * bond - value * parts < 500_000
            &&& bond > minimum && parts >= 1_000_000 ==> bond == value
            &&& bond == minimum && parts <= 1_000_000 ==> -500_000 <= 1_000_000 * minimum - value
                * parts
            &&& bond == minimum && parts >= 1_000_000 ==> value <= minimum
        }),
{
    law_share_is_nearest(constants.proposal_bond, value as int);
}

/// A request is for what was asked: the one who asks and the one who is to be paid, as many
/// payments as were named, which together come to the value or fall short of it by less than one
/// unit each (one payment of all of it where none were named), and a deposit that is reserved
/// from the one who asks. Nothing of this depends on the block at which the request is made.
pub proof fn law_request_is_what_was_asked(
    constants: Constants,
    n: BlockNumber,
    m: BlockNumber,
    proposer: AccountId,
    value: Balance,
    beneficiary: AccountId,
    chunks: u32,
)
    ensures
        ({
            let request = request_of(constants, n, proposer, value, beneficiary, chunks);
            let elsewhen = request_of(constants, m, proposer, value, beneficiary, chunks);
            let made = request.proposal;
            let minimum = constants.proposal_bond_minimum;
            let parts = constants.proposal_bond;
            &&& made.proposer == proposer
            &&& made.beneficiary == beneficiary
            &&& made.occurs == chunks
            &&& made.remaining_occurs == chunks
            &&& chunks > 0 ==> made.value * chunks <= value && value < made.value * chunks + chunks
            &&& chunks == 0 ==> made.value == value
            &&& minimum <= made.bond
            &&& made.bond > minimum && parts <= 1_000_000 ==> -500_000 <= 1_000_000 * made.bond
                - value * parts && 1_000_000 * made.bond - value * parts < 500_000
            &&& made.bond > minimum && parts >= 1_000_000 ==> made.bond == value
            &&& made.bond == minimum && parts <= 1_000_000 ==> -500_000 <= 1_000_000 * minimum
                - value * parts
            &&& made.bond == minimum && parts >= 1_000_000 ==> value <= minimum
            &&& request.reserve == Action::Reserve { who: proposer, amount: made.bond }
            &&& elsewhen.proposal == made
            &&& elsewhen.reserve == request.reserve
        }),
{
    law_bond_bounds(constants, value);
    law_bond_is_exact(constants, value);
    if chunks > 0 {
        law_chunks_add_up(value, chunks);
    }
}

/// Block `i` of any spend period takes a proposal up at once if it is among the first blocks that
/// are set apart for that, and makes it wait otherwise.
pub proof fn law_late_requests_wait(
    constants: Constants,
    n: BlockNumber,
    period: int,
    i: int,
    proposer: AccountId,
    value: Balance,
    beneficiary: AccountId,
    chunks: u32,
)
    requires
        0 <= period,
        0 <= i < constants.spend_period,
        n == period * constants.spend_period + i,
    ensures
        request_of(constants, n, proposer, value, beneficiary, chunks).waiting <==> i
            >= constants.allowed_proposal_period,
{
    vstd::arithmetic::div_mod::lemma_fundamental_div_mod_converse(
        n as int,
        constants.spend_period as int,
        period,
        i,
    );
}

/// A proposal that need not wait is put on the list of proposals, under the number of proposals
/// that there were, and nothing else changes.
pub proof fn law_recorded_at_once(state: State, request: ProposalRequest, other: ProposalIndex)
    requires
        0 <= state.proposal_count < ProposalIndex::MAX,
        !request.waiting,
    ensures
        ({
            let after = state.recorded(request);
            let index = state.proposal_count as ProposalIndex;
            &&& state.recorded_event(request) == Event::Proposed(index)
            &&& after.proposal_count == state.proposal_count + 1
            &&& after.proposals.contains_key(index)
            &&& after.proposals[index] == request.proposal
            &&& other != index ==> {
                &&& after.proposals.contains_key(other) == state.proposals.contains_key(other)
                &&& state.proposals.contains_key(other) ==> after.proposals[other]
                    == state.proposals[other]
            }
            &&& after.waiting_proposal_count == state.waiting_proposal_count
            &&& after.waiting_proposals == state.waiting_proposals
            &&& after.approvals == state.approvals
        }),
{
}

/// A proposal that has to wait is put on the waiting list, under the next index there, and nothing
/// else changes.
pub proof fn law_recorded_to_wait(state: State, request: ProposalRequest, other: ProposalIndex)
    requires
        0 <= state.waiting_proposal_count < ProposalIndex::MAX,
        request.waiting,
    ensures
        ({
            let after = state.recorded(request);
            let index = state.waiting_proposal_count as ProposalIndex;
            &&& state.recorded_event(request) == Event::WaitingProposed(index)
            &&& after.waiting_proposal_count == state.waiting_proposal_count + 1
            &&& after.waiting_proposals.contains_key(index)
            &&& after.waiting_proposals[index] == request.proposal
            &&& other != index ==> {
                &&& after.waiting_proposals.contains_key(other)
                    == state.waiting_proposals.contains_key(other)
                &&& state.waiting_proposals.contains_key(other) ==> after.waiting_proposals[other]
                    == state.waiting_proposals[other]
            }
            &&& after.proposal_count == state.proposal_count
            &&& after.proposals == state.proposals
            &&& after.approvals == state.approvals
        }),
{
}

/// A rejection by one who may reject asks to slash the deposit of the proposal at that index from
/// the one who made it, whichever proposal it is. It is refused if and only if it comes from
/// elsewhere, or there is no proposal at that index.
pub proof fn law_rejection_slashes_the_proposer(state: State, allowed: bool, index: ProposalIndex)
    ensures
        !allowed ==> state.rejection(allowed, index) == Err::<Action, DispatchError>(
            DispatchError::BadOrigin,
        ),
        allowed && !state.proposals.contains_key(index) ==> state.rejection(allowed, index)
            == Err::<Action, DispatchError>(DispatchError::Module(Error::InvalidIndex)),
        allowed && state.proposals.contains_key(index) ==> state.rejection(allowed, index) == Ok::<
            Action,
            DispatchError,
        >(
            Action::SlashReserved {
                who: state.proposals[index].proposer,
                amount: state.proposals[index].bond,
            },
        ),
{
}

/// A rejection takes the proposal off the list, and changes nothing else.
pub proof fn law_rejected_changes_one(state: State, index: ProposalIndex, other: ProposalIndex)
    ensures
        ({
            let after = state.rejected(index);
            &&& !after.proposals.contains_key(index)
            &&& other != index ==> {
                &&& after.proposals.contains_key(other) == state.proposals.contains_key(other)
                &&& state.proposals.contains_key(other) ==> after.proposals[other]
                    == state.proposals[other]
            }
            &&& after.proposal_count == state.proposal_count
            &&& after.waiting_proposal_count == state.waiting_proposal_count
            &&& after.waiting_proposals == state.waiting_proposals
            &&& after.approvals == state.approvals
        }),
{
}

/// An approval by one who may approve is accepted if and only if there is a proposal at that index
/// and room in the queue.
pub proof fn law_approval_answers(
    state: State,
    max_approvals: u32,
    allowed: bool,
    index: ProposalIndex,
)
    ensures
        ({
            let answer = state.approval(max_approvals, allowed, index);
            let stands = state.proposals.contains_key(index);
            let room = state.approvals.len() < max_approvals;
            &&& answer is Ok <==> allowed && stands && room
            &&& !allowed ==> answer == Err::<(), DispatchError>(DispatchError::BadOrigin)
            &&& allowed && !stands ==> answer == Err::<(), DispatchError>(
                DispatchError::Module(Error::InvalidIndex),
            )
            &&& allowed && stands && !room ==> answer == Err::<(), DispatchError>(
                DispatchError::Module(Error::TooManyApprovals),
            )
        }),
{
}

/// An approval puts the index at the end of the queue, whichever proposal it is, and changes
/// nothing else.
pub proof fn law_approved_joins_the_queue(state: State, index: ProposalIndex)
    ensures
        ({
            let after = state.approved(index);
            let before = state.approvals.len() as int;
            &&& after.approvals.len() == before + 1
            &&& after.approvals[before] == index
            &&& forall|i: int|
                0 <= i < before ==> #[trigger] after.approvals[i] == state.approvals[i]
            &&& after.proposals == state.proposals
            &&& after.proposal_count == state.proposal_count
            &&& after.waiting_proposals == state.waiting_proposals
            &&& after.waiting_proposal_count == state.waiting_proposal_count
        }),
{
}

/// Making a proposal keeps the treasury valid.
pub proof fn law_recorded_keeps_wf(state: State, max_approvals: u32, request: ProposalRequest)
    requires
        state.wf(max_approvals),
        occurrences_fit(request.proposal),
        state.next_index(request.waiting) < ProposalIndex::MAX,
    ensures
        state.recorded(request).wf(max_approvals),
{
    let after = state.recorded(request);
    assert forall|index: ProposalIndex| #[trigger] after.proposals.contains_key(index) implies index
        < after.proposal_count && occurrences_fit(after.proposals[index]) by {
        if !(!request.waiting && index == state.proposal_count) {
            assert(state.proposals.contains_key(index));
        }
    }
    assert forall|index: ProposalIndex| #[trigger]
        after.waiting_proposals.contains_key(index) implies index < after.waiting_proposal_count
        && occurrences_fit(after.waiting_proposals[index]) by {
        if !(request.waiting && index == state.waiting_proposal_count) {
            assert(state.waiting_proposals.contains_key(index));
        }
    }
}

/// Rejecting a proposal keeps the treasury valid.
pub proof fn law_rejected_keeps_wf(state: State, max_approvals: u32, index: ProposalIndex)
    requires
        state.wf(max_approvals),
    ensures
        state.rejected(index).wf(max_approvals),
{
    let after = state.rejected(index);
    assert forall|i: ProposalIndex| #[trigger] after.proposals.contains_key(i) implies i
        < after.proposal_count && occurrences_fit(after.proposals[i]) by {
        assert(state.proposals.contains_key(i));
    }
}

/// Approving a proposal keeps the treasury valid.
pub proof fn law_approved_keeps_wf(state: State, max_approvals: u32, index: ProposalIndex)
    requires
        state.wf(max_approvals),
        state.approval(max_approvals, true, index) is Ok,
    ensures
        state.approved(index).wf(max_approvals),
{
    let after = state.approved(index);
    assert forall|i: int| 0 <= i < after.approvals.len() implies #[trigger] after.approvals[i]
        < after.proposal_count by {
        if i < state.approvals.len() {
            assert(after.approvals[i] == state.approvals[i]);
        }
    }
}

impl<T: Config> Pallet<T> {
    /// The needed bond for a proposal whose spend is `value`.
    pub fn calculate_bond(&self, value: Balance) -> (bond: Balance)
        ensures
            bond == bond_of(self.constants, value),
    {
        let share = permill_mul(self.constants.proposal_bond, value);
        if share > self.constants.proposal_bond_minimum {
            share
        } else {
            self.constants.proposal_bond_minimum
        }
    }

    /// Put forward a suggestion for spending. A deposit proportional to the value
    /// is reserved and slashed if the proposal is rejected. It is returned once the
    /// proposal is awarded.
    ///
    /// This is the first step, which says what is to be reserved. What became of that is handed to
    /// `record_proposal`. `signer` is the account that signed the request, and `beneficiary` the
    /// account that the named beneficiary stands for, if there is one.
    pub fn propose_spend(
        &self,
        current_block: BlockNumber,
        signer: Option<AccountId>,
        value: Balance,
        beneficiary: Option<AccountId>,
        chunks: u32,
    ) -> (result: Result<ProposalRequest, DispatchError>)
        requires
            signer is Some && beneficiary is Some ==> self.constants.spend_period != 0,
        ensures
            result == match (signer, beneficiary) {
                (None, _) => Err(DispatchError::BadOrigin),
                (Some(_), None) => Err(DispatchError::CannotLookup),
                (Some(proposer), Some(beneficiary)) => Ok(
                    request_of(
                        self.constants,
                        current_block,
                        proposer,
                        value,
                        beneficiary,
                        chunks,
                    ),
                ),
            },
    {
        let proposer = match signer {
            Some(proposer) => proposer,
            None => return Err(DispatchError::BadOrigin),
        };
        let beneficiary = match beneficiary {
            Some(beneficiary) => beneficiary,
            None => return Err(DispatchError::CannotLookup),
        };
        let waiting = current_block % self.constants.spend_period
            >= self.constants.allowed_proposal_period;
        let chunk: Balance = if chunks > 0 {
            value / chunks as Balance
        } else {
            value
        };
        let bond = self.calculate_bond(value);
        Ok(
            ProposalRequest {
                reserve: Action::Reserve { who: proposer, amount: bond },
                proposal: Proposal {
                    proposer,
                    value: chunk,
                    beneficiary,
                    bond,
                    occurs: chunks,
                    remaining_occurs: chunks,
                },
                waiting,
            },
        )
    }

    /// The second step of putting forward a suggestion: `reserved` says whether the deposit could
    /// be reserved. If so the proposal is made, or put on the waiting list.
    pub fn record_proposal(&mut self, request: ProposalRequest, reserved: bool) -> (result: Result<
        Vec<Action>,
        DispatchError,
    >)
        requires
            reserved ==> old(self)@.next_index(request.waiting) < ProposalIndex::MAX,
        ensures
            final(self).constants == old(self).constants,
            old(self).wf() && occurrences_fit(request.proposal) ==> final(self).wf(),
            match result {
                Ok(actions) => {
                    &&& reserved
                    &&& final(self)@ == old(self)@.recorded(request)
                    &&& actions@ == seq![
                        Action::DepositEvent(old(self)@.recorded_event(request)),
                    ]
                },
                Err(error) => {
                    &&& !reserved
                    &&& final(self)@ == old(self)@
                    &&& error == DispatchError::Module(Error::InsufficientProposersBalance)
                },
            },
    {
        if !reserved {
            return Err(DispatchError::Module(Error::InsufficientProposersBalance));
        }
        let mut actions: Vec<Action> = Vec::new();
        if request.waiting {
            let index = self.waiting_proposal_count;
            self.waiting_proposal_count = index + 1;
            self.waiting_proposals.insert(index, request.proposal);
            actions.push(Action::DepositEvent(Event::WaitingProposed(index)));
        } else {
            let index = self.proposal_count;
            self.proposal_count = index + 1;
            self.proposals.insert(index, request.proposal);
            actions.push(Action::DepositEvent(Event::Proposed(index)));
        }
        assert(self@ =~= old(self)@.recorded(request));
        proof {
            if old(self).wf() && occurrences_fit(request.proposal) {
                law_recorded_keeps_wf(old(self)@, self.constants.max_approvals, request);
            }
        }
        Ok(actions)
    }

    /// Reject a proposed spend. The original deposit will be slashed. `allowed` says whether the
    /// request comes from whom rejections must come.
    ///
    /// This is the first step, which says what is to be slashed. How much of it could be slashed is
    /// handed to `record_rejection`.
    pub fn reject_proposal(&mut self, allowed: bool, proposal_id: ProposalIndex) -> (result: Result<
        Action,
        DispatchError,
    >)
        ensures
            final(self).constants == old(self).constants,
            old(self).wf() ==> final(self).wf(),
            result == old(self)@.rejection(allowed, proposal_id),
            final(self)@ == if result is Ok {
                old(self)@.rejected(proposal_id)
            } else {
                old(self)@
            },
    {
        if !allowed {
            return Err(DispatchError::BadOrigin);
        }
        match self.proposals.remove(&proposal_id) {
            Some(proposal) => {
                assert(self@ =~= old(self)@.rejected(proposal_id));
                proof {
                    if old(self).wf() {
                        let max_approvals = self.constants.max_approvals;
                        law_rejected_keeps_wf(old(self)@, max_approvals, proposal_id);
                    }
                }
                Ok(Action::SlashReserved { who: proposal.proposer, amount: proposal.bond })
            },
            None => {
                assert(self@ =~= old(self)@);
                Err(DispatchError::Module(Error::InvalidIndex))
            },
        }
    }

    /// The second step of a rejection, which announces it: `slashed` is how much was slashed. That
    /// is less than the bond where the proposer has less in reserve, as when a payment was already
    /// made and the bond went back with it.
    pub fn record_rejection(&self, proposal_id: ProposalIndex, slashed: Balance) -> (actions: Vec<
        Action,
    >)
        ensures
            actions@ == seq![Action::DepositEvent(Event::Rejected(proposal_id, slashed))],
    {
        let mut actions: Vec<Action> = Vec::new();
        actions.push(Action::DepositEvent(Event::Rejected(proposal_id, slashed)));
        assert(actions@ =~= seq![Action::DepositEvent(Event::Rejected(proposal_id, slashed))]);
        actions
    }

    /// Approve a proposal. At a later time, the proposal will be allocated to the beneficiary
    /// and the original deposit will be returned. `allowed` says whether the request comes from
    /// whom approvals must come.
    pub fn approve_proposal(&mut self, allowed: bool, proposal_id: ProposalIndex) -> (result:
        Result<(), DispatchError>)
        ensures
            final(self).constants == old(self).constants,
            old(self).wf() ==> final(self).wf(),
            result == old(self)@.approval(
                old(self).constants.max_approvals,
                allowed,
                proposal_id,
            ),
            final(self)@ == if result is Ok {
                old(self)@.approved(proposal_id)
            } else {
                old(self)@
            },
    {
        if !allowed {
            return Err(DispatchError::BadOrigin);
        }
        if !self.proposals.contains_key(&proposal_id) {
            return Err(DispatchError::Module(Error::InvalidIndex));
        }
        if self.approvals.len() >= self.constants.max_approvals as usize {
            return Err(DispatchError::Module(Error::TooManyApprovals));
        }
        self.approvals.push(proposal_id);
        assert(self@ =~= old(self)@.approved(proposal_id));
        proof {
            if old(self).wf() {
                law_approved_keeps_wf(old(self)@, self.constants.max_approvals, proposal_id);
            }
        }
        Ok(())
    }

    /// The index that the next waiting proposal gets. A spend that finds it above zero lowers it by
    /// one.
    pub fn waiting_proposal_count(&self) -> (count: ProposalIndex)
        ensures
            count == self@.waiting_proposal_count,
    {
        self.waiting_proposal_count
    }

    /// The waiting proposal at an index.
    pub fn waiting_proposals(&self, index: ProposalIndex) -> (proposal: Option<ProposalOf>)
        ensures
            proposal == if self@.waiting_proposals.contains_key(index) {
                Some(self@.waiting_proposals[index])
            } else {
                None
            },
    {
        match self.waiting_proposals.get(&index) {
            Some(proposal) => Some(*proposal),
            None => None,
        }
    }

    /// Number of proposals that have been made.
    pub fn proposal_count(&self) -> (count: ProposalIndex)
        ensures
            count == self@.proposal_count,
    {
        self.proposal_count
    }

    /// The proposal at an index.
    pub fn proposals(&self, index: ProposalIndex) -> (proposal: Option<ProposalOf>)
        ensures
            proposal == if self@.proposals.contains_key(index) {
                Some(self@.proposals[index])
            } else {
                None
            },
    {
        match self.proposals.get(&index) {
            Some(proposal) => Some(*proposal),
            None => None,
        }
    }

    /// Proposal indices that have been approved but not yet awarded.
    pub fn approvals(&self) -> (approvals: &Vec<ProposalIndex>)
        ensures
            approvals@ == self@.approvals,
    {
        &self.approvals
    }

    /// Takes in an imbalance of `amount` that some other part of the chain has left over, such as
    /// a fee or a slash.
    pub fn on_nonzero_unbalanced(&self, amount: Balance) -> (actions: Vec<Action>)
        ensures
            actions@ == seq![
                Action::ResolveCreating { who: account_of(self.constants.pallet_id), amount },
                Action::DepositEvent(Event::Deposit(amount)),
            ],
    {
        let mut actions: Vec<Action> = Vec::new();
        actions.push(Action::ResolveCreating { who: self.account_id(), amount });
        actions.push(Action::DepositEvent(Event::Deposit(amount)));
        assert(actions@ =~= seq![
            Action::ResolveCreating { who: account_of(self.constants.pallet_id), amount },
            Action::DepositEvent(Event::Deposit(amount)),
        ]);
        actions
    }
}

} // verus!
