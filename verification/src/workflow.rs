//! The lifecycle of one transfer as a state machine. The caller does the
//! outside work that each action names (one request to the node or to the
//! signer) and hands the outcome back as an event.

use vstd::prelude::*;
use crate::address::Address;
use crate::config::TransferConfig;
use crate::fees::{base_fee_or_zero, checked_compute, fee_model, fees_fit, GasFeeParameters};
use crate::transaction::{
    build_final, build_probe, completes, FinalTransaction, ProbeTransaction, Receipt,
    SignedTransaction, TransactionHash,
};
use crate::uint256::{lemma_uint256_in_range, max_uint256, Uint256};

verus! {

/// Why a transfer was given up.
#[derive(Debug, PartialEq, Eq)]
pub enum TransferError {
    /// The node refused to estimate the gas: the transfer would revert.
    EstimationFailed,
    /// The fee ceiling or the worst-case total leaves 256 bits.
    FeesOutOfRange,
    /// The signer refused the transaction.
    SigningFailed,
    /// The node refused the signed transaction, with its reason.
    BroadcastRejected(String),
    /// A request did not reach the node, or its answer did not arrive.
    NetworkUnavailable,
    /// An event came that answers no request of the current state.
    UnexpectedEvent,
}

/// Where a transfer stands.
#[derive(Debug, PartialEq, Eq)]
pub enum State {
    /// The probe is built; a gas estimate is awaited.
    Built { probe: ProbeTransaction, chain_id: u64, priority_fee: Uint256, nonce: Option<Uint256> },
    /// The gas is estimated; the latest block is awaited.
    Estimated {
        probe: ProbeTransaction,
        chain_id: u64,
        priority_fee: Uint256,
        nonce: Option<Uint256>,
        gas_limit: Uint256,
    },
    /// The fees are computed and the final transaction is built; the
    /// signature is awaited.
    FeesComputed { transaction: FinalTransaction, chain_id: u64, fees: GasFeeParameters },
    /// The transaction is signed; the node's answer to the broadcast is awaited.
    Signed,
    /// The node took the transaction; its receipt is awaited.
    Broadcast { hash: TransactionHash },
    /// The transaction is included.
    Confirmed { receipt: Receipt },
    /// The transfer was given up.
    Failed { reason: TransferError },
}

/// What the outside work came to.
#[derive(Debug, PartialEq, Eq)]
pub enum Event {
    /// The node estimated the gas.
    GasEstimated(Uint256),
    /// The node refused to estimate the gas.
    EstimationRejected,
    /// The node gave its latest block, with the base fee where the block has one.
    LatestBlock { base_fee_per_gas: Option<Uint256> },
    /// The signer signed the transaction.
    Signed(SignedTransaction),
    /// The signer refused the transaction.
    SigningRejected,
    /// The node took the signed transaction into its pool.
    BroadcastAccepted(TransactionHash),
    /// The node refused the signed transaction.
    BroadcastRejected(String),
    /// The node has a receipt for the transaction.
    ReceiptObserved(Receipt),
    /// The node has no receipt yet.
    ReceiptPending,
    /// The request failed in transport.
    TransportFailed,
}

/// The outside work to do next.
#[derive(Debug, PartialEq, Eq)]
pub enum Action {
    /// Ask the node for a gas estimate of the probe.
    EstimateGas(ProbeTransaction),
    /// Ask the node for its latest block.
    FetchLatestBlock,
    /// Ask the signer to sign the transaction for the chain.
    Sign { transaction: FinalTransaction, chain_id: u64 },
    /// Send the signed transaction to the node.
    Broadcast(SignedTransaction),
    /// Ask the node for the receipt.
    AwaitReceipt(TransactionHash),
    /// Nothing more: the transfer is confirmed.
    Complete,
    /// Nothing more: the transfer has failed.
    Abort,
}

/// The progress of a state: 0 for `Built` up to 5 for `Confirmed`, and 6 for
/// `Failed`, which any state may lead to and none leaves.
pub open spec fn stage(state: State) -> int {
    match state {
        State::Built { .. } => 0,
        State::Estimated { .. } => 1,
        State::FeesComputed { .. } => 2,
        State::Signed => 3,
        State::Broadcast { .. } => 4,
        State::Confirmed { .. } => 5,
        State::Failed { .. } => 6,
    }
}

/// Whether nothing follows the state.
pub open spec fn is_terminal(state: State) -> bool {
    state is Confirmed || state is Failed
}

/// Whether the transfer goes to `Failed` for `reason` and stops.
pub open spec fn gives_up(next: State, action: Action, reason: TransferError) -> bool {
    next == (State::Failed { reason }) && action == Action::Abort
}

/// The transition relation: whether `state`, on `event`, goes to `next` and
/// asks for `action`.
///
/// Each state awaits the outcome of one request. Its good outcome leads to the
/// next state and the next request; the request's refusal and a transport
/// failure lead to `Failed`, and so does an event that answers another
/// request. `Broadcast` stays where it is while the receipt is pending.
/// `Confirmed` and `Failed` stay where they are whatever comes.
pub open spec fn is_transition(state: State, event: Event, next: State, action: Action) -> bool {
    match state {
        State::Built { probe, chain_id, priority_fee, nonce } => match event {
            Event::GasEstimated(gas_limit) => {
                &&& next == (State::Estimated { probe, chain_id, priority_fee, nonce, gas_limit })
                &&& action == Action::FetchLatestBlock
            },
            Event::EstimationRejected => gives_up(next, action, TransferError::EstimationFailed),
            Event::TransportFailed => gives_up(next, action, TransferError::NetworkUnavailable),
            _ => gives_up(next, action, TransferError::UnexpectedEvent),
        },
        State::Estimated { probe, chain_id, priority_fee, nonce, gas_limit } => match event {
            Event::LatestBlock { base_fee_per_gas } => {
                if fees_fit(base_fee_or_zero(base_fee_per_gas), gas_limit@, priority_fee@) {
                    &&& next matches State::FeesComputed { transaction, chain_id: signed_for, fees }
                    &&& signed_for == chain_id
                    &&& fees@ == fee_model(
                        base_fee_or_zero(base_fee_per_gas),
                        gas_limit@,
                        priority_fee@,
                    )
                    &&& completes(transaction, probe, fees, nonce)
                    &&& action == (Action::Sign { transaction, chain_id })
                } else {
                    gives_up(next, action, TransferError::FeesOutOfRange)
                }
            },
            Event::TransportFailed => gives_up(next, action, TransferError::NetworkUnavailable),
            _ => gives_up(next, action, TransferError::UnexpectedEvent),
        },
        State::FeesComputed { .. } => match event {
            Event::Signed(signed) => next == State::Signed && action == Action::Broadcast(signed),
            Event::SigningRejected => gives_up(next, action, TransferError::SigningFailed),
            Event::TransportFailed => gives_up(next, action, TransferError::NetworkUnavailable),
            _ => gives_up(next, action, TransferError::UnexpectedEvent),
        },
        State::Signed => match event {
            Event::BroadcastAccepted(hash) => {
                &&& next == (State::Broadcast { hash })
                &&& action == Action::AwaitReceipt(hash)
            },
            Event::BroadcastRejected(detail) => gives_up(
                next,
                action,
                TransferError::BroadcastRejected(detail),
            ),
            Event::TransportFailed => gives_up(next, action, TransferError::NetworkUnavailable),
            _ => gives_up(next, action, TransferError::UnexpectedEvent),
        },
        State::Broadcast { hash } => match event {
            Event::ReceiptObserved(receipt) => {
                &&& next == (State::Confirmed { receipt })
                &&& action == Action::Complete
            },
            Event::ReceiptPending => next == state && action == Action::AwaitReceipt(hash),
            Event::TransportFailed => gives_up(next, action, TransferError::NetworkUnavailable),
            _ => gives_up(next, action, TransferError::UnexpectedEvent),
        },
        State::Confirmed { .. } => next == state && action == Action::Complete,
        State::Failed { .. } => next == state && action == Action::Abort,
    }
}

/// Whether the three sequences are a run of the machine: each event leads
/// from one state to the next and asks for the action at its place.
pub open spec fn is_run(states: Seq<State>, events: Seq<Event>, actions: Seq<Action>) -> bool {
    &&& states.len() == events.len() + 1
    &&& actions.len() == events.len()
    &&& forall|i: int|
        0 <= i < events.len() ==> is_transition(
            #[trigger] states[i],
            events[i],
            states[i + 1],
            actions[i],
        )
}

/// `Failed` for `reason`, and the action that stops.
fn give_up(reason: TransferError) -> (r: (State, Action))
    ensures
        gives_up(r.0, r.1, reason),
{
    (State::Failed { reason }, Action::Abort)
}

/// Opens a transfer of the configured amount from `sender` to the configured
/// recipient: builds the probe and asks for its gas estimate.
pub fn start(
    config: &TransferConfig,
    sender: Address,
    priority_fee: Uint256,
    nonce: Option<Uint256>,
) -> (r: (State, Action))
    ensures
        r.0 matches State::Built { probe, chain_id, priority_fee: tip, nonce: first } && {
            &&& probe.from == sender
            &&& probe.to@ == config@.recipient
            &&& probe.value@ == config@.amount
            &&& chain_id == config@.chain_id
            &&& tip == priority_fee
            &&& first == nonce
            &&& r.1 == Action::EstimateGas(probe)
        },
{
    let probe = build_probe(sender, config.recipient(), config.amount());
    (
        State::Built { probe, chain_id: config.chain_id(), priority_fee, nonce },
        Action::EstimateGas(probe),
    )
}

/// Takes one event: gives the state that follows and the work to do next.
pub fn step(state: State, event: Event) -> (r: (State, Action))
    ensures
        is_transition(state, event, r.0, r.1),
{
    match state {
        State::Built { probe, chain_id, priority_fee, nonce } => match event {
            Event::GasEstimated(gas_limit) => (
                State::Estimated { probe, chain_id, priority_fee, nonce, gas_limit },
                Action::FetchLatestBlock,
            ),
            Event::EstimationRejected => give_up(TransferError::EstimationFailed),
            Event::TransportFailed => give_up(TransferError::NetworkUnavailable),
            _ => give_up(TransferError::UnexpectedEvent),
        },
        State::Estimated { probe, chain_id, priority_fee, nonce, gas_limit } => match event {
            Event::LatestBlock { base_fee_per_gas } => {
                match checked_compute(base_fee_per_gas, gas_limit, priority_fee) {
                    Some(fees) => {
                        let transaction = build_final(&probe, &fees, nonce);
                        (
                            State::FeesComputed { transaction, chain_id, fees },
                            Action::Sign { transaction, chain_id },
                        )
                    },
                    None => give_up(TransferError::FeesOutOfRange),
                }
            },
            Event::TransportFailed => give_up(TransferError::NetworkUnavailable),
            _ => give_up(TransferError::UnexpectedEvent),
        },
        State::FeesComputed { .. } => match event {
            Event::Signed(signed) => (State::Signed, Action::Broadcast(signed)),
            Event::SigningRejected => give_up(TransferError::SigningFailed),
            Event::TransportFailed => give_up(TransferError::NetworkUnavailable),
            _ => give_up(TransferError::UnexpectedEvent),
        },
        State::Signed => match event {
            Event::BroadcastAccepted(hash) => (
                State::Broadcast { hash },
                Action::AwaitReceipt(hash),
            ),
            Event::BroadcastRejected(detail) => give_up(TransferError::BroadcastRejected(detail)),
            Event::TransportFailed => give_up(TransferError::NetworkUnavailable),
            _ => give_up(TransferError::UnexpectedEvent),
        },
        State::Broadcast { hash } => match event {
            Event::ReceiptObserved(receipt) => (State::Confirmed { receipt }, Action::Complete),
            Event::ReceiptPending => (State::Broadcast { hash }, Action::AwaitReceipt(hash)),
            Event::TransportFailed => give_up(TransferError::NetworkUnavailable),
            _ => give_up(TransferError::UnexpectedEvent),
        },
        State::Confirmed { receipt } => (State::Confirmed { receipt }, Action::Complete),
        State::Failed { reason } => (State::Failed { reason }, Action::Abort),
    }
}

/// The result of a transfer that has ended: the receipt, or why it was given
/// up. `None` while the transfer is under way.
pub fn outcome(state: State) -> (r: Option<Result<Receipt, TransferError>>)
    ensures
        r == (match state {
            State::Confirmed { receipt } => Some(Ok::<Receipt, TransferError>(receipt)),
            State::Failed { reason } => Some(Err::<Receipt, TransferError>(reason)),
            _ => None,
        }),
{
    match state {
        State::Confirmed { receipt } => Some(Ok(receipt)),
        State::Failed { reason } => Some(Err(reason)),
        _ => None,
    }
}

/// A transfer that has ended stays as it is, whatever event comes.
pub proof fn law_ended_transfer_stays(state: State, event: Event, next: State, action: Action)
    requires
        is_transition(state, event, next, action),
        is_terminal(state),
    ensures
        next == state,
        !(action is Sign),
        !(action is Broadcast),
        !(action is EstimateGas),
        !(action is FetchLatestBlock),
        !(action is AwaitReceipt),
{
}

/// Every transition either goes one stage forward, or gives the transfer up,
/// or stays: a pending receipt leaves `Broadcast` where it is, and an ended
/// transfer stays ended.
pub proof fn law_stages_in_order(state: State, event: Event, next: State, action: Action)
    requires
        is_transition(state, event, next, action),
    ensures
        next is Failed || stage(next) == stage(state) + 1 || (next == state && (state is Broadcast
            || state is Confirmed)),
{
}

/// Each request is made from one state only: the block is asked for once the
/// gas is estimated, the signature once the fees are computed, the broadcast
/// once the signer has answered with a signed transaction, and the receipt
/// once the node has taken the transaction. No transition asks for a gas
/// estimate again.
pub proof fn law_requests_in_order(state: State, event: Event, next: State, action: Action)
    requires
        is_transition(state, event, next, action),
    ensures
        !(action is EstimateGas),
        action is FetchLatestBlock ==> state is Built && event is GasEstimated && next is Estimated,
        action is Sign ==> state is Estimated && event is LatestBlock && next is FeesComputed,
        action is Broadcast ==> state is FeesComputed && event == Event::Signed(action->Broadcast_0)
            && next is Signed,
        action is AwaitReceipt ==> (state is Signed && event is BroadcastAccepted) || (
        state is Broadcast && event is ReceiptPending),
        action is Complete ==> next is Confirmed,
        action is Abort ==> next is Failed,
{
}

/// The transaction that is handed to the signer carries a ceiling per unit of
/// gas that covers the base fee of the block plus the tip, and it is signed
/// for the chain that the transfer was opened for.
pub proof fn law_signed_transaction_is_covered(
    state: State,
    event: Event,
    next: State,
    action: Action,
)
    requires
        is_transition(state, event, next, action),
        action is Sign,
    ensures
        state matches State::Estimated { chain_id, priority_fee, gas_limit, .. } && event matches Event::LatestBlock {
            base_fee_per_gas,
        } && action matches Action::Sign { transaction, chain_id: signed_for } && {
            &&& signed_for == chain_id
            &&& transaction.gas_limit@ == gas_limit@
            &&& transaction.max_priority_fee_per_gas@ == priority_fee@
            &&& transaction.max_fee_per_gas@ == 2 * base_fee_or_zero(base_fee_per_gas)
                + priority_fee@
            &&& transaction.max_fee_per_gas@ >= base_fee_or_zero(base_fee_per_gas)
                + transaction.max_priority_fee_per_gas@
        },
{
}

/// A block without a base fee does not fail the transfer: the fees are
/// computed with base fee zero, so the ceiling is the tip. (The transfer is
/// given up at this point only where the fees leave 256 bits.)
pub proof fn law_missing_base_fee_is_no_failure(state: State, next: State, action: Action)
    requires
        state matches State::Estimated { priority_fee, gas_limit, .. } && priority_fee@
            * gas_limit@ <= max_uint256(),
        is_transition(state, Event::LatestBlock { base_fee_per_gas: None }, next, action),
    ensures
        next matches State::FeesComputed { transaction, fees, .. } && {
            &&& fees@.base_fee_per_gas == 0
            &&& transaction.max_fee_per_gas@ == transaction.max_priority_fee_per_gas@
            &&& action is Sign
        },
{
    lemma_uint256_in_range(state->Estimated_priority_fee);
}

/// A transport failure ends a transfer that is under way, whatever it is
/// waiting for.
pub proof fn law_transport_failure_ends_transfer(state: State, next: State, action: Action)
    requires
        !is_terminal(state),
        is_transition(state, Event::TransportFailed, next, action),
    ensures
        next == (State::Failed { reason: TransferError::NetworkUnavailable }),
        action == Action::Abort,
{
}

/// A refused gas estimate ends the transfer at once: it fails with
/// `EstimationFailed`, and nothing is signed or broadcast.
pub proof fn law_refused_estimate_ends_transfer(
    state: State,
    next: State,
    action: Action,
)
    requires
        state is Built,
        is_transition(state, Event::EstimationRejected, next, action),
    ensures
        next == (State::Failed { reason: TransferError::EstimationFailed }),
        action == Action::Abort,
{
}

/// The receipt that the node gives for a broadcast transaction is the result
/// of the transfer, unchanged.
pub proof fn law_receipt_is_result(state: State, receipt: Receipt, next: State, action: Action)
    requires
        state is Broadcast,
        is_transition(state, Event::ReceiptObserved(receipt), next, action),
    ensures
        next == (State::Confirmed { receipt }),
        action == Action::Complete,
{
}

/// In a run the transfer never goes back: a later state stands at the same
/// stage as an earlier one or further on.
pub proof fn law_progress_never_returns(
    states: Seq<State>,
    events: Seq<Event>,
    actions: Seq<Action>,
    i: int,
    j: int,
)
    requires
        is_run(states, events, actions),
        0 <= i <= j < states.len(),
    ensures
        stage(states[i]) <= stage(states[j]),
    decreases j - i,
{
    if i < j {
        law_progress_never_returns(states, events, actions, i, j - 1);
        assert(is_transition(states[j - 1], events[j - 1], states[j], actions[j - 1]));
    }
}

/// In a run the block is asked for at most once, the signature at most once,
/// and the signed transaction is broadcast at most once: a broadcast is never
/// made again, whatever the node answers.
pub proof fn law_each_request_made_once(
    states: Seq<State>,
    events: Seq<Event>,
    actions: Seq<Action>,
    i: int,
    j: int,
)
    requires
        is_run(states, events, actions),
        0 <= i < j < actions.len(),
    ensures
        !(actions[i] is FetchLatestBlock && actions[j] is FetchLatestBlock),
        !(actions[i] is Sign && actions[j] is Sign),
        !(actions[i] is Broadcast && actions[j] is Broadcast),
{
    assert(is_transition(states[i], events[i], states[i + 1], actions[i]));
    assert(is_transition(states[j], events[j], states[j + 1], actions[j]));
    law_progress_never_returns(states, events, actions, i + 1, j);
}

/// In a run, once the transfer has failed or is confirmed, every later action
/// is the one that stops: nothing is signed, broadcast or asked of the node.
pub proof fn law_nothing_follows_the_end(
    states: Seq<State>,
    events: Seq<Event>,
    actions: Seq<Action>,
    i: int,
    j: int,
)
    requires
        is_run(states, events, actions),
        0 <= i <= j < actions.len(),
        is_terminal(states[i]),
    ensures
        states[j + 1] == states[i],
        actions[j] is Abort || actions[j] is Complete,
    decreases j - i,
{
    if i < j {
        law_nothing_follows_the_end(states, events, actions, i, j - 1);
    }
    assert(is_transition(states[j], events[j], states[j + 1], actions[j]));
}

} // verus!
