//! The transactions of one transfer: the probe that is sent for a gas
//! estimate, the final transaction that is signed, and what the network
//! answers.

use vstd::prelude::*;
use crate::address::Address;
use crate::fees::GasFeeParameters;
use crate::uint256::Uint256;

verus! {

/// A transfer without gas and fee fields, used only to ask for a gas estimate.
#[derive(Clone, Copy, Debug, PartialEq, Eq)]
pub struct ProbeTransaction {
    pub from: Address,
    pub to: Address,
    pub value: Uint256,
}

/// The transfer that is handed to the signer. A `nonce` of `None` leaves the
/// nonce to the chain.
#[derive(Clone, Copy, Debug, PartialEq, Eq)]
pub struct FinalTransaction {
    pub from: Address,
    pub to: Address,
    pub value: Uint256,
    pub gas_limit: Uint256,
    pub max_fee_per_gas: Uint256,
    pub max_priority_fee_per_gas: Uint256,
    pub nonce: Option<Uint256>,
}

/// A signed transaction, as the bytes that are broadcast.
#[derive(Debug, PartialEq, Eq)]
pub struct SignedTransaction {
    pub payload: Vec<u8>,
}

/// The identifier of a broadcast transaction.
#[derive(Clone, Copy, Debug, PartialEq, Eq)]
pub struct TransactionHash {
    pub bytes: [u8; 32],
}

/// The network's record of an included transaction.
#[derive(Clone, Copy, Debug, PartialEq, Eq)]
pub struct Receipt {
    pub transaction_hash: TransactionHash,
    pub block_number: u64,
    pub succeeded: bool,
    pub gas_used: Uint256,
}

/// Whether `transaction` is the probe with the gas limit and the fees of
/// `fees` and the given nonce.
pub open spec fn completes(
    transaction: FinalTransaction,
    probe: ProbeTransaction,
    fees: GasFeeParameters,
    nonce: Option<Uint256>,
) -> bool {
    &&& transaction.from == probe.from
    &&& transaction.to == probe.to
    &&& transaction.value == probe.value
    &&& transaction.nonce == nonce
    &&& transaction.gas_limit@ == fees@.gas_limit
    &&& transaction.max_fee_per_gas@ == fees@.max_fee_per_gas
    &&& transaction.max_priority_fee_per_gas@ == fees@.max_priority_fee_per_gas
}

/// The probe for a transfer of `value` from `from` to `to`.
pub fn build_probe(from: Address, to: Address, value: Uint256) -> (r: ProbeTransaction)
    ensures
        r == (ProbeTransaction { from, to, value }),
{
    ProbeTransaction { from, to, value }
}

/// The final transaction: the probe's parties and value, with the gas limit
/// and the fees that were computed for it. Its ceiling per unit of gas covers
/// the base fee plus the tip.
pub fn build_final(probe: &ProbeTransaction, fees: &GasFeeParameters, nonce: Option<Uint256>) -> (r:
    FinalTransaction)
    ensures
        completes(r, *probe, *fees, nonce),
        r.max_fee_per_gas@ >= fees@.base_fee_per_gas + r.max_priority_fee_per_gas@,
{
    FinalTransaction {
        from: probe.from,
        to: probe.to,
        value: probe.value,
        gas_limit: fees.gas_limit(),
        max_fee_per_gas: fees.max_fee_per_gas(),
        max_priority_fee_per_gas: fees.max_priority_fee_per_gas(),
        nonce,
    }
}

} // verus!
