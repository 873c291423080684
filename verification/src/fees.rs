//! EIP-1559 fee parameters for one transfer.

use vstd::prelude::*;
use crate::uint256::{max_uint256, Uint256};

verus! {

/// The default tip per unit of gas: one gwei, `10^9` wei.
pub const DEFAULT_PRIORITY_FEE_WEI: u64 = 1_000_000_000;

/// The fee parameters as numbers.
pub struct FeeModel {
    pub base_fee_per_gas: nat,
    pub max_priority_fee_per_gas: nat,
    pub max_fee_per_gas: nat,
    pub gas_limit: nat,
    pub estimated_total_cost: nat,
}

/// The ceiling per unit of gas: twice the base fee, so that the base fee may
/// double before inclusion, plus the tip.
pub open spec fn max_fee_of(base_fee: nat, priority_fee: nat) -> nat {
    2 * base_fee + priority_fee
}

/// The fee parameters for a base fee, a gas limit and a tip. The total is the
/// worst case: every unit of gas charged at the ceiling.
pub open spec fn fee_model(base_fee: nat, gas_limit: nat, priority_fee: nat) -> FeeModel {
    FeeModel {
        base_fee_per_gas: base_fee,
        max_priority_fee_per_gas: priority_fee,
        max_fee_per_gas: max_fee_of(base_fee, priority_fee),
        gas_limit: gas_limit,
        estimated_total_cost: max_fee_of(base_fee, priority_fee) * gas_limit,
    }
}

/// Whether the ceiling and the worst-case total both fit in 256 bits.
pub open spec fn fees_fit(base_fee: nat, gas_limit: nat, priority_fee: nat) -> bool {
    &&& max_fee_of(base_fee, priority_fee) <= max_uint256()
    &&& max_fee_of(base_fee, priority_fee) * gas_limit <= max_uint256()
}

/// The base fee that a block reports, or zero where it reports none.
pub open spec fn base_fee_or_zero(base_fee: Option<Uint256>) -> nat {
    match base_fee {
        Some(b) => b@,
        None => 0,
    }
}

/// Fee parameters of one transfer attempt. Values are made by the calculator
/// only, so the ceiling always covers base fee plus tip.
#[derive(Clone, Copy, Debug, PartialEq, Eq)]
pub struct GasFeeParameters {
    base_fee_per_gas: Uint256,
    max_priority_fee_per_gas: Uint256,
    max_fee_per_gas: Uint256,
    gas_limit: Uint256,
    estimated_total_cost: Uint256,
}

impl View for GasFeeParameters {
    type V = FeeModel;

    closed spec fn view(&self) -> FeeModel {
        FeeModel {
            base_fee_per_gas: self.base_fee_per_gas@,
            max_priority_fee_per_gas: self.max_priority_fee_per_gas@,
            max_fee_per_gas: self.max_fee_per_gas@,
            gas_limit: self.gas_limit@,
            estimated_total_cost: self.estimated_total_cost@,
        }
    }
}

impl GasFeeParameters {
    #[verifier::type_invariant]
    spec fn consistent(self) -> bool {
        self@ == fee_model(self@.base_fee_per_gas, self@.gas_limit, self@.max_priority_fee_per_gas)
    }

    /// The base fee that the parameters were computed from.
    pub fn base_fee_per_gas(&self) -> (r: Uint256)
        ensures
            r@ == self@.base_fee_per_gas,
    {
        self.base_fee_per_gas
    }

    /// The tip per unit of gas.
    pub fn max_priority_fee_per_gas(&self) -> (r: Uint256)
        ensures
            r@ == self@.max_priority_fee_per_gas,
    {
        self.max_priority_fee_per_gas
    }

    /// The ceiling per unit of gas.
    pub fn max_fee_per_gas(&self) -> (r: Uint256)
        ensures
            r@ == self@.max_fee_per_gas,
            r@ == max_fee_of(self@.base_fee_per_gas, self@.max_priority_fee_per_gas),
            r@ >= self@.base_fee_per_gas + self@.max_priority_fee_per_gas,
    {
        proof {
            use_type_invariant(self);
        }
        self.max_fee_per_gas
    }

    /// The gas limit.
    pub fn gas_limit(&self) -> (r: Uint256)
        ensures
            r@ == self@.gas_limit,
    {
        self.gas_limit
    }

    /// The worst-case total charge.
    pub fn estimated_total_cost(&self) -> (r: Uint256)
        ensures
            r@ == self@.estimated_total_cost,
            r@ == self@.max_fee_per_gas * self@.gas_limit,
    {
        proof {
            use_type_invariant(self);
        }
        self.estimated_total_cost
    }
}

/// The default tip as a 256-bit value.
pub fn default_priority_fee() -> (r: Uint256)
    ensures
        r@ == DEFAULT_PRIORITY_FEE_WEI,
{
    Uint256::from_u64(DEFAULT_PRIORITY_FEE_WEI)
}

/// Computes the fee parameters with checked arithmetic. A block without a base
/// fee counts as base fee zero. `None` exactly where the ceiling or the total
/// leaves 256 bits.
pub fn checked_compute(
    base_fee_per_gas: Option<Uint256>,
    gas_limit: Uint256,
    priority_fee: Uint256,
) -> (r: Option<GasFeeParameters>)
    ensures
        r is Some <==> fees_fit(base_fee_or_zero(base_fee_per_gas), gas_limit@, priority_fee@),
        r matches Some(p) ==> {
            &&& p@ == fee_model(base_fee_or_zero(base_fee_per_gas), gas_limit@, priority_fee@)
            &&& p@.max_fee_per_gas >= p@.base_fee_per_gas + p@.max_priority_fee_per_gas
            &&& base_fee_or_zero(base_fee_per_gas) == 0 ==> p@.max_fee_per_gas == priority_fee@
            &&& gas_limit@ == 0 ==> p@.estimated_total_cost == 0
        },
{
    let base = match base_fee_per_gas {
        Some(b) => b,
        None => Uint256::zero(),
    };
    let two = Uint256::from_u64(2);
    let doubled = match base.checked_mul(&two) {
        Some(d) => d,
        None => {
            return None;
        },
    };
    let max_fee = match doubled.checked_add(&priority_fee) {
        Some(m) => m,
        None => {
            return None;
        },
    };
    let total = match max_fee.checked_mul(&gas_limit) {
        Some(t) => t,
        None => {
            return None;
        },
    };
    Some(
        GasFeeParameters {
            base_fee_per_gas: base,
            max_priority_fee_per_gas: priority_fee,
            max_fee_per_gas: max_fee,
            gas_limit: gas_limit,
            estimated_total_cost: total,
        },
    )
}

/// Computes the fee parameters where they fit in 256 bits.
pub fn compute(
    base_fee_per_gas: Option<Uint256>,
    gas_limit: Uint256,
    priority_fee: Uint256,
) -> (p: GasFeeParameters)
    requires
        fees_fit(base_fee_or_zero(base_fee_per_gas), gas_limit@, priority_fee@),
    ensures
        p@ == fee_model(base_fee_or_zero(base_fee_per_gas), gas_limit@, priority_fee@),
        p@.max_fee_per_gas >= p@.base_fee_per_gas + p@.max_priority_fee_per_gas,
        base_fee_or_zero(base_fee_per_gas) == 0 ==> p@.max_fee_per_gas == priority_fee@,
        gas_limit@ == 0 ==> p@.estimated_total_cost == 0,
{
    checked_compute(base_fee_per_gas, gas_limit, priority_fee).unwrap()
}

/// The worst-case charge of a legacy transfer: gas price times gas limit, or
/// `None` where the product leaves 256 bits.
pub fn legacy_gas_fee(gas_price: Uint256, gas_limit: u64) -> (r: Option<Uint256>)
    ensures
        r is Some <==> gas_price@ * gas_limit <= max_uint256(),
        r matches Some(fee) ==> fee@ == gas_price@ * gas_limit,
{
    gas_price.checked_mul(&Uint256::from_u64(gas_limit))
}

/// The ceiling covers base fee plus tip, whatever the base fee and the tip.
pub proof fn law_ceiling_covers_base_and_tip(base_fee: nat, gas_limit: nat, priority_fee: nat)
    ensures
        fee_model(base_fee, gas_limit, priority_fee).max_fee_per_gas
            >= fee_model(base_fee, gas_limit, priority_fee).base_fee_per_gas
            + fee_model(base_fee, gas_limit, priority_fee).max_priority_fee_per_gas,
{
}

/// With base fee zero the ceiling is the tip.
pub proof fn law_zero_base_fee_charges_tip_only(gas_limit: nat, priority_fee: nat)
    ensures
        fee_model(0, gas_limit, priority_fee).max_fee_per_gas == priority_fee,
        fee_model(0, gas_limit, priority_fee).max_fee_per_gas
            == fee_model(0, gas_limit, priority_fee).max_priority_fee_per_gas,
{
}

/// With gas limit zero the worst-case total is zero, whatever the fees.
pub proof fn law_zero_gas_costs_nothing(base_fee: nat, priority_fee: nat)
    ensures
        fee_model(base_fee, 0, priority_fee).estimated_total_cost == 0,
{
}

} // verus!
