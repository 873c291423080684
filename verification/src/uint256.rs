//! 256-bit unsigned integers, as four 64-bit limbs with the least significant
//! first. The arithmetic is done by `ethers::types::U256`, which has the same
//! layout; this module states what each operation returns over the natural
//! number that the limbs denote.

use vstd::prelude::*;
use crate::decimal::decimal_text;
use ethers::types::U256;

verus! {

/// The natural number that four little-endian 64-bit limbs denote.
pub open spec fn limbs_value(limbs: Seq<u64>) -> nat {
    (limbs[0] as int
        + limbs[1] as int * 0x1_0000_0000_0000_0000int
        + limbs[2] as int * 0x1_0000_0000_0000_0000_0000_0000_0000_0000int
        + limbs[3] as int * 0x1_0000_0000_0000_0000_0000_0000_0000_0000_0000_0000_0000_0000int) as nat
}

/// The largest 256-bit value, `2^256 - 1`.
pub open spec fn max_uint256() -> nat {
    0xffff_ffff_ffff_ffff_ffff_ffff_ffff_ffff_ffff_ffff_ffff_ffff_ffff_ffff_ffff_ffffnat
}

/// A 256-bit unsigned integer.
#[derive(Clone, Copy, Debug, PartialEq, Eq)]
pub struct Uint256 {
    /// The limbs, least significant first.
    pub limbs: [u64; 4],
}

impl View for Uint256 {
    type V = nat;

    open spec fn view(&self) -> nat {
        limbs_value(self.limbs@)
    }
}

/// Calls `U256::checked_add` of ethers on the same limbs. That function adds
/// limb by limb with carry and returns `None` exactly when a carry leaves the
/// top limb; this contract says so over the numbers denoted.
#[verifier::external_body]
fn outside_checked_add(a: &Uint256, b: &Uint256) -> (r: Option<Uint256>)
    ensures
        r is Some <==> a@ + b@ <= max_uint256(),
        r matches Some(s) ==> s@ == a@ + b@,
{
    match U256(a.limbs).checked_add(U256(b.limbs)) {
        Some(s) => Some(Uint256 { limbs: s.0 }),
        None => None,
    }
}

/// Calls `U256::checked_mul` of ethers on the same limbs. That function forms
/// the full 512-bit product and returns `None` exactly when its upper half is
/// not zero; this contract says so over the numbers denoted.
#[verifier::external_body]
fn outside_checked_mul(a: &Uint256, b: &Uint256) -> (r: Option<Uint256>)
    ensures
        r is Some <==> a@ * b@ <= max_uint256(),
        r matches Some(p) ==> p@ == a@ * b@,
{
    match U256(a.limbs).checked_mul(U256(b.limbs)) {
        Some(p) => Some(Uint256 { limbs: p.0 }),
        None => None,
    }
}

/// Calls `to_string` on the `U256` of ethers with the same limbs. Its `Display`
/// writes the decimal digits of the value, most significant first, without
/// leading zeros, and `0` for zero.
#[verifier::external_body]
fn outside_to_string(a: &Uint256) -> (r: String)
    ensures
        r@ == decimal_text(a@),
{
    U256(a.limbs).to_string()
}

impl Uint256 {
    /// Zero.
    pub fn zero() -> (r: Uint256)
        ensures
            r@ == 0,
    {
        Uint256 { limbs: [0, 0, 0, 0] }
    }

    /// The 256-bit integer equal to `x`.
    pub fn from_u64(x: u64) -> (r: Uint256)
        ensures
            r@ == x,
    {
        Uint256 { limbs: [x, 0, 0, 0] }
    }

    /// Whether the value is zero.
    pub fn is_zero(&self) -> (r: bool)
        ensures
            r == (self@ == 0),
    {
        self.limbs[0] == 0 && self.limbs[1] == 0 && self.limbs[2] == 0 && self.limbs[3] == 0
    }

    /// The sum, or `None` where it does not fit in 256 bits.
    pub fn checked_add(&self, other: &Uint256) -> (r: Option<Uint256>)
        ensures
            r is Some <==> self@ + other@ <= max_uint256(),
            r matches Some(s) ==> s@ == self@ + other@,
    {
        outside_checked_add(self, other)
    }

    /// The product, or `None` where it does not fit in 256 bits.
    pub fn checked_mul(&self, other: &Uint256) -> (r: Option<Uint256>)
        ensures
            r is Some <==> self@ * other@ <= max_uint256(),
            r matches Some(p) ==> p@ == self@ * other@,
    {
        outside_checked_mul(self, other)
    }

    /// The decimal notation of the value, without leading zeros.
    pub fn to_decimal(&self) -> (r: String)
        ensures
            r@ == decimal_text(self@),
    {
        outside_to_string(self)
    }
}

/// Every `Uint256` denotes a number below `2^256`.
pub proof fn lemma_uint256_in_range(x: Uint256)
    ensures
        x@ <= max_uint256(),
{
}

} // verus!
