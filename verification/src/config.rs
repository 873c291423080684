//! The parameters of one transfer, resolved from the texts that a
//! configuration source holds.

use vstd::prelude::*;
use crate::address::{address_bytes, is_address_text, Address};
use crate::decimal::{
    decimal_value, is_decimal_text, lemma_decimal_value_concat, lemma_pow10_sum, pow10,
};
use crate::uint256::{max_uint256, Uint256};
use crate::units::{amount_wei, is_amount_text, parse_ether};

verus! {

/// The chain that is used where the source names none: Arbitrum Sepolia.
pub const DEFAULT_CHAIN_ID: u64 = 421_614;

/// The amount that is sent where the source names none: `0.000001` of the
/// native unit, in base units.
pub const DEFAULT_AMOUNT_WEI: u64 = 1_000_000_000_000;

/// The endpoint that is used where the source names none.
pub open spec fn default_rpc_endpoint_text() -> Seq<char> {
    "https://sepolia-rollup.arbitrum.io/rpc"@
}

/// A field that the source must hold.
#[derive(Clone, Copy, Debug, PartialEq, Eq, Structural)]
pub enum ConfigField {
    SigningKey,
    Recipient,
}

/// Why a configuration was refused.
#[derive(Clone, Copy, Debug, PartialEq, Eq, Structural)]
pub enum ConfigError {
    /// A required field is absent.
    MissingField(ConfigField),
    /// The recipient is no address text.
    InvalidAddress,
    /// The amount is no amount text, or leaves 256 bits in base units.
    InvalidAmount,
}

/// What the configuration source holds: for each key its text, if any.
pub struct ConfigSource {
    pub rpc_endpoint: Option<String>,
    pub chain_id: Option<String>,
    pub signing_key: Option<String>,
    pub recipient: Option<String>,
    pub amount: Option<String>,
}

/// The validated parameters of one transfer. A value is made by [`resolve`]
/// only and is not changed afterwards. It holds the signing key, so it has no
/// printable form.
pub struct TransferConfig {
    rpc_endpoint: String,
    chain_id: u64,
    signing_key: String,
    recipient: Address,
    amount: Uint256,
}

/// The parameters of one transfer as plain values.
pub struct TransferConfigModel {
    pub rpc_endpoint: Seq<char>,
    pub chain_id: u64,
    pub signing_key: Seq<char>,
    pub recipient: Seq<u8>,
    pub amount: nat,
}

impl View for TransferConfig {
    type V = TransferConfigModel;

    closed spec fn view(&self) -> TransferConfigModel {
        TransferConfigModel {
            rpc_endpoint: self.rpc_endpoint@,
            chain_id: self.chain_id,
            signing_key: self.signing_key@,
            recipient: self.recipient@,
            amount: self.amount@,
        }
    }
}

/// The digits of an unsigned number text: the text without one leading `+`.
pub open spec fn unsigned_digits(s: Seq<char>) -> Seq<char> {
    if s.len() > 0 && s[0] == '+' {
        s.skip(1)
    } else {
        s
    }
}

/// The 64-bit number that a text denotes: an optional `+`, then at least one
/// decimal digit, the value within 64 bits. `None` for any other text.
pub open spec fn u64_of_text(s: Seq<char>) -> Option<u64> {
    let digits = unsigned_digits(s);
    if digits.len() > 0 && is_decimal_text(digits) && decimal_value(digits) <= u64::MAX {
        Some(decimal_value(digits) as u64)
    } else {
        None
    }
}

/// The chain identifier for what the source holds: the number that the text
/// denotes, or the default where there is no text or it denotes none.
pub open spec fn chain_id_of(text: Option<String>) -> u64 {
    match text {
        Some(t) => match u64_of_text(t@) {
            Some(id) => id,
            None => DEFAULT_CHAIN_ID,
        },
        None => DEFAULT_CHAIN_ID,
    }
}

/// The endpoint for what the source holds: its text, or the default.
pub open spec fn rpc_endpoint_of(text: Option<String>) -> Seq<char> {
    match text {
        Some(t) => t@,
        None => default_rpc_endpoint_text(),
    }
}

/// Whether the source's amount can be sent: absent, or an amount text whose
/// base units fit in 256 bits.
pub open spec fn amount_acceptable(text: Option<String>) -> bool {
    match text {
        Some(t) => is_amount_text(t@) && amount_wei(t@) <= max_uint256(),
        None => true,
    }
}

/// The amount in base units for what the source holds.
pub open spec fn amount_of(text: Option<String>) -> nat {
    match text {
        Some(t) => amount_wei(t@),
        None => DEFAULT_AMOUNT_WEI as nat,
    }
}

/// The outcome of resolving a source. The checks stand in the order in which
/// they are made: the signing key and the recipient must be present, the
/// recipient must be an address text, the amount must be acceptable.
pub open spec fn resolution(source: ConfigSource) -> Result<TransferConfigModel, ConfigError> {
    if source.signing_key is None {
        Err(ConfigError::MissingField(ConfigField::SigningKey))
    } else if source.recipient is None {
        Err(ConfigError::MissingField(ConfigField::Recipient))
    } else if !is_address_text(source.recipient->0@) {
        Err(ConfigError::InvalidAddress)
    } else if !amount_acceptable(source.amount) {
        Err(ConfigError::InvalidAmount)
    } else {
        Ok(
            TransferConfigModel {
                rpc_endpoint: rpc_endpoint_of(source.rpc_endpoint),
                chain_id: chain_id_of(source.chain_id),
                signing_key: source.signing_key->0@,
                recipient: address_bytes(source.recipient->0@),
                amount: amount_of(source.amount),
            },
        )
    }
}

impl TransferConfig {
    /// The endpoint of the node.
    pub fn rpc_endpoint(&self) -> (r: &str)
        ensures
            r@ == self@.rpc_endpoint,
    {
        self.rpc_endpoint.as_str()
    }

    /// The identifier of the chain.
    pub fn chain_id(&self) -> (r: u64)
        ensures
            r == self@.chain_id,
    {
        self.chain_id
    }

    /// The signing key, as the source held it.
    pub fn signing_key(&self) -> (r: &str)
        ensures
            r@ == self@.signing_key,
    {
        self.signing_key.as_str()
    }

    /// The recipient.
    pub fn recipient(&self) -> (r: Address)
        ensures
            r@ == self@.recipient,
    {
        self.recipient
    }

    /// The amount in base units.
    pub fn amount(&self) -> (r: Uint256)
        ensures
            r@ == self@.amount,
    {
        self.amount
    }
}

impl ConfigField {
    /// The name of the field.
    pub open spec fn name_text(self) -> Seq<char> {
        match self {
            ConfigField::SigningKey => "signing_key"@,
            ConfigField::Recipient => "recipient"@,
        }
    }

    /// The name of the field: `signing_key` or `recipient`.
    pub fn name(&self) -> (r: &'static str)
        ensures
            r@ == self.name_text(),
    {
        match self {
            ConfigField::SigningKey => "signing_key",
            ConfigField::Recipient => "recipient",
        }
    }
}

/// The default endpoint, the public Arbitrum Sepolia node.
pub fn default_rpc_endpoint() -> (r: String)
    ensures
        r@ == default_rpc_endpoint_text(),
{
    "https://sepolia-rollup.arbitrum.io/rpc".to_owned()
}

/// Reads an unsigned 64-bit number: an optional `+`, then decimal digits.
/// `None` for the empty text, a sign alone, any other character, and a value
/// that leaves 64 bits.
pub fn parse_u64(s: &str) -> (r: Option<u64>)
    ensures
        r == u64_of_text(s@),
{
    let n = s.unicode_len();
    let start: usize = if n > 0 && s.get_char(0) == '+' {
        1
    } else {
        0
    };
    if start == n {
        return None;
    }
    let ghost digits = unsigned_digits(s@);
    let mut acc: u64 = 0;
    let mut i: usize = start;
    while i < n
        invariant
            start <= i <= n,
            n == s@.len(),
            digits == unsigned_digits(s@),
            digits == s@.skip(start as int),
            is_decimal_text(digits.take(i - start)),
            acc == decimal_value(digits.take(i - start)),
        decreases n - i,
    {
        let c = s.get_char(i);
        let ghost k = i - start;
        if c < '0' || c > '9' {
            assert(!is_decimal_text(digits)) by {
                assert(!('0' <= digits[k] <= '9'));
            }
            return None;
        }
        let d: u64 = (c as u32 - '0' as u32) as u64;
        proof {
            let front = digits.take(k + 1);
            assert(front.drop_last() == digits.take(k));
            if is_decimal_text(digits) {
                let back = digits.skip(k + 1);
                assert(front + back == digits);
                lemma_decimal_value_concat(front, back);
                lemma_pow10_sum(back.len(), 0);
                let x = decimal_value(front);
                let p = pow10(back.len());
                assert(x * p >= x) by (nonlinear_arith)
                    requires
                        p >= 1,
                        x >= 0,
                ;
            }
        }
        let shifted = match acc.checked_mul(10) {
            Some(v) => v,
            None => {
                return None;
            },
        };
        acc = match shifted.checked_add(d) {
            Some(v) => v,
            None => {
                return None;
            },
        };
        i += 1;
    }
    assert(digits.take(n - start) == digits);
    Some(acc)
}

/// Resolves the parameters of a transfer. A missing endpoint, chain
/// identifier or amount takes its default, and so does a chain identifier
/// that is no number; the other faults are refused, the first one found.
pub fn resolve(source: ConfigSource) -> (r: Result<TransferConfig, ConfigError>)
    ensures
        match r {
            Ok(config) => resolution(source) == Ok::<TransferConfigModel, ConfigError>(config@),
            Err(e) => resolution(source) == Err::<TransferConfigModel, ConfigError>(e),
        },
{
    let signing_key = match source.signing_key {
        Some(k) => k,
        None => {
            return Err(ConfigError::MissingField(ConfigField::SigningKey));
        },
    };
    let recipient_text = match source.recipient {
        Some(t) => t,
        None => {
            return Err(ConfigError::MissingField(ConfigField::Recipient));
        },
    };
    let rpc_endpoint = match source.rpc_endpoint {
        Some(url) => url,
        None => default_rpc_endpoint(),
    };
    let chain_id = match source.chain_id {
        Some(text) => match parse_u64(text.as_str()) {
            Some(id) => id,
            None => DEFAULT_CHAIN_ID,
        },
        None => DEFAULT_CHAIN_ID,
    };
    let recipient = match Address::parse(recipient_text.as_str()) {
        Some(a) => a,
        None => {
            return Err(ConfigError::InvalidAddress);
        },
    };
    let amount = match source.amount {
        Some(text) => match parse_ether(text.as_str()) {
            Some(v) => v,
            None => {
                return Err(ConfigError::InvalidAmount);
            },
        },
        None => Uint256::from_u64(DEFAULT_AMOUNT_WEI),
    };
    Ok(TransferConfig { rpc_endpoint, chain_id, signing_key, recipient, amount })
}

} // verus!
