//! A verified core for submitting one EIP-1559 transfer: 256-bit amounts,
//! fee parameters, address and amount notation, configuration rules and the
//! transaction lifecycle as a state machine. Network and signing work is left
//! to the caller, which feeds the outcomes back in as events.

pub mod strings;
pub mod decimal;
pub mod uint256;
pub mod fees;
pub mod address;
pub mod units;
pub mod config;
pub mod transaction;
pub mod workflow;
