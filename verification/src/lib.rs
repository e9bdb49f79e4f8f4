//! Order-payment and refund core of a ledger-backed commerce contract.
//!
//! Orders are paid either by a native balance transfer or by a notification
//! from a trusted external token service; the original payer may later request
//! a refund, which is settled asynchronously and reconciled by a callback.
//! The host environment (balances, promises, storage) is represented by plain
//! values handed in and actions handed out, so that every decision the
//! contract makes is verified.

use vstd::prelude::*;

pub mod actions;
pub mod contract;
pub mod errors;
pub mod ft_contract;
pub mod laws;
pub mod message;
pub mod order;

verus! {

/// Caller-chosen identifier for a payment obligation.
pub type OrderId = String;

/// Identity of an account on the underlying ledger.
pub type AccountId = String;

/// Compute budget attached to the asynchronous settlement transfer.
pub const TRANSFER_GAS: u64 = 10_000_000_000_000;

/// Stake the token service requires on an outbound transfer request.
pub const FT_TRANSFER_DEPOSIT: u128 = 1;

} // verus!
