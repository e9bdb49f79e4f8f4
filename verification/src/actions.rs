//! What flows between the contract's decision logic and its host.
//!
//! The host hands every call a [`CallContext`] of plain facts (who calls, what
//! was attached, the time). The contract hands back, besides its return value,
//! the transfers it wants issued; the host performs them asynchronously and
//! later reports each settlement outcome as a [`PromiseResult`].

use crate::AccountId;
use vstd::prelude::*;

verus! {

/// Host-supplied facts about the current call.
pub struct CallContext {
    /// Account that made the current call.
    pub predecessor_account_id: AccountId,
    /// Account that signed the transaction this call belongs to.
    pub signer_account_id: AccountId,
    /// Account of this contract itself.
    pub current_account_id: AccountId,
    /// Balance attached to the call.
    pub attached_deposit: u128,
    /// Time of the call.
    pub block_timestamp: u64,
}

/// A fire-and-forget native balance transfer the host is to issue.
#[derive(Debug)]
pub struct TransferAction {
    pub receiver_id: AccountId,
    pub amount: u128,
}

/// An outbound transfer request to the external token service, carrying the
/// stake and compute budget its protocol requires.
#[derive(Debug)]
pub struct TokenTransferRequest {
    /// The configured token service.
    pub token_contract_id: AccountId,
    pub receiver_id: AccountId,
    pub amount: u128,
    pub memo: String,
}

/// The single asynchronous transfer a successful refund dispatches. Whichever
/// rail is used, the host must chain the settlement callback, keyed by the
/// order id, as the transfer's one continuation.
#[derive(Debug)]
pub enum RefundDispatch {
    /// Nothing was owed; no transfer and no callback.
    NoTransfer,
    /// A native balance transfer to the payer.
    Native(TransferAction),
    /// A remote transfer request against the token service.
    Token(TokenTransferRequest),
}

/// Result of a native payment intake: the change owed to the caller and, when
/// it is positive, the transfer returning it.
#[derive(Debug)]
pub struct PaymentReceipt {
    /// Excess of the attached amount over the order amount.
    pub change: u128,
    /// Transfer of that excess back to the caller; `None` when there is none.
    pub change_transfer: Option<TransferAction>,
}

/// Result of a refund dispatch: the amount accepted for settlement and the
/// transfer to issue. Acceptance is optimistic, not a completion signal.
#[derive(Debug)]
pub struct RefundReceipt {
    pub accepted_amount: u128,
    pub dispatch: RefundDispatch,
}

/// Outcome of the asynchronous transfer, as the host reports it to the
/// settlement callback. `NotReady` is never observed there: the host invokes
/// the continuation only once the outcome is known.
#[derive(Clone, Copy, Debug, PartialEq, Eq, Structural)]
pub enum PromiseResult {
    NotReady,
    Successful,
    Failed,
}

} // verus!
