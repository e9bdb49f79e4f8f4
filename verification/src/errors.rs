//! Rejections: every way a call against the order ledger can fail.
//!
//! Each of these aborts the whole call and leaves the ledger exactly as it
//! was; a failed settlement transfer is not an error but a compensated
//! outcome, handled by the callback reconciler.

use vstd::prelude::*;

verus! {

/// Why a call was rejected.
#[derive(Clone, Copy, Debug, PartialEq, Eq, Structural)]
pub enum ContractError {
    /// The attached or notified amount is less than the order amount.
    InsufficientPayment,
    /// The key already holds a completed, not-yet-refunded order.
    OrderAlreadyCompleted,
    /// No record exists for the key.
    OrderNotFound,
    /// The refund requester is not the order's payer.
    Unauthorized,
    /// The order has no completed payment to refund.
    NotCompleted,
    /// A refund has already been accepted for settlement.
    AlreadyRefunded,
    /// The caller is neither the configured token service nor, for the
    /// settlement callback, the contract itself.
    UntrustedCaller,
    /// The token service's notification message could not be parsed.
    MalformedMessage,
    /// The settlement callback observed other than exactly one outcome.
    UnexpectedResultCount,
}

impl ContractError {
    /// Short diagnostic code, as the host surfaces it to the caller.
    pub fn message(&self) -> (r: &'static str)
        ensures
            *self is InsufficientPayment ==> r@ == "ERROR_DEPOSIT_NOT_ENOUGH"@,
            *self is OrderAlreadyCompleted ==> r@ == "ERROR_ORDER_ALREADY_COMPLETED"@,
            *self is OrderNotFound ==> r@ == "ERROR_ORDER_NOT_FOUND"@,
            *self is Unauthorized ==> r@ == "ERROR_UNAUTHORIZED"@,
            *self is NotCompleted ==> r@ == "ERROR_ORDER_NOT_COMPLETED"@,
            *self is AlreadyRefunded ==> r@ == "ERROR_ALREADY_REFUNDED"@,
            *self is UntrustedCaller ==> r@ == "ERROR_UNTRUSTED_CALLER"@,
            *self is MalformedMessage ==> r@ == "ERROR_NOT_VALID_MESSAGE"@,
            *self is UnexpectedResultCount ==> r@ == "ERROR_TOO_MANY_RESULTS"@,
    {
        match self {
            ContractError::InsufficientPayment => "ERROR_DEPOSIT_NOT_ENOUGH",
            ContractError::OrderAlreadyCompleted => "ERROR_ORDER_ALREADY_COMPLETED",
            ContractError::OrderNotFound => "ERROR_ORDER_NOT_FOUND",
            ContractError::Unauthorized => "ERROR_UNAUTHORIZED",
            ContractError::NotCompleted => "ERROR_ORDER_NOT_COMPLETED",
            ContractError::AlreadyRefunded => "ERROR_ALREADY_REFUNDED",
            ContractError::UntrustedCaller => "ERROR_UNTRUSTED_CALLER",
            ContractError::MalformedMessage => "ERROR_NOT_VALID_MESSAGE",
            ContractError::UnexpectedResultCount => "ERROR_TOO_MANY_RESULTS",
        }
    }
}

} // verus!
