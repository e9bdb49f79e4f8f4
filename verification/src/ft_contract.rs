//! Interfaces exchanged with the external token service.
//!
//! The token service lives outside this contract and is reached only through
//! asynchronous calls, so neither trait carries a contract here: what this
//! library relies on is stated where the outcomes come back in, on the
//! settlement callback and on the notification intake.

use crate::actions::CallContext;
use crate::errors::ContractError;
use crate::AccountId;
use vstd::prelude::*;

verus! {

/// What the token service calls on this contract when a token transfer lands
/// on its behalf. `EcommerceContract::ft_on_transfer` is this contract's
/// intake for that notification.
pub trait FungibleTokenReciever {
    fn ft_on_transfer(
        &mut self,
        ctx: &CallContext,
        sender_id: AccountId,
        amount: u128,
        msg: String,
    ) -> Result<u128, ContractError>;
}

/// The token service's own interface, as this contract calls it: an outbound
/// transfer request whose outcome arrives later through the settlement
/// callback.
pub trait FungibleToken {
    fn ft_transfer(
        &mut self,
        receiver_id: AccountId,
        amount: u128,
        memo: Option<String>,
    ) -> u128;

    fn ft_transfer_call(
        &mut self,
        receiver_id: AccountId,
        amount: u128,
        memo: Option<String>,
        msg: String,
    ) -> u128;

    fn ft_balance_of(&mut self, account_id: AccountId) -> String;
}

} // verus!
