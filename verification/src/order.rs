//! The order record: the one passive data entity of the contract.

use crate::AccountId;
use crate::OrderId;
use vstd::prelude::*;

verus! {

/// Settlement rail an order was paid on; a refund must use the same rail.
#[derive(Clone, Copy, Debug, PartialEq, Eq, Structural)]
pub enum PaymentMethod {
    Near,
    FungibleToken,
}

/// One record per order key, overwritten as a whole on every mutation.
#[derive(Debug)]
pub struct Order {
    /// Key this record is stored under; immutable once chosen.
    pub order_id: OrderId,
    /// Account credited for a future refund; the paying identity.
    pub pay_id: AccountId,
    /// Rail the payment arrived on.
    pub payment_method: PaymentMethod,
    /// Amount the order is for.
    pub amount: u128,
    /// Amount actually captured at payment time; may exceed `amount`.
    pub received_amount: u128,
    /// True once a valid payment has been recorded.
    pub is_completed: bool,
    /// True once a refund has been accepted for settlement (optimistic mark,
    /// reverted if the settlement transfer fails).
    pub is_refund: bool,
    /// Timestamp of the completing payment.
    pub create_at: u64,
}

/// Mathematical image of an order record.
pub ghost struct OrderModel {
    pub order_id: Seq<char>,
    pub pay_id: Seq<char>,
    pub payment_method: PaymentMethod,
    pub amount: u128,
    pub received_amount: u128,
    pub is_completed: bool,
    pub is_refund: bool,
    pub create_at: u64,
}

impl View for Order {
    type V = OrderModel;

    open spec fn view(&self) -> OrderModel {
        OrderModel {
            order_id: self.order_id@,
            pay_id: self.pay_id@,
            payment_method: self.payment_method,
            amount: self.amount,
            received_amount: self.received_amount,
            is_completed: self.is_completed,
            is_refund: self.is_refund,
            create_at: self.create_at,
        }
    }
}

impl Clone for Order {
    fn clone(&self) -> (r: Self)
        ensures
            r == *self,
    {
        Order {
            order_id: self.order_id.clone(),
            pay_id: self.pay_id.clone(),
            payment_method: self.payment_method,
            amount: self.amount,
            received_amount: self.received_amount,
            is_completed: self.is_completed,
            is_refund: self.is_refund,
            create_at: self.create_at,
        }
    }
}

/// Invariants every stored record satisfies: a completed order captured at
/// least what it asked for, and only a completed order can be refund-marked.
pub open spec fn order_model_wf(o: OrderModel) -> bool {
    &&& o.is_completed ==> o.received_amount >= o.amount
    &&& o.is_refund ==> o.is_completed
}

} // verus!
