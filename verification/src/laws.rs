//! Laws of the order-settlement state machine, stated over the ledger model
//! that the contract's own postconditions use.

use crate::contract::{mark_refund_pending, pay_accepts, refund_accepts, revert_refund};
use crate::order::OrderModel;
use vstd::prelude::*;

verus! {

/// A failed settlement transfer compensates the optimistic mark exactly: after
/// the refund dispatcher's write and the reconciler's compensating write, the
/// ledger is what it was before the dispatch, the order is completed and not
/// refund-marked, and the payer's refund request is accepted again.
pub proof fn lemma_failed_settlement_enables_retry(
    orders: Map<Seq<char>, OrderModel>,
    k: Seq<char>,
    caller: Seq<char>,
)
    requires
        refund_accepts(orders, k, caller),
    ensures
        ({
            let marked = orders.insert(k, mark_refund_pending(orders[k]));
            let reverted = marked.insert(k, revert_refund(marked[k]));
            &&& reverted[k].is_completed
            &&& !reverted[k].is_refund
            &&& reverted[k].amount == orders[k].amount
            &&& refund_accepts(reverted, k, caller)
            &&& reverted =~= orders
        }),
{
}

/// Once an order is completed and its refund has settled, the record stands:
/// no payment intake and no refund request against its key is accepted, on any
/// paid amount, order amount, or caller.
pub proof fn lemma_settled_refund_is_permanent(
    orders: Map<Seq<char>, OrderModel>,
    k: Seq<char>,
    paid: u128,
    order_amount: u128,
    caller: Seq<char>,
)
    requires
        orders.contains_key(k),
        orders[k].is_completed,
        orders[k].is_refund,
    ensures
        !pay_accepts(orders, k, paid, order_amount),
        !refund_accepts(orders, k, caller),
{
}

} // verus!
