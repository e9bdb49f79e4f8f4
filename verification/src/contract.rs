//! The order-settlement state machine.
//!
//! For a single order: `Uncreated -> Completed` (payment intake),
//! `Completed -> RefundPending` (refund dispatch, optimistic), and from there
//! `-> Refunded` (settlement succeeded; the mark stands) or back
//! `-> Completed` (settlement failed; the mark is compensated). Any call
//! attempting another transition fails closed, leaving the ledger untouched.

use crate::actions::{
    CallContext, PaymentReceipt, PromiseResult, RefundDispatch, RefundReceipt,
    TokenTransferRequest, TransferAction,
};
use crate::errors::ContractError;
use crate::message::{parse_payment_message, spec_parse_message};
use crate::order::{order_model_wf, Order, OrderModel, PaymentMethod};
use crate::{AccountId, OrderId};
use vstd::hash_map::StringHashMap;
use vstd::prelude::*;

verus! {

/// When a payment intake (native or token) accepts: enough was paid, and any
/// record already under the key is not a completed order.
pub open spec fn pay_accepts(
    orders: Map<Seq<char>, OrderModel>,
    k: Seq<char>,
    paid: u128,
    order_amount: u128,
) -> bool {
    paid >= order_amount && (orders.contains_key(k) ==> !orders[k].is_completed)
}

/// The record a successful payment intake writes.
pub open spec fn payment_record(
    k: Seq<char>,
    payer: Seq<char>,
    method: PaymentMethod,
    order_amount: u128,
    received: u128,
    now: u64,
) -> OrderModel {
    OrderModel {
        order_id: k,
        pay_id: payer,
        payment_method: method,
        amount: order_amount,
        received_amount: received,
        is_completed: true,
        is_refund: false,
        create_at: now,
    }
}

/// When the refund dispatcher accepts a request from `caller`.
pub open spec fn refund_accepts(
    orders: Map<Seq<char>, OrderModel>,
    k: Seq<char>,
    caller: Seq<char>,
) -> bool {
    &&& orders.contains_key(k)
    &&& orders[k].pay_id == caller
    &&& orders[k].is_completed
    &&& !orders[k].is_refund
}

/// The optimistic mark written before the settlement transfer is dispatched.
pub open spec fn mark_refund_pending(o: OrderModel) -> OrderModel {
    OrderModel { is_refund: true, ..o }
}

/// The compensating write after a failed settlement transfer.
pub open spec fn revert_refund(o: OrderModel) -> OrderModel {
    OrderModel { is_refund: false, ..o }
}

/// The contract: its configuration and the order ledger, the single keyed
/// store every component routes through.
pub struct EcommerceContract {
    pub owner_id: AccountId,
    /// The one identity trusted to notify token payments.
    pub ft_contract_id: AccountId,
    pub orders: StringHashMap<Order>,
}

impl EcommerceContract {
    /// The ledger as a map from order key to order model.
    pub open spec fn orders_model(self) -> Map<Seq<char>, OrderModel> {
        Map::new(
            |k: Seq<char>| self.orders@.contains_key(k),
            |k: Seq<char>| self.orders@[k]@,
        )
    }

    /// Every stored record satisfies the order invariants and sits under its
    /// own key.
    pub open spec fn wf(self) -> bool {
        forall|k: Seq<char>| #[trigger]
            self.orders@.contains_key(k) ==> order_model_wf(self.orders@[k]@)
                && self.orders@[k]@.order_id == k
    }

    pub fn new(owner_id: AccountId, ft_contract_id: AccountId) -> (r: Self)
        ensures
            r.owner_id == owner_id,
            r.ft_contract_id == ft_contract_id,
            r.orders_model() == Map::<Seq<char>, OrderModel>::empty(),
            r.wf(),
    {
        let r = EcommerceContract { owner_id, ft_contract_id, orders: StringHashMap::new() };
        proof {
            assert(r.orders_model() =~= Map::<Seq<char>, OrderModel>::empty());
        }
        r
    }

    /// Payment intake, native rail: records the order as paid by the caller
    /// with the full attached amount, and returns the excess over the order
    /// amount as change, to be transferred back to the caller.
    pub fn pay_order(
        &mut self,
        ctx: &CallContext,
        order_id: OrderId,
        order_amount: u128,
    ) -> (r: Result<PaymentReceipt, ContractError>)
        requires
            old(self).wf(),
        ensures
            final(self).wf(),
            final(self).owner_id == old(self).owner_id,
            final(self).ft_contract_id == old(self).ft_contract_id,
            !pay_accepts(old(self).orders_model(), order_id@, ctx.attached_deposit, order_amount)
                ==> final(self).orders_model() == old(self).orders_model(),
            ctx.attached_deposit < order_amount ==> r == Err::<PaymentReceipt, ContractError>(
                ContractError::InsufficientPayment,
            ),
            (ctx.attached_deposit >= order_amount && old(self).orders_model().contains_key(
                order_id@,
            ) && old(self).orders_model()[order_id@].is_completed) ==> r == Err::<
                PaymentReceipt,
                ContractError,
            >(ContractError::OrderAlreadyCompleted),
            pay_accepts(old(self).orders_model(), order_id@, ctx.attached_deposit, order_amount)
                ==> ({
                let change = (ctx.attached_deposit - order_amount) as u128;
                &&& final(self).orders_model() == old(self).orders_model().insert(
                    order_id@,
                    payment_record(
                        order_id@,
                        ctx.predecessor_account_id@,
                        PaymentMethod::Near,
                        order_amount,
                        ctx.attached_deposit,
                        ctx.block_timestamp,
                    ),
                )
                &&& final(self).orders_model()[order_id@].received_amount == order_amount + change
                &&& r matches Ok(receipt) && receipt.change == change && (change > 0
                    ==> (receipt.change_transfer matches Some(t) && t.receiver_id@
                    == ctx.predecessor_account_id@ && t.amount == change)) && (change == 0
                    ==> receipt.change_transfer is None)
            }),
    {
        if ctx.attached_deposit < order_amount {
            return Err(ContractError::InsufficientPayment);
        }
        match self.orders.get(order_id.as_str()) {
            Some(existing) => {
                if existing.is_completed {
                    return Err(ContractError::OrderAlreadyCompleted);
                }
            },
            None => {},
        }
        let order = Order {
            order_id: order_id.clone(),
            pay_id: ctx.predecessor_account_id.clone(),
            payment_method: PaymentMethod::Near,
            amount: order_amount,
            received_amount: ctx.attached_deposit,
            is_completed: true,
            is_refund: false,
            create_at: ctx.block_timestamp,
        };
        let ghost k = order_id@;
        let ghost rec = order@;
        self.orders.insert(order_id, order);
        proof {
            self.lemma_wf_after_insert(*old(self), k, rec);
            assert(self.orders_model() =~= old(self).orders_model().insert(k, rec));
        }
        if ctx.attached_deposit > order_amount {
            let change = ctx.attached_deposit - order_amount;
            Ok(
                PaymentReceipt {
                    change,
                    change_transfer: Some(
                        TransferAction {
                            receiver_id: ctx.predecessor_account_id.clone(),
                            amount: change,
                        },
                    ),
                },
            )
        } else {
            Ok(PaymentReceipt { change: 0, change_transfer: None })
        }
    }

    /// Read-only lookup of an order record.
    pub fn get_order(&self, order_id: OrderId) -> (r: Result<Order, ContractError>)
        ensures
            self.orders_model().contains_key(order_id@) ==> (r matches Ok(o) && o@
                == self.orders_model()[order_id@]),
            !self.orders_model().contains_key(order_id@) ==> r == Err::<Order, ContractError>(
                ContractError::OrderNotFound,
            ),
    {
        match self.orders.get(order_id.as_str()) {
            Some(o) => Ok(o.clone()),
            None => Err(ContractError::OrderNotFound),
        }
    }

    /// Refund dispatcher: authorizes the payer's request, writes the
    /// optimistic refund mark, and hands back the one asynchronous transfer to
    /// issue on the order's own rail. Acceptance does not guarantee
    /// settlement: the callback may compensate the mark.
    pub fn refund_order(
        &mut self,
        ctx: &CallContext,
        order_id: OrderId,
    ) -> (r: Result<RefundReceipt, ContractError>)
        requires
            old(self).wf(),
        ensures
            final(self).wf(),
            final(self).owner_id == old(self).owner_id,
            final(self).ft_contract_id == old(self).ft_contract_id,
            !refund_accepts(old(self).orders_model(), order_id@, ctx.predecessor_account_id@)
                ==> final(self).orders_model() == old(self).orders_model(),
            !old(self).orders_model().contains_key(order_id@) ==> r == Err::<
                RefundReceipt,
                ContractError,
            >(ContractError::OrderNotFound),
            ({
                let m = old(self).orders_model();
                &&& (m.contains_key(order_id@) && m[order_id@].pay_id
                    != ctx.predecessor_account_id@) ==> r == Err::<RefundReceipt, ContractError>(
                    ContractError::Unauthorized,
                )
                &&& (m.contains_key(order_id@) && m[order_id@].pay_id
                    == ctx.predecessor_account_id@ && !m[order_id@].is_completed) ==> r == Err::<
                    RefundReceipt,
                    ContractError,
                >(ContractError::NotCompleted)
                &&& (m.contains_key(order_id@) && m[order_id@].pay_id
                    == ctx.predecessor_account_id@ && m[order_id@].is_completed
                    && m[order_id@].is_refund) ==> r == Err::<RefundReceipt, ContractError>(
                    ContractError::AlreadyRefunded,
                )
            }),
            refund_accepts(old(self).orders_model(), order_id@, ctx.predecessor_account_id@) ==> ({
                let o = old(self).orders_model()[order_id@];
                &&& final(self).orders_model() == old(self).orders_model().insert(
                    order_id@,
                    mark_refund_pending(o),
                )
                &&& r matches Ok(receipt) && receipt.accepted_amount == o.amount && (o.amount == 0
                    ==> receipt.dispatch is NoTransfer) && (o.amount > 0 && o.payment_method
                    is Near ==> (receipt.dispatch matches RefundDispatch::Native(t)
                    && t.receiver_id@ == o.pay_id && t.amount == o.amount)) && (o.amount > 0
                    && o.payment_method is FungibleToken ==> (receipt.dispatch
                    matches RefundDispatch::Token(t) && t.token_contract_id@ == old(self).ft_contract_id@ && t.receiver_id@ == o.pay_id && t.amount == o.amount && t.memo@
                    == "Refund order from payment contract"@))
            }),
    {
        let order = match self.orders.get(order_id.as_str()) {
            Some(o) => o.clone(),
            None => {
                return Err(ContractError::OrderNotFound);
            },
        };
        if !(order.pay_id == ctx.predecessor_account_id) {
            return Err(ContractError::Unauthorized);
        }
        if !order.is_completed {
            return Err(ContractError::NotCompleted);
        }
        if order.is_refund {
            return Err(ContractError::AlreadyRefunded);
        }
        let amount: u128 = order.amount;
        let method = order.payment_method;
        let receiver_id = order.pay_id.clone();
        let new_order = Order { is_refund: true, ..order };
        let ghost k = order_id@;
        let ghost rec = new_order@;
        self.orders.insert(order_id, new_order);
        proof {
            self.lemma_wf_after_insert(*old(self), k, rec);
            assert(self.orders_model() =~= old(self).orders_model().insert(k, rec));
        }
        if amount > 0 {
            match method {
                PaymentMethod::Near => Ok(
                    RefundReceipt {
                        accepted_amount: amount,
                        dispatch: RefundDispatch::Native(TransferAction { receiver_id, amount }),
                    },
                ),
                PaymentMethod::FungibleToken => Ok(
                    RefundReceipt {
                        accepted_amount: amount,
                        dispatch: RefundDispatch::Token(
                            TokenTransferRequest {
                                token_contract_id: self.ft_contract_id.clone(),
                                receiver_id,
                                amount,
                                memo: "Refund order from payment contract".to_owned(),
                            },
                        ),
                    },
                ),
            }
        } else {
            Ok(RefundReceipt { accepted_amount: 0, dispatch: RefundDispatch::NoTransfer })
        }
    }

    /// Payment intake, token rail, after the notification message has been
    /// parsed: records the order as paid by `sender_id` with the full notified
    /// amount and returns the excess, which the token service itself applies.
    pub fn record_token_payment(
        &mut self,
        sender_id: &AccountId,
        amount: u128,
        order_id: OrderId,
        order_amount: u128,
        now: u64,
    ) -> (r: Result<u128, ContractError>)
        requires
            old(self).wf(),
        ensures
            final(self).wf(),
            final(self).owner_id == old(self).owner_id,
            final(self).ft_contract_id == old(self).ft_contract_id,
            !pay_accepts(old(self).orders_model(), order_id@, amount, order_amount) ==> final(self).orders_model() == old(self).orders_model(),
            amount < order_amount ==> r == Err::<u128, ContractError>(
                ContractError::InsufficientPayment,
            ),
            (amount >= order_amount && old(self).orders_model().contains_key(order_id@) && old(self).orders_model()[order_id@].is_completed) ==> r == Err::<u128, ContractError>(
                ContractError::OrderAlreadyCompleted,
            ),
            pay_accepts(old(self).orders_model(), order_id@, amount, order_amount) ==> final(self).orders_model() == old(self).orders_model().insert(
                order_id@,
                payment_record(
                    order_id@,
                    sender_id@,
                    PaymentMethod::FungibleToken,
                    order_amount,
                    amount,
                    now,
                ),
            ) && r == Ok::<u128, ContractError>((amount - order_amount) as u128),
    {
        if amount < order_amount {
            return Err(ContractError::InsufficientPayment);
        }
        match self.orders.get(order_id.as_str()) {
            Some(existing) => {
                if existing.is_completed {
                    return Err(ContractError::OrderAlreadyCompleted);
                }
            },
            None => {},
        }
        let order = Order {
            order_id: order_id.clone(),
            pay_id: sender_id.clone(),
            payment_method: PaymentMethod::FungibleToken,
            amount: order_amount,
            received_amount: amount,
            is_completed: true,
            is_refund: false,
            create_at: now,
        };
        let ghost k = order_id@;
        let ghost rec = order@;
        self.orders.insert(order_id, order);
        proof {
            self.lemma_wf_after_insert(*old(self), k, rec);
            assert(self.orders_model() =~= old(self).orders_model().insert(k, rec));
        }
        Ok(amount - order_amount)
    }

    /// Payment intake, token rail: accepts the trusted token service's
    /// notification that `amount` landed for this contract, parses the
    /// `{order_id, order_amount}` payload, and records the payment.
    pub fn ft_on_transfer(
        &mut self,
        ctx: &CallContext,
        sender_id: AccountId,
        amount: u128,
        msg: String,
    ) -> (r: Result<u128, ContractError>)
        requires
            old(self).wf(),
        ensures
            final(self).wf(),
            final(self).owner_id == old(self).owner_id,
            final(self).ft_contract_id == old(self).ft_contract_id,
            ctx.predecessor_account_id@ != old(self).ft_contract_id@ ==> r == Err::<
                u128,
                ContractError,
            >(ContractError::UntrustedCaller) && final(self).orders_model() == old(self).orders_model(),
            (ctx.predecessor_account_id@ == old(self).ft_contract_id@ && spec_parse_message(msg@)
                is None) ==> r == Err::<u128, ContractError>(ContractError::MalformedMessage)
                && final(self).orders_model() == old(self).orders_model(),
            ctx.predecessor_account_id@ == old(self).ft_contract_id@ ==> (spec_parse_message(msg@)
                matches Some(p) ==> ({
                let m = old(self).orders_model();
                &&& amount < p.1 ==> r == Err::<u128, ContractError>(
                    ContractError::InsufficientPayment,
                ) && final(self).orders_model() == m
                &&& (amount >= p.1 && m.contains_key(p.0) && m[p.0].is_completed) ==> r == Err::<
                    u128,
                    ContractError,
                >(ContractError::OrderAlreadyCompleted) && final(self).orders_model() == m
                &&& pay_accepts(m, p.0, amount, p.1) ==> final(self).orders_model() == m.insert(
                    p.0,
                    payment_record(
                        p.0,
                        sender_id@,
                        PaymentMethod::FungibleToken,
                        p.1,
                        amount,
                        ctx.block_timestamp,
                    ),
                ) && r == Ok::<u128, ContractError>((amount - p.1) as u128)
            })),
    {
        if !(ctx.predecessor_account_id == self.ft_contract_id) {
            return Err(ContractError::UntrustedCaller);
        }
        match parse_payment_message(msg.as_str()) {
            Some(parsed) => self.record_token_payment(
                &sender_id,
                amount,
                parsed.0,
                parsed.1,
                ctx.block_timestamp,
            ),
            None => Err(ContractError::MalformedMessage),
        }
    }

    /// Settlement callback reconciler: the privileged, self-only continuation
    /// invoked once per refund dispatch, after the one asynchronous transfer
    /// resolves. On success the refund stands; on failure the optimistic mark
    /// is compensated, so the order can be refunded again.
    pub fn transfer_callback(
        &mut self,
        ctx: &CallContext,
        order_id: OrderId,
        results: &Vec<PromiseResult>,
    ) -> (r: Result<u128, ContractError>)
        requires
            old(self).wf(),
            (ctx.predecessor_account_id@ == ctx.current_account_id@ && results@.len() == 1) ==> !(
            results@[0] is NotReady),
        ensures
            final(self).wf(),
            final(self).owner_id == old(self).owner_id,
            final(self).ft_contract_id == old(self).ft_contract_id,
            ctx.predecessor_account_id@ != ctx.current_account_id@ ==> r == Err::<
                u128,
                ContractError,
            >(ContractError::UntrustedCaller) && final(self).orders_model() == old(self).orders_model(),
            (ctx.predecessor_account_id@ == ctx.current_account_id@ && results@.len() != 1) ==> r
                == Err::<u128, ContractError>(ContractError::UnexpectedResultCount) && final(self).orders_model() == old(self).orders_model(),
            (ctx.predecessor_account_id@ == ctx.current_account_id@ && results@.len() == 1
                && results@[0] is Successful) ==> r == Ok::<u128, ContractError>(0) && final(self).orders_model() == old(self).orders_model(),
            (ctx.predecessor_account_id@ == ctx.current_account_id@ && results@.len() == 1
                && results@[0] is Failed) ==> ({
                let m = old(self).orders_model();
                &&& !m.contains_key(order_id@) ==> r == Err::<u128, ContractError>(
                    ContractError::OrderNotFound,
                ) && final(self).orders_model() == m
                &&& m.contains_key(order_id@) ==> final(self).orders_model() == m.insert(
                    order_id@,
                    revert_refund(m[order_id@]),
                ) && r == Ok::<u128, ContractError>(m[order_id@].amount)
            }),
    {
        if !(ctx.predecessor_account_id == ctx.current_account_id) {
            return Err(ContractError::UntrustedCaller);
        }
        if results.len() != 1 {
            return Err(ContractError::UnexpectedResultCount);
        }
        match results[0] {
            PromiseResult::NotReady => vstd::pervasive::unreached(),
            PromiseResult::Successful => Ok(0),
            PromiseResult::Failed => {
                let order = match self.orders.get(order_id.as_str()) {
                    Some(o) => o.clone(),
                    None => {
                        return Err(ContractError::OrderNotFound);
                    },
                };
                let amount: u128 = order.amount;
                let new_order = Order { is_refund: false, ..order };
                let ghost k = order_id@;
                let ghost rec = new_order@;
                self.orders.insert(order_id, new_order);
                proof {
                    self.lemma_wf_after_insert(*old(self), k, rec);
                    assert(self.orders_model() =~= old(self).orders_model().insert(k, rec));
                }
                Ok(amount)
            },
        }
    }

    /// Inserting a record that satisfies the order invariants under its own
    /// key keeps the ledger well-formed.
    proof fn lemma_wf_after_insert(self, pre: Self, k: Seq<char>, rec: OrderModel)
        requires
            pre.wf(),
            order_model_wf(rec),
            rec.order_id == k,
            forall|kk: Seq<char>| #[trigger]
                self.orders@.contains_key(kk) ==> (kk == k && self.orders@[kk]@ == rec) || (kk != k
                    && pre.orders@.contains_key(kk) && self.orders@[kk] == pre.orders@[kk]),
        ensures
            self.wf(),
    {
        assert forall|kk: Seq<char>| #[trigger]
            self.orders@.contains_key(kk) implies order_model_wf(self.orders@[kk]@)
            && self.orders@[kk]@.order_id == kk by {
            if kk != k {
                assert(pre.orders@.contains_key(kk));
            }
        }
    }
}

/// The privileged continuation interface the host re-invokes after the
/// asynchronous settlement transfer resolves.
/// `EcommerceContract::transfer_callback` is its realization.
pub trait ExtEcommerceContract {
    fn transfer_callback(
        &mut self,
        ctx: &CallContext,
        order_id: OrderId,
        results: &Vec<PromiseResult>,
    ) -> Result<u128, ContractError>;
}

} // verus!
