//! Refund dispatch and settlement reconciliation.

use ecommerce_contract::actions::{CallContext, PromiseResult, RefundDispatch};
use ecommerce_contract::contract::EcommerceContract;
use ecommerce_contract::errors::ContractError;
use ecommerce_contract::order::{Order, PaymentMethod};

const CONTRACT_ID: &str = "shop.test";

fn refund_ctx(caller: &str, deposit: u128) -> CallContext {
    CallContext {
        predecessor_account_id: caller.to_string(),
        signer_account_id: caller.to_string(),
        current_account_id: CONTRACT_ID.to_string(),
        attached_deposit: deposit,
        block_timestamp: 1_700_000_000,
    }
}

fn paid_contract(order_id: &str, payer: &str, amount: u128, attached: u128) -> EcommerceContract {
    let mut contract =
        EcommerceContract::new("owner.test".to_string(), "ft.test".to_string());
    let ctx = refund_ctx(payer, attached);
    contract.pay_order(&ctx, order_id.to_string(), amount).unwrap();
    contract
}

#[test]
fn test_refund_unknown_order() {
    let mut contract =
        EcommerceContract::new("owner.test".to_string(), "ft.test".to_string());
    let r = contract.refund_order(&refund_ctx("alice.test", 0), "no_such".to_string());
    assert_eq!(r.err(), Some(ContractError::OrderNotFound));
}

#[test]
fn test_refund_by_non_payer() {
    let mut contract = paid_contract("order_1", "alice.test", 100, 100);
    let r = contract.refund_order(&refund_ctx("mallory.test", 0), "order_1".to_string());
    assert_eq!(r.err(), Some(ContractError::Unauthorized));
    // Still rejected for a stranger once the order is refund-marked.
    contract.refund_order(&refund_ctx("alice.test", 0), "order_1".to_string()).unwrap();
    let again = contract.refund_order(&refund_ctx("mallory.test", 0), "order_1".to_string());
    assert_eq!(again.err(), Some(ContractError::Unauthorized));
}

#[test]
fn test_refund_not_completed() {
    let mut contract =
        EcommerceContract::new("owner.test".to_string(), "ft.test".to_string());
    let stale = Order {
        order_id: "order_2".to_string(),
        pay_id: "alice.test".to_string(),
        payment_method: PaymentMethod::Near,
        amount: 10,
        received_amount: 0,
        is_completed: false,
        is_refund: false,
        create_at: 5,
    };
    contract.orders.insert("order_2".to_string(), stale);
    let r = contract.refund_order(&refund_ctx("alice.test", 0), "order_2".to_string());
    assert_eq!(r.err(), Some(ContractError::NotCompleted));
}

#[test]
fn test_refund_already_refunded() {
    let mut contract = paid_contract("order_3", "alice.test", 100, 100);
    contract.refund_order(&refund_ctx("alice.test", 0), "order_3".to_string()).unwrap();
    let again = contract.refund_order(&refund_ctx("alice.test", 0), "order_3".to_string());
    assert_eq!(again.err(), Some(ContractError::AlreadyRefunded));
}

#[test]
fn test_refund_native_dispatch() {
    let mut contract = paid_contract("order_4", "alice.test", 2500, 3000);
    let receipt =
        contract.refund_order(&refund_ctx("alice.test", 0), "order_4".to_string()).unwrap();
    assert_eq!(receipt.accepted_amount, 2500);
    match receipt.dispatch {
        RefundDispatch::Native(t) => {
            assert_eq!(t.receiver_id, "alice.test".to_string());
            assert_eq!(t.amount, 2500);
        },
        _ => panic!("expected a native transfer"),
    }
    // The optimistic mark is visible while settlement is pending.
    let order = contract.get_order("order_4".to_string()).unwrap();
    assert!(order.is_refund);
}

#[test]
fn test_refund_zero_amount_no_transfer() {
    let mut contract = paid_contract("order_5", "alice.test", 0, 10);
    let receipt =
        contract.refund_order(&refund_ctx("alice.test", 0), "order_5".to_string()).unwrap();
    assert_eq!(receipt.accepted_amount, 0);
    assert!(matches!(receipt.dispatch, RefundDispatch::NoTransfer));
    let order = contract.get_order("order_5".to_string()).unwrap();
    assert!(order.is_refund);
}

#[test]
fn test_failed_settlement_enables_retry() {
    let mut contract = paid_contract("order_6", "alice.test", 2000, 2000);
    contract.refund_order(&refund_ctx("alice.test", 0), "order_6".to_string()).unwrap();
    let cb = refund_ctx(CONTRACT_ID, 0);
    let failed = vec![PromiseResult::Failed];
    let v = contract.transfer_callback(&cb, "order_6".to_string(), &failed).unwrap();
    assert_eq!(v, 2000);
    let order = contract.get_order("order_6".to_string()).unwrap();
    assert!(order.is_completed);
    assert!(!order.is_refund);
    // The refund can be requested again.
    let retry =
        contract.refund_order(&refund_ctx("alice.test", 0), "order_6".to_string()).unwrap();
    assert_eq!(retry.accepted_amount, 2000);
}

#[test]
fn test_successful_settlement_is_permanent() {
    let mut contract = paid_contract("order_7", "alice.test", 2000, 2000);
    contract.refund_order(&refund_ctx("alice.test", 0), "order_7".to_string()).unwrap();
    let cb = refund_ctx(CONTRACT_ID, 0);
    let succeeded = vec![PromiseResult::Successful];
    let v = contract.transfer_callback(&cb, "order_7".to_string(), &succeeded).unwrap();
    assert_eq!(v, 0);
    let order = contract.get_order("order_7".to_string()).unwrap();
    assert!(order.is_refund);
    // Neither a new payment nor a new refund is accepted for the key.
    let pay = contract.pay_order(&refund_ctx("alice.test", 5000), "order_7".to_string(), 2000);
    assert_eq!(pay.err(), Some(ContractError::OrderAlreadyCompleted));
    let refund = contract.refund_order(&refund_ctx("alice.test", 0), "order_7".to_string());
    assert_eq!(refund.err(), Some(ContractError::AlreadyRefunded));
}

#[test]
fn test_callback_rejects_untrusted_caller() {
    let mut contract = paid_contract("order_8", "alice.test", 100, 100);
    let outcomes = vec![PromiseResult::Successful];
    let r = contract.transfer_callback(
        &refund_ctx("mallory.test", 0),
        "order_8".to_string(),
        &outcomes,
    );
    assert_eq!(r.err(), Some(ContractError::UntrustedCaller));
}

#[test]
fn test_callback_rejects_unexpected_result_count() {
    let mut contract = paid_contract("order_9", "alice.test", 100, 100);
    let cb = refund_ctx(CONTRACT_ID, 0);
    let none: Vec<PromiseResult> = vec![];
    let r = contract.transfer_callback(&cb, "order_9".to_string(), &none);
    assert_eq!(r.err(), Some(ContractError::UnexpectedResultCount));
    let two = vec![PromiseResult::Successful, PromiseResult::Failed];
    let r2 = contract.transfer_callback(&cb, "order_9".to_string(), &two);
    assert_eq!(r2.err(), Some(ContractError::UnexpectedResultCount));
}

#[test]
fn test_callback_failed_unknown_order() {
    let mut contract =
        EcommerceContract::new("owner.test".to_string(), "ft.test".to_string());
    let cb = refund_ctx(CONTRACT_ID, 0);
    let failed = vec![PromiseResult::Failed];
    let r = contract.transfer_callback(&cb, "ghostly".to_string(), &failed);
    assert_eq!(r.err(), Some(ContractError::OrderNotFound));
}

#[test]
fn test_token_refund_dispatch() {
    let mut contract =
        EcommerceContract::new("owner.test".to_string(), "ft.test".to_string());
    let notify = refund_ctx("ft.test", 0);
    let msg = "{\"order_id\":\"order_t\",\"order_amount\":\"800\"}".to_string();
    contract.ft_on_transfer(&notify, "alice.test".to_string(), 800, msg).unwrap();
    let receipt =
        contract.refund_order(&refund_ctx("alice.test", 0), "order_t".to_string()).unwrap();
    assert_eq!(receipt.accepted_amount, 800);
    match receipt.dispatch {
        RefundDispatch::Token(t) => {
            assert_eq!(t.token_contract_id, "ft.test".to_string());
            assert_eq!(t.receiver_id, "alice.test".to_string());
            assert_eq!(t.amount, 800);
            assert_eq!(t.memo, "Refund order from payment contract".to_string());
        },
        _ => panic!("expected a token transfer request"),
    }
}
