//! Payment intake on the native rail.

use ecommerce_contract::actions::CallContext;
use ecommerce_contract::contract::EcommerceContract;
use ecommerce_contract::errors::ContractError;
use ecommerce_contract::order::{Order, PaymentMethod};

fn native_ctx(caller: &str, deposit: u128) -> CallContext {
    CallContext {
        predecessor_account_id: caller.to_string(),
        signer_account_id: caller.to_string(),
        current_account_id: "shop.test".to_string(),
        attached_deposit: deposit,
        block_timestamp: 1_700_000_000,
    }
}

fn fresh_contract() -> EcommerceContract {
    EcommerceContract::new("owner.test".to_string(), "ft.test".to_string())
}

#[test]
fn test_pay_order_with_lack_balance() {
    let mut contract = fresh_contract();
    let ctx = native_ctx("alice.test", 1000);
    let r = contract.pay_order(&ctx, "order 1".to_string(), 2000);
    assert_eq!(r.err(), Some(ContractError::InsufficientPayment));
    // No record was created.
    let lookup = contract.get_order("order 1".to_string());
    assert_eq!(lookup.err(), Some(ContractError::OrderNotFound));
}

#[test]
fn test_overpay_returns_change() {
    let mut contract = fresh_contract();
    let order_amount: u128 = 2_000_000_000_000_000_000_000_000;
    let attached: u128 = 5_000_000_000_000_000_000_000_000;
    let ctx = native_ctx("alice.test", attached);
    let receipt = contract.pay_order(&ctx, "order_1".to_string(), order_amount).unwrap();
    assert_eq!(receipt.change, 3_000_000_000_000_000_000_000_000);
    let transfer = receipt.change_transfer.unwrap();
    assert_eq!(transfer.receiver_id, "alice.test".to_string());
    assert_eq!(transfer.amount, 3_000_000_000_000_000_000_000_000);

    let order: Order = contract.get_order("order_1".to_string()).unwrap();
    assert_eq!(order.order_id, "order_1".to_string());
    assert_eq!(order.pay_id, "alice.test".to_string());
    assert_eq!(order.payment_method, PaymentMethod::Near);
    assert_eq!(order.amount, order_amount);
    assert_eq!(order.received_amount, attached);
    assert!(order.is_completed);
    assert!(!order.is_refund);
    assert_eq!(order.create_at, 1_700_000_000);
}

#[test]
fn test_change_goes_to_caller_not_signer() {
    let mut contract = fresh_contract();
    let ctx = CallContext {
        predecessor_account_id: "relay.test".to_string(),
        signer_account_id: "alice.test".to_string(),
        current_account_id: "shop.test".to_string(),
        attached_deposit: 900,
        block_timestamp: 42,
    };
    let receipt = contract.pay_order(&ctx, "order_relayed".to_string(), 600).unwrap();
    assert_eq!(receipt.change, 300);
    let transfer = receipt.change_transfer.unwrap();
    assert_eq!(transfer.receiver_id, "relay.test".to_string());
    // The caller is also the recorded payer.
    let order = contract.get_order("order_relayed".to_string()).unwrap();
    assert_eq!(order.pay_id, "relay.test".to_string());
}

#[test]
fn test_exact_payment_gives_no_change() {
    let mut contract = fresh_contract();
    let ctx = native_ctx("bob.test", 750);
    let receipt = contract.pay_order(&ctx, "order_2".to_string(), 750).unwrap();
    assert_eq!(receipt.change, 0);
    assert!(receipt.change_transfer.is_none());
    let order = contract.get_order("order_2".to_string()).unwrap();
    assert_eq!(order.received_amount, 750);
}

#[test]
fn test_pay_completed_order_rejected() {
    let mut contract = fresh_contract();
    let ctx = native_ctx("alice.test", 1000);
    contract.pay_order(&ctx, "order_3".to_string(), 1000).unwrap();
    let again = contract.pay_order(&ctx, "order_3".to_string(), 1000);
    assert_eq!(again.err(), Some(ContractError::OrderAlreadyCompleted));
    // The stored record is untouched.
    let order = contract.get_order("order_3".to_string()).unwrap();
    assert_eq!(order.received_amount, 1000);
}

#[test]
fn test_pay_supersedes_incomplete_record() {
    let mut contract = fresh_contract();
    let stale = Order {
        order_id: "order_4".to_string(),
        pay_id: "carol.test".to_string(),
        payment_method: PaymentMethod::Near,
        amount: 10,
        received_amount: 0,
        is_completed: false,
        is_refund: false,
        create_at: 5,
    };
    contract.orders.insert("order_4".to_string(), stale);
    let ctx = native_ctx("alice.test", 40);
    let receipt = contract.pay_order(&ctx, "order_4".to_string(), 40).unwrap();
    assert_eq!(receipt.change, 0);
    let order = contract.get_order("order_4".to_string()).unwrap();
    assert_eq!(order.pay_id, "alice.test".to_string());
    assert_eq!(order.received_amount, 40);
    assert!(order.is_completed);
}

#[test]
fn test_error_messages() {
    assert_eq!(ContractError::InsufficientPayment.message(), "ERROR_DEPOSIT_NOT_ENOUGH");
    assert_eq!(ContractError::MalformedMessage.message(), "ERROR_NOT_VALID_MESSAGE");
    assert_eq!(ContractError::UnexpectedResultCount.message(), "ERROR_TOO_MANY_RESULTS");
    assert_eq!(ContractError::OrderNotFound.message(), "ERROR_ORDER_NOT_FOUND");
}
