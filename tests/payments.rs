use shopfront::auth::{authorize_owner, AuthenticatedUser, Claims};
use shopfront::error::ApiError;
use shopfront::ids::Id;
use shopfront::order::{Order, OrderStatus};
use shopfront::payment::{
    confirm_payment, create_payment, get_payment, order_access, update_payment, CreatePaymentRequest,
    Payment, PaymentStatus, UpdatePaymentRequest,
};

fn order_of(owner: u128) -> Order {
    Order { id: Id::from_u128(1000), user_id: Id::from_u128(owner), status: OrderStatus::Pending }
}

fn as_user(n: u128) -> Result<AuthenticatedUser, ApiError> {
    Ok(AuthenticatedUser(Claims { sub: Id::from_u128(n), exp: u64::MAX }))
}

#[test]
fn other_user_cannot_fetch_a_payment() {
    let order = order_of(1);
    let payment = Payment::create_payment(order.id, "");
    assert_eq!(get_payment(as_user(2), Some(order), order.id, Some(payment)), Err(ApiError::Forbidden));
}

#[test]
fn other_user_cannot_update_a_payment() {
    let order = order_of(1);
    let payment = Payment::create_payment(order.id, "");
    let body = UpdatePaymentRequest { payment_method: "paypal".to_string() };
    assert_eq!(update_payment(as_user(2), Some(payment.clone()), Some(order), &body), Err(ApiError::Forbidden));
    assert_eq!(confirm_payment(as_user(2), Some(payment), Some(order)), Err(ApiError::Forbidden));
}

#[test]
fn expired_token_gets_no_payment() {
    let order = order_of(1);
    let payment = Payment::create_payment(order.id, "");
    let expired = Claims { sub: Id::from_u128(1), exp: 1_000 };
    let auth = AuthenticatedUser::from_claims(Some(expired), 2_000);
    assert_eq!(get_payment(auth, Some(order), order.id, Some(payment)), Err(ApiError::Unauthorized));
    assert_eq!(get_payment(Err(ApiError::Unauthorized), None, order.id, None), Err(ApiError::Unauthorized));
}

#[test]
fn owner_fetches_the_payment_of_the_order() {
    let order = order_of(1);
    let payment = Payment::create_payment(order.id, "");
    assert_eq!(get_payment(as_user(1), Some(order), order.id, Some(payment.clone())), Ok(payment));
    assert_eq!(get_payment(as_user(1), Some(order), order.id, None), Err(ApiError::NotFound));
}

#[test]
fn unknown_order_is_not_found() {
    let order = order_of(1);
    assert_eq!(get_payment(as_user(1), None, order.id, None), Err(ApiError::NotFound));
    assert_eq!(get_payment(as_user(1), Some(order), Id::from_u128(3), None), Err(ApiError::NotFound));
    assert_eq!(order_access(as_user(2), None, order.id), Err(ApiError::NotFound));
    assert_eq!(order_access(as_user(2), Some(order), order.id), Err(ApiError::Forbidden));
    assert_eq!(order_access(as_user(1), Some(order), order.id), Ok(()));
}

#[test]
fn missing_payment_update_is_not_found() {
    let order = order_of(1);
    let body = UpdatePaymentRequest { payment_method: "paypal".to_string() };
    assert_eq!(update_payment(as_user(1), None, Some(order), &body), Err(ApiError::NotFound));
    assert_eq!(update_payment(as_user(2), None, None, &body), Err(ApiError::NotFound));
    assert_eq!(confirm_payment(as_user(1), None, Some(order)), Err(ApiError::NotFound));
    assert_eq!(update_payment(Err(ApiError::Unauthorized), None, None, &body), Err(ApiError::Unauthorized));
}

#[test]
fn owner_update_sets_method_and_leaves_it_pending() {
    let order = order_of(1);
    let payment = Payment::create_payment(order.id, "");
    let body = UpdatePaymentRequest { payment_method: "credit_card".to_string() };
    let updated = update_payment(as_user(1), Some(payment.clone()), Some(order), &body).unwrap();
    assert_eq!(updated.id, payment.id);
    assert_eq!(updated.order_id, order.id);
    assert_eq!(updated.payment_method, "credit_card");
    assert_eq!(updated.status, PaymentStatus::Pending);
}

#[test]
fn owner_confirms_a_pending_payment_once() {
    let order = order_of(1);
    let payment = Payment::create_payment(order.id, "paypal");
    let paid = confirm_payment(as_user(1), Some(payment.clone()), Some(order)).unwrap();
    assert_eq!(paid.id, payment.id);
    assert_eq!(paid.payment_method, "paypal");
    assert_eq!(paid.status, PaymentStatus::Paid);
    assert_eq!(confirm_payment(as_user(1), Some(paid), Some(order)), Err(ApiError::Conflict));
}

#[test]
fn owner_opens_one_payment_per_order() {
    let order = order_of(1);
    let body = CreatePaymentRequest { payment_method: "paypal".to_string() };
    let p = create_payment(as_user(1), Some(order), order.id, None, &body).unwrap();
    assert_eq!(p.order_id, order.id);
    assert_eq!(p.payment_method, "paypal");
    assert_eq!(p.status, PaymentStatus::Pending);
    assert_eq!(create_payment(as_user(1), Some(order), order.id, Some(&p), &body), Err(ApiError::Conflict));
    assert_eq!(create_payment(as_user(2), Some(order), order.id, None, &body), Err(ApiError::Forbidden));
    assert_eq!(create_payment(as_user(2), None, order.id, None, &body), Err(ApiError::NotFound));
}

#[test]
fn payment_methods_and_status_change_in_place() {
    let mut p = Payment::create_payment(Id::from_u128(4), "cash");
    assert!(p.verify_payment_owner(&Order { id: Id::from_u128(4), user_id: Id::from_u128(9), status: OrderStatus::Pending }, Id::from_u128(9)));
    assert!(!p.verify_payment_owner(&Order { id: Id::from_u128(5), user_id: Id::from_u128(9), status: OrderStatus::Pending }, Id::from_u128(9)));
    p.update_payment_method("paypal");
    assert_eq!(p.payment_method, "paypal");
    assert_eq!(p.status, PaymentStatus::Pending);
    p.update_payment_status();
    assert_eq!(p.status, PaymentStatus::Paid);
    assert_eq!(p.status.name(), "paid");
}

#[test]
fn owner_check() {
    assert_eq!(authorize_owner(Id::from_u128(1), Some(Id::from_u128(1))), Ok(()));
    assert_eq!(authorize_owner(Id::from_u128(1), Some(Id::from_u128(2))), Err(ApiError::Forbidden));
    assert_eq!(authorize_owner(Id::from_u128(1), None), Err(ApiError::Forbidden));
}

#[test]
fn payment_status_names_round_trip() {
    assert_eq!(PaymentStatus::from_name("pending"), Some(PaymentStatus::Pending));
    assert_eq!(PaymentStatus::from_name("paid"), Some(PaymentStatus::Paid));
    assert_eq!(PaymentStatus::from_name("PAID"), None);
    assert_eq!(PaymentStatus::Pending.name(), "pending");
}
