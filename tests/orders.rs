use rust_decimal::Decimal;
use shopfront::error::ApiError;
use shopfront::ids::Id;
use shopfront::order::{Order, OrderItem, OrderStatus, StockLevel};
use shopfront::product::{CreateProductRequest, Product};

#[test]
fn new_order_is_pending_and_owned() {
    let owner = Id::from_u128(5);
    let order = Order::create_order(owner);
    assert_eq!(order.user_id, owner);
    assert_eq!(order.status, OrderStatus::Pending);
    assert!(order.verify_order_owner(owner));
    assert!(!order.verify_order_owner(Id::from_u128(6)));
    assert_eq!((order.id.as_u128() >> 62) & 0x3, 2);
}

#[test]
fn status_names_round_trip() {
    for s in [OrderStatus::Pending, OrderStatus::Paid, OrderStatus::Cancelled] {
        assert_eq!(OrderStatus::from_name(s.name()), Some(s));
    }
    assert_eq!(OrderStatus::Cancelled.name(), "cancelled");
    assert_eq!(OrderStatus::from_name("shipped"), None);
    assert_eq!(OrderStatus::from_name("Pending"), None);
}

#[test]
fn stock_check_compares_inclusively() {
    assert!(OrderItem::check_stock(5, 5));
    assert!(OrderItem::check_stock(5, 1));
    assert!(!OrderItem::check_stock(2, 3));
}

#[test]
fn order_item_captures_price_and_takes_stock() {
    let mut level = StockLevel { product_id: Id::from_u128(1), stock: 5, price: Decimal::new(450, 2) };
    let order_id = Id::from_u128(2);
    let item = OrderItem::create_order_item(&mut level, order_id, 3).unwrap();
    assert_eq!(item.order_id, order_id);
    assert_eq!(item.product_id, Id::from_u128(1));
    assert_eq!(item.quantity, 3);
    assert_eq!(item.price, Decimal::new(450, 2));
    assert_eq!(level.stock, 2);
}

#[test]
fn order_item_over_stock_or_not_positive_changes_nothing() {
    let mut level = StockLevel { product_id: Id::from_u128(1), stock: 2, price: Decimal::new(1, 0) };
    assert_eq!(OrderItem::create_order_item(&mut level, Id::from_u128(2), 3), Err(ApiError::InsufficientStock));
    assert_eq!(OrderItem::create_order_item(&mut level, Id::from_u128(2), 0), Err(ApiError::Invalid));
    assert_eq!(level.stock, 2);
}

#[test]
fn product_keeps_its_fields_and_refuses_negative_stock() {
    let req = CreateProductRequest {
        name: "Lamp".to_string(),
        description: Some("Desk lamp".to_string()),
        price: Decimal::new(2599, 2),
        stock: 12,
    };
    let p = Product::create_product(&req.name, req.description.as_deref(), req.price, req.stock).unwrap();
    assert_eq!(p.name, "Lamp");
    assert_eq!(p.description.as_deref(), Some("Desk lamp"));
    assert_eq!(p.price, Decimal::new(2599, 2));
    assert_eq!(p.stock, 12);
    let level = p.stock_level();
    assert_eq!(level.product_id, p.id);
    assert_eq!(level.stock, 12);
    assert_eq!(Product::create_product("Lamp", None, Decimal::new(1, 0), -1), Err(ApiError::Invalid));
    assert_eq!(Product::create_product("Lamp", None, Decimal::new(1, 0), 0).unwrap().description, None);
}

#[test]
fn error_status_codes() {
    assert_eq!(ApiError::NotFound.status_code(), 404);
    assert_eq!(ApiError::Conflict.status_code(), 400);
    assert_eq!(ApiError::InsufficientStock.status_code(), 400);
    assert_eq!(ApiError::Forbidden.status_code(), 403);
    assert_eq!(ApiError::Unauthorized.status_code(), 401);
    assert_eq!(ApiError::Storage.status_code(), 500);
    assert_eq!(ApiError::Invalid.status_code(), 400);
}
