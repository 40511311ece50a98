use vstd::prelude::*;

use crate::error::ApiError;
use crate::ids::{fresh_id, Id};
use crate::product::Product;
use crate::text::text_eq;

verus! {

/// Where an order stands. Orders start out pending.
#[derive(Clone, Copy, Debug, PartialEq, Eq, Structural)]
pub enum OrderStatus {
    Pending,
    Paid,
    Cancelled,
}

/// An order, owned by the user who placed it.
#[derive(Clone, Copy, Debug, PartialEq, Eq, Structural)]
pub struct Order {
    pub id: Id,
    pub user_id: Id,
    pub status: OrderStatus,
}

/// One line of an order: the product, how many, and the unit price at the
/// moment the order was placed.
#[derive(Clone, Copy, Debug, PartialEq)]
pub struct OrderItem {
    pub id: Id,
    pub order_id: Id,
    pub product_id: Id,
    pub quantity: i32,
    pub price: rust_decimal::Decimal,
}

/// What the order workflow reads of a product: its stock and current price.
#[derive(Clone, Copy, Debug, PartialEq)]
pub struct StockLevel {
    pub product_id: Id,
    pub stock: i32,
    pub price: rust_decimal::Decimal,
}

/// One requested line of a new order.
#[derive(Clone, Copy, Debug, PartialEq, Eq, Structural)]
pub struct OrderItemRequest {
    pub product_id: Id,
    pub quantity: i32,
}

/// A request for a new order.
#[derive(Clone, Debug, PartialEq, Eq)]
pub struct CreateOrderRequest {
    pub items: Vec<OrderItemRequest>,
}

/// A request to add one line to an existing order.
#[derive(Clone, Copy, Debug, PartialEq, Eq, Structural)]
pub struct CreateOrderItemRequest {
    pub product_id: Id,
    pub quantity: i32,
}

impl OrderStatus {
    pub open spec fn spec_name(self) -> Seq<char> {
        match self {
            OrderStatus::Pending => seq!['p', 'e', 'n', 'd', 'i', 'n', 'g'],
            OrderStatus::Paid => seq!['p', 'a', 'i', 'd'],
            OrderStatus::Cancelled => seq!['c', 'a', 'n', 'c', 'e', 'l', 'l', 'e', 'd'],
        }
    }

    /// The name under which the status is stored and shown.
    pub fn name(&self) -> (r: &'static str)
        ensures
            r@ == self.spec_name(),
    {
        proof {
            reveal_strlit("pending");
            reveal_strlit("paid");
            reveal_strlit("cancelled");
        }
        match self {
            OrderStatus::Pending => "pending",
            OrderStatus::Paid => "paid",
            OrderStatus::Cancelled => "cancelled",
        }
    }

    /// Reads a stored status name back.
    pub fn from_name(s: &str) -> (r: Option<OrderStatus>)
        ensures
            r is Some <==> (s@ == OrderStatus::Pending.spec_name() || s@ == OrderStatus::Paid.spec_name()
                || s@ == OrderStatus::Cancelled.spec_name()),
            r is Some ==> r->Some_0.spec_name() == s@,
    {
        if text_eq(s, OrderStatus::Pending.name()) {
            Some(OrderStatus::Pending)
        } else if text_eq(s, OrderStatus::Paid.name()) {
            Some(OrderStatus::Paid)
        } else if text_eq(s, OrderStatus::Cancelled.name()) {
            Some(OrderStatus::Cancelled)
        } else {
            None
        }
    }
}

impl Order {
    /// A new pending order owned by `user_id`, with a fresh identifier.
    pub fn create_order(user_id: Id) -> (r: Order)
        ensures
            r.user_id == user_id,
            r.status == OrderStatus::Pending,
    {
        Order { id: fresh_id(), user_id, status: OrderStatus::Pending }
    }

    /// Whether `user_id` owns this order.
    pub fn verify_order_owner(&self, user_id: Id) -> (r: bool)
        ensures
            r == (self.user_id == user_id),
    {
        self.user_id == user_id
    }
}

impl Product {
    /// The stock and price of this product, as order placement reads them.
    pub fn stock_level(&self) -> (r: StockLevel)
        ensures
            r.product_id == self.id,
            r.stock == self.stock,
            r.price == self.price,
    {
        StockLevel { product_id: self.id, stock: self.stock, price: self.price }
    }
}

impl OrderItem {
    /// Whether `stock` covers `requested_quantity`.
    pub fn check_stock(stock: i32, requested_quantity: i32) -> (r: bool)
        ensures
            r == (stock >= requested_quantity),
    {
        stock >= requested_quantity
    }

    /// Adds one line for `level`'s product to order `order_id`: the price is
    /// captured from `level` and the stock goes down by `quantity`. A
    /// quantity that is not positive, or that exceeds the stock, leaves the
    /// stock as it was.
    pub fn create_order_item(level: &mut StockLevel, order_id: Id, quantity: i32) -> (r: Result<
        OrderItem,
        ApiError,
    >)
        requires
            old(level).stock >= 0,
        ensures
            quantity <= 0 ==> r == Err::<OrderItem, ApiError>(ApiError::Invalid),
            quantity > 0 && quantity > old(level).stock ==> r == Err::<OrderItem, ApiError>(
                ApiError::InsufficientStock,
            ),
            r is Err ==> *final(level) == *old(level),
            r is Ok <==> 0 < quantity <= old(level).stock,
            r is Ok ==> {
                let item = r->Ok_0;
                &&& item.order_id == order_id
                &&& item.product_id == old(level).product_id
                &&& item.quantity == quantity
                &&& item.price == old(level).price
                &&& *final(level) == (StockLevel { stock: (old(level).stock - quantity) as i32, ..*old(level) })
            },
            final(level).stock >= 0,
    {
        if quantity <= 0 {
            return Err(ApiError::Invalid);
        }
        if !OrderItem::check_stock(level.stock, quantity) {
            return Err(ApiError::InsufficientStock);
        }
        let item = OrderItem {
            id: fresh_id(),
            order_id,
            product_id: level.product_id,
            quantity,
            price: level.price,
        };
        level.stock = level.stock - quantity;
        Ok(item)
    }
}

} // verus!
