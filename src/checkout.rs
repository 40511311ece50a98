use vstd::prelude::*;

use crate::error::ApiError;
use crate::ids::{fresh_id, Id};
use crate::order::{CreateOrderRequest, Order, OrderItem, OrderItemRequest, OrderStatus, StockLevel};
use crate::payment::{Payment, PaymentStatus};

verus! {

/// The stock and prices of the products an order touches, read under a lock
/// so that concurrent placements on one product are serialized.
#[derive(Clone, Debug, PartialEq)]
pub struct Inventory {
    pub levels: Vec<StockLevel>,
}

/// Everything a successful placement creates: the order, its lines and its
/// pending payment. The caller stores all of it in one transaction.
#[derive(Clone, Debug, PartialEq)]
pub struct PlacedOrder {
    pub order: Order,
    pub items: Vec<OrderItem>,
    pub payment: Payment,
}

/// No stock is negative, and each product appears once.
pub open spec fn levels_wf(ls: Seq<StockLevel>) -> bool {
    &&& forall|i: int| 0 <= i < ls.len() ==> #[trigger] ls[i].stock >= 0
    &&& forall|i: int, j: int|
        0 <= i < j < ls.len() ==> #[trigger] ls[i].product_id != #[trigger] ls[j].product_id
}

/// Whether product `id` is known.
pub open spec fn stocked(ls: Seq<StockLevel>, id: Id) -> bool {
    exists|i: int| 0 <= i < ls.len() && #[trigger] ls[i].product_id == id
}

/// The quantity of product `id` that the first `n` lines ask for.
pub open spec fn demand(items: Seq<OrderItemRequest>, id: Id, n: int) -> int
    decreases n,
{
    if n <= 0 {
        0
    } else {
        demand(items, id, n - 1) + if items[n - 1].product_id == id {
            items[n - 1].quantity as int
        } else {
            0
        }
    }
}

/// The quantity of product `id` that the whole order asks for.
pub open spec fn total_demand(items: Seq<OrderItemRequest>, id: Id) -> int {
    demand(items, id, items.len() as int)
}

/// An order names at least one line, and every quantity is positive.
pub open spec fn valid_request(items: Seq<OrderItemRequest>) -> bool {
    &&& items.len() > 0
    &&& forall|k: int| 0 <= k < items.len() ==> #[trigger] items[k].quantity > 0
}

/// Line `k` cannot be served: its product is unknown, or together with the
/// earlier lines for that product it asks for more than the stock.
pub open spec fn fails_at(ls: Seq<StockLevel>, items: Seq<OrderItemRequest>, k: int) -> bool {
    let id = items[k].product_id;
    ||| !stocked(ls, id)
    ||| exists|i: int|
        0 <= i < ls.len() && #[trigger] ls[i].product_id == id && demand(items, id, k + 1) > ls[i].stock
}

/// Every line can be served, in order.
pub open spec fn fits_stock(ls: Seq<StockLevel>, items: Seq<OrderItemRequest>) -> bool {
    forall|k: int| 0 <= k < items.len() ==> !#[trigger] fails_at(ls, items, k)
}

/// Line `k` is the first line that cannot be served.
pub open spec fn first_failure(ls: Seq<StockLevel>, items: Seq<OrderItemRequest>, k: int) -> bool {
    &&& 0 <= k < items.len()
    &&& fails_at(ls, items, k)
    &&& forall|j: int| 0 <= j < k ==> !#[trigger] fails_at(ls, items, j)
}

/// The error that a failing line `k` reports.
pub open spec fn failure_error(ls: Seq<StockLevel>, items: Seq<OrderItemRequest>, k: int) -> ApiError {
    if stocked(ls, items[k].product_id) {
        ApiError::InsufficientStock
    } else {
        ApiError::NotFound
    }
}

/// The stock once an order has been served: each product loses what the
/// order asks for of it.
pub open spec fn after_order(ls: Seq<StockLevel>, items: Seq<OrderItemRequest>) -> Seq<StockLevel> {
    ls.map_values(
        |l: StockLevel| StockLevel { stock: (l.stock - total_demand(items, l.product_id)) as i32, ..l },
    )
}

/// Line `line` records request `req` for order `order_id` at the price the
/// product has in `ls`.
pub open spec fn records_line(
    ls: Seq<StockLevel>,
    line: OrderItem,
    req: OrderItemRequest,
    order_id: Id,
) -> bool {
    &&& line.order_id == order_id
    &&& line.product_id == req.product_id
    &&& line.quantity == req.quantity
    &&& exists|i: int| 0 <= i < ls.len() && #[trigger] ls[i].product_id == req.product_id && line.price == ls[i].price
}

/// `placed` is the pending order of `user` for `items`, with one line per
/// request and a pending payment with no method chosen yet.
pub open spec fn records_order(
    placed: PlacedOrder,
    user: Id,
    ls: Seq<StockLevel>,
    items: Seq<OrderItemRequest>,
) -> bool {
    &&& placed.order.user_id == user
    &&& placed.order.status == OrderStatus::Pending
    &&& placed.items@.len() == items.len()
    &&& forall|k: int|
        0 <= k < items.len() ==> records_line(ls, #[trigger] placed.items@[k], items[k], placed.order.id)
    &&& placed.payment.order_id == placed.order.id
    &&& placed.payment.status == PaymentStatus::Pending
    &&& placed.payment.payment_method@.len() == 0
}

/// Along the lines of a valid order, the demand for a product only grows.
pub proof fn lemma_demand_monotone(items: Seq<OrderItemRequest>, id: Id, a: int, b: int)
    requires
        valid_request(items),
        0 <= a <= b <= items.len(),
    ensures
        0 <= demand(items, id, a) <= demand(items, id, b),
    decreases b,
{
    if b > 0 {
        if a < b {
            lemma_demand_monotone(items, id, a, b - 1);
        } else {
            lemma_demand_monotone(items, id, b - 1, b - 1);
        }
        assert(items[b - 1].quantity > 0);
    }
}

/// If the first `n` lines ask for more of `id` than `c`, then one of them,
/// counted with the lines before it, already does.
proof fn lemma_overflowing_line(items: Seq<OrderItemRequest>, id: Id, n: int, c: int)
    requires
        valid_request(items),
        0 <= n <= items.len(),
        0 <= c < demand(items, id, n),
    ensures
        exists|k: int| 0 <= k < n && #[trigger] items[k].product_id == id && demand(items, id, k + 1) > c,
    decreases n,
{
    if items[n - 1].product_id == id {
        assert(items[n - 1].product_id == id && demand(items, id, n) > c);
    } else {
        lemma_overflowing_line(items, id, n - 1, c);
        let k = choose|k: int| 0 <= k < n - 1 && #[trigger] items[k].product_id == id && demand(items, id, k + 1) > c;
        assert(0 <= k < n && items[k].product_id == id && demand(items, id, k + 1) > c);
    }
}

/// An order that can be served asks of each product at most its stock.
pub proof fn lemma_served_order_within_stock(ls: Seq<StockLevel>, items: Seq<OrderItemRequest>, j: int)
    requires
        levels_wf(ls),
        valid_request(items),
        fits_stock(ls, items),
        0 <= j < ls.len(),
    ensures
        0 <= total_demand(items, ls[j].product_id) <= ls[j].stock,
{
    let id = ls[j].product_id;
    lemma_demand_monotone(items, id, 0, items.len() as int);
    if total_demand(items, id) > ls[j].stock {
        lemma_overflowing_line(items, id, items.len() as int, ls[j].stock as int);
        let k = choose|k: int| 0 <= k < items.len() && #[trigger] items[k].product_id == id && demand(items, id, k + 1) > ls[j].stock;
        assert(fails_at(ls, items, k));
    }
}

/// An order that asks of every product at most its stock, and names only
/// known products, can be served; afterwards each product's stock is its
/// old stock less what the order asked of it.
pub proof fn lemma_order_within_stock_succeeds(ls: Seq<StockLevel>, items: Seq<OrderItemRequest>)
    requires
        levels_wf(ls),
        valid_request(items),
        forall|k: int| 0 <= k < items.len() ==> stocked(ls, #[trigger] items[k].product_id),
        forall|i: int| 0 <= i < ls.len() ==> total_demand(items, #[trigger] ls[i].product_id) <= ls[i].stock,
    ensures
        fits_stock(ls, items),
        forall|i: int|
            0 <= i < ls.len() ==> #[trigger] after_order(ls, items)[i].stock == ls[i].stock - total_demand(
                items,
                ls[i].product_id,
            ),
{
    assert forall|k: int| 0 <= k < items.len() implies !#[trigger] fails_at(ls, items, k) by {
        let id = items[k].product_id;
        assert(stocked(ls, id));
        lemma_demand_monotone(items, id, k + 1, items.len() as int);
        assert forall|i: int| 0 <= i < ls.len() && #[trigger] ls[i].product_id == id implies demand(items, id, k + 1) <= ls[i].stock by {
            assert(total_demand(items, ls[i].product_id) <= ls[i].stock);
        }
    }
    assert forall|i: int| 0 <= i < ls.len() implies #[trigger] after_order(ls, items)[i].stock == ls[i].stock
        - total_demand(items, ls[i].product_id) by {
        lemma_demand_monotone(items, ls[i].product_id, 0, items.len() as int);
        assert(total_demand(items, ls[i].product_id) <= ls[i].stock);
    }
}

/// An order of known products with one line that alone asks for more than
/// its product's stock cannot be served, and the placement reports
/// insufficient stock.
pub proof fn lemma_line_over_stock_fails(ls: Seq<StockLevel>, items: Seq<OrderItemRequest>, k: int, i: int)
    requires
        levels_wf(ls),
        valid_request(items),
        forall|j: int| 0 <= j < items.len() ==> stocked(ls, #[trigger] items[j].product_id),
        0 <= k < items.len(),
        0 <= i < ls.len(),
        ls[i].product_id == items[k].product_id,
        items[k].quantity > ls[i].stock,
    ensures
        !fits_stock(ls, items),
        forall|j: int| first_failure(ls, items, j) ==> #[trigger] failure_error(ls, items, j) == ApiError::InsufficientStock,
{
    let id = items[k].product_id;
    lemma_demand_monotone(items, id, 0, k);
    assert(demand(items, id, k + 1) > ls[i].stock);
    assert(fails_at(ls, items, k));
    assert forall|j: int| first_failure(ls, items, j) implies #[trigger] failure_error(ls, items, j) == ApiError::InsufficientStock by {
        assert(stocked(ls, items[j].product_id));
    }
}

/// Placements on one product are serialized. When two orders together ask
/// for more of a product than its stock, then after the first is served the
/// second cannot be, and no stock has gone below zero.
pub proof fn lemma_racing_orders_never_oversell(
    ls: Seq<StockLevel>,
    first: Seq<OrderItemRequest>,
    second: Seq<OrderItemRequest>,
    i: int,
)
    requires
        levels_wf(ls),
        valid_request(first),
        valid_request(second),
        fits_stock(ls, first),
        0 <= i < ls.len(),
        total_demand(first, ls[i].product_id) + total_demand(second, ls[i].product_id) > ls[i].stock,
    ensures
        levels_wf(after_order(ls, first)),
        !fits_stock(after_order(ls, first), second),
{
    let after = after_order(ls, first);
    assert forall|j: int| 0 <= j < after.len() implies #[trigger] after[j].stock >= 0 by {
        lemma_served_order_within_stock(ls, first, j);
    }
    assert forall|a: int, b: int| 0 <= a < b < after.len() implies #[trigger] after[a].product_id
        != #[trigger] after[b].product_id by {
        assert(ls[a].product_id != ls[b].product_id);
    }
    let id = ls[i].product_id;
    lemma_served_order_within_stock(ls, first, i);
    let c = ls[i].stock - total_demand(first, id);
    assert(after[i].stock == c);
    lemma_overflowing_line(second, id, second.len() as int, c);
    let k = choose|k: int| 0 <= k < second.len() && #[trigger] second[k].product_id == id && demand(second, id, k + 1) > c;
    assert(after[i].product_id == id);
    assert(fails_at(after, second, k));
}

/// Placement of `items` against the stock `ls` succeeds.
pub open spec fn served(ls: Seq<StockLevel>, items: Seq<OrderItemRequest>) -> bool {
    valid_request(items) && fits_stock(ls, items)
}

/// The stock after one placement: taken when it succeeds, unchanged when it
/// fails.
pub open spec fn serve(ls: Seq<StockLevel>, items: Seq<OrderItemRequest>) -> Seq<StockLevel> {
    if served(ls, items) {
        after_order(ls, items)
    } else {
        ls
    }
}

/// The stock after the placements `orders`, one after the other, as the
/// product locks serialize concurrent ones.
pub open spec fn serve_in_turn(ls: Seq<StockLevel>, orders: Seq<Seq<OrderItemRequest>>) -> Seq<StockLevel>
    decreases orders.len(),
{
    if orders.len() == 0 {
        ls
    } else {
        serve(serve_in_turn(ls, orders.drop_last()), orders.last())
    }
}

/// What the placements among `orders` that succeeded took of product `id`.
pub open spec fn served_demand(ls: Seq<StockLevel>, orders: Seq<Seq<OrderItemRequest>>, id: Id) -> int
    decreases orders.len(),
{
    if orders.len() == 0 {
        0
    } else {
        served_demand(ls, orders.drop_last(), id) + if served(
            serve_in_turn(ls, orders.drop_last()),
            orders.last(),
        ) {
            total_demand(orders.last(), id)
        } else {
            0
        }
    }
}

/// Any number of placements, serialized on the products they touch, never
/// oversell: after them every stock is still non-negative, and equals the
/// old stock less what the placements that succeeded took, which is
/// therefore at most the old stock.
pub proof fn lemma_serialized_orders_never_oversell(ls: Seq<StockLevel>, orders: Seq<Seq<OrderItemRequest>>)
    requires
        levels_wf(ls),
    ensures
        levels_wf(serve_in_turn(ls, orders)),
        serve_in_turn(ls, orders).len() == ls.len(),
        forall|i: int|
            0 <= i < ls.len() ==> (#[trigger] serve_in_turn(ls, orders)[i]).product_id == ls[i].product_id,
        forall|i: int|
            0 <= i < ls.len() ==> (#[trigger] serve_in_turn(ls, orders)[i]).stock == ls[i].stock
                - served_demand(ls, orders, ls[i].product_id),
        forall|i: int|
            0 <= i < ls.len() ==> 0 <= #[trigger] served_demand(ls, orders, ls[i].product_id) <= ls[i].stock,
    decreases orders.len(),
{
    if orders.len() > 0 {
        let prev = orders.drop_last();
        let last = orders.last();
        lemma_serialized_orders_never_oversell(ls, prev);
        let before = serve_in_turn(ls, prev);
        let now = serve_in_turn(ls, orders);
        assert(now == serve(before, last));
        if served(before, last) {
            assert forall|j: int| 0 <= j < before.len() implies 0 <= total_demand(last, #[trigger] before[j].product_id)
                <= before[j].stock by {
                lemma_served_order_within_stock(before, last, j);
            }
            assert forall|a: int, b: int| 0 <= a < b < now.len() implies #[trigger] now[a].product_id
                != #[trigger] now[b].product_id by {
                assert(before[a].product_id != before[b].product_id);
            }
            assert forall|j: int| 0 <= j < now.len() implies #[trigger] now[j].stock >= 0 by {
                assert(0 <= total_demand(last, before[j].product_id) <= before[j].stock);
            }
            assert forall|i: int| 0 <= i < ls.len() implies (#[trigger] now[i]).stock == ls[i].stock - served_demand(
                ls,
                orders,
                ls[i].product_id,
            ) && 0 <= served_demand(ls, orders, ls[i].product_id) <= ls[i].stock by {
                assert(before[i].product_id == ls[i].product_id);
                assert(0 <= total_demand(last, before[i].product_id) <= before[i].stock);
                assert(served_demand(ls, prev, ls[i].product_id) <= ls[i].stock);
            }
        } else {
            assert forall|i: int| 0 <= i < ls.len() implies (#[trigger] now[i]).stock == ls[i].stock - served_demand(
                ls,
                orders,
                ls[i].product_id,
            ) && 0 <= served_demand(ls, orders, ls[i].product_id) <= ls[i].stock by {
                assert(served_demand(ls, prev, ls[i].product_id) <= ls[i].stock);
            }
        }
        assert forall|i: int| 0 <= i < ls.len() implies 0 <= #[trigger] served_demand(ls, orders, ls[i].product_id)
            <= ls[i].stock by {
            assert((now[i]).stock == ls[i].stock - served_demand(ls, orders, ls[i].product_id));
        }
    }
}

impl Inventory {
    pub open spec fn wf(&self) -> bool {
        levels_wf(self.levels@)
    }

    pub fn new() -> (r: Inventory)
        ensures
            r.levels@.len() == 0,
            r.wf(),
    {
        Inventory { levels: Vec::new() }
    }

    /// Adds the stock of one more product. A negative stock is refused, and
    /// so is a product that is already there.
    pub fn add_level(&mut self, level: StockLevel) -> (r: Result<(), ApiError>)
        requires
            old(self).wf(),
        ensures
            final(self).wf(),
            level.stock < 0 ==> r == Err::<(), ApiError>(ApiError::Invalid),
            level.stock >= 0 && stocked(old(self).levels@, level.product_id) ==> r == Err::<(), ApiError>(
                ApiError::Conflict,
            ),
            r is Ok <==> level.stock >= 0 && !stocked(old(self).levels@, level.product_id),
            r is Ok ==> final(self).levels@ == old(self).levels@.push(level),
            r is Err ==> final(self).levels@ == old(self).levels@,
    {
        if level.stock < 0 {
            return Err(ApiError::Invalid);
        }
        match self.find(level.product_id) {
            Some(_) => Err(ApiError::Conflict),
            None => {
                self.levels.push(level);
                proof {
                    let ls = self.levels@;
                    assert forall|i: int, j: int|
                        0 <= i < j < ls.len() implies #[trigger] ls[i].product_id
                        != #[trigger] ls[j].product_id by {
                        if j == ls.len() - 1 {
                            assert(old(self).levels@[i] == ls[i]);
                        } else {
                            assert(old(self).levels@[i] == ls[i]);
                            assert(old(self).levels@[j] == ls[j]);
                        }
                    }
                    assert forall|i: int| 0 <= i < ls.len() implies #[trigger] ls[i].stock >= 0 by {
                        if i < ls.len() - 1 {
                            assert(old(self).levels@[i] == ls[i]);
                        }
                    }
                }
                Ok(())
            },
        }
    }

    /// Position of product `id`, if it is known.
    pub fn find(&self, id: Id) -> (r: Option<usize>)
        ensures
            match r {
                Some(i) => i < self.levels@.len() && self.levels@[i as int].product_id == id,
                None => !stocked(self.levels@, id),
            },
    {
        let n = self.levels.len();
        let mut i: usize = 0;
        while i < n
            invariant
                n == self.levels@.len(),
                i <= n,
                forall|j: int| 0 <= j < i ==> #[trigger] self.levels@[j].product_id != id,
            decreases n - i,
        {
            if self.levels[i].product_id == id {
                return Some(i);
            }
            i = i + 1;
        }
        None
    }

    /// The stock of product `id`, if it is known.
    pub fn stock_of(&self, id: Id) -> (r: Option<i32>)
        requires
            self.wf(),
        ensures
            r is None <==> !stocked(self.levels@, id),
            r is Some ==> exists|i: int|
                0 <= i < self.levels@.len() && #[trigger] self.levels@[i].product_id == id
                    && self.levels@[i].stock == r->Some_0,
    {
        match self.find(id) {
            Some(i) => Some(self.levels[i].stock),
            None => None,
        }
    }
}

/// Whether the order names at least one line and every quantity is positive.
pub fn valid_quantities(items: &Vec<OrderItemRequest>) -> (r: bool)
    ensures
        r == valid_request(items@),
{
    let n = items.len();
    if n == 0 {
        return false;
    }
    let mut k: usize = 0;
    while k < n
        invariant
            n == items@.len(),
            k <= n,
            forall|j: int| 0 <= j < k ==> #[trigger] items@[j].quantity > 0,
        decreases n - k,
    {
        if items[k].quantity <= 0 {
            return false;
        }
        k = k + 1;
    }
    true
}

/// Places an order for `auth_user`: every line is checked against the stock
/// in the order given, and the stock is taken only if every line can be
/// served. On any failure nothing changes.
pub fn create_order(inventory: &mut Inventory, auth_user: Id, body: &CreateOrderRequest) -> (r: Result<
    PlacedOrder,
    ApiError,
>)
    requires
        old(inventory).wf(),
    ensures
        final(inventory).wf(),
        !valid_request(body.items@) ==> r == Err::<PlacedOrder, ApiError>(ApiError::Invalid),
        valid_request(body.items@) ==> (r is Ok <==> fits_stock(old(inventory).levels@, body.items@)),
        valid_request(body.items@) && !fits_stock(old(inventory).levels@, body.items@) ==> exists|k: int|
            first_failure(old(inventory).levels@, body.items@, k) && r == Err::<PlacedOrder, ApiError>(
                #[trigger] failure_error(old(inventory).levels@, body.items@, k),
            ),
        r is Ok <==> served(old(inventory).levels@, body.items@),
        final(inventory).levels@ == serve(old(inventory).levels@, body.items@),
        r is Err ==> final(inventory).levels@ == old(inventory).levels@,
        r is Ok ==> final(inventory).levels@ == after_order(old(inventory).levels@, body.items@),
        r is Ok ==> records_order(r->Ok_0, auth_user, old(inventory).levels@, body.items@),
{
    let items = &body.items;
    let n = items.len();
    if !valid_quantities(items) {
        return Err(ApiError::Invalid);
    }
    let ghost ls = inventory.levels@;
    let ghost reqs = items@;
    let m = inventory.levels.len();
    let mut remaining: Vec<i32> = Vec::new();
    let mut i: usize = 0;
    while i < m
        invariant
            ls == inventory.levels@,
            ls == old(inventory).levels@,
            m == ls.len(),
            i <= m,
            remaining@.len() == i,
            forall|j: int| 0 <= j < i ==> #[trigger] remaining@[j] == ls[j].stock,
        decreases m - i,
    {
        remaining.push(inventory.levels[i].stock);
        i = i + 1;
    }
    let order = Order::create_order(auth_user);
    let mut lines: Vec<OrderItem> = Vec::new();
    let mut k: usize = 0;
    while k < n
        invariant
            ls == inventory.levels@,
            ls == old(inventory).levels@,
            levels_wf(ls),
            reqs == items@,
            reqs == body.items@,
            valid_request(reqs),
            n == reqs.len(),
            m == ls.len(),
            k <= n,
            remaining@.len() == m,
            forall|j: int|
                0 <= j < m ==> #[trigger] remaining@[j] == ls[j].stock - demand(reqs, ls[j].product_id, k as int),
            forall|j: int| 0 <= j < m ==> #[trigger] remaining@[j] >= 0,
            forall|j: int| 0 <= j < k ==> !#[trigger] fails_at(ls, reqs, j),
            lines@.len() == k,
            forall|j: int| 0 <= j < k ==> records_line(ls, #[trigger] lines@[j], reqs[j], order.id),
            order.user_id == auth_user,
            order.status == OrderStatus::Pending,
        decreases n - k,
    {
        let req = items[k];
        let ghost id = req.product_id;
        match inventory.find(req.product_id) {
            None => {
                assert(first_failure(ls, reqs, k as int));
                assert(failure_error(ls, reqs, k as int) == ApiError::NotFound);
                return Err(ApiError::NotFound);
            },
            Some(idx) => {
                assert(stocked(ls, id));
                assert(remaining@[idx as int] == ls[idx as int].stock - demand(reqs, id, k as int));
                assert(demand(reqs, id, k + 1) == demand(reqs, id, k as int) + req.quantity);
                if remaining[idx] < req.quantity {
                    assert(fails_at(ls, reqs, k as int));
                    assert(first_failure(ls, reqs, k as int));
                    assert(failure_error(ls, reqs, k as int) == ApiError::InsufficientStock);
                    return Err(ApiError::InsufficientStock);
                }
                assert forall|j: int| 0 <= j < m && #[trigger] ls[j].product_id == id implies j == idx by {
                    if j < idx {
                        assert(ls[j].product_id != ls[idx as int].product_id);
                    } else if j > idx {
                        assert(ls[idx as int].product_id != ls[j].product_id);
                    }
                }
                assert(!fails_at(ls, reqs, k as int));
                let left = remaining[idx] - req.quantity;
                remaining.set(idx, left);
                lines.push(
                    OrderItem {
                        id: fresh_id(),
                        order_id: order.id,
                        product_id: req.product_id,
                        quantity: req.quantity,
                        price: inventory.levels[idx].price,
                    },
                );
                proof {
                    assert forall|j: int| 0 <= j < m implies #[trigger] remaining@[j] == ls[j].stock
                        - demand(reqs, ls[j].product_id, k + 1) by {
                        if j != idx {
                            assert(ls[j].product_id != id);
                        }
                    }
                    assert(records_line(ls, lines@[k as int], reqs[k as int], order.id));
                }
            },
        }
        k = k + 1;
    }
    let mut i: usize = 0;
    while i < m
        invariant
            levels_wf(ls),
            ls == old(inventory).levels@,
            reqs == body.items@,
            m == ls.len(),
            n == reqs.len(),
            i <= m,
            remaining@.len() == m,
            inventory.levels@.len() == m,
            forall|j: int|
                0 <= j < m ==> #[trigger] remaining@[j] == ls[j].stock - total_demand(reqs, ls[j].product_id),
            forall|j: int| 0 <= j < m ==> #[trigger] remaining@[j] >= 0,
            forall|j: int| 0 <= j < i ==> #[trigger] inventory.levels@[j] == after_order(ls, reqs)[j],
            forall|j: int| i <= j < m ==> #[trigger] inventory.levels@[j] == ls[j],
        decreases m - i,
    {
        let level = inventory.levels[i];
        inventory.levels.set(i, StockLevel { stock: remaining[i], ..level });
        i = i + 1;
    }
    assert(inventory.levels@ =~= after_order(ls, reqs));
    proof {
        let fs = inventory.levels@;
        assert forall|j: int, l: int| 0 <= j < l < fs.len() implies #[trigger] fs[j].product_id
            != #[trigger] fs[l].product_id by {
            assert(ls[j].product_id != ls[l].product_id);
        }
        assert forall|j: int| 0 <= j < fs.len() implies #[trigger] fs[j].stock >= 0 by {
            assert(remaining@[j] >= 0);
        }
    }
    proof {
        reveal_strlit("");
    }
    let payment = Payment::create_payment(order.id, "");
    Ok(PlacedOrder { order, items: lines, payment })
}

} // verus!
