use vstd::prelude::*;

use crate::records::{
    Escrow, EscrowStatus, ErrorKind, Order, OrderPayload, OrderStatus, Product, ProductPayload,
    Resolution, Role, User, UserPayload,
};
use crate::validation::{order_payload_valid, product_payload_valid, resolution_of, user_payload_check};

verus! {

/// The abstract state of a marketplace: one map per entity kind from id to record,
/// and for each kind the last id handed out (0 before the first).
pub struct MarketView {
    pub products: Map<u64, Product>,
    pub users: Map<u64, User>,
    pub orders: Map<u64, Order>,
    pub escrows: Map<u64, Escrow>,
    pub last_product_id: u64,
    pub last_user_id: u64,
    pub last_order_id: u64,
    pub last_escrow_id: u64,
}

/// Every record is stored under its own id, and no stored id is above the last
/// one handed out for its kind.
pub open spec fn keyed_by_id<V>(m: Map<u64, V>, id_of: spec_fn(V) -> u64, last: u64) -> bool {
    forall|k: u64| #[trigger]
        m.contains_key(k) ==> id_of(m[k]) == k && 1 <= k <= last
}

impl MarketView {
    pub open spec fn wf(self) -> bool {
        &&& keyed_by_id(self.products, |p: Product| p.id, self.last_product_id)
        &&& keyed_by_id(self.users, |u: User| u.id, self.last_user_id)
        &&& keyed_by_id(self.orders, |o: Order| o.id, self.last_order_id)
        &&& keyed_by_id(self.escrows, |e: Escrow| e.id, self.last_escrow_id)
    }
}

/// The id that follows `last`, if the id space is not used up.
pub open spec fn next_id(last: u64) -> Option<u64> {
    if last < u64::MAX {
        Some((last + 1) as u64)
    } else {
        None
    }
}

pub open spec fn create_product_spec(s: MarketView, p: ProductPayload, now: u64) -> (
    MarketView,
    Result<Product, ErrorKind>,
) {
    if !product_payload_valid(p) {
        (s, Err(ErrorKind::InvalidInput))
    } else if !s.users.contains_key(p.seller_id) {
        (s, Err(ErrorKind::NotFound))
    } else if s.users[p.seller_id].role != Role::Seller {
        (s, Err(ErrorKind::Unauthorized))
    } else if next_id(s.last_product_id) is None {
        (s, Err(ErrorKind::InvalidInput))
    } else {
        let id = next_id(s.last_product_id)->Some_0;
        let rec = Product {
            id,
            name: p.name,
            description: p.description,
            price: p.price,
            stock_quantity: p.stock_quantity,
            seller_id: p.seller_id,
            created_at: now,
            updated_at: None,
        };
        (MarketView { products: s.products.insert(id, rec), last_product_id: id, ..s }, Ok(rec))
    }
}

pub open spec fn update_product_spec(s: MarketView, id: u64, p: ProductPayload, now: u64) -> (
    MarketView,
    Result<Product, ErrorKind>,
) {
    if !product_payload_valid(p) {
        (s, Err(ErrorKind::InvalidInput))
    } else if !s.products.contains_key(id) {
        (s, Err(ErrorKind::NotFound))
    } else if s.products[id].seller_id != p.seller_id {
        (s, Err(ErrorKind::Unauthorized))
    } else {
        let rec = Product {
            name: p.name,
            description: p.description,
            price: p.price,
            stock_quantity: p.stock_quantity,
            updated_at: Some(now),
            ..s.products[id]
        };
        (MarketView { products: s.products.insert(id, rec), ..s }, Ok(rec))
    }
}

pub open spec fn lookup<V>(m: Map<u64, V>, id: u64) -> Result<V, ErrorKind> {
    if m.contains_key(id) {
        Ok(m[id])
    } else {
        Err(ErrorKind::NotFound)
    }
}

pub open spec fn delete_product_spec(s: MarketView, id: u64) -> (
    MarketView,
    Result<Product, ErrorKind>,
) {
    if s.products.contains_key(id) {
        (MarketView { products: s.products.remove(id), ..s }, Ok(s.products[id]))
    } else {
        (s, Err(ErrorKind::NotFound))
    }
}

/// A product after `qty` units have left its stock at time `now`.
pub open spec fn deducted(p: Product, qty: u32, now: u64) -> Product {
    Product { stock_quantity: (p.stock_quantity - qty) as u32, updated_at: Some(now), ..p }
}

pub open spec fn deduct_stock_spec(s: MarketView, id: u64, qty: u32, now: u64) -> (
    MarketView,
    Result<Product, ErrorKind>,
) {
    if !s.products.contains_key(id) {
        (s, Err(ErrorKind::NotFound))
    } else if qty > s.products[id].stock_quantity {
        (s, Err(ErrorKind::InvalidInput))
    } else {
        let rec = deducted(s.products[id], qty, now);
        (MarketView { products: s.products.insert(id, rec), ..s }, Ok(rec))
    }
}

pub open spec fn manage_inventory_spec(s: MarketView, id: u64, qty: u32, now: u64) -> (
    MarketView,
    Result<Product, ErrorKind>,
) {
    if !s.products.contains_key(id) {
        (s, Err(ErrorKind::NotFound))
    } else if qty == 0 {
        (s, Err(ErrorKind::InvalidInput))
    } else {
        let rec = Product { stock_quantity: qty, updated_at: Some(now), ..s.products[id] };
        (MarketView { products: s.products.insert(id, rec), ..s }, Ok(rec))
    }
}

pub open spec fn create_user_spec(s: MarketView, p: UserPayload, now: u64) -> (
    MarketView,
    Result<User, ErrorKind>,
) {
    match user_payload_check(p) {
        Err(k) => (s, Err(k)),
        Ok(role) => if next_id(s.last_user_id) is None {
            (s, Err(ErrorKind::InvalidInput))
        } else {
            let id = next_id(s.last_user_id)->Some_0;
            let rec = User {
                id,
                name: p.name,
                email: p.email,
                role,
                reputation: 100,
                created_at: now,
                updated_at: None,
            };
            (MarketView { users: s.users.insert(id, rec), last_user_id: id, ..s }, Ok(rec))
        },
    }
}

pub open spec fn update_user_spec(s: MarketView, id: u64, p: UserPayload, now: u64) -> (
    MarketView,
    Result<User, ErrorKind>,
) {
    match user_payload_check(p) {
        Err(k) => (s, Err(k)),
        Ok(role) => if !s.users.contains_key(id) {
            (s, Err(ErrorKind::NotFound))
        } else {
            let rec = User {
                name: p.name,
                email: p.email,
                role,
                updated_at: Some(now),
                ..s.users[id]
            };
            (MarketView { users: s.users.insert(id, rec), ..s }, Ok(rec))
        },
    }
}

pub open spec fn delete_user_spec(s: MarketView, id: u64) -> (MarketView, Result<User, ErrorKind>) {
    if s.users.contains_key(id) {
        (MarketView { users: s.users.remove(id), ..s }, Ok(s.users[id]))
    } else {
        (s, Err(ErrorKind::NotFound))
    }
}

pub open spec fn create_order_spec(s: MarketView, p: OrderPayload, now: u64) -> (
    MarketView,
    Result<Order, ErrorKind>,
) {
    if !order_payload_valid(p) {
        (s, Err(ErrorKind::InvalidInput))
    } else if !s.users.contains_key(p.user_id) {
        (s, Err(ErrorKind::NotFound))
    } else if !s.products.contains_key(p.product_id) {
        (s, Err(ErrorKind::NotFound))
    } else if p.quantity > s.products[p.product_id].stock_quantity {
        (s, Err(ErrorKind::InvalidInput))
    } else if next_id(s.last_order_id) is None {
        (s, Err(ErrorKind::InvalidInput))
    } else {
        let id = next_id(s.last_order_id)->Some_0;
        let rec = Order {
            id,
            product_id: p.product_id,
            buyer_id: p.user_id,
            quantity: p.quantity,
            total_price: p.total_price,
            status: OrderStatus::Pending,
            created_at: now,
            updated_at: None,
        };
        let product = deducted(s.products[p.product_id], p.quantity, now);
        (
            MarketView {
                orders: s.orders.insert(id, rec),
                products: s.products.insert(p.product_id, product),
                last_order_id: id,
                ..s
            },
            Ok(rec),
        )
    }
}

pub open spec fn update_order_spec(s: MarketView, id: u64, p: OrderPayload, now: u64) -> (
    MarketView,
    Result<Order, ErrorKind>,
) {
    if !order_payload_valid(p) {
        (s, Err(ErrorKind::InvalidInput))
    } else if !s.orders.contains_key(id) {
        (s, Err(ErrorKind::NotFound))
    } else if s.orders[id].status != OrderStatus::Pending {
        (s, Err(ErrorKind::InvalidInput))
    } else {
        let rec = Order {
            product_id: p.product_id,
            quantity: p.quantity,
            total_price: p.total_price,
            updated_at: Some(now),
            ..s.orders[id]
        };
        (MarketView { orders: s.orders.insert(id, rec), ..s }, Ok(rec))
    }
}

pub open spec fn delete_order_spec(s: MarketView, id: u64) -> (
    MarketView,
    Result<Order, ErrorKind>,
) {
    if s.orders.contains_key(id) {
        (MarketView { orders: s.orders.remove(id), ..s }, Ok(s.orders[id]))
    } else {
        (s, Err(ErrorKind::NotFound))
    }
}

/// An order moved to `status` at time `now`.
pub open spec fn with_status(o: Order, status: OrderStatus, now: u64) -> Order {
    Order { status, updated_at: Some(now), ..o }
}

pub open spec fn complete_order_spec(s: MarketView, id: u64, now: u64) -> (
    MarketView,
    Result<Order, ErrorKind>,
) {
    if !s.orders.contains_key(id) {
        (s, Err(ErrorKind::NotFound))
    } else if s.orders[id].status != OrderStatus::Pending {
        (s, Err(ErrorKind::InvalidInput))
    } else {
        let rec = with_status(s.orders[id], OrderStatus::Completed, now);
        (MarketView { orders: s.orders.insert(id, rec), ..s }, Ok(rec))
    }
}

/// Whether a dispute may still be resolved for an order in this state.
pub open spec fn disputable(status: OrderStatus) -> bool {
    status == OrderStatus::Pending || status == OrderStatus::InDispute
}

pub open spec fn resolved_status(r: Resolution) -> OrderStatus {
    match r {
        Resolution::Complete => OrderStatus::Completed,
        Resolution::Refund => OrderStatus::Refunded,
    }
}

pub open spec fn resolve_dispute_spec(s: MarketView, id: u64, resolution: Seq<char>, now: u64) -> (
    MarketView,
    Result<Order, ErrorKind>,
) {
    if !s.orders.contains_key(id) {
        (s, Err(ErrorKind::NotFound))
    } else if !disputable(s.orders[id].status) {
        (s, Err(ErrorKind::InvalidInput))
    } else if resolution_of(resolution) is None {
        (s, Err(ErrorKind::InvalidInput))
    } else {
        let status = resolved_status(resolution_of(resolution)->Some_0);
        let rec = with_status(s.orders[id], status, now);
        (MarketView { orders: s.orders.insert(id, rec), ..s }, Ok(rec))
    }
}

pub open spec fn handle_escrow_spec(s: MarketView, order_id: u64, amount: u64, now: u64) -> (
    MarketView,
    Result<Escrow, ErrorKind>,
) {
    if amount == 0 {
        (s, Err(ErrorKind::InvalidInput))
    } else if next_id(s.last_escrow_id) is None {
        (s, Err(ErrorKind::InvalidInput))
    } else {
        let id = next_id(s.last_escrow_id)->Some_0;
        let rec = Escrow {
            id,
            order_id,
            amount,
            status: EscrowStatus::Held,
            created_at: now,
            updated_at: None,
        };
        (MarketView { escrows: s.escrows.insert(id, rec), last_escrow_id: id, ..s }, Ok(rec))
    }
}

/// Moves a held escrow to `target`; anything not held is refused.
pub open spec fn settle_escrow_spec(s: MarketView, id: u64, target: EscrowStatus, now: u64) -> (
    MarketView,
    Result<Escrow, ErrorKind>,
) {
    if !s.escrows.contains_key(id) {
        (s, Err(ErrorKind::NotFound))
    } else if s.escrows[id].status != EscrowStatus::Held {
        (s, Err(ErrorKind::InvalidInput))
    } else {
        let rec = Escrow { status: target, updated_at: Some(now), ..s.escrows[id] };
        (MarketView { escrows: s.escrows.insert(id, rec), ..s }, Ok(rec))
    }
}

pub open spec fn release_escrow_spec(s: MarketView, id: u64, now: u64) -> (
    MarketView,
    Result<Escrow, ErrorKind>,
) {
    settle_escrow_spec(s, id, EscrowStatus::Released, now)
}

pub open spec fn refund_escrow_spec(s: MarketView, id: u64, now: u64) -> (
    MarketView,
    Result<Escrow, ErrorKind>,
) {
    settle_escrow_spec(s, id, EscrowStatus::Refunded, now)
}

} // verus!
