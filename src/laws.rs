use vstd::prelude::*;

use crate::model::{
    complete_order_spec, create_order_spec, create_product_spec, create_user_spec,
    handle_escrow_spec, refund_escrow_spec, release_escrow_spec, resolve_dispute_spec, MarketView,
};
use crate::records::{
    EscrowStatus, ErrorKind, OrderPayload, OrderStatus, ProductPayload, UserPayload,
};
use crate::validation::resolution_of;

verus! {

/// A new product's id is above every product id handed out before, and so above
/// every stored product id; the counter moves up to it.
pub proof fn lemma_product_ids_increase(s: MarketView, p: ProductPayload, now: u64)
    requires
        s.wf(),
    ensures
        ({
            let (t, r) = create_product_spec(s, p, now);
            r is Ok ==> {
                &&& r->Ok_0.id > s.last_product_id
                &&& t.last_product_id == r->Ok_0.id
                &&& forall|k: u64| s.products.contains_key(k) ==> k < r->Ok_0.id
            }
        }),
{
}

/// A new user's id is above every user id handed out before.
pub proof fn lemma_user_ids_increase(s: MarketView, p: UserPayload, now: u64)
    requires
        s.wf(),
    ensures
        ({
            let (t, r) = create_user_spec(s, p, now);
            r is Ok ==> {
                &&& r->Ok_0.id > s.last_user_id
                &&& t.last_user_id == r->Ok_0.id
                &&& forall|k: u64| s.users.contains_key(k) ==> k < r->Ok_0.id
            }
        }),
{
}

/// A new order's id is above every order id handed out before.
pub proof fn lemma_order_ids_increase(s: MarketView, p: OrderPayload, now: u64)
    requires
        s.wf(),
    ensures
        ({
            let (t, r) = create_order_spec(s, p, now);
            r is Ok ==> {
                &&& r->Ok_0.id > s.last_order_id
                &&& t.last_order_id == r->Ok_0.id
                &&& forall|k: u64| s.orders.contains_key(k) ==> k < r->Ok_0.id
            }
        }),
{
}

/// A new escrow's id is above every escrow id handed out before.
pub proof fn lemma_escrow_ids_increase(s: MarketView, order_id: u64, amount: u64, now: u64)
    requires
        s.wf(),
    ensures
        ({
            let (t, r) = handle_escrow_spec(s, order_id, amount, now);
            r is Ok ==> {
                &&& r->Ok_0.id > s.last_escrow_id
                &&& t.last_escrow_id == r->Ok_0.id
                &&& forall|k: u64| s.escrows.contains_key(k) ==> k < r->Ok_0.id
            }
        }),
{
}

/// Ordering more than the product has in stock is refused as invalid input and
/// changes nothing, stock included.
pub proof fn lemma_order_beyond_stock_refused(s: MarketView, p: OrderPayload, now: u64)
    requires
        s.users.contains_key(p.user_id),
        s.products.contains_key(p.product_id),
        p.quantity > s.products[p.product_id].stock_quantity,
    ensures
        create_order_spec(s, p, now) == (s, Err::<crate::records::Order, ErrorKind>(
            ErrorKind::InvalidInput,
        )),
{
}

/// Ordering at most what is in stock succeeds: the order is stored as pending and
/// the product's stock goes down by exactly the quantity ordered.
pub proof fn lemma_order_within_stock_placed(s: MarketView, p: OrderPayload, now: u64)
    requires
        s.wf(),
        s.users.contains_key(p.user_id),
        s.products.contains_key(p.product_id),
        0 < p.quantity <= s.products[p.product_id].stock_quantity,
        p.total_price > 0,
        s.last_order_id < u64::MAX,
    ensures
        ({
            let (t, r) = create_order_spec(s, p, now);
            &&& r is Ok
            &&& r->Ok_0.status == OrderStatus::Pending
            &&& r->Ok_0.quantity == p.quantity
            &&& t.orders.contains_key(r->Ok_0.id)
            &&& t.orders[r->Ok_0.id] == r->Ok_0
            &&& t.products.contains_key(p.product_id)
            &&& t.products[p.product_id].stock_quantity == s.products[p.product_id].stock_quantity
                - p.quantity
        }),
{
}

/// Completing a pending order succeeds once; completing it again is refused as
/// invalid input and changes nothing.
pub proof fn lemma_complete_order_once(s: MarketView, id: u64, first: u64, second: u64)
    requires
        s.orders.contains_key(id),
        s.orders[id].status == OrderStatus::Pending,
    ensures
        ({
            let (s1, r1) = complete_order_spec(s, id, first);
            let (s2, r2) = complete_order_spec(s1, id, second);
            &&& r1 is Ok
            &&& r1->Ok_0.status == OrderStatus::Completed
            &&& r2 == Err::<crate::records::Order, ErrorKind>(ErrorKind::InvalidInput)
            &&& s2 == s1
        }),
{
}

/// A held escrow can be released or refunded once; after either, a second
/// release or refund is refused as invalid input and changes nothing.
pub proof fn lemma_escrow_settles_once(
    s: MarketView,
    id: u64,
    first_refunds: bool,
    second_refunds: bool,
    first: u64,
    second: u64,
)
    requires
        s.escrows.contains_key(id),
        s.escrows[id].status == EscrowStatus::Held,
    ensures
        ({
            let (s1, r1) = if first_refunds {
                refund_escrow_spec(s, id, first)
            } else {
                release_escrow_spec(s, id, first)
            };
            let (s2, r2) = if second_refunds {
                refund_escrow_spec(s1, id, second)
            } else {
                release_escrow_spec(s1, id, second)
            };
            &&& r1 is Ok
            &&& r1->Ok_0.status == (if first_refunds {
                EscrowStatus::Refunded
            } else {
                EscrowStatus::Released
            })
            &&& r2 == Err::<crate::records::Escrow, ErrorKind>(ErrorKind::InvalidInput)
            &&& s2 == s1
        }),
{
}

/// Resolving a pending order with `"Refund"` refunds it.
pub proof fn lemma_refund_resolves_pending(s: MarketView, id: u64, now: u64)
    requires
        s.orders.contains_key(id),
        s.orders[id].status == OrderStatus::Pending,
    ensures
        ({
            let (t, r) = resolve_dispute_spec(s, id, "Refund"@, now);
            &&& r is Ok
            &&& r->Ok_0.status == OrderStatus::Refunded
            &&& t.orders[id] == r->Ok_0
        }),
{
    reveal_strlit("Refund");
    reveal_strlit("Complete");
    assert("Refund"@ != "Complete"@) by {
        assert("Refund"@.len() != "Complete"@.len());
    }
}

/// A resolution other than `"Complete"` or `"Refund"` is refused as invalid input
/// and leaves the order, and everything else, as it was.
pub proof fn lemma_unknown_resolution_refused(
    s: MarketView,
    id: u64,
    resolution: Seq<char>,
    now: u64,
)
    requires
        s.orders.contains_key(id),
        resolution_of(resolution) is None,
    ensures
        resolve_dispute_spec(s, id, resolution, now) == (s, Err::<crate::records::Order, ErrorKind>(
            ErrorKind::InvalidInput,
        )),
{
}

} // verus!
