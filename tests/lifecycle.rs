use marketplace::market::{generate_id, Marketplace};
use marketplace::records::{
    EscrowStatus, ErrorKind, OrderPayload, OrderStatus, ProductPayload, Resolution, Role,
    UserPayload,
};
use marketplace::validation::{
    parse_resolution, parse_role, validate_order_payload, validate_product_payload,
    validate_user_fields, validate_user_payload,
};

fn user(name: &str, email: &str, role: &str) -> UserPayload {
    UserPayload { name: name.to_string(), email: email.to_string(), role: role.to_string() }
}

fn product(seller_id: u64, price: u64, stock: u32) -> ProductPayload {
    ProductPayload {
        name: "Lamp".to_string(),
        description: "A desk lamp".to_string(),
        price,
        stock_quantity: stock,
        seller_id,
    }
}

fn order(user_id: u64, product_id: u64, quantity: u32, total_price: u64) -> OrderPayload {
    OrderPayload { user_id, product_id, quantity, total_price }
}

/// A market with a seller (id 1), a buyer (id 2) and a product of the seller
/// (id 1) priced 100 with 5 in stock.
fn stocked_market() -> Marketplace {
    let mut m = Marketplace::new();
    let seller = m.create_user(user("Sam", "sam@shop.example", "seller"), 10).unwrap();
    assert_eq!(seller.id, 1);
    let buyer = m.create_user(user("Bea", "bea@mail.example", "buyer"), 11).unwrap();
    assert_eq!(buyer.id, 2);
    let p = m.create_product(product(seller.id, 100, 5), 12).unwrap();
    assert_eq!(p.id, 1);
    m
}

#[test]
fn seller_product_order_complete_scenario() {
    let mut m = stocked_market();
    let o = m.create_order(order(2, 1, 3, 300), 20).unwrap();
    assert_eq!(o.status, OrderStatus::Pending);
    assert_eq!(o.quantity, 3);
    assert_eq!(o.buyer_id, 2);
    assert_eq!(m.view_product(1).unwrap().stock_quantity, 2);
    assert_eq!(m.view_product(1).unwrap().updated_at, Some(20));
    let done = m.complete_order(o.id, 21).unwrap();
    assert_eq!(done.status, OrderStatus::Completed);
    assert_eq!(done.updated_at, Some(21));
    let again = m.complete_order(o.id, 22).unwrap_err();
    assert_eq!(again.kind(), ErrorKind::InvalidInput);
    assert_eq!(m.view_order(o.id).unwrap().status, OrderStatus::Completed);
}

#[test]
fn escrow_release_then_refund_scenario() {
    let mut m = stocked_market();
    let o = m.create_order(order(2, 1, 1, 100), 20).unwrap();
    let e = m.handle_escrow(o.id, 50, 21).unwrap();
    assert_eq!(e.status, EscrowStatus::Held);
    assert_eq!(e.amount, 50);
    assert_eq!(e.order_id, o.id);
    let released = m.release_escrow(e.id, 22).unwrap();
    assert_eq!(released.status, EscrowStatus::Released);
    let err = m.refund_escrow(e.id, 23).unwrap_err();
    assert_eq!(err.kind(), ErrorKind::InvalidInput);
    assert_eq!(err.message().as_str(), "Escrow is not in a held state.");
}

#[test]
fn escrow_refund_then_release_refused() {
    let mut m = Marketplace::new();
    let e = m.handle_escrow(7, 40, 1).unwrap();
    assert_eq!(m.refund_escrow(e.id, 2).unwrap().status, EscrowStatus::Refunded);
    assert_eq!(m.release_escrow(e.id, 3).unwrap_err().kind(), ErrorKind::InvalidInput);
    assert_eq!(m.refund_escrow(e.id, 4).unwrap_err().kind(), ErrorKind::InvalidInput);
}

#[test]
fn escrow_errors() {
    let mut m = Marketplace::new();
    assert_eq!(m.handle_escrow(1, 0, 1).unwrap_err().kind(), ErrorKind::InvalidInput);
    assert_eq!(m.release_escrow(9, 1).unwrap_err().kind(), ErrorKind::NotFound);
    assert_eq!(m.refund_escrow(9, 1).unwrap_err().kind(), ErrorKind::NotFound);
}

#[test]
fn ids_increase_per_kind_and_are_not_reused() {
    let mut m = stocked_market();
    let p2 = m.create_product(product(1, 5, 1), 30).unwrap();
    assert_eq!(p2.id, 2);
    m.delete_product(2).unwrap();
    let p3 = m.create_product(product(1, 5, 1), 31).unwrap();
    assert_eq!(p3.id, 3);
    let u3 = m.create_user(user("Ada", "ada@x.example", "admin"), 32).unwrap();
    assert_eq!(u3.id, 3);
    let e1 = m.handle_escrow(1, 10, 33).unwrap();
    let e2 = m.handle_escrow(1, 10, 34).unwrap();
    assert_eq!((e1.id, e2.id), (1, 2));
    let o1 = m.create_order(order(2, 1, 1, 100), 35).unwrap();
    let o2 = m.create_order(order(2, 1, 1, 100), 36).unwrap();
    assert!(o2.id > o1.id);
}

#[test]
fn order_beyond_stock_refused_and_stock_kept() {
    let mut m = stocked_market();
    let err = m.create_order(order(2, 1, 6, 600), 20).unwrap_err();
    assert_eq!(err.kind(), ErrorKind::InvalidInput);
    assert_eq!(m.view_product(1).unwrap().stock_quantity, 5);
    assert_eq!(m.view_order(1).unwrap_err().kind(), ErrorKind::NotFound);
}

#[test]
fn order_of_whole_stock_empties_it() {
    let mut m = stocked_market();
    let o = m.create_order(order(2, 1, 5, 500), 20).unwrap();
    assert_eq!(o.status, OrderStatus::Pending);
    assert_eq!(m.view_product(1).unwrap().stock_quantity, 0);
    assert_eq!(m.view_order(o.id).unwrap(), o);
}

#[test]
fn order_errors() {
    let mut m = stocked_market();
    assert_eq!(m.create_order(order(2, 1, 0, 1), 20).unwrap_err().kind(), ErrorKind::InvalidInput);
    assert_eq!(m.create_order(order(2, 1, 1, 0), 20).unwrap_err().kind(), ErrorKind::InvalidInput);
    assert_eq!(m.create_order(order(9, 1, 1, 1), 20).unwrap_err().kind(), ErrorKind::NotFound);
    assert_eq!(m.create_order(order(2, 9, 1, 1), 20).unwrap_err().kind(), ErrorKind::NotFound);
    assert_eq!(m.complete_order(9, 20).unwrap_err().kind(), ErrorKind::NotFound);
    assert_eq!(m.delete_order(9).unwrap_err().kind(), ErrorKind::NotFound);
}

#[test]
fn resolve_pending_with_refund() {
    let mut m = stocked_market();
    let o = m.create_order(order(2, 1, 2, 200), 20).unwrap();
    let r = m.resolve_dispute(o.id, "Refund".to_string(), 21).unwrap();
    assert_eq!(r.status, OrderStatus::Refunded);
    assert_eq!(m.view_order(o.id).unwrap().status, OrderStatus::Refunded);
    let again = m.resolve_dispute(o.id, "Complete".to_string(), 22).unwrap_err();
    assert_eq!(again.kind(), ErrorKind::InvalidInput);
}

#[test]
fn resolve_with_bogus_token_keeps_status() {
    let mut m = stocked_market();
    let o = m.create_order(order(2, 1, 2, 200), 20).unwrap();
    for token in ["Bogus", "refund", "complete", ""] {
        let err = m.resolve_dispute(o.id, token.to_string(), 21).unwrap_err();
        assert_eq!(err.kind(), ErrorKind::InvalidInput);
    }
    assert_eq!(m.view_order(o.id).unwrap(), o);
    let done = m.resolve_dispute(o.id, "Complete".to_string(), 22).unwrap();
    assert_eq!(done.status, OrderStatus::Completed);
    assert_eq!(m.resolve_dispute(99, "Refund".to_string(), 23).unwrap_err().kind(), ErrorKind::NotFound);
}

#[test]
fn update_order_only_while_pending() {
    let mut m = stocked_market();
    let o = m.create_order(order(2, 1, 2, 200), 20).unwrap();
    let u = m.update_order(o.id, order(2, 1, 4, 400), 21).unwrap();
    assert_eq!((u.quantity, u.total_price, u.updated_at), (4, 400, Some(21)));
    assert_eq!(m.view_product(1).unwrap().stock_quantity, 3);
    m.complete_order(o.id, 22).unwrap();
    let err = m.update_order(o.id, order(2, 1, 1, 100), 23).unwrap_err();
    assert_eq!(err.kind(), ErrorKind::InvalidInput);
    assert_eq!(err.message().as_str(), "Only pending orders can be updated.");
    assert_eq!(m.update_order(77, order(2, 1, 1, 100), 23).unwrap_err().kind(), ErrorKind::NotFound);
}

#[test]
fn product_creation_errors() {
    let mut m = stocked_market();
    assert_eq!(m.create_product(product(2, 10, 1), 1).unwrap_err().kind(), ErrorKind::Unauthorized);
    assert_eq!(m.create_product(product(42, 10, 1), 1).unwrap_err().kind(), ErrorKind::NotFound);
    assert_eq!(m.create_product(product(1, 0, 1), 1).unwrap_err().kind(), ErrorKind::InvalidInput);
    assert_eq!(m.create_product(product(1, 10, 0), 1).unwrap_err().kind(), ErrorKind::InvalidInput);
    let mut blank = product(1, 10, 1);
    blank.name = String::new();
    assert_eq!(m.create_product(blank, 1).unwrap_err().kind(), ErrorKind::InvalidInput);
}

#[test]
fn update_product_by_owner_only() {
    let mut m = stocked_market();
    let mut changed = product(1, 120, 9);
    changed.name = "Floor lamp".to_string();
    let p = m.update_product(1, changed, 40).unwrap();
    assert_eq!((p.price, p.stock_quantity, p.seller_id, p.created_at), (120, 9, 1, 12));
    assert_eq!(p.name, "Floor lamp");
    assert_eq!(p.updated_at, Some(40));
    assert_eq!(m.update_product(1, product(2, 1, 1), 41).unwrap_err().kind(), ErrorKind::Unauthorized);
    assert_eq!(m.update_product(8, product(1, 1, 1), 41).unwrap_err().kind(), ErrorKind::NotFound);
    assert_eq!(m.view_product(1).unwrap(), p);
}

#[test]
fn manage_inventory_sets_stock() {
    let mut m = stocked_market();
    assert_eq!(m.manage_inventory(1, 12, 50).unwrap().stock_quantity, 12);
    assert_eq!(m.manage_inventory(1, 0, 51).unwrap_err().kind(), ErrorKind::InvalidInput);
    assert_eq!(m.view_product(1).unwrap().stock_quantity, 12);
    assert_eq!(m.manage_inventory(3, 1, 51).unwrap_err().kind(), ErrorKind::NotFound);
}

#[test]
fn deduct_stock_takes_units() {
    let mut m = stocked_market();
    assert_eq!(m.deduct_stock(1, 2, 60).unwrap().stock_quantity, 3);
    assert_eq!(m.deduct_stock(1, 4, 61).unwrap_err().kind(), ErrorKind::InvalidInput);
    assert_eq!(m.deduct_stock(5, 1, 61).unwrap_err().kind(), ErrorKind::NotFound);
}

#[test]
fn delete_and_view_product() {
    let mut m = stocked_market();
    let p = m.delete_product(1).unwrap();
    assert_eq!(p.id, 1);
    assert_eq!(m.view_product(1).unwrap_err().kind(), ErrorKind::NotFound);
    assert_eq!(m.delete_product(1).unwrap_err().kind(), ErrorKind::NotFound);
}

#[test]
fn users_crud() {
    let mut m = Marketplace::new();
    let u = m.create_user(user("Kim", "kim@a.example", "buyer"), 5).unwrap();
    assert_eq!((u.id, u.role, u.reputation, u.created_at, u.updated_at), (1, Role::Buyer, 100, 5, None));
    let v = m.update_user(1, user("Kim L", "kim@b.example", "seller"), 6).unwrap();
    assert_eq!((v.role, v.reputation, v.updated_at), (Role::Seller, 100, Some(6)));
    assert_eq!(v.email, "kim@b.example");
    assert_eq!(m.view_user(1).unwrap(), v);
    assert_eq!(m.update_user(2, user("X", "x@y.example", "buyer"), 7).unwrap_err().kind(), ErrorKind::NotFound);
    assert_eq!(m.delete_user(1).unwrap(), v);
    assert_eq!(m.view_user(1).unwrap_err().kind(), ErrorKind::NotFound);
    assert_eq!(m.delete_user(1).unwrap_err().kind(), ErrorKind::NotFound);
}

#[test]
fn user_payload_rejections() {
    let mut m = Marketplace::new();
    for bad in [
        user("", "a@b.example", "buyer"),
        user("A", "", "buyer"),
        user("A", "not-an-email", "buyer"),
        user("A", "a b@c.example", "buyer"),
        user("A", "a@nodot", "buyer"),
        user("A", "a@b.example", ""),
        user("A", "a@b.example", "Seller"),
        user("A", "a@b.example", "customer"),
    ] {
        assert_eq!(m.create_user(bad, 1).unwrap_err().kind(), ErrorKind::InvalidInput);
    }
    assert_eq!(m.view_user(1).unwrap_err().kind(), ErrorKind::NotFound);
}

#[test]
fn email_check_goes_through_the_pattern() {
    assert_eq!(validate_user_payload(&user("A", "a@b.example", "admin")).unwrap(), Role::Admin);
    assert_eq!(
        validate_user_payload(&user("A", "plainaddress", "admin")).unwrap_err().kind(),
        ErrorKind::InvalidInput
    );
    assert_eq!(validate_user_fields(&user("A", "anything", "buyer"), Some(true)).unwrap(), Role::Buyer);
    assert_eq!(
        validate_user_fields(&user("A", "a@b.example", "buyer"), Some(false)).unwrap_err().kind(),
        ErrorKind::InvalidInput
    );
    assert_eq!(
        validate_user_fields(&user("A", "a@b.example", "buyer"), None).unwrap_err().kind(),
        ErrorKind::InvalidInput
    );
}

#[test]
fn payload_validators() {
    assert!(validate_product_payload(&product(1, 1, 1)).is_ok());
    assert_eq!(validate_product_payload(&product(0, 1, 1)).unwrap_err().kind(), ErrorKind::InvalidInput);
    let mut blank = product(1, 1, 1);
    blank.description = String::new();
    assert_eq!(validate_product_payload(&blank).unwrap_err().kind(), ErrorKind::InvalidInput);
    assert!(validate_order_payload(&order(1, 1, 1, 1)).is_ok());
    assert_eq!(validate_order_payload(&order(0, 1, 1, 1)).unwrap_err().kind(), ErrorKind::InvalidInput);
    assert_eq!(validate_order_payload(&order(1, 0, 1, 1)).unwrap_err().kind(), ErrorKind::InvalidInput);
}

#[test]
fn tokens_are_exact() {
    assert_eq!(parse_role(&"seller".to_string()), Some(Role::Seller));
    assert_eq!(parse_role(&"buyer".to_string()), Some(Role::Buyer));
    assert_eq!(parse_role(&"admin".to_string()), Some(Role::Admin));
    assert_eq!(parse_role(&"Admin".to_string()), None);
    assert_eq!(parse_resolution(&"Complete".to_string()), Some(Resolution::Complete));
    assert_eq!(parse_resolution(&"Refund".to_string()), Some(Resolution::Refund));
    assert_eq!(parse_resolution(&"Refund ".to_string()), None);
}

#[test]
fn id_counter_stops_at_the_top() {
    let mut c: u64 = 41;
    assert_eq!(generate_id(&mut c).unwrap(), 42);
    assert_eq!(c, 42);
    let mut top: u64 = u64::MAX;
    assert_eq!(generate_id(&mut top).unwrap_err().kind(), ErrorKind::InvalidInput);
    assert_eq!(top, u64::MAX);
}

#[test]
fn lookups_and_inserts() {
    let mut m = stocked_market();
    let mut p = m._get_product(&1).unwrap();
    assert!(m._get_product(&2).is_none());
    p.price = 7;
    m.do_insert_product(&p);
    assert_eq!(m.view_product(1).unwrap().price, 7);
    let mut u = m._get_user(&2).unwrap();
    u.reputation = 50;
    m.do_insert_user(&u);
    assert_eq!(m._get_user(&2).unwrap().reputation, 50);
    let o = m.create_order(order(2, 1, 1, 7), 9).unwrap();
    let mut stored = m._get_order(&o.id).unwrap();
    stored.total_price = 8;
    m.do_insert_order(&stored);
    assert_eq!(m._get_order(&o.id).unwrap().total_price, 8);
    assert!(m._get_order(&99).is_none());
}

#[test]
fn error_messages_name_the_id() {
    let m = Marketplace::new();
    let err = m.view_order(17).unwrap_err();
    assert_eq!(err.message().as_str(), "Order with id=17 not found");
}
