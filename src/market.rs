use std::collections::BTreeMap;

use vstd::prelude::*;

use crate::model::{
    complete_order_spec, create_order_spec, create_product_spec, create_user_spec,
    deduct_stock_spec, delete_order_spec, delete_product_spec, delete_user_spec,
    handle_escrow_spec, lookup, manage_inventory_spec, next_id, refund_escrow_spec,
    release_escrow_spec, resolve_dispute_spec, settle_escrow_spec, update_order_spec,
    update_product_spec, update_user_spec, MarketView,
};
use crate::records::{
    outcome, Error, ErrorKind, Escrow, EscrowStatus, Order, OrderPayload, OrderStatus, Product,
    ProductPayload, Resolution, Role, User, UserPayload,
};
use crate::validation::{
    parse_resolution, validate_order_payload, validate_product_payload, validate_user_payload,
};

verus! {

/// Relies on std's `format!`: writes `id` in decimal between two fixed texts.
#[verifier::external_body]
fn id_message(prefix: &str, id: u64, suffix: &str) -> String {
    format!("{}{}{}", prefix, id, suffix)
}

/// Hands out the id after `counter` and records it there, or fails once the
/// id space is used up.
pub fn generate_id(counter: &mut u64) -> (r: Result<u64, Error>)
    ensures
        match next_id(*old(counter)) {
            Some(id) => r == Ok::<u64, Error>(id) && *final(counter) == id,
            None => outcome(r) == Err::<u64, ErrorKind>(ErrorKind::InvalidInput) && *final(counter)
                == *old(counter),
        },
{
    if *counter == u64::MAX {
        return Err(Error::InvalidInput { msg: "No identifiers are left for this kind.".to_owned() });
    }
    *counter = *counter + 1;
    Ok(*counter)
}

fn not_found(kind: &str, id: u64) -> (r: Error)
    ensures
        r.spec_kind() == ErrorKind::NotFound,
{
    Error::NotFound { msg: id_message(kind, id, " not found") }
}

/// The marketplace: users, products, orders and escrows, each kept in an ordered
/// map from id to record, with a counter per kind for the ids handed out.
pub struct Marketplace {
    products: BTreeMap<u64, Product>,
    users: BTreeMap<u64, User>,
    orders: BTreeMap<u64, Order>,
    escrows: BTreeMap<u64, Escrow>,
    last_product_id: u64,
    last_user_id: u64,
    last_order_id: u64,
    last_escrow_id: u64,
}

impl View for Marketplace {
    type V = MarketView;

    closed spec fn view(&self) -> MarketView {
        MarketView {
            products: self.products@,
            users: self.users@,
            orders: self.orders@,
            escrows: self.escrows@,
            last_product_id: self.last_product_id,
            last_user_id: self.last_user_id,
            last_order_id: self.last_order_id,
            last_escrow_id: self.last_escrow_id,
        }
    }
}

impl Marketplace {
    pub fn new() -> (r: Marketplace)
        ensures
            r@.wf(),
            r@.products.is_empty(),
            r@.users.is_empty(),
            r@.orders.is_empty(),
            r@.escrows.is_empty(),
            r@.last_product_id == 0,
            r@.last_user_id == 0,
            r@.last_order_id == 0,
            r@.last_escrow_id == 0,
    {
        Marketplace {
            products: BTreeMap::new(),
            users: BTreeMap::new(),
            orders: BTreeMap::new(),
            escrows: BTreeMap::new(),
            last_product_id: 0,
            last_user_id: 0,
            last_order_id: 0,
            last_escrow_id: 0,
        }
    }

    pub fn _get_product(&self, product_id: &u64) -> (r: Option<Product>)
        ensures
            r == (if self@.products.contains_key(*product_id) {
                Some(self@.products[*product_id])
            } else {
                None
            }),
    {
        match self.products.get(product_id) {
            Some(p) => Some(p.duplicate()),
            None => None,
        }
    }

    pub fn _get_user(&self, user_id: &u64) -> (r: Option<User>)
        ensures
            r == (if self@.users.contains_key(*user_id) {
                Some(self@.users[*user_id])
            } else {
                None
            }),
    {
        match self.users.get(user_id) {
            Some(u) => Some(u.duplicate()),
            None => None,
        }
    }

    pub fn _get_order(&self, order_id: &u64) -> (r: Option<Order>)
        ensures
            r == (if self@.orders.contains_key(*order_id) {
                Some(self@.orders[*order_id])
            } else {
                None
            }),
    {
        match self.orders.get(order_id) {
            Some(o) => Some(o.duplicate()),
            None => None,
        }
    }

    fn get_escrow(&self, escrow_id: &u64) -> (r: Option<Escrow>)
        ensures
            r == (if self@.escrows.contains_key(*escrow_id) {
                Some(self@.escrows[*escrow_id])
            } else {
                None
            }),
    {
        match self.escrows.get(escrow_id) {
            Some(e) => Some(e.duplicate()),
            None => None,
        }
    }

    /// Stores `product` under its id, replacing any record there.
    pub fn do_insert_product(&mut self, product: &Product)
        ensures
            final(self)@ == (MarketView {
                products: old(self)@.products.insert(product.id, *product),
                ..old(self)@
            }),
    {
        self.products.insert(product.id, product.duplicate());
    }

    /// Stores `user` under its id, replacing any record there.
    pub fn do_insert_user(&mut self, user: &User)
        ensures
            final(self)@ == (MarketView { users: old(self)@.users.insert(user.id, *user), ..old(self)@ }),
    {
        self.users.insert(user.id, user.duplicate());
    }

    /// Stores `order` under its id, replacing any record there.
    pub fn do_insert_order(&mut self, order: &Order)
        ensures
            final(self)@ == (MarketView {
                orders: old(self)@.orders.insert(order.id, *order),
                ..old(self)@
            }),
    {
        self.orders.insert(order.id, order.duplicate());
    }

    fn insert_escrow(&mut self, escrow: &Escrow)
        ensures
            final(self)@ == (MarketView {
                escrows: old(self)@.escrows.insert(escrow.id, *escrow),
                ..old(self)@
            }),
    {
        self.escrows.insert(escrow.id, escrow.duplicate());
    }

    /// Places an order: the buyer and product must exist and the product must
    /// have at least `quantity` in stock. The order starts pending and the stock
    /// goes down by `quantity`.
    pub fn create_order(&mut self, payload: OrderPayload, now: u64) -> (r: Result<Order, Error>)
        requires
            old(self)@.wf(),
        ensures
            final(self)@.wf(),
            (final(self)@, outcome(r)) == create_order_spec(old(self)@, payload, now),
    {
        if let Err(e) = validate_order_payload(&payload) {
            return Err(e);
        }
        if self._get_user(&payload.user_id).is_none() {
            return Err(not_found("User with id=", payload.user_id));
        }
        let product = match self._get_product(&payload.product_id) {
            Some(p) => p,
            None => return Err(not_found("Product with id=", payload.product_id)),
        };
        if payload.quantity > product.stock_quantity {
            return Err(
                Error::InvalidInput {
                    msg: id_message(
                        "Requested quantity exceeds available stock. Available: ",
                        product.stock_quantity as u64,
                        "",
                    ),
                },
            );
        }
        let id = match generate_id(&mut self.last_order_id) {
            Ok(id) => id,
            Err(e) => return Err(e),
        };
        let order = Order {
            id,
            product_id: payload.product_id,
            buyer_id: payload.user_id,
            quantity: payload.quantity,
            total_price: payload.total_price,
            status: OrderStatus::Pending,
            created_at: now,
            updated_at: None,
        };
        self.do_insert_order(&order);
        let deducted = self.deduct_stock(payload.product_id, payload.quantity, now);
        proof {
            assert(deducted is Ok);
        }
        Ok(order)
    }

    /// Takes `quantity` units out of a product's stock.
    pub fn deduct_stock(&mut self, product_id: u64, quantity: u32, now: u64) -> (r: Result<
        Product,
        Error,
    >)
        requires
            old(self)@.wf(),
        ensures
            final(self)@.wf(),
            (final(self)@, outcome(r)) == deduct_stock_spec(old(self)@, product_id, quantity, now),
    {
        let mut product = match self._get_product(&product_id) {
            Some(p) => p,
            None => return Err(not_found("Product with id=", product_id)),
        };
        if quantity > product.stock_quantity {
            return Err(
                Error::InvalidInput {
                    msg: id_message(
                        "Requested quantity exceeds available stock. Available: ",
                        product.stock_quantity as u64,
                        "",
                    ),
                },
            );
        }
        product.stock_quantity = product.stock_quantity - quantity;
        product.updated_at = Some(now);
        self.do_insert_product(&product);
        Ok(product)
    }
    /// Lists a new product for a user whose role is seller.
    pub fn create_product(&mut self, payload: ProductPayload, now: u64) -> (r: Result<
        Product,
        Error,
    >)
        requires
            old(self)@.wf(),
        ensures
            final(self)@.wf(),
            (final(self)@, outcome(r)) == create_product_spec(old(self)@, payload, now),
    {
        if let Err(e) = validate_product_payload(&payload) {
            return Err(e);
        }
        let seller = match self._get_user(&payload.seller_id) {
            Some(user) => user,
            None => return Err(not_found("Seller with id=", payload.seller_id)),
        };
        match seller.role {
            Role::Seller => {},
            _ => {
                return Err(
                    Error::Unauthorized {
                        msg: id_message(
                            "User with id=",
                            payload.seller_id,
                            " is not authorized to add products",
                        ),
                    },
                );
            },
        }
        let id = match generate_id(&mut self.last_product_id) {
            Ok(id) => id,
            Err(e) => return Err(e),
        };
        let product = Product {
            id,
            name: payload.name,
            description: payload.description,
            price: payload.price,
            stock_quantity: payload.stock_quantity,
            seller_id: seller.id,
            created_at: now,
            updated_at: None,
        };
        self.do_insert_product(&product);
        Ok(product)
    }

    /// Rewrites a product's name, description, price and stock; only the seller
    /// who owns it may do so.
    pub fn update_product(&mut self, id: u64, payload: ProductPayload, now: u64) -> (r: Result<
        Product,
        Error,
    >)
        requires
            old(self)@.wf(),
        ensures
            final(self)@.wf(),
            (final(self)@, outcome(r)) == update_product_spec(old(self)@, id, payload, now),
    {
        if let Err(e) = validate_product_payload(&payload) {
            return Err(e);
        }
        let mut product = match self._get_product(&id) {
            Some(p) => p,
            None => return Err(not_found("Product with id=", id)),
        };
        if product.seller_id != payload.seller_id {
            return Err(
                Error::Unauthorized {
                    msg: id_message(
                        "User with id=",
                        payload.seller_id,
                        " is not authorized to update this product",
                    ),
                },
            );
        }
        product.name = payload.name;
        product.description = payload.description;
        product.price = payload.price;
        product.stock_quantity = payload.stock_quantity;
        product.updated_at = Some(now);
        self.do_insert_product(&product);
        Ok(product)
    }

    pub fn view_product(&self, product_id: u64) -> (r: Result<Product, Error>)
        ensures
            outcome(r) == lookup(self@.products, product_id),
    {
        match self._get_product(&product_id) {
            Some(product) => Ok(product),
            None => Err(not_found("Product with id=", product_id)),
        }
    }

    /// Removes a product, whatever orders still refer to it.
    pub fn delete_product(&mut self, product_id: u64) -> (r: Result<Product, Error>)
        requires
            old(self)@.wf(),
        ensures
            final(self)@.wf(),
            (final(self)@, outcome(r)) == delete_product_spec(old(self)@, product_id),
    {
        match self.products.remove(&product_id) {
            Some(product) => Ok(product),
            None => {
                proof {
                    assert(self@.products =~= old(self)@.products);
                }
                Err(not_found("Product with id=", product_id))
            },
        }
    }

    /// Sets a product's stock to `quantity`, which must not be zero.
    pub fn manage_inventory(&mut self, product_id: u64, quantity: u32, now: u64) -> (r: Result<
        Product,
        Error,
    >)
        requires
            old(self)@.wf(),
        ensures
            final(self)@.wf(),
            (final(self)@, outcome(r)) == manage_inventory_spec(old(self)@, product_id, quantity, now),
    {
        let mut product = match self._get_product(&product_id) {
            Some(p) => p,
            None => return Err(not_found("Product with id=", product_id)),
        };
        if quantity == 0 {
            return Err(
                Error::InvalidInput { msg: "Product quantity must be greater than zero.".to_owned() },
            );
        }
        product.stock_quantity = quantity;
        product.updated_at = Some(now);
        self.do_insert_product(&product);
        Ok(product)
    }

    /// Registers a user with a full reputation of 100.
    pub fn create_user(&mut self, payload: UserPayload, now: u64) -> (r: Result<User, Error>)
        requires
            old(self)@.wf(),
        ensures
            final(self)@.wf(),
            (final(self)@, outcome(r)) == create_user_spec(old(self)@, payload, now),
    {
        let role = match validate_user_payload(&payload) {
            Ok(role) => role,
            Err(e) => return Err(e),
        };
        let id = match generate_id(&mut self.last_user_id) {
            Ok(id) => id,
            Err(e) => return Err(e),
        };
        let user = User {
            id,
            name: payload.name,
            email: payload.email,
            role,
            reputation: 100,
            created_at: now,
            updated_at: None,
        };
        self.do_insert_user(&user);
        Ok(user)
    }

    pub fn view_user(&self, user_id: u64) -> (r: Result<User, Error>)
        ensures
            outcome(r) == lookup(self@.users, user_id),
    {
        match self._get_user(&user_id) {
            Some(user) => Ok(user),
            None => Err(not_found("User with id=", user_id)),
        }
    }

    /// Rewrites a user's name, email and role; the reputation is kept.
    pub fn update_user(&mut self, user_id: u64, payload: UserPayload, now: u64) -> (r: Result<
        User,
        Error,
    >)
        requires
            old(self)@.wf(),
        ensures
            final(self)@.wf(),
            (final(self)@, outcome(r)) == update_user_spec(old(self)@, user_id, payload, now),
    {
        let role = match validate_user_payload(&payload) {
            Ok(role) => role,
            Err(e) => return Err(e),
        };
        let mut user = match self._get_user(&user_id) {
            Some(user) => user,
            None => return Err(not_found("User with id=", user_id)),
        };
        user.name = payload.name;
        user.email = payload.email;
        user.role = role;
        user.updated_at = Some(now);
        self.do_insert_user(&user);
        Ok(user)
    }

    /// Removes a user; records that refer to it are left as they are.
    pub fn delete_user(&mut self, user_id: u64) -> (r: Result<User, Error>)
        requires
            old(self)@.wf(),
        ensures
            final(self)@.wf(),
            (final(self)@, outcome(r)) == delete_user_spec(old(self)@, user_id),
    {
        match self.users.remove(&user_id) {
            Some(user) => Ok(user),
            None => {
                proof {
                    assert(self@.users =~= old(self)@.users);
                }
                Err(not_found("User with id=", user_id))
            },
        }
    }

    pub fn view_order(&self, order_id: u64) -> (r: Result<Order, Error>)
        ensures
            outcome(r) == lookup(self@.orders, order_id),
    {
        match self._get_order(&order_id) {
            Some(order) => Ok(order),
            None => Err(not_found("Order with id=", order_id)),
        }
    }

    /// Rewrites a pending order's product, quantity and total price. The stock
    /// is not checked again.
    pub fn update_order(&mut self, order_id: u64, payload: OrderPayload, now: u64) -> (r: Result<
        Order,
        Error,
    >)
        requires
            old(self)@.wf(),
        ensures
            final(self)@.wf(),
            (final(self)@, outcome(r)) == update_order_spec(old(self)@, order_id, payload, now),
    {
        if let Err(e) = validate_order_payload(&payload) {
            return Err(e);
        }
        let mut order = match self._get_order(&order_id) {
            Some(order) => order,
            None => return Err(not_found("Order with id=", order_id)),
        };
        if order.status != OrderStatus::Pending {
            return Err(
                Error::InvalidInput { msg: "Only pending orders can be updated.".to_owned() },
            );
        }
        order.product_id = payload.product_id;
        order.quantity = payload.quantity;
        order.total_price = payload.total_price;
        order.updated_at = Some(now);
        self.do_insert_order(&order);
        Ok(order)
    }

    pub fn delete_order(&mut self, order_id: u64) -> (r: Result<Order, Error>)
        requires
            old(self)@.wf(),
        ensures
            final(self)@.wf(),
            (final(self)@, outcome(r)) == delete_order_spec(old(self)@, order_id),
    {
        match self.orders.remove(&order_id) {
            Some(order) => Ok(order),
            None => {
                proof {
                    assert(self@.orders =~= old(self)@.orders);
                }
                Err(not_found("Order with id=", order_id))
            },
        }
    }

    /// Completes a pending order.
    pub fn complete_order(&mut self, order_id: u64, now: u64) -> (r: Result<Order, Error>)
        requires
            old(self)@.wf(),
        ensures
            final(self)@.wf(),
            (final(self)@, outcome(r)) == complete_order_spec(old(self)@, order_id, now),
    {
        let mut order = match self._get_order(&order_id) {
            Some(o) => o,
            None => return Err(not_found("Order with id=", order_id)),
        };
        if order.status != OrderStatus::Pending {
            return Err(Error::InvalidInput { msg: "Order is not in a pending state.".to_owned() });
        }
        order.status = OrderStatus::Completed;
        order.updated_at = Some(now);
        self.do_insert_order(&order);
        Ok(order)
    }

    /// Settles a pending or disputed order as `"Complete"` or `"Refund"`.
    pub fn resolve_dispute(&mut self, order_id: u64, resolution: String, now: u64) -> (r: Result<
        Order,
        Error,
    >)
        requires
            old(self)@.wf(),
        ensures
            final(self)@.wf(),
            (final(self)@, outcome(r)) == resolve_dispute_spec(
                old(self)@,
                order_id,
                resolution@,
                now,
            ),
    {
        let mut order = match self._get_order(&order_id) {
            Some(o) => o,
            None => return Err(not_found("Order with id=", order_id)),
        };
        if order.status != OrderStatus::Pending && order.status != OrderStatus::InDispute {
            return Err(
                Error::InvalidInput { msg: "Order is not in a disputable state.".to_owned() },
            );
        }
        match parse_resolution(&resolution) {
            Some(Resolution::Complete) => order.status = OrderStatus::Completed,
            Some(Resolution::Refund) => order.status = OrderStatus::Refunded,
            None => {
                return Err(Error::InvalidInput { msg: "Invalid resolution type.".to_owned() });
            },
        }
        order.updated_at = Some(now);
        self.do_insert_order(&order);
        Ok(order)
    }

    /// Puts `amount` in custody for an order. The order is not looked up.
    pub fn handle_escrow(&mut self, order_id: u64, amount: u64, now: u64) -> (r: Result<
        Escrow,
        Error,
    >)
        requires
            old(self)@.wf(),
        ensures
            final(self)@.wf(),
            (final(self)@, outcome(r)) == handle_escrow_spec(old(self)@, order_id, amount, now),
    {
        if amount == 0 {
            return Err(Error::InvalidInput { msg: "Amount must be greater than zero.".to_owned() });
        }
        let id = match generate_id(&mut self.last_escrow_id) {
            Ok(id) => id,
            Err(e) => return Err(e),
        };
        let escrow = Escrow {
            id,
            order_id,
            amount,
            status: EscrowStatus::Held,
            created_at: now,
            updated_at: None,
        };
        self.insert_escrow(&escrow);
        Ok(escrow)
    }

    fn settle_escrow(&mut self, escrow_id: u64, target: EscrowStatus, now: u64) -> (r: Result<
        Escrow,
        Error,
    >)
        requires
            old(self)@.wf(),
        ensures
            final(self)@.wf(),
            (final(self)@, outcome(r)) == settle_escrow_spec(old(self)@, escrow_id, target, now),
    {
        let mut escrow = match self.get_escrow(&escrow_id) {
            Some(e) => e,
            None => return Err(not_found("Escrow with id=", escrow_id)),
        };
        if escrow.status != EscrowStatus::Held {
            return Err(Error::InvalidInput { msg: "Escrow is not in a held state.".to_owned() });
        }
        escrow.status = target;
        escrow.updated_at = Some(now);
        self.insert_escrow(&escrow);
        Ok(escrow)
    }

    /// Pays out a held escrow.
    pub fn release_escrow(&mut self, escrow_id: u64, now: u64) -> (r: Result<Escrow, Error>)
        requires
            old(self)@.wf(),
        ensures
            final(self)@.wf(),
            (final(self)@, outcome(r)) == release_escrow_spec(old(self)@, escrow_id, now),
    {
        self.settle_escrow(escrow_id, EscrowStatus::Released, now)
    }

    /// Returns a held escrow to the buyer.
    pub fn refund_escrow(&mut self, escrow_id: u64, now: u64) -> (r: Result<Escrow, Error>)
        requires
            old(self)@.wf(),
        ensures
            final(self)@.wf(),
            (final(self)@, outcome(r)) == refund_escrow_spec(old(self)@, escrow_id, now),
    {
        self.settle_escrow(escrow_id, EscrowStatus::Refunded, now)
    }
}

} // verus!
