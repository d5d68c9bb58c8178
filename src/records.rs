use vstd::prelude::*;

verus! {

/// Role of a marketplace user.
#[derive(Clone, Copy, Debug, PartialEq, Eq, Structural)]
pub enum Role {
    Buyer,
    Seller,
    Admin,
}

/// Lifecycle state of an order.
#[derive(Clone, Copy, Debug, PartialEq, Eq, Structural)]
pub enum OrderStatus {
    Pending,
    Completed,
    Refunded,
    InDispute,
}

/// Lifecycle state of an escrow.
#[derive(Clone, Copy, Debug, PartialEq, Eq, Structural)]
pub enum EscrowStatus {
    Held,
    Released,
    Refunded,
}

/// How a dispute is settled.
#[derive(Clone, Copy, Debug, PartialEq, Eq, Structural)]
pub enum Resolution {
    Complete,
    Refund,
}

/// The three kinds of failure, without their messages.
#[derive(Clone, Copy, Debug, PartialEq, Eq, Structural)]
pub enum ErrorKind {
    Unauthorized,
    NotFound,
    InvalidInput,
}

/// A failure returned by an operation, with a human-readable message.
#[derive(Clone, Debug, PartialEq, Eq)]
pub enum Error {
    Unauthorized { msg: String },
    NotFound { msg: String },
    InvalidInput { msg: String },
}

impl Error {
    pub open spec fn spec_kind(&self) -> ErrorKind {
        match self {
            Error::Unauthorized { .. } => ErrorKind::Unauthorized,
            Error::NotFound { .. } => ErrorKind::NotFound,
            Error::InvalidInput { .. } => ErrorKind::InvalidInput,
        }
    }

    #[verifier::when_used_as_spec(spec_kind)]
    pub fn kind(&self) -> (r: ErrorKind)
        ensures
            r == self.spec_kind(),
    {
        match self {
            Error::Unauthorized { .. } => ErrorKind::Unauthorized,
            Error::NotFound { .. } => ErrorKind::NotFound,
            Error::InvalidInput { .. } => ErrorKind::InvalidInput,
        }
    }

    pub fn message(&self) -> (r: &String)
        ensures
            r == match self {
                Error::Unauthorized { msg } => msg,
                Error::NotFound { msg } => msg,
                Error::InvalidInput { msg } => msg,
            },
    {
        match self {
            Error::Unauthorized { msg } => msg,
            Error::NotFound { msg } => msg,
            Error::InvalidInput { msg } => msg,
        }
    }
}

/// What a caller can observe of a result: the value, or the kind of failure.
pub open spec fn outcome<T>(r: Result<T, Error>) -> Result<T, ErrorKind> {
    match r {
        Ok(v) => Ok(v),
        Err(e) => Err(e.spec_kind()),
    }
}

/// A product listed by a seller.
#[derive(Clone, Debug, PartialEq, Eq)]
pub struct Product {
    pub id: u64,
    pub name: String,
    pub description: String,
    pub price: u64,
    pub stock_quantity: u32,
    pub seller_id: u64,
    pub created_at: u64,
    pub updated_at: Option<u64>,
}

/// A registered user.
#[derive(Clone, Debug, PartialEq, Eq)]
pub struct User {
    pub id: u64,
    pub name: String,
    pub email: String,
    pub role: Role,
    pub reputation: u8,
    pub created_at: u64,
    pub updated_at: Option<u64>,
}

/// An order placed by a buyer for some quantity of one product.
#[derive(Clone, Debug, PartialEq, Eq)]
pub struct Order {
    pub id: u64,
    pub product_id: u64,
    pub buyer_id: u64,
    pub quantity: u32,
    pub total_price: u64,
    pub status: OrderStatus,
    pub created_at: u64,
    pub updated_at: Option<u64>,
}

/// Funds held in custody for an order until they are released or refunded.
#[derive(Clone, Debug, PartialEq, Eq)]
pub struct Escrow {
    pub id: u64,
    pub order_id: u64,
    pub amount: u64,
    pub status: EscrowStatus,
    pub created_at: u64,
    pub updated_at: Option<u64>,
}

/// Fields supplied to create or update a product.
#[derive(Clone, Debug, PartialEq, Eq)]
pub struct ProductPayload {
    pub name: String,
    pub description: String,
    pub price: u64,
    pub stock_quantity: u32,
    pub seller_id: u64,
}

/// Fields supplied to create or update a user; the role is a token such as `"seller"`.
#[derive(Clone, Debug, PartialEq, Eq)]
pub struct UserPayload {
    pub name: String,
    pub email: String,
    pub role: String,
}

/// Fields supplied to place or update an order.
#[derive(Clone, Debug, PartialEq, Eq)]
pub struct OrderPayload {
    pub user_id: u64,
    pub product_id: u64,
    pub quantity: u32,
    pub total_price: u64,
}

impl Product {
    pub fn duplicate(&self) -> (r: Product)
        ensures
            r == *self,
    {
        Product {
            id: self.id,
            name: self.name.clone(),
            description: self.description.clone(),
            price: self.price,
            stock_quantity: self.stock_quantity,
            seller_id: self.seller_id,
            created_at: self.created_at,
            updated_at: self.updated_at,
        }
    }
}

impl User {
    pub fn duplicate(&self) -> (r: User)
        ensures
            r == *self,
    {
        User {
            id: self.id,
            name: self.name.clone(),
            email: self.email.clone(),
            role: self.role,
            reputation: self.reputation,
            created_at: self.created_at,
            updated_at: self.updated_at,
        }
    }
}

impl Order {
    pub fn duplicate(&self) -> (r: Order)
        ensures
            r == *self,
    {
        Order {
            id: self.id,
            product_id: self.product_id,
            buyer_id: self.buyer_id,
            quantity: self.quantity,
            total_price: self.total_price,
            status: self.status,
            created_at: self.created_at,
            updated_at: self.updated_at,
        }
    }
}

impl Escrow {
    pub fn duplicate(&self) -> (r: Escrow)
        ensures
            r == *self,
    {
        Escrow {
            id: self.id,
            order_id: self.order_id,
            amount: self.amount,
            status: self.status,
            created_at: self.created_at,
            updated_at: self.updated_at,
        }
    }
}

} // verus!
