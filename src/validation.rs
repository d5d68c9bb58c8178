use vstd::prelude::*;

use crate::records::{
    outcome, Error, ErrorKind, OrderPayload, ProductPayload, Resolution, Role, UserPayload,
};

verus! {

/// The shape an email address must have: non-blank text, an `@`, and a dotted domain.
pub const EMAIL_PATTERN: &'static str = r"^[^\s@]+@[^\s@]+\.[^\s@]+$";

/// Whether `text` matches the regular expression `pattern`, or `None` when the
/// pattern does not compile.
pub uninterp spec fn regex_match(pattern: Seq<char>, text: Seq<char>) -> Option<bool>;

/// Relies on regex::Regex::new and regex::Regex::is_match: compiling a pattern and
/// testing a text against it depend on the two strings alone.
#[verifier::external_body]
fn pattern_matches(pattern: &str, text: &str) -> (r: Option<bool>)
    ensures
        r == regex_match(pattern@, text@),
{
    match regex::Regex::new(pattern) {
        Ok(re) => Some(re.is_match(text)),
        Err(_) => None,
    }
}

pub open spec fn role_of(s: Seq<char>) -> Option<Role> {
    if s == "buyer"@ {
        Some(Role::Buyer)
    } else if s == "seller"@ {
        Some(Role::Seller)
    } else if s == "admin"@ {
        Some(Role::Admin)
    } else {
        None
    }
}

pub open spec fn resolution_of(s: Seq<char>) -> Option<Resolution> {
    if s == "Complete"@ {
        Some(Resolution::Complete)
    } else if s == "Refund"@ {
        Some(Resolution::Refund)
    } else {
        None
    }
}

pub open spec fn product_payload_valid(p: ProductPayload) -> bool {
    &&& p.name@.len() > 0
    &&& p.description@.len() > 0
    &&& p.price > 0
    &&& p.stock_quantity > 0
    &&& p.seller_id > 0
}

pub open spec fn order_payload_valid(p: OrderPayload) -> bool {
    &&& p.user_id > 0
    &&& p.product_id > 0
    &&& p.quantity > 0
    &&& p.total_price > 0
}

/// The role a user payload asks for, given whether its email matched the pattern.
pub open spec fn user_fields_check(p: UserPayload, email_match: Option<bool>) -> Result<
    Role,
    ErrorKind,
> {
    if p.name@.len() == 0 || p.email@.len() == 0 || email_match != Some(true) || role_of(
        p.role@,
    ).is_none() {
        Err(ErrorKind::InvalidInput)
    } else {
        Ok(role_of(p.role@).unwrap())
    }
}

/// The role a user payload asks for, or why it is refused.
pub open spec fn user_payload_check(p: UserPayload) -> Result<Role, ErrorKind> {
    user_fields_check(p, regex_match(EMAIL_PATTERN@, p.email@))
}

fn same_text(a: &String, b: &str) -> (r: bool)
    ensures
        r == (a@ == b@),
{
    let owned = b.to_owned();
    a.eq(&owned)
}

/// Reads a role token; tokens are exact and case-sensitive.
pub fn parse_role(s: &String) -> (r: Option<Role>)
    ensures
        r == role_of(s@),
{
    if same_text(s, "buyer") {
        Some(Role::Buyer)
    } else if same_text(s, "seller") {
        Some(Role::Seller)
    } else if same_text(s, "admin") {
        Some(Role::Admin)
    } else {
        None
    }
}

/// Reads a dispute resolution token: exactly `"Complete"` or `"Refund"`.
pub fn parse_resolution(s: &String) -> (r: Option<Resolution>)
    ensures
        r == resolution_of(s@),
{
    if same_text(s, "Complete") {
        Some(Resolution::Complete)
    } else if same_text(s, "Refund") {
        Some(Resolution::Refund)
    } else {
        None
    }
}

pub fn validate_product_payload(payload: &ProductPayload) -> (r: Result<(), Error>)
    ensures
        outcome(r) == if product_payload_valid(*payload) {
            Ok(())
        } else {
            Err(ErrorKind::InvalidInput)
        },
{
    if payload.name.as_str().is_empty() || payload.description.as_str().is_empty()
        || payload.price == 0 || payload.stock_quantity == 0 || payload.seller_id == 0 {
        return Err(
            Error::InvalidInput {
                msg: "Product name, description, price, stock_quantity, and seller_id must be provided.".to_owned(),
            },
        );
    }
    Ok(())
}

pub fn validate_order_payload(payload: &OrderPayload) -> (r: Result<(), Error>)
    ensures
        outcome(r) == if order_payload_valid(*payload) {
            Ok(())
        } else {
            Err(ErrorKind::InvalidInput)
        },
{
    if payload.user_id == 0 || payload.product_id == 0 || payload.quantity == 0
        || payload.total_price == 0 {
        return Err(
            Error::InvalidInput {
                msg: "User ID, product ID, quantity, and total price must be provided.".to_owned(),
            },
        );
    }
    Ok(())
}

/// Checks a user payload once it is known whether its email matched
/// [`EMAIL_PATTERN`], and yields the role it names.
pub fn validate_user_fields(payload: &UserPayload, email_match: Option<bool>) -> (r: Result<
    Role,
    Error,
>)
    ensures
        outcome(r) == user_fields_check(*payload, email_match),
{
    let role = parse_role(&payload.role);
    let email_ok = match email_match {
        Some(m) => m,
        None => false,
    };
    if payload.name.as_str().is_empty() || payload.email.as_str().is_empty() || !email_ok
        || role.is_none() {
        return Err(
            Error::InvalidInput { msg: "Valid name, email, and role must be provided.".to_owned() },
        );
    }
    match role {
        Some(role) => Ok(role),
        None => Err(
            Error::InvalidInput { msg: "Valid name, email, and role must be provided.".to_owned() },
        ),
    }
}

/// Checks a user payload, the email against [`EMAIL_PATTERN`], and yields its role.
pub fn validate_user_payload(payload: &UserPayload) -> (r: Result<Role, Error>)
    ensures
        outcome(r) == user_payload_check(*payload),
{
    let email_match = pattern_matches(EMAIL_PATTERN, payload.email.as_str());
    validate_user_fields(payload, email_match)
}

} // verus!
