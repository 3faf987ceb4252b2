//! The order entity, the request payloads of the two mutating operations,
//! and the outcome report sent to the external status collector.

use vstd::prelude::*;
use crate::money::Money;

verus! {

/// Fewest characters admissible in a customer or product name.
pub const NAME_MIN_CHARS: usize = 1;

/// Most characters admissible in a customer or product name.
pub const NAME_MAX_CHARS: usize = 100;

/// A customer or product name is admissible when its character count lies
/// within the documented bounds.
pub open spec fn valid_name(s: Seq<char>) -> bool {
    NAME_MIN_CHARS <= s.len() <= NAME_MAX_CHARS
}

/// Processing state of an order. Any state may replace any other via an
/// update; no transition graph is enforced.
#[derive(Clone, Copy, Debug, PartialEq, Eq, Structural)]
pub enum OrderStatus {
    Pending,
    Processing,
    Shipped,
    Delivered,
    Cancelled,
}

impl Default for OrderStatus {
    /// A fresh order starts out pending.
    fn default() -> (s: Self)
        ensures
            s == OrderStatus::Pending,
    {
        OrderStatus::Pending
    }
}

/// The persisted order entity. Timestamps are milliseconds of wall-clock
/// time; `id` is assigned by the store at creation and never changes.
#[derive(Debug, PartialEq, Eq)]
pub struct Order {
    pub id: i32,
    pub customer_name: String,
    pub product_name: String,
    pub quantity: i32,
    pub unit_price: Money,
    pub total_amount: Money,
    pub order_date: i64,
    pub status: OrderStatus,
    pub created_at: i64,
    pub updated_at: i64,
}

impl Order {
    /// The field constraints every persisted order obeys: bounded names, a
    /// positive quantity, a valid unit price, and a total amount that equals
    /// the unit price times the quantity as of the last write.
    pub open spec fn is_valid(self) -> bool {
        &&& valid_name(self.customer_name@)
        &&& valid_name(self.product_name@)
        &&& self.quantity >= 1
        &&& self.unit_price.is_valid_price()
        &&& self.total_amount == self.unit_price.spec_times_quantity(self.quantity as int)
    }
}

impl Clone for Order {
    fn clone(&self) -> (r: Self)
        ensures
            r == *self,
    {
        Order {
            id: self.id,
            customer_name: self.customer_name.clone(),
            product_name: self.product_name.clone(),
            quantity: self.quantity,
            unit_price: self.unit_price,
            total_amount: self.total_amount,
            order_date: self.order_date,
            status: self.status,
            created_at: self.created_at,
            updated_at: self.updated_at,
        }
    }
}

/// Payload of the create operation. All fields are mandatory; `total_amount`
/// is never accepted as input, the store derives it.
#[derive(Debug)]
pub struct CreateOrderRequest {
    pub customer_name: String,
    pub product_name: String,
    pub quantity: i32,
    pub unit_price: Money,
}

impl CreateOrderRequest {
    /// The constraints the create operation validates before touching the
    /// store.
    pub open spec fn is_valid(self) -> bool {
        &&& valid_name(self.customer_name@)
        &&& valid_name(self.product_name@)
        &&& self.quantity >= 1
        &&& self.unit_price.is_valid_price()
    }
}

/// Payload of the update operation. Every field is optional: an absent field
/// keeps the stored value, a present one replaces it.
#[derive(Debug)]
pub struct UpdateOrderRequest {
    pub customer_name: Option<String>,
    pub product_name: Option<String>,
    pub quantity: Option<i32>,
    pub unit_price: Option<Money>,
    pub status: Option<OrderStatus>,
}

impl UpdateOrderRequest {
    /// Each present field must satisfy the same constraint the create
    /// operation puts on it; absent fields are unconstrained.
    pub open spec fn is_valid(self) -> bool {
        &&& (self.customer_name matches Some(n) ==> valid_name(n@))
        &&& (self.product_name matches Some(n) ==> valid_name(n@))
        &&& (self.quantity matches Some(q) ==> q >= 1)
        &&& (self.unit_price matches Some(p) ==> p.is_valid_price())
    }
}

/// Ephemeral record of one operation's outcome, sent to the external status
/// collector and never read back.
#[derive(Debug, PartialEq, Eq)]
pub struct StatusReport {
    pub operation: String,
    pub success: bool,
    pub timestamp: i64,
    pub details: Option<String>,
    pub order_id: Option<i32>,
}

impl StatusReport {
    /// Assemble a report of one operation's outcome.
    pub fn new(
        operation: &str,
        success: bool,
        details: Option<String>,
        order_id: Option<i32>,
        timestamp: i64,
    ) -> (r: StatusReport)
        ensures
            r.operation@ == operation@,
            r.success == success,
            r.details == details,
            r.order_id == order_id,
            r.timestamp == timestamp,
    {
        StatusReport { operation: operation.to_owned(), success, timestamp, details, order_id }
    }
}

} // verus!
