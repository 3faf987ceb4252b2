//! The order orchestrator: validates requests, drives the store, and
//! describes its own outcome.
//!
//! Every operation returns, besides its result, exactly one status report
//! describing that outcome. Dispatching the report to the external collector
//! is the caller's affair and happens off the request's critical path; the
//! operation itself never waits on it.

use vstd::prelude::*;
use vstd::string::StringExecFns;
use crate::clock::now_millis;
use crate::digits::{i32_to_string, spec_i32_digits};
use crate::models::{Order, CreateOrderRequest, UpdateOrderRequest, StatusReport};
use crate::repository::{
    OrderRepository, RepositoryError, StoreView, spec_merge,
};
use crate::validate::{
    join_violations, spec_create_violations, spec_join_violations, spec_update_violations,
    validate_create, validate_update,
};

verus! {

/// Failure of one orchestrator operation.
#[derive(Debug, PartialEq, Eq)]
pub enum ServiceError {
    /// A genuine storage fault, wrapped unchanged.
    Repository(RepositoryError),
    /// The addressed order does not exist; a normal outcome, not a fault.
    OrderNotFound { id: i32 },
    /// The request payload broke a field constraint; the store was never
    /// touched.
    Validation(String),
    /// Outcome reporting itself failed; never surfaced past the notifier.
    StatusReporting(String),
}

impl ServiceError {
    /// The diagnostic text of this failure.
    pub open spec fn spec_message(self) -> Seq<char> {
        match self {
            ServiceError::Repository(e) => "Repository error: "@ + e.spec_message(),
            ServiceError::OrderNotFound { id } => "Order not found with id: "@ + spec_i32_digits(
                id as int,
            ),
            ServiceError::Validation(m) => "Validation error: "@ + m@,
            ServiceError::StatusReporting(m) => "Status reporting failed: "@ + m@,
        }
    }

    /// Diagnostic text describing this failure.
    pub fn message(&self) -> (m: String)
        ensures
            m@ == self.spec_message(),
    {
        match self {
            ServiceError::Repository(e) => {
                let inner = e.message();
                String::from_str("Repository error: ").concat(inner.as_str())
            },
            ServiceError::OrderNotFound { id } => {
                let digits = i32_to_string(*id);
                String::from_str("Order not found with id: ").concat(digits.as_str())
            },
            ServiceError::Validation(m) => String::from_str("Validation error: ").concat(
                m.as_str(),
            ),
            ServiceError::StatusReporting(m) => String::from_str(
                "Status reporting failed: ",
            ).concat(m.as_str()),
        }
    }
}

/// The message attached to a rejected payload: the failed constraints,
/// restated.
pub open spec fn spec_validation_message(vs: Seq<crate::validate::FieldViolation>) -> Seq<char> {
    "Validation failed: "@ + spec_join_violations(vs)
}

/// The message attached to an operation that addressed an absent id.
pub open spec fn spec_not_found_message(id: int) -> Seq<char> {
    "Order not found with id: "@ + spec_i32_digits(id)
}

/// Outcome of the create operation: a rejected payload leaves the store
/// untouched and is reported as a failure; a valid one becomes a new row
/// whose derived fields the store fills in, reported as a success carrying
/// the new id; a store fault is wrapped and reported as a failure.
pub open spec fn create_post(
    pre: StoreView,
    post: StoreView,
    request: CreateOrderRequest,
    result: Result<Order, ServiceError>,
    report: StatusReport,
    now: i64,
) -> bool {
    &&& report.operation@ == "create_order"@
    &&& report.timestamp == now
    &&& report.success == result is Ok
    &&& if !request.is_valid() {
        &&& post == pre
        &&& (result matches Err(ServiceError::Validation(m)) && m@ == spec_validation_message(
            spec_create_violations(request),
        ))
        &&& (report.details matches Some(d) && d@ == spec_validation_message(
            spec_create_violations(request),
        ))
        &&& report.order_id is None
    } else if pre.next_id < i32::MAX {
        let o = pre.spec_new_order(request, now);
        &&& post.rows == pre.rows.push(o)
        &&& post.next_id == pre.next_id + 1
        &&& result == Ok::<Order, ServiceError>(o)
        &&& report.details is None
        &&& report.order_id == Some(o.id)
    } else {
        &&& post == pre
        &&& (result matches Err(ServiceError::Repository(e)) && (e matches
        RepositoryError::Database(m) && m@ == "order id space exhausted"@) && (
        report.details matches Some(d) && d@ == "Failed to create order: "@ + e.spec_message()))
        &&& report.order_id is None
    }
}

/// Outcome of the read-all operation: every row, most recently created
/// first, always a success, reported with no associated id.
pub open spec fn get_orders_post(
    s: StoreView,
    result: Result<Vec<Order>, ServiceError>,
    report: StatusReport,
    now: i64,
) -> bool {
    &&& report.operation@ == "get_orders"@
    &&& report.timestamp == now
    &&& report.success == true
    &&& report.details is None
    &&& report.order_id is None
    &&& (result matches Ok(orders) && orders@.len() == s.rows.len() && (forall|i: int|
        0 <= i < s.rows.len() ==> #[trigger] orders@[i] == s.rows[s.rows.len() - 1 - i]))
}

/// Outcome of the read-by-id operation: the row when present; otherwise the
/// not-found failure naming the id, reported as such.
pub open spec fn get_order_post(
    s: StoreView,
    id: i32,
    result: Result<Order, ServiceError>,
    report: StatusReport,
    now: i64,
) -> bool {
    &&& report.operation@ == "get_order"@
    &&& report.timestamp == now
    &&& report.success == result is Ok
    &&& report.order_id == Some(id)
    &&& match s.spec_find(id as int) {
        Some(o) => {
            &&& result == Ok::<Order, ServiceError>(o)
            &&& report.details is None
        },
        None => {
            &&& result == Err::<Order, ServiceError>(ServiceError::OrderNotFound { id })
            &&& (report.details matches Some(d) && d@ == spec_not_found_message(id as int))
        },
    }
}

/// Outcome of the update operation: a rejected payload leaves the store
/// untouched; an absent id is the not-found failure; otherwise the present
/// fields are merged over the stored row, the total recomputed, and the
/// merged row persisted and returned.
pub open spec fn update_post(
    pre: StoreView,
    post: StoreView,
    id: i32,
    request: UpdateOrderRequest,
    result: Result<Order, ServiceError>,
    report: StatusReport,
    now: i64,
) -> bool {
    &&& report.operation@ == "update_order"@
    &&& report.timestamp == now
    &&& report.success == result is Ok
    &&& report.order_id == Some(id)
    &&& if !request.is_valid() {
        &&& post == pre
        &&& (result matches Err(ServiceError::Validation(m)) && m@ == spec_validation_message(
            spec_update_violations(request),
        ))
        &&& (report.details matches Some(d) && d@ == spec_validation_message(
            spec_update_violations(request),
        ))
    } else {
        match pre.spec_find(id as int) {
            Some(current) => {
                let merged = spec_merge(current, request, now);
                &&& result == Ok::<Order, ServiceError>(merged)
                &&& report.details is None
                &&& post.next_id == pre.next_id
                &&& (exists|i: int|
                    0 <= i < pre.rows.len() && (#[trigger] pre.rows[i]).id == id && post.rows
                        == pre.rows.update(i, merged))
            },
            None => {
                &&& post == pre
                &&& result == Err::<Order, ServiceError>(ServiceError::OrderNotFound { id })
                &&& (report.details matches Some(d) && d@ == spec_not_found_message(id as int))
            },
        }
    }
}

/// Outcome of the delete operation: the row is removed when present;
/// an absent id is the not-found failure; either way the store's other rows
/// are untouched.
pub open spec fn delete_post(
    pre: StoreView,
    post: StoreView,
    id: i32,
    result: Result<(), ServiceError>,
    report: StatusReport,
    now: i64,
) -> bool {
    &&& report.operation@ == "delete_order"@
    &&& report.timestamp == now
    &&& report.success == result is Ok
    &&& report.order_id == Some(id)
    &&& if pre.contains_id(id as int) {
        &&& result == Ok::<(), ServiceError>(())
        &&& report.details is None
        &&& post.next_id == pre.next_id
        &&& (exists|i: int|
            0 <= i < pre.rows.len() && (#[trigger] pre.rows[i]).id == id && post.rows
                == pre.rows.remove(i))
    } else {
        &&& post == pre
        &&& result == Err::<(), ServiceError>(ServiceError::OrderNotFound { id })
        &&& (report.details matches Some(d) && d@ == spec_not_found_message(id as int))
    }
}

/// The orchestrator: validation, persistence and derived-field computation
/// for one business operation, plus the description of its own outcome.
pub struct OrderService {
    repository: OrderRepository,
}

impl View for OrderService {
    type V = StoreView;

    closed spec fn view(&self) -> StoreView {
        self.repository@
    }
}

impl OrderService {
    /// Wrap a store handle.
    pub fn new(repository: OrderRepository) -> (s: Self)
        ensures
            s@ == repository@,
    {
        OrderService { repository }
    }

    /// The create operation at a given instant.
    pub fn create_order_at(&mut self, request: CreateOrderRequest, now: i64) -> (r: (
        Result<Order, ServiceError>,
        StatusReport,
    ))
        requires
            old(self)@.wf(),
        ensures
            final(self)@.wf(),
            create_post(old(self)@, final(self)@, request, r.0, r.1, now),
    {
        let violations = validate_create(&request);
        if violations.len() > 0 {
            let joined = join_violations(&violations);
            let msg = String::from_str("Validation failed: ").concat(joined.as_str());
            let report = StatusReport::new("create_order", false, Some(msg.clone()), None, now);
            return (Err(ServiceError::Validation(msg)), report);
        }
        match self.repository.create(request, now) {
            Ok(order) => {
                let report = StatusReport::new("create_order", true, None, Some(order.id), now);
                (Ok(order), report)
            },
            Err(e) => {
                let cause = e.message();
                let msg = String::from_str("Failed to create order: ").concat(cause.as_str());
                let report = StatusReport::new("create_order", false, Some(msg), None, now);
                (Err(ServiceError::Repository(e)), report)
            },
        }
    }

    /// Validate the payload and create the order, stamping rows and report
    /// with the current instant.
    pub fn create_order(&mut self, request: CreateOrderRequest) -> (r: (
        Result<Order, ServiceError>,
        StatusReport,
    ))
        requires
            old(self)@.wf(),
        ensures
            final(self)@.wf(),
            exists|now: i64| #[trigger] create_post(old(self)@, final(self)@, request, r.0, r.1, now),
    {
        let now = now_millis();
        self.create_order_at(request, now)
    }

    /// The read-all operation at a given instant.
    pub fn get_orders_at(&self, now: i64) -> (r: (Result<Vec<Order>, ServiceError>, StatusReport))
        requires
            self@.wf(),
        ensures
            get_orders_post(self@, r.0, r.1, now),
    {
        let orders = self.repository.find_all();
        let report = StatusReport::new("get_orders", true, None, None, now);
        (Ok(orders), report)
    }

    /// Read all orders, most recently created first.
    pub fn get_orders(&self) -> (r: (Result<Vec<Order>, ServiceError>, StatusReport))
        requires
            self@.wf(),
        ensures
            exists|now: i64| #[trigger] get_orders_post(self@, r.0, r.1, now),
    {
        let now = now_millis();
        self.get_orders_at(now)
    }

    /// The read-by-id operation at a given instant.
    pub fn get_order_at(&self, id: i32, now: i64) -> (r: (
        Result<Order, ServiceError>,
        StatusReport,
    ))
        requires
            self@.wf(),
        ensures
            get_order_post(self@, id, r.0, r.1, now),
    {
        match self.repository.find_by_id(id) {
            Some(order) => {
                let report = StatusReport::new("get_order", true, None, Some(id), now);
                (Ok(order), report)
            },
            None => {
                let digits = i32_to_string(id);
                let msg = String::from_str("Order not found with id: ").concat(digits.as_str());
                let report = StatusReport::new("get_order", false, Some(msg), Some(id), now);
                (Err(ServiceError::OrderNotFound { id }), report)
            },
        }
    }

    /// Read one order by id; absence is the not-found failure, not a fault.
    pub fn get_order(&self, id: i32) -> (r: (Result<Order, ServiceError>, StatusReport))
        requires
            self@.wf(),
        ensures
            exists|now: i64| #[trigger] get_order_post(self@, id, r.0, r.1, now),
    {
        let now = now_millis();
        self.get_order_at(id, now)
    }

    /// The update operation at a given instant.
    pub fn update_order_at(&mut self, id: i32, request: UpdateOrderRequest, now: i64) -> (r: (
        Result<Order, ServiceError>,
        StatusReport,
    ))
        requires
            old(self)@.wf(),
        ensures
            final(self)@.wf(),
            update_post(old(self)@, final(self)@, id, request, r.0, r.1, now),
    {
        let violations = validate_update(&request);
        if violations.len() > 0 {
            let joined = join_violations(&violations);
            let msg = String::from_str("Validation failed: ").concat(joined.as_str());
            let report = StatusReport::new(
                "update_order",
                false,
                Some(msg.clone()),
                Some(id),
                now,
            );
            return (Err(ServiceError::Validation(msg)), report);
        }
        match self.repository.update(id, request, now) {
            Ok(order) => {
                let report = StatusReport::new("update_order", true, None, Some(id), now);
                (Ok(order), report)
            },
            Err(RepositoryError::RowNotFound) => {
                let digits = i32_to_string(id);
                let msg = String::from_str("Order not found with id: ").concat(digits.as_str());
                let report = StatusReport::new("update_order", false, Some(msg), Some(id), now);
                (Err(ServiceError::OrderNotFound { id }), report)
            },
            Err(e) => {
                let digits = i32_to_string(id);
                let cause = e.message();
                let msg = String::from_str("Failed to update order ").concat(
                    digits.as_str(),
                ).concat(": ").concat(cause.as_str());
                let report = StatusReport::new("update_order", false, Some(msg), Some(id), now);
                (Err(ServiceError::Repository(e)), report)
            },
        }
    }

    /// Validate the present fields and update the order, stamping row and
    /// report with the current instant.
    pub fn update_order(&mut self, id: i32, request: UpdateOrderRequest) -> (r: (
        Result<Order, ServiceError>,
        StatusReport,
    ))
        requires
            old(self)@.wf(),
        ensures
            final(self)@.wf(),
            exists|now: i64|
                #[trigger] update_post(old(self)@, final(self)@, id, request, r.0, r.1, now),
    {
        let now = now_millis();
        self.update_order_at(id, request, now)
    }

    /// The delete operation at a given instant.
    pub fn delete_order_at(&mut self, id: i32, now: i64) -> (r: (
        Result<(), ServiceError>,
        StatusReport,
    ))
        requires
            old(self)@.wf(),
        ensures
            final(self)@.wf(),
            delete_post(old(self)@, final(self)@, id, r.0, r.1, now),
    {
        if self.repository.delete(id) {
            let report = StatusReport::new("delete_order", true, None, Some(id), now);
            (Ok(()), report)
        } else {
            let digits = i32_to_string(id);
            let msg = String::from_str("Order not found with id: ").concat(digits.as_str());
            let report = StatusReport::new("delete_order", false, Some(msg), Some(id), now);
            (Err(ServiceError::OrderNotFound { id }), report)
        }
    }

    /// Delete one order by id; absence is the not-found failure, not a
    /// fault.
    pub fn delete_order(&mut self, id: i32) -> (r: (Result<(), ServiceError>, StatusReport))
        requires
            old(self)@.wf(),
        ensures
            final(self)@.wf(),
            exists|now: i64| #[trigger] delete_post(old(self)@, final(self)@, id, r.0, r.1, now),
    {
        let now = now_millis();
        self.delete_order_at(id, now)
    }
}

} // verus!
