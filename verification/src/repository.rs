//! The order store: the sole boundary to the persisted table.
//!
//! The table is modelled as a sequence of rows in creation order, with ids
//! assigned by the store, strictly increasing and never reused. All storage
//! concerns live here; the store holds no validation logic of its own and
//! instead demands already-validated field values from its caller, as the
//! table's own constraints would.

use vstd::prelude::*;
use vstd::string::StringExecFns;
use crate::models::{Order, OrderStatus, CreateOrderRequest, UpdateOrderRequest};

verus! {

/// Failure of the storage layer itself. Absence of a row is reported as
/// `RowNotFound`, which callers treat as a normal outcome, not a fault.
#[derive(Debug, PartialEq, Eq)]
pub enum RepositoryError {
    /// An underlying storage fault, with its cause.
    Database(String),
    /// A lookup or update addressed an id with no row.
    RowNotFound,
    /// A connection-pool fault, with its cause.
    Pool(String),
}

impl RepositoryError {
    /// The diagnostic text of this failure.
    pub open spec fn spec_message(self) -> Seq<char> {
        match self {
            RepositoryError::Database(s) => "Database error: "@ + s@,
            RepositoryError::RowNotFound => "Database error: row not found"@,
            RepositoryError::Pool(s) => "Connection pool error: "@ + s@,
        }
    }

    /// Diagnostic text describing this failure.
    pub fn message(&self) -> (m: String)
        ensures
            m@ == self.spec_message(),
    {
        match self {
            RepositoryError::Database(s) => String::from_str("Database error: ").concat(
                s.as_str(),
            ),
            RepositoryError::RowNotFound => String::from_str("Database error: row not found"),
            RepositoryError::Pool(s) => String::from_str("Connection pool error: ").concat(
                s.as_str(),
            ),
        }
    }
}

/// Mathematical model of the store: the rows in creation order and the id
/// the next created row will receive.
pub ghost struct StoreView {
    pub rows: Seq<Order>,
    pub next_id: int,
}

impl StoreView {
    /// Store invariant: ids start at 1, grow strictly in creation order,
    /// stay below the next id to be assigned, and every row obeys the
    /// entity's field constraints.
    pub open spec fn wf(self) -> bool {
        &&& 1 <= self.next_id <= i32::MAX
        &&& forall|i: int|
            0 <= i < self.rows.len() ==> 1 <= (#[trigger] self.rows[i]).id < self.next_id
        &&& forall|i: int, j: int|
            0 <= i < j < self.rows.len() ==> (#[trigger] self.rows[i]).id < (
            #[trigger] self.rows[j]).id
        &&& forall|i: int| 0 <= i < self.rows.len() ==> (#[trigger] self.rows[i]).is_valid()
    }

    /// Whether some row carries `id`.
    pub open spec fn contains_id(self, id: int) -> bool {
        exists|i: int| 0 <= i < self.rows.len() && (#[trigger] self.rows[i]).id == id
    }

    /// The row carrying `id`, or `None`. Under `wf` at most one row carries
    /// any id, so the choice is determined.
    pub open spec fn spec_find(self, id: int) -> Option<Order> {
        if self.contains_id(id) {
            Some(
                self.rows[choose|i: int|
                    0 <= i < self.rows.len() && (#[trigger] self.rows[i]).id == id],
            )
        } else {
            None
        }
    }

    /// The row the store materializes for a create request: store-assigned
    /// id, caller-supplied fields, derived total, pending status, all
    /// timestamps set to the creation instant.
    pub open spec fn spec_new_order(self, request: CreateOrderRequest, now: i64) -> Order {
        Order {
            id: self.next_id as i32,
            customer_name: request.customer_name,
            product_name: request.product_name,
            quantity: request.quantity,
            unit_price: request.unit_price,
            total_amount: request.unit_price.spec_times_quantity(request.quantity as int),
            order_date: now,
            status: OrderStatus::Pending,
            created_at: now,
            updated_at: now,
        }
    }

    /// In a well-formed store, looking up the id of the row at `i` yields
    /// exactly that row.
    pub proof fn lemma_find_at(self, i: int)
        requires
            self.wf(),
            0 <= i < self.rows.len(),
        ensures
            self.spec_find(self.rows[i].id as int) == Some(self.rows[i]),
    {
        let id = self.rows[i].id;
        assert(self.contains_id(id as int));
        let k = choose|k: int| 0 <= k < self.rows.len() && (#[trigger] self.rows[k]).id == id;
        if k < i {
            assert(self.rows[k].id < self.rows[i].id);
        } else if k > i {
            assert(self.rows[i].id < self.rows[k].id);
        }
    }
}

/// The merged row an update produces: present request fields replace stored
/// ones, absent fields keep them; the total is recomputed from the merged
/// price and quantity; id, order date and creation timestamp never change;
/// the update timestamp is set to the update instant.
pub open spec fn spec_merge(current: Order, request: UpdateOrderRequest, now: i64) -> Order {
    let customer_name = match request.customer_name {
        Some(n) => n,
        None => current.customer_name,
    };
    let product_name = match request.product_name {
        Some(n) => n,
        None => current.product_name,
    };
    let quantity = match request.quantity {
        Some(q) => q,
        None => current.quantity,
    };
    let unit_price = match request.unit_price {
        Some(p) => p,
        None => current.unit_price,
    };
    let status = match request.status {
        Some(s) => s,
        None => current.status,
    };
    Order {
        id: current.id,
        customer_name,
        product_name,
        quantity,
        unit_price,
        total_amount: unit_price.spec_times_quantity(quantity as int),
        order_date: current.order_date,
        status,
        created_at: current.created_at,
        updated_at: now,
    }
}

/// Merge an update request over the current row, recomputing the total.
pub fn merge_order(current: &Order, request: UpdateOrderRequest, now: i64) -> (m: Order)
    requires
        current.is_valid(),
        request.is_valid(),
    ensures
        m == spec_merge(*current, request, now),
        m.is_valid(),
{
    let customer_name = match request.customer_name {
        Some(n) => n,
        None => current.customer_name.clone(),
    };
    let product_name = match request.product_name {
        Some(n) => n,
        None => current.product_name.clone(),
    };
    let quantity = match request.quantity {
        Some(q) => q,
        None => current.quantity,
    };
    let unit_price = match request.unit_price {
        Some(p) => p,
        None => current.unit_price,
    };
    let status = match request.status {
        Some(s) => s,
        None => current.status,
    };
    let total_amount = unit_price.times_quantity(quantity);
    Order {
        id: current.id,
        customer_name,
        product_name,
        quantity,
        unit_price,
        total_amount,
        order_date: current.order_date,
        status,
        created_at: current.created_at,
        updated_at: now,
    }
}

/// The persisted order table.
pub struct OrderRepository {
    rows: Vec<Order>,
    next_id: i32,
}

impl View for OrderRepository {
    type V = StoreView;

    closed spec fn view(&self) -> StoreView {
        StoreView { rows: self.rows@, next_id: self.next_id as int }
    }
}

impl OrderRepository {
    /// An empty table; the first created row receives id 1.
    pub fn new() -> (r: Self)
        ensures
            r@.wf(),
            r@.rows.len() == 0,
            r@.next_id == 1,
    {
        OrderRepository { rows: Vec::new(), next_id: 1 }
    }

    /// Insert a new row built from already-validated field values: the store
    /// assigns the id, derives the total, starts the status pending, and
    /// stamps all timestamps with `now`. Fails only when the id space is
    /// exhausted.
    pub fn create(&mut self, request: CreateOrderRequest, now: i64) -> (r: Result<
        Order,
        RepositoryError,
    >)
        requires
            old(self)@.wf(),
            request.is_valid(),
        ensures
            final(self)@.wf(),
            old(self)@.next_id < i32::MAX ==> {
                &&& r == Ok::<Order, RepositoryError>(old(self)@.spec_new_order(request, now))
                &&& final(self)@.rows == old(self)@.rows.push(
                    old(self)@.spec_new_order(request, now),
                )
                &&& final(self)@.next_id == old(self)@.next_id + 1
            },
            old(self)@.next_id == i32::MAX ==> {
                &&& final(self)@ == old(self)@
                &&& (r matches Err(RepositoryError::Database(m)) && m@
                    == "order id space exhausted"@)
            },
    {
        if self.next_id == i32::MAX {
            return Err(
                RepositoryError::Database(String::from_str("order id space exhausted")),
            );
        }
        let id = self.next_id;
        let total_amount = request.unit_price.times_quantity(request.quantity);
        let order = Order {
            id,
            customer_name: request.customer_name,
            product_name: request.product_name,
            quantity: request.quantity,
            unit_price: request.unit_price,
            total_amount,
            order_date: now,
            status: OrderStatus::Pending,
            created_at: now,
            updated_at: now,
        };
        let returned = order.clone();
        self.rows.push(order);
        self.next_id = self.next_id + 1;
        Ok(returned)
    }

    /// All rows, most recently created first. An empty result is success.
    pub fn find_all(&self) -> (r: Vec<Order>)
        requires
            self@.wf(),
        ensures
            r@.len() == self@.rows.len(),
            forall|i: int|
                0 <= i < r@.len() ==> r@[i] == self@.rows[self@.rows.len() - 1 - i],
    {
        let mut r: Vec<Order> = Vec::new();
        let mut i: usize = self.rows.len();
        while i > 0
            invariant
                i <= self.rows.len(),
                r@.len() == self.rows.len() - i,
                forall|j: int|
                    0 <= j < r@.len() ==> r@[j] == self.rows@[self.rows.len() - 1 - j],
            decreases i,
        {
            i = i - 1;
            r.push(self.rows[i].clone());
        }
        r
    }

    /// The row carrying `id`, or `None` if absent; absence is a normal
    /// outcome, not an error.
    pub fn find_by_id(&self, id: i32) -> (r: Option<Order>)
        requires
            self@.wf(),
        ensures
            r == self@.spec_find(id as int),
    {
        let n = self.rows.len();
        let mut i: usize = 0;
        while i < n
            invariant
                self@.wf(),
                n == self.rows.len(),
                i <= n,
                forall|j: int| 0 <= j < i ==> (#[trigger] self.rows@[j]).id != id,
            decreases n - i,
        {
            if self.rows[i].id == id {
                let found = self.rows[i].clone();
                proof {
                    self@.lemma_find_at(i as int);
                }
                return Some(found);
            }
            i = i + 1;
        }
        None
    }

    /// Merge the present request fields over the current row, recompute the
    /// total, stamp the update instant, and persist. `RowNotFound` when no
    /// row carries `id`.
    pub fn update(&mut self, id: i32, request: UpdateOrderRequest, now: i64) -> (r: Result<
        Order,
        RepositoryError,
    >)
        requires
            old(self)@.wf(),
            request.is_valid(),
        ensures
            final(self)@.wf(),
            final(self)@.next_id == old(self)@.next_id,
            match old(self)@.spec_find(id as int) {
                Some(current) => {
                    &&& r == Ok::<Order, RepositoryError>(spec_merge(current, request, now))
                    &&& (exists|i: int|
                        0 <= i < old(self)@.rows.len() && (#[trigger] old(self)@.rows[i]).id == id
                            && final(self)@.rows == old(self)@.rows.update(
                            i,
                            spec_merge(current, request, now),
                        ))
                },
                None => {
                    &&& r == Err::<Order, RepositoryError>(RepositoryError::RowNotFound)
                    &&& final(self)@ == old(self)@
                },
            },
    {
        let n = self.rows.len();
        let mut i: usize = 0;
        while i < n
            invariant
                *self == *old(self),
                self@.wf(),
                request.is_valid(),
                n == self.rows.len(),
                i <= n,
                forall|j: int| 0 <= j < i ==> (#[trigger] self.rows@[j]).id != id,
            decreases n - i,
        {
            if self.rows[i].id == id {
                proof {
                    self@.lemma_find_at(i as int);
                }
                let current = self.rows[i].clone();
                let merged = merge_order(&current, request, now);
                let returned = merged.clone();
                self.rows[i] = merged;
                proof {
                    assert forall|a: int, b: int|
                        0 <= a < b < final(self)@.rows.len() implies (
                    #[trigger] final(self)@.rows[a]).id < (#[trigger] final(self)@.rows[b]).id by {
                        assert(old(self)@.rows[a].id < old(self)@.rows[b].id);
                    }
                }
                return Ok(returned);
            }
            i = i + 1;
        }
        Err(RepositoryError::RowNotFound)
    }

    /// Remove the row carrying `id`; the result says whether a row was
    /// actually removed, and `false` is not an error.
    pub fn delete(&mut self, id: i32) -> (r: bool)
        requires
            old(self)@.wf(),
        ensures
            final(self)@.wf(),
            final(self)@.next_id == old(self)@.next_id,
            r == old(self)@.contains_id(id as int),
            r ==> (exists|i: int|
                0 <= i < old(self)@.rows.len() && (#[trigger] old(self)@.rows[i]).id == id
                    && final(self)@.rows == old(self)@.rows.remove(i)),
            !r ==> final(self)@ == old(self)@,
    {
        let n = self.rows.len();
        let mut i: usize = 0;
        while i < n
            invariant
                *self == *old(self),
                self@.wf(),
                n == self.rows.len(),
                i <= n,
                forall|j: int| 0 <= j < i ==> (#[trigger] self.rows@[j]).id != id,
            decreases n - i,
        {
            if self.rows[i].id == id {
                proof {
                    assert(self@.contains_id(id as int));
                }
                self.rows.remove(i);
                proof {
                    assert(old(self)@.contains_id(id as int));
                    assert forall|a: int, b: int|
                        0 <= a < b < final(self)@.rows.len() implies (
                    #[trigger] final(self)@.rows[a]).id < (#[trigger] final(self)@.rows[b]).id by {
                        let a0 = if a < i { a } else { a + 1 };
                        let b0 = if b < i { b } else { b + 1 };
                        assert(final(self)@.rows[a] == old(self)@.rows[a0]);
                        assert(final(self)@.rows[b] == old(self)@.rows[b0]);
                        assert(old(self)@.rows[a0].id < old(self)@.rows[b0].id);
                    }
                }
                return true;
            }
            i = i + 1;
        }
        false
    }
}

} // verus!
