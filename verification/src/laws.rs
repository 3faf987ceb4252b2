//! Properties that hold across operations: what a read returns after a
//! create, what absent and deleted ids yield, which fields an update leaves
//! alone, and the total-amount invariant of every stored row.

use vstd::prelude::*;
use crate::models::{Order, CreateOrderRequest, UpdateOrderRequest, StatusReport};
use crate::repository::{StoreView, spec_merge};
use crate::service::{
    ServiceError, create_post, get_order_post, get_orders_post, delete_post,
};

verus! {

/// Every row of a well-formed store carries a total amount equal to its
/// unit price times its quantity, as of the last write.
pub proof fn lemma_stored_total_invariant(s: StoreView, i: int)
    requires
        s.wf(),
        0 <= i < s.rows.len(),
    ensures
        s.rows[i].total_amount == s.rows[i].unit_price.spec_times_quantity(
            s.rows[i].quantity as int,
        ),
{
}

/// A read by id straight after a successful create, with no intervening
/// update, returns exactly the created entity: every field of the returned
/// order, the store-assigned id included, re-reads unchanged.
pub proof fn lemma_get_after_create(
    pre: StoreView,
    post: StoreView,
    request: CreateOrderRequest,
    result: Result<Order, ServiceError>,
    report: StatusReport,
    now: i64,
)
    requires
        pre.wf(),
        post.wf(),
        request.is_valid(),
        pre.next_id < i32::MAX,
        create_post(pre, post, request, result, report, now),
    ensures
        result matches Ok(o) && post.spec_find(o.id as int) == Some(o),
{
    let o = pre.spec_new_order(request, now);
    assert(post.rows[post.rows.len() - 1] == o);
    post.lemma_find_at(post.rows.len() - 1);
}

/// A read and a delete addressed to an id no row carries both yield the
/// not-found failure naming that id, and the delete leaves the store as it
/// was.
pub proof fn lemma_absent_id_not_found(
    s: StoreView,
    post: StoreView,
    id: i32,
    get_result: Result<Order, ServiceError>,
    get_report: StatusReport,
    get_now: i64,
    del_result: Result<(), ServiceError>,
    del_report: StatusReport,
    del_now: i64,
)
    requires
        !s.contains_id(id as int),
        get_order_post(s, id, get_result, get_report, get_now),
        delete_post(s, post, id, del_result, del_report, del_now),
    ensures
        get_result == Err::<Order, ServiceError>(ServiceError::OrderNotFound { id }),
        del_result == Err::<(), ServiceError>(ServiceError::OrderNotFound { id }),
        post == s,
{
}

/// After a delete that removed the row carrying `id`, no row carries that
/// id any more: a later read or delete of the same id yields not-found.
pub proof fn lemma_deleted_id_gone(
    pre: StoreView,
    post: StoreView,
    id: i32,
    del_result: Result<(), ServiceError>,
    del_report: StatusReport,
    del_now: i64,
)
    requires
        pre.wf(),
        delete_post(pre, post, id, del_result, del_report, del_now),
    ensures
        !post.contains_id(id as int),
{
    if pre.contains_id(id as int) {
        let i = choose|i: int|
            0 <= i < pre.rows.len() && (#[trigger] pre.rows[i]).id == id && post.rows
                == pre.rows.remove(i);
        pre.rows.remove_ensures(i);
        assert forall|k: int| 0 <= k < post.rows.len() implies (#[trigger] post.rows[k]).id
            != id by {
            if k < i {
                assert(post.rows[k] == pre.rows[k]);
                assert(pre.rows[k].id < pre.rows[i].id);
            } else {
                assert(post.rows[k] == pre.rows[k + 1]);
                assert(pre.rows[i].id < pre.rows[k + 1].id);
            }
        }
    }
}

/// The listing an order read-all returns is most-recently-created first:
/// since ids grow in creation order and are never reused, the listed ids
/// are strictly decreasing.
pub proof fn lemma_listing_newest_first(
    s: StoreView,
    result: Result<Vec<Order>, ServiceError>,
    report: StatusReport,
    now: i64,
)
    requires
        s.wf(),
        get_orders_post(s, result, report, now),
    ensures
        result matches Ok(orders) ==> (forall|i: int, j: int|
            0 <= i < j < orders@.len() ==> (#[trigger] orders@[i]).id > (
            #[trigger] orders@[j]).id),
{
    if let Ok(orders) = result {
        assert forall|i: int, j: int| 0 <= i < j < orders@.len() implies (
        #[trigger] orders@[i]).id > (#[trigger] orders@[j]).id by {
            let n = s.rows.len();
            assert(orders@[i] == s.rows[n - 1 - i]);
            assert(orders@[j] == s.rows[n - 1 - j]);
            assert(s.rows[n - 1 - j].id < s.rows[n - 1 - i].id);
        }
    }
}

/// An update leaves every field it does not mention unchanged, never
/// touches id, order date or creation timestamp, and recomputes the total
/// from the merged quantity and unit price, not the stored ones.
pub proof fn lemma_update_merges_fields(current: Order, request: UpdateOrderRequest, now: i64)
    ensures
        ({
            let m = spec_merge(current, request, now);
            &&& (request.customer_name is None ==> m.customer_name == current.customer_name)
            &&& (request.product_name is None ==> m.product_name == current.product_name)
            &&& (request.quantity is None ==> m.quantity == current.quantity)
            &&& (request.unit_price is None ==> m.unit_price == current.unit_price)
            &&& (request.status is None ==> m.status == current.status)
            &&& (request.customer_name matches Some(n) ==> m.customer_name == n)
            &&& (request.product_name matches Some(n) ==> m.product_name == n)
            &&& (request.quantity matches Some(q) ==> m.quantity == q)
            &&& (request.unit_price matches Some(p) ==> m.unit_price == p)
            &&& (request.status matches Some(st) ==> m.status == st)
            &&& m.id == current.id
            &&& m.order_date == current.order_date
            &&& m.created_at == current.created_at
            &&& m.updated_at == now
            &&& m.total_amount == m.unit_price.spec_times_quantity(m.quantity as int)
        }),
{
}

} // verus!
