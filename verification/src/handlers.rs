//! One function for each request of the service: check what came in, let
//! the store act, and report the order or the failure.

use vstd::prelude::*;
use vstd::string::StringExecFns;
use crate::errors::ApiError;
use crate::errors::ApiErrorView;
use crate::errors::ServerError;
use crate::errors::ServerErrorView;
use crate::order::Order;
use crate::order::OrderView;
use crate::order::StatusUpdate;
use crate::outcome::contents;
use crate::outcome::not_found_error;
use crate::outcome::order_outcome;
use crate::outcome::required;
use crate::store::after_create;
use crate::store::after_update;
use crate::store::create_order;
use crate::store::create_result;
use crate::store::delete_order;
use crate::store::delete_result;
use crate::store::get_all_orders;
use crate::store::update_order;
use crate::store::update_result;
use crate::store::update_status_result;
use crate::table::has_id;
use crate::table::removed;
use crate::table::restated;
use crate::table::row;
use crate::table::OrderTable;
use crate::validator::is_known_status;
use crate::validator::is_valid_order;
use crate::validator::order_verdict;
use crate::validator::status_verdict;
use crate::validator::valid_iff_no_violation;
use crate::validator::validate_order;
use crate::validator::validate_status;

verus! {

/// What a request to create an order with content `o` is answered with.
pub open spec fn add_order_result(rows: Seq<OrderView>, o: OrderView) -> Result<
    OrderView,
    ApiErrorView,
> {
    match order_verdict(o) {
        Err(e) => Err(ApiErrorView::Validation(e)),
        Ok(_) => create_result(rows, o),
    }
}

/// What a request to read the order `id` is answered with.
pub open spec fn get_order_result(rows: Seq<OrderView>, id: nat) -> Result<
    OrderView,
    ApiErrorView,
> {
    match row(rows, id) {
        Some(o) => Ok(o),
        None => Err(not_found_error()),
    }
}

/// What a request to replace the order `id` by the content `o` is answered
/// with.
pub open spec fn update_order_result(rows: Seq<OrderView>, id: nat, o: OrderView) -> Result<
    OrderView,
    ApiErrorView,
> {
    match order_verdict(o) {
        Err(e) => Err(ApiErrorView::Validation(e)),
        Ok(_) => update_result(rows, id, o),
    }
}

/// What a request to give the order `id` the status `status` is answered
/// with.
pub open spec fn status_change_result(rows: Seq<OrderView>, id: nat, status: Seq<char>) -> Result<
    OrderView,
    ApiErrorView,
> {
    match status_verdict(status) {
        Err(e) => Err(ApiErrorView::Validation(e)),
        Ok(_) => update_status_result(rows, id, status),
    }
}

/// Lists every order.
pub fn get_orders(table: &OrderTable) -> (r: Result<Vec<Order>, ApiError>)
    ensures
        r is Ok,
        contents(r->Ok_0@) == table@,
{
    get_all_orders(table)
}

/// Creates `new_order` if it is valid and its identifier is free. An order
/// that is not valid is rejected before the table is touched.
pub fn add_order(table: &mut OrderTable, new_order: Order) -> (r: Result<Order, ApiError>)
    requires
        old(table).wf(),
    ensures
        final(table).wf(),
        order_outcome(r) == add_order_result(old(table)@, new_order@),
        final(table)@ == (if is_valid_order(new_order@) {
            after_create(old(table)@, new_order@)
        } else {
            old(table)@
        }),
{
    proof {
        valid_iff_no_violation(new_order@);
    }
    match validate_order(&new_order) {
        Ok(_) => {},
        Err(e) => {
            return Err(ApiError::from(e));
        },
    }
    create_order(table, &new_order)
}

/// Reads the order `id`; its absence is the not-found failure.
pub fn get_order_by_id(table: &OrderTable, id: u32) -> (r: Result<Order, ApiError>)
    requires
        table.wf(),
    ensures
        order_outcome(r) == get_order_result(table@, id as nat),
{
    match crate::store::get_order_by_id(table, id) {
        Ok(found) => required(found),
        Err(e) => Err(e),
    }
}

/// Replaces the order `id` by `updated_order` if that is valid. An order
/// that is not valid is rejected before the table is touched.
pub fn update_order_by_id(table: &mut OrderTable, id: u32, updated_order: Order) -> (r: Result<
    Order,
    ApiError,
>)
    requires
        old(table).wf(),
    ensures
        final(table).wf(),
        order_outcome(r) == update_order_result(old(table)@, id as nat, updated_order@),
        final(table)@ == (if is_valid_order(updated_order@) {
            after_update(old(table)@, id as nat, updated_order@)
        } else {
            old(table)@
        }),
{
    proof {
        valid_iff_no_violation(updated_order@);
    }
    match validate_order(&updated_order) {
        Ok(_) => {},
        Err(e) => {
            return Err(ApiError::from(e));
        },
    }
    update_order(table, id, &updated_order)
}

/// Gives the order `id` the status asked for if that is one of the known
/// values. Another status is rejected before the table is touched.
pub fn update_order_status(table: &mut OrderTable, id: u32, status_update: StatusUpdate) -> (r:
    Result<Order, ApiError>)
    requires
        old(table).wf(),
    ensures
        final(table).wf(),
        order_outcome(r) == status_change_result(old(table)@, id as nat, status_update@),
        final(table)@ == (if is_known_status(status_update@) {
            restated(old(table)@, id as nat, status_update@)
        } else {
            old(table)@
        }),
{
    match validate_status(status_update.status.as_str()) {
        Ok(_) => {},
        Err(e) => {
            return Err(ApiError::from(e));
        },
    }
    crate::store::update_order_status(table, id, status_update.status.as_str())
}

/// Deletes the order `id` and answers with the order as it was.
pub fn delete_order_by_id(table: &mut OrderTable, id: u32) -> (r: Result<Order, ApiError>)
    requires
        old(table).wf(),
    ensures
        final(table).wf(),
        order_outcome(r) == delete_result(old(table)@, id as nat),
        final(table)@ == removed(old(table)@, id as nat),
{
    delete_order(table, id)
}

/// A request to read, replace, change the status of or delete an order under
/// an identifier that no row has is answered with the not-found failure
/// "Order not found", provided that what came with the request is valid.
pub proof fn absent_order_not_found(
    rows: Seq<OrderView>,
    id: nat,
    o: OrderView,
    status: Seq<char>,
)
    requires
        !has_id(rows, id),
        is_valid_order(o),
        is_known_status(status),
    ensures
        get_order_result(rows, id) == Err::<OrderView, ApiErrorView>(
            ApiErrorView::NotFound("Order not found"@),
        ),
        update_order_result(rows, id, o) == Err::<OrderView, ApiErrorView>(
            ApiErrorView::NotFound("Order not found"@),
        ),
        status_change_result(rows, id, status) == Err::<OrderView, ApiErrorView>(
            ApiErrorView::NotFound("Order not found"@),
        ),
        delete_result(rows, id) == Err::<OrderView, ApiErrorView>(
            ApiErrorView::NotFound("Order not found"@),
        ),
{
    valid_iff_no_violation(o);
}

/// What does not pass validation never reaches the table: the answer is the
/// validation failure, whatever the table holds.
pub proof fn invalid_request_rejected(rows: Seq<OrderView>, id: nat, o: OrderView)
    requires
        !is_valid_order(o),
    ensures
        add_order_result(rows, o) is Err,
        add_order_result(rows, o)->Err_0 is Validation,
        update_order_result(rows, id, o) == add_order_result(rows, o),
{
    valid_iff_no_violation(o);
}

/// The answer to a request for a path that the service does not have: the
/// status 404 and a fixed body.
pub fn path_not_found() -> (r: (u16, ServerError))
    ensures
        r.0 == 404,
        r.1@ == (ServerErrorView {
            error: "Path not found"@,
            message: "The requested endpoint does not exist"@,
        }),
{
    (
        404,
        ServerError {
            error: String::from_str("Path not found"),
            message: String::from_str("The requested endpoint does not exist"),
        },
    )
}

} // verus!
