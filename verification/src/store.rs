//! The operations of the store on the order table, and what holds of them.

use vstd::prelude::*;
use crate::errors::ApiError;
use crate::errors::ApiErrorView;
use crate::order::Order;
use crate::order::OrderView;
use crate::outcome::applied;
use crate::outcome::contents;
use crate::outcome::created;
use crate::outcome::deleted;
use crate::outcome::duplicate_error;
use crate::outcome::fetched;
use crate::outcome::listed;
use crate::outcome::not_found_error;
use crate::outcome::order_outcome;
use crate::outcome::required;
use crate::outcome::updated;
use crate::outcome::vacant;
use crate::outcome::with_id;
use crate::outcome::with_status;
use crate::outcome::Operation;
use crate::table::distinct_ids;
use crate::table::has_id;
use crate::table::position;
use crate::table::pushed_distinct;
use crate::table::removed;
use crate::table::removed_distinct;
use crate::table::replaced;
use crate::table::replaced_distinct;
use crate::table::restated;
use crate::table::row;
use crate::table::row_at;
use crate::table::OrderTable;
use crate::text::decimal;

verus! {

/// What creating an order with content `o` returns on the rows `rows`.
pub open spec fn create_result(rows: Seq<OrderView>, o: OrderView) -> Result<
    OrderView,
    ApiErrorView,
> {
    if has_id(rows, o.id) {
        Err(duplicate_error(o.id))
    } else {
        Ok(o)
    }
}

/// The rows after an order with content `o` was to be created.
pub open spec fn after_create(rows: Seq<OrderView>, o: OrderView) -> Seq<OrderView> {
    if has_id(rows, o.id) {
        rows
    } else {
        rows.push(o)
    }
}

/// What replacing the order `id` by the content `o` returns on the rows `rows`.
pub open spec fn update_result(rows: Seq<OrderView>, id: nat, o: OrderView) -> Result<
    OrderView,
    ApiErrorView,
> {
    if has_id(rows, id) {
        Ok(with_id(o, id))
    } else {
        Err(not_found_error())
    }
}

/// The rows after the order `id` was to be replaced by the content `o`.
pub open spec fn after_update(rows: Seq<OrderView>, id: nat, o: OrderView) -> Seq<OrderView> {
    replaced(rows, id, with_id(o, id))
}

/// What giving the order `id` the status `status` returns on the rows `rows`.
pub open spec fn update_status_result(rows: Seq<OrderView>, id: nat, status: Seq<char>) -> Result<
    OrderView,
    ApiErrorView,
> {
    match row(rows, id) {
        Some(o) => Ok(with_status(o, status)),
        None => Err(not_found_error()),
    }
}

/// What deleting the order `id` returns on the rows `rows`.
pub open spec fn delete_result(rows: Seq<OrderView>, id: nat) -> Result<OrderView, ApiErrorView> {
    match row(rows, id) {
        Some(o) => Ok(o),
        None => Err(not_found_error()),
    }
}

/// The content of an order that was looked for.
pub open spec fn found_view(found: Option<Order>) -> Option<OrderView> {
    match found {
        Some(o) => Some(o@),
        None => None,
    }
}

/// Every order of the table, in the order of insertion.
pub fn get_all_orders(table: &OrderTable) -> (r: Result<Vec<Order>, ApiError>)
    ensures
        r is Ok,
        contents(r->Ok_0@) == table@,
{
    listed(table.select_all())
}

/// The order with the identifier `order_id`, or its absence, which is no
/// failure here.
pub fn get_order_by_id(table: &OrderTable, order_id: u32) -> (r: Result<Option<Order>, ApiError>)
    requires
        table.wf(),
    ensures
        r is Ok,
        found_view(r->Ok_0) == row(table@, order_id as nat),
{
    fetched(table.select_by_id(order_id))
}

/// Creates `order` unless its identifier is taken, in which case nothing is
/// written.
pub fn create_order(table: &mut OrderTable, order: &Order) -> (r: Result<Order, ApiError>)
    requires
        old(table).wf(),
    ensures
        final(table).wf(),
        order_outcome(r) == create_result(old(table)@, order@),
        final(table)@ == after_create(old(table)@, order@),
{
    let existing = match get_order_by_id(table, order.id) {
        Ok(found) => found,
        Err(e) => {
            return Err(e);
        },
    };
    match vacant(order.id, &existing) {
        Ok(_) => {},
        Err(e) => {
            return Err(e);
        },
    }
    let inserted = table.insert(order);
    created(order, inserted)
}

/// Replaces item, status and quantity of the order `order_id` by those of
/// `order`. The identifier that `order` carries is ignored: the order stored
/// and returned has the identifier `order_id`.
pub fn update_order(table: &mut OrderTable, order_id: u32, order: &Order) -> (r: Result<
    Order,
    ApiError,
>)
    requires
        old(table).wf(),
    ensures
        final(table).wf(),
        order_outcome(r) == update_result(old(table)@, order_id as nat, order@),
        final(table)@ == after_update(old(table)@, order_id as nat, order@),
{
    let affected = table.update_where_id(order_id, order);
    updated(order_id, order, affected)
}

/// Gives the order `order_id` the status `status` and returns the order as it
/// is stored then.
pub fn update_order_status(table: &mut OrderTable, order_id: u32, status: &str) -> (r: Result<
    Order,
    ApiError,
>)
    requires
        old(table).wf(),
    ensures
        final(table).wf(),
        order_outcome(r) == update_status_result(old(table)@, order_id as nat, status@),
        final(table)@ == restated(old(table)@, order_id as nat, status@),
{
    let affected = table.set_status_where_id(order_id, status);
    match applied(Operation::UpdateStatus, affected) {
        Ok(_) => {},
        Err(e) => {
            return Err(e);
        },
    }
    proof {
        status_update_keeps_rest(old(table)@, order_id as nat, status@);
    }
    match get_order_by_id(table, order_id) {
        Ok(found) => required(found),
        Err(e) => Err(e),
    }
}

/// Deletes the order `order_id` and returns it as it was read just before.
pub fn delete_order(table: &mut OrderTable, order_id: u32) -> (r: Result<Order, ApiError>)
    requires
        old(table).wf(),
    ensures
        final(table).wf(),
        order_outcome(r) == delete_result(old(table)@, order_id as nat),
        final(table)@ == removed(old(table)@, order_id as nat),
{
    let found = match get_order_by_id(table, order_id) {
        Ok(found) => found,
        Err(e) => {
            return Err(e);
        },
    };
    let snapshot = match required(found) {
        Ok(o) => o,
        Err(e) => {
            return Err(e);
        },
    };
    let affected = table.delete_where_id(order_id);
    deleted(snapshot, affected)
}

/// Creating an order under an identifier that is taken fails as a validation
/// failure on the field `id`, whose message names the identifier and ends
/// in "already exists", and leaves every row as it was.
pub proof fn duplicate_create_rejected(rows: Seq<OrderView>, o: OrderView)
    requires
        has_id(rows, o.id),
    ensures
        create_result(rows, o) == Err::<OrderView, ApiErrorView>(duplicate_error(o.id)),
        duplicate_error(o.id) is Validation,
        duplicate_error(o.id)->Validation_0.field == Some("id"@),
        duplicate_error(o.id)->Validation_0.error == "Order with ID "@ + decimal(o.id)
            + " already exists"@,
        after_create(rows, o) == rows,
{
}

/// On an identifier that no row has, reading finds nothing, and replacing,
/// changing the status and deleting all fail as not found, with the message
/// "Order not found", and leave every row as it was.
pub proof fn absent_id_not_found(rows: Seq<OrderView>, id: nat, o: OrderView, status: Seq<char>)
    requires
        !has_id(rows, id),
    ensures
        row(rows, id) is None,
        update_result(rows, id, o) == Err::<OrderView, ApiErrorView>(
            ApiErrorView::NotFound("Order not found"@),
        ),
        update_status_result(rows, id, status) == Err::<OrderView, ApiErrorView>(
            ApiErrorView::NotFound("Order not found"@),
        ),
        delete_result(rows, id) == Err::<OrderView, ApiErrorView>(
            ApiErrorView::NotFound("Order not found"@),
        ),
        after_update(rows, id, o) == rows,
        restated(rows, id, status) == rows,
        removed(rows, id) == rows,
{
}

/// After an order was created, reading its identifier finds an order equal
/// to it, and reading any other identifier finds what it found before.
pub proof fn create_then_get(rows: Seq<OrderView>, o: OrderView, other: nat)
    requires
        distinct_ids(rows),
        create_result(rows, o) is Ok,
    ensures
        create_result(rows, o) == Ok::<OrderView, ApiErrorView>(o),
        distinct_ids(after_create(rows, o)),
        row(after_create(rows, o), o.id) == Some(o),
        other != o.id ==> row(after_create(rows, o), other) == row(rows, other),
{
    let after = rows.push(o);
    pushed_distinct(rows, o);
    assert(after[rows.len() as int] == o);
    row_at(after, rows.len() as int);
    if other != o.id {
        if has_id(rows, other) {
            let p = position(rows, other);
            assert(after[p] == rows[p]);
            row_at(after, p);
        } else {
            if has_id(after, other) {
                let q = position(after, other);
                if q < rows.len() {
                    assert(rows[q].id == other);
                }
            }
        }
    }
}

/// Where the row `id` becomes `next`, which keeps the identifier, reading
/// `id` finds `next`, and reading any other identifier finds what it found
/// before.
pub proof fn replace_then_get(rows: Seq<OrderView>, id: nat, next: OrderView, other: nat)
    requires
        distinct_ids(rows),
        has_id(rows, id),
        next.id == id,
    ensures
        distinct_ids(replaced(rows, id, next)),
        row(replaced(rows, id, next), id) == Some(next),
        other != id ==> row(replaced(rows, id, next), other) == row(rows, other),
{
    let p = position(rows, id);
    let after = rows.update(p, next);
    replaced_distinct(rows, id, next);
    assert(after[p] == next);
    row_at(after, p);
    if other != id {
        if has_id(rows, other) {
            let q = position(rows, other);
            assert(after[q] == rows[q]);
            row_at(after, q);
        } else {
            if has_id(after, other) {
                let q = position(after, other);
                assert(rows[q].id == other);
            }
        }
    }
}

/// Replacing an order that exists returns the new content under the
/// identifier asked for, and reading that identifier then finds it.
pub proof fn update_then_get(rows: Seq<OrderView>, id: nat, o: OrderView, other: nat)
    requires
        distinct_ids(rows),
        has_id(rows, id),
    ensures
        update_result(rows, id, o) == Ok::<OrderView, ApiErrorView>(with_id(o, id)),
        row(after_update(rows, id, o), id) == Some(with_id(o, id)),
        other != id ==> row(after_update(rows, id, o), other) == row(rows, other),
{
    replace_then_get(rows, id, with_id(o, id), other);
}

/// Changing the status of an order that exists changes only its status:
/// identifier, item and quantity of the order returned and stored are those
/// from before, and no other row changes.
pub proof fn status_update_keeps_rest(rows: Seq<OrderView>, id: nat, status: Seq<char>)
    requires
        distinct_ids(rows),
        has_id(rows, id),
    ensures
        update_status_result(rows, id, status) is Ok,
        row(restated(rows, id, status), id) == Some(update_status_result(rows, id, status)->Ok_0),
        update_status_result(rows, id, status)->Ok_0.status == status,
        update_status_result(rows, id, status)->Ok_0.id == row(rows, id)->0.id,
        update_status_result(rows, id, status)->Ok_0.item == row(rows, id)->0.item,
        update_status_result(rows, id, status)->Ok_0.quantity == row(rows, id)->0.quantity,
        forall|other: nat|
            other != id ==> #[trigger] row(restated(rows, id, status), other) == row(rows, other),
{
    let p = position(rows, id);
    let next = with_status(rows[p], status);
    assert(restated(rows, id, status) == replaced(rows, id, next));
    replace_then_get(rows, id, next, id);
    assert forall|other: nat| other != id implies #[trigger] row(
        restated(rows, id, status),
        other,
    ) == row(rows, other) by {
        replace_then_get(rows, id, next, other);
    }
}

/// Deleting an order that exists returns it as it was stored, after which
/// reading its identifier finds nothing and reading any other identifier
/// finds what it found before.
pub proof fn delete_then_get(rows: Seq<OrderView>, id: nat, other: nat)
    requires
        distinct_ids(rows),
        has_id(rows, id),
    ensures
        delete_result(rows, id) == Ok::<OrderView, ApiErrorView>(row(rows, id)->0),
        distinct_ids(removed(rows, id)),
        row(removed(rows, id), id) is None,
        other != id ==> row(removed(rows, id), other) == row(rows, other),
{
    let p = position(rows, id);
    let after = rows.remove(p);
    removed_distinct(rows, id);
    if has_id(after, id) {
        let q = position(after, id);
        let q0 = if q < p { q } else { q + 1 };
        assert(after[q] == rows[q0]);
        row_at(rows, q0);
    }
    if other != id {
        if has_id(rows, other) {
            let q = position(rows, other);
            let q1 = if q < p { q } else { q - 1 };
            assert(after[q1] == rows[q]);
            row_at(after, q1);
        } else {
            if has_id(after, other) {
                let q = position(after, other);
                let q0 = if q < p { q } else { q + 1 };
                assert(after[q] == rows[q0]);
                assert(rows[q0].id == other);
            }
        }
    }
}

} // verus!
