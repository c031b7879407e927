//! From what a statement against the order table came back with to what the
//! caller is told. A statement is carried out by a storage engine; these
//! functions decide what its outcome means.

use vstd::prelude::*;
use vstd::string::StringExecFns;
use crate::errors::ApiError;
use crate::errors::ApiErrorView;
use crate::errors::ServerError;
use crate::errors::ServerErrorView;
use crate::errors::ValidationError;
use crate::errors::ValidationErrorView;
use crate::order::Order;
use crate::order::OrderView;
use crate::text::decimal;
use crate::text::decimal_string;

verus! {

/// A statement that the storage engine could not carry out.
#[derive(Debug, Clone, Copy, PartialEq, Eq, Structural)]
pub struct StorageFault {}

/// The operations of the store.
#[derive(Debug, Clone, Copy, PartialEq, Eq, Structural)]
pub enum Operation {
    List,
    Fetch,
    Create,
    Update,
    UpdateStatus,
    Delete,
}

/// What the store failed to do when a statement of `op` met a fault.
pub open spec fn fault_message(op: Operation) -> Seq<char> {
    match op {
        Operation::List => "Failed to retrieve orders"@,
        Operation::Fetch => "Failed to retrieve order"@,
        Operation::Create => "Failed to create order"@,
        Operation::Update => "Failed to update order"@,
        Operation::UpdateStatus => "Failed to update order status"@,
        Operation::Delete => "Failed to delete order"@,
    }
}

/// The failure reported when a statement of `op` met a fault.
pub open spec fn fault_error(op: Operation) -> ApiErrorView {
    ApiErrorView::Server(
        ServerErrorView { error: "Database error"@, message: fault_message(op) },
    )
}

/// The failure reported when no order has the identifier asked for.
pub open spec fn not_found_error() -> ApiErrorView {
    ApiErrorView::NotFound("Order not found"@)
}

/// The failure reported when an order is to be created under an identifier
/// that is taken.
pub open spec fn duplicate_error(id: nat) -> ApiErrorView {
    ApiErrorView::Validation(
        ValidationErrorView {
            error: "Order with ID "@ + decimal(id) + " already exists"@,
            field: Some("id"@),
        },
    )
}

/// The content of an order or of the failure in its place.
pub open spec fn order_outcome(r: Result<Order, ApiError>) -> Result<OrderView, ApiErrorView> {
    match r {
        Ok(o) => Ok(o@),
        Err(e) => Err(e@),
    }
}

/// The content of a go-ahead or of the failure in its place.
pub open spec fn unit_outcome(r: Result<(), ApiError>) -> Result<(), ApiErrorView> {
    match r {
        Ok(_) => Ok(()),
        Err(e) => Err(e@),
    }
}

/// The content of each order of a list.
pub open spec fn contents(rows: Seq<Order>) -> Seq<OrderView> {
    Seq::new(rows.len(), |i: int| rows[i]@)
}

/// Builds [`fault_error`].
pub fn storage_fault(op: Operation) -> (e: ApiError)
    ensures
        e@ == fault_error(op),
{
    let message = match op {
        Operation::List => String::from_str("Failed to retrieve orders"),
        Operation::Fetch => String::from_str("Failed to retrieve order"),
        Operation::Create => String::from_str("Failed to create order"),
        Operation::Update => String::from_str("Failed to update order"),
        Operation::UpdateStatus => String::from_str("Failed to update order status"),
        Operation::Delete => String::from_str("Failed to delete order"),
    };
    ApiError::Server(ServerError { error: String::from_str("Database error"), message })
}

/// Builds [`not_found_error`].
pub fn order_not_found() -> (e: ApiError)
    ensures
        e@ == not_found_error(),
{
    ApiError::NotFound(String::from_str("Order not found"))
}

/// Builds [`duplicate_error`].
pub fn duplicate_id(id: u32) -> (e: ApiError)
    ensures
        e@ == duplicate_error(id as nat),
{
    let mut error = String::from_str("Order with ID ");
    let number = decimal_string(id);
    error.append(number.as_str());
    error.append(" already exists");
    ApiError::Validation(ValidationError { error, field: Some(String::from_str("id")) })
}

/// The outcome of reading every order: the rows as they came, or the fault
/// of listing.
pub fn listed(rows: Result<Vec<Order>, StorageFault>) -> (r: Result<Vec<Order>, ApiError>)
    ensures
        match rows {
            Ok(v) => r == Ok::<Vec<Order>, ApiError>(v),
            Err(_) => r is Err && r->Err_0@ == fault_error(Operation::List),
        },
{
    match rows {
        Ok(v) => Ok(v),
        Err(_) => Err(storage_fault(Operation::List)),
    }
}

/// The outcome of reading one order by its identifier: the row or its
/// absence as it came, or the fault of fetching.
pub fn fetched(row: Result<Option<Order>, StorageFault>) -> (r: Result<Option<Order>, ApiError>)
    ensures
        match row {
            Ok(found) => r == Ok::<Option<Order>, ApiError>(found),
            Err(_) => r is Err && r->Err_0@ == fault_error(Operation::Fetch),
        },
{
    match row {
        Ok(found) => Ok(found),
        Err(_) => Err(storage_fault(Operation::Fetch)),
    }
}

/// Turns the absence of an order into the not-found failure.
pub fn required(row: Option<Order>) -> (r: Result<Order, ApiError>)
    ensures
        match row {
            Some(o) => r == Ok::<Order, ApiError>(o),
            None => r is Err && r->Err_0@ == not_found_error(),
        },
{
    match row {
        Some(o) => Ok(o),
        None => Err(order_not_found()),
    }
}

/// Whether an order may be created under `id`, given what a read of that
/// identifier found: only where it found nothing.
pub fn vacant(id: u32, existing: &Option<Order>) -> (r: Result<(), ApiError>)
    ensures
        match existing {
            Some(_) => r is Err && r->Err_0@ == duplicate_error(id as nat),
            None => r is Ok,
        },
{
    match existing {
        Some(_) => Err(duplicate_id(id)),
        None => Ok(()),
    }
}

/// What a statement that changes rows means for the operation `op`: its fault
/// where it met one, not-found where it touched no row, else the go-ahead.
pub fn applied(op: Operation, affected: Result<u64, StorageFault>) -> (r: Result<(), ApiError>)
    ensures
        unit_outcome(r) == applied_outcome(op, affected),
{
    match affected {
        Err(_) => Err(storage_fault(op)),
        Ok(n) => {
            if n == 0 {
                Err(order_not_found())
            } else {
                Ok(())
            }
        },
    }
}

/// What [`applied`] decides.
pub open spec fn applied_outcome(op: Operation, affected: Result<u64, StorageFault>) -> Result<
    (),
    ApiErrorView,
> {
    match affected {
        Err(_) => Err(fault_error(op)),
        Ok(n) => if n == 0 {
            Err(not_found_error())
        } else {
            Ok(())
        },
    }
}

/// The outcome of creating `order`, given how its insertion went: a copy of
/// the order, or the fault of creating.
pub fn created(order: &Order, inserted: Result<u64, StorageFault>) -> (r: Result<Order, ApiError>)
    ensures
        order_outcome(r) == (match inserted {
            Ok(_) => Ok(order@),
            Err(_) => Err(fault_error(Operation::Create)),
        }),
{
    match inserted {
        Ok(_) => Ok(order.duplicate()),
        Err(_) => Err(storage_fault(Operation::Create)),
    }
}

/// The content of `o` under the identifier `id`.
pub open spec fn with_id(o: OrderView, id: nat) -> OrderView {
    OrderView { id, ..o }
}

/// The content of `o` with the status `status`.
pub open spec fn with_status(o: OrderView, status: Seq<char>) -> OrderView {
    OrderView { status, ..o }
}

/// The outcome of replacing the order `id` by `order`, given how many rows the
/// replacement touched: the new content under the identifier `id`, whatever
/// identifier `order` carries.
pub fn updated(id: u32, order: &Order, affected: Result<u64, StorageFault>) -> (r: Result<
    Order,
    ApiError,
>)
    ensures
        order_outcome(r) == (match applied_outcome(Operation::Update, affected) {
            Ok(_) => Ok(with_id(order@, id as nat)),
            Err(e) => Err(e),
        }),
{
    match applied(Operation::Update, affected) {
        Ok(_) => {
            let mut copy = order.duplicate();
            copy.id = id;
            Ok(copy)
        },
        Err(e) => Err(e),
    }
}

/// The outcome of deleting an order, given the row as it was read before and
/// how many rows the deletion touched: that row.
pub fn deleted(snapshot: Order, affected: Result<u64, StorageFault>) -> (r: Result<Order, ApiError>)
    ensures
        order_outcome(r) == (match applied_outcome(Operation::Delete, affected) {
            Ok(_) => Ok(snapshot@),
            Err(e) => Err(e),
        }),
{
    match applied(Operation::Delete, affected) {
        Ok(_) => Ok(snapshot),
        Err(e) => Err(e),
    }
}

} // verus!
