//! The business rules an order must meet, checked in a fixed order of
//! precedence.

use vstd::prelude::*;
use vstd::string::StringExecFns;
use crate::errors::ValidationError;
use crate::errors::ValidationErrorView;
use crate::order::Order;
use crate::order::OrderView;
use crate::text::blank;
use crate::text::is_blank;
use crate::text::longer_than;
use crate::text::same_text;

verus! {

/// The longest item name, in characters.
pub const MAX_ITEM_CHARS: usize = 100;

/// The largest quantity of one order.
pub const MAX_QUANTITY: u32 = 1000;

/// The rules, in the order in which they are checked.
#[derive(Debug, Clone, Copy, PartialEq, Eq, Structural)]
pub enum Rule {
    /// The identifier is greater than zero.
    IdPositive,
    /// The item name holds more than white space.
    ItemPresent,
    /// The item name, untrimmed, holds at most [`MAX_ITEM_CHARS`] characters.
    ItemLength,
    /// The status is one of the five known values.
    StatusKnown,
    /// The quantity is at least one.
    QuantityPositive,
    /// The quantity is at most [`MAX_QUANTITY`].
    QuantityLimit,
}

/// The statuses an order can have.
#[derive(Debug, Clone, Copy, PartialEq, Eq, Structural)]
pub enum Status {
    Pending,
    Processing,
    Shipped,
    Delivered,
    Cancelled,
}

/// How `status` is written.
pub open spec fn status_name(status: Status) -> Seq<char> {
    match status {
        Status::Pending => "pending"@,
        Status::Processing => "processing"@,
        Status::Shipped => "shipped"@,
        Status::Delivered => "delivered"@,
        Status::Cancelled => "cancelled"@,
    }
}

/// The status that `s` names, letter for letter, if any.
pub open spec fn named_status(s: Seq<char>) -> Option<Status> {
    if s == "pending"@ {
        Some(Status::Pending)
    } else if s == "processing"@ {
        Some(Status::Processing)
    } else if s == "shipped"@ {
        Some(Status::Shipped)
    } else if s == "delivered"@ {
        Some(Status::Delivered)
    } else if s == "cancelled"@ {
        Some(Status::Cancelled)
    } else {
        None
    }
}

/// Whether `s` is one of the five statuses, letter for letter.
pub open spec fn is_known_status(s: Seq<char>) -> bool {
    named_status(s) is Some
}

/// Whether `o` breaks `rule`.
pub open spec fn violates(o: OrderView, rule: Rule) -> bool {
    match rule {
        Rule::IdPositive => o.id == 0,
        Rule::ItemPresent => is_blank(o.item),
        Rule::ItemLength => o.item.len() > MAX_ITEM_CHARS,
        Rule::StatusKnown => !is_known_status(o.status),
        Rule::QuantityPositive => o.quantity == 0,
        Rule::QuantityLimit => o.quantity > MAX_QUANTITY,
    }
}

/// The place of `rule` in the order of precedence, from zero.
pub open spec fn rank(rule: Rule) -> int {
    match rule {
        Rule::IdPositive => 0,
        Rule::ItemPresent => 1,
        Rule::ItemLength => 2,
        Rule::StatusKnown => 3,
        Rule::QuantityPositive => 4,
        Rule::QuantityLimit => 5,
    }
}

/// An order that breaks no rule.
pub open spec fn is_valid_order(o: OrderView) -> bool {
    forall|rule: Rule| !violates(o, rule)
}

/// The broken rule that comes first in the order of precedence, if any.
pub open spec fn first_violation(o: OrderView) -> Option<Rule> {
    if violates(o, Rule::IdPositive) {
        Some(Rule::IdPositive)
    } else if violates(o, Rule::ItemPresent) {
        Some(Rule::ItemPresent)
    } else if violates(o, Rule::ItemLength) {
        Some(Rule::ItemLength)
    } else if violates(o, Rule::StatusKnown) {
        Some(Rule::StatusKnown)
    } else if violates(o, Rule::QuantityPositive) {
        Some(Rule::QuantityPositive)
    } else if violates(o, Rule::QuantityLimit) {
        Some(Rule::QuantityLimit)
    } else {
        None
    }
}

/// The reason given when `rule` is broken.
pub open spec fn rule_message(rule: Rule) -> Seq<char> {
    match rule {
        Rule::IdPositive => "Order ID must be greater than 0"@,
        Rule::ItemPresent => "Item name cannot be empty"@,
        Rule::ItemLength => "Item name cannot exceed 100 characters"@,
        Rule::StatusKnown =>
            "Status must be one of: pending, processing, shipped, delivered, cancelled"@,
        Rule::QuantityPositive => "Quantity must be greater than 0"@,
        Rule::QuantityLimit => "Quantity cannot exceed 1000"@,
    }
}

/// The field that `rule` is about.
pub open spec fn rule_field(rule: Rule) -> Seq<char> {
    match rule {
        Rule::IdPositive => "id"@,
        Rule::ItemPresent => "item"@,
        Rule::ItemLength => "item"@,
        Rule::StatusKnown => "status"@,
        Rule::QuantityPositive => "quantity"@,
        Rule::QuantityLimit => "quantity"@,
    }
}

/// The failure reported when `rule` is broken.
pub open spec fn rule_error(rule: Rule) -> ValidationErrorView {
    ValidationErrorView { error: rule_message(rule), field: Some(rule_field(rule)) }
}

/// What validating an order with content `o` gives.
pub open spec fn order_verdict(o: OrderView) -> Result<(), ValidationErrorView> {
    match first_violation(o) {
        Some(rule) => Err(rule_error(rule)),
        None => Ok(()),
    }
}

/// What validating a bare status `s` gives.
pub open spec fn status_verdict(s: Seq<char>) -> Result<(), ValidationErrorView> {
    if is_known_status(s) {
        Ok(())
    } else {
        Err(rule_error(Rule::StatusKnown))
    }
}

/// The verdict that a result of validation stands for.
pub open spec fn verdict_of(r: Result<(), ValidationError>) -> Result<(), ValidationErrorView> {
    match r {
        Ok(_) => Ok(()),
        Err(e) => Err(e@),
    }
}

impl Status {
    /// How this status is written.
    pub fn as_str(&self) -> (name: &'static str)
        ensures
            name@ == status_name(*self),
    {
        match self {
            Status::Pending => "pending",
            Status::Processing => "processing",
            Status::Shipped => "shipped",
            Status::Delivered => "delivered",
            Status::Cancelled => "cancelled",
        }
    }
}

/// Reads a status, letter for letter.
pub fn parse_status(status: &str) -> (parsed: Option<Status>)
    ensures
        parsed == named_status(status@),
{
    if same_text(status, "pending") {
        Some(Status::Pending)
    } else if same_text(status, "processing") {
        Some(Status::Processing)
    } else if same_text(status, "shipped") {
        Some(Status::Shipped)
    } else if same_text(status, "delivered") {
        Some(Status::Delivered)
    } else if same_text(status, "cancelled") {
        Some(Status::Cancelled)
    } else {
        None
    }
}

/// Decides [`is_known_status`].
pub fn known_status(status: &str) -> (yes: bool)
    ensures
        yes == is_known_status(status@),
{
    parse_status(status).is_some()
}

/// A status is read back from the way it is written, and a text that names
/// a status is the way that status is written.
pub proof fn status_names_are_distinct(status: Status, s: Seq<char>)
    ensures
        named_status(status_name(status)) == Some(status),
        named_status(s) == Some(status) <==> s == status_name(status),
{
    reveal_strlit("pending");
    reveal_strlit("processing");
    reveal_strlit("shipped");
    reveal_strlit("delivered");
    reveal_strlit("cancelled");
    assert("pending"@.len() == 7 && "pending"@[0] == 'p');
    assert("processing"@.len() == 10);
    assert("shipped"@.len() == 7 && "shipped"@[0] == 's');
    assert("delivered"@.len() == 9 && "delivered"@[0] == 'd');
    assert("cancelled"@.len() == 9 && "cancelled"@[0] == 'c');
}

/// Builds the failure reported when `rule` is broken.
pub fn violation(rule: Rule) -> (e: ValidationError)
    ensures
        e@ == rule_error(rule),
{
    match rule {
        Rule::IdPositive => ValidationError {
            error: String::from_str("Order ID must be greater than 0"),
            field: Some(String::from_str("id")),
        },
        Rule::ItemPresent => ValidationError {
            error: String::from_str("Item name cannot be empty"),
            field: Some(String::from_str("item")),
        },
        Rule::ItemLength => ValidationError {
            error: String::from_str("Item name cannot exceed 100 characters"),
            field: Some(String::from_str("item")),
        },
        Rule::StatusKnown => ValidationError {
            error: String::from_str(
                "Status must be one of: pending, processing, shipped, delivered, cancelled",
            ),
            field: Some(String::from_str("status")),
        },
        Rule::QuantityPositive => ValidationError {
            error: String::from_str("Quantity must be greater than 0"),
            field: Some(String::from_str("quantity")),
        },
        Rule::QuantityLimit => ValidationError {
            error: String::from_str("Quantity cannot exceed 1000"),
            field: Some(String::from_str("quantity")),
        },
    }
}

/// Checks an order against every rule, in the order of precedence, and
/// reports the first one that it breaks.
pub fn validate_order(order: &Order) -> (r: Result<(), ValidationError>)
    ensures
        verdict_of(r) == order_verdict(order@),
        r is Ok <==> is_valid_order(order@),
{
    proof {
        valid_iff_no_violation(order@);
    }
    if order.id == 0 {
        return Err(violation(Rule::IdPositive));
    }
    if blank(order.item.as_str()) {
        return Err(violation(Rule::ItemPresent));
    }
    if longer_than(order.item.as_str(), MAX_ITEM_CHARS) {
        return Err(violation(Rule::ItemLength));
    }
    if !known_status(order.status.as_str()) {
        return Err(violation(Rule::StatusKnown));
    }
    if order.quantity == 0 {
        return Err(violation(Rule::QuantityPositive));
    }
    if order.quantity > MAX_QUANTITY {
        return Err(violation(Rule::QuantityLimit));
    }
    Ok(())
}

/// Checks a bare status against the five known values.
pub fn validate_status(status: &str) -> (r: Result<(), ValidationError>)
    ensures
        verdict_of(r) == status_verdict(status@),
        r is Ok <==> is_known_status(status@),
{
    if !known_status(status) {
        return Err(violation(Rule::StatusKnown));
    }
    Ok(())
}

/// An order is valid exactly when no rule comes first among the broken ones.
pub proof fn valid_iff_no_violation(o: OrderView)
    ensures
        is_valid_order(o) <==> first_violation(o) is None,
        is_valid_order(o) <==> order_verdict(o) is Ok,
{
    if first_violation(o) is None {
        assert forall|rule: Rule| !violates(o, rule) by {
            match rule {
                Rule::IdPositive => {},
                Rule::ItemPresent => {},
                Rule::ItemLength => {},
                Rule::StatusKnown => {},
                Rule::QuantityPositive => {},
                Rule::QuantityLimit => {},
            }
        }
    } else {
        assert(violates(o, first_violation(o)->0));
    }
}

/// Every order whose identifier is positive, whose item name holds more than
/// white space and at most a hundred characters, whose status is known and
/// whose quantity lies between one and a thousand passes validation.
pub proof fn valid_order_accepted(o: OrderView)
    requires
        o.id > 0,
        !is_blank(o.item),
        o.item.len() <= 100,
        is_known_status(o.status),
        1 <= o.quantity <= 1000,
    ensures
        is_valid_order(o),
        order_verdict(o) == Ok::<(), ValidationErrorView>(()),
{
    valid_iff_no_violation(o);
}

/// An order that breaks exactly one rule is rejected with the message and
/// the field of that rule.
pub proof fn single_violation_reported(o: OrderView, rule: Rule)
    requires
        violates(o, rule),
        forall|other: Rule| other != rule ==> !violates(o, other),
    ensures
        first_violation(o) == Some(rule),
        order_verdict(o) == Err::<(), ValidationErrorView>(rule_error(rule)),
{
    match rule {
        Rule::IdPositive => {},
        Rule::ItemPresent => {
            assert(!violates(o, Rule::IdPositive));
        },
        Rule::ItemLength => {
            assert(!violates(o, Rule::IdPositive));
            assert(!violates(o, Rule::ItemPresent));
        },
        Rule::StatusKnown => {
            assert(!violates(o, Rule::IdPositive));
            assert(!violates(o, Rule::ItemPresent));
            assert(!violates(o, Rule::ItemLength));
        },
        Rule::QuantityPositive => {
            assert(!violates(o, Rule::IdPositive));
            assert(!violates(o, Rule::ItemPresent));
            assert(!violates(o, Rule::ItemLength));
            assert(!violates(o, Rule::StatusKnown));
        },
        Rule::QuantityLimit => {
            assert(!violates(o, Rule::IdPositive));
            assert(!violates(o, Rule::ItemPresent));
            assert(!violates(o, Rule::ItemLength));
            assert(!violates(o, Rule::StatusKnown));
            assert(!violates(o, Rule::QuantityPositive));
        },
    }
}

/// Where several rules are broken at once, the one reported is the first of
/// them in the order of precedence: it is broken, and every rule that comes
/// before it is kept.
pub proof fn violations_by_precedence(o: OrderView, rule: Rule)
    ensures
        first_violation(o) == Some(rule) <==> (violates(o, rule) && forall|earlier: Rule|
            rank(earlier) < rank(rule) ==> !violates(o, earlier)),
{
    if first_violation(o) == Some(rule) {
        assert forall|earlier: Rule| rank(earlier) < rank(rule) implies !violates(o, earlier) by {
            match earlier {
                Rule::IdPositive => {},
                Rule::ItemPresent => {},
                Rule::ItemLength => {},
                Rule::StatusKnown => {},
                Rule::QuantityPositive => {},
                Rule::QuantityLimit => {},
            }
        }
    }
    if violates(o, rule) && (forall|earlier: Rule|
        rank(earlier) < rank(rule) ==> !violates(o, earlier)) {
        assert(rank(Rule::IdPositive) < rank(rule) ==> !violates(o, Rule::IdPositive));
        assert(rank(Rule::ItemPresent) < rank(rule) ==> !violates(o, Rule::ItemPresent));
        assert(rank(Rule::ItemLength) < rank(rule) ==> !violates(o, Rule::ItemLength));
        assert(rank(Rule::StatusKnown) < rank(rule) ==> !violates(o, Rule::StatusKnown));
        assert(rank(Rule::QuantityPositive) < rank(rule) ==> !violates(
            o,
            Rule::QuantityPositive,
        ));
    }
}

} // verus!
