//! The order entity and its mathematical view.

use vstd::prelude::*;

verus! {

/// The mathematical content of an order: what contracts speak of.
pub struct OrderView {
    pub id: nat,
    pub item: Seq<char>,
    pub status: Seq<char>,
    pub quantity: nat,
}

/// A customer order.
#[derive(Debug, Clone)]
pub struct Order {
    /// Unique identifier of the order.
    pub id: u32,
    /// Name of the ordered item.
    pub item: String,
    /// Current status of the order.
    pub status: String,
    /// Number of items ordered.
    pub quantity: u32,
}

impl View for Order {
    type V = OrderView;

    open spec fn view(&self) -> OrderView {
        OrderView {
            id: self.id as nat,
            item: self.item@,
            status: self.status@,
            quantity: self.quantity as nat,
        }
    }
}

impl Order {
    /// An independent copy with the same content.
    pub fn duplicate(&self) -> (copy: Order)
        ensures
            copy@ == self@,
    {
        Order {
            id: self.id,
            item: self.item.clone(),
            status: self.status.clone(),
            quantity: self.quantity,
        }
    }
}

/// Body of a status change request.
#[derive(Debug, Clone)]
pub struct StatusUpdate {
    /// The status the order is to take.
    pub status: String,
}

impl View for StatusUpdate {
    type V = Seq<char>;

    open spec fn view(&self) -> Seq<char> {
        self.status@
    }
}

} // verus!
