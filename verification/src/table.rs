//! The order table: rows keyed by their identifier, kept in the order in
//! which they were inserted, and the statements that read and change it.

use vstd::prelude::*;
use crate::order::Order;
use crate::order::OrderView;
use crate::outcome::contents;
use crate::outcome::with_status;
use crate::outcome::with_id;
use crate::outcome::StorageFault;

verus! {

/// Whether some row of `rows` has the identifier `id`.
pub open spec fn has_id(rows: Seq<OrderView>, id: nat) -> bool {
    exists|i: int| 0 <= i < rows.len() && (#[trigger] rows[i]).id == id
}

/// The place of a row with the identifier `id`, where there is one.
pub open spec fn position(rows: Seq<OrderView>, id: nat) -> int {
    choose|i: int| 0 <= i < rows.len() && (#[trigger] rows[i]).id == id
}

/// The row with the identifier `id`, if any.
pub open spec fn row(rows: Seq<OrderView>, id: nat) -> Option<OrderView> {
    if has_id(rows, id) {
        Some(rows[position(rows, id)])
    } else {
        None
    }
}

/// No two rows share an identifier.
pub open spec fn distinct_ids(rows: Seq<OrderView>) -> bool {
    forall|i: int, j: int|
        0 <= i < j < rows.len() ==> (#[trigger] rows[i]).id != (#[trigger] rows[j]).id
}

/// In a table without repeated identifiers, a row found at `k` is the row
/// of its identifier.
pub proof fn row_at(rows: Seq<OrderView>, k: int)
    requires
        distinct_ids(rows),
        0 <= k < rows.len(),
    ensures
        has_id(rows, rows[k].id),
        position(rows, rows[k].id) == k,
        row(rows, rows[k].id) == Some(rows[k]),
{
    let id = rows[k].id;
    let p = position(rows, id);
    assert(0 <= p < rows.len() && rows[p].id == id);
    if p < k {
        assert(rows[p].id != rows[k].id);
    } else if k < p {
        assert(rows[k].id != rows[p].id);
    }
}

/// The rows of the service's orders.
#[derive(Debug)]
pub struct OrderTable {
    rows: Vec<Order>,
}

impl View for OrderTable {
    type V = Seq<OrderView>;

    closed spec fn view(&self) -> Seq<OrderView> {
        contents(self.rows@)
    }
}

impl OrderTable {
    /// The table keeps its key: no two rows share an identifier.
    pub open spec fn wf(&self) -> bool {
        distinct_ids(self@)
    }

    /// A table without rows.
    pub fn new() -> (table: OrderTable)
        ensures
            table.wf(),
            table@ == Seq::<OrderView>::empty(),
    {
        let table = OrderTable { rows: Vec::new() };
        assert(table@ =~= Seq::<OrderView>::empty());
        table
    }

    /// The number of rows.
    pub fn len(&self) -> (n: usize)
        ensures
            n == self@.len(),
    {
        self.rows.len()
    }

    /// The place of the row with the identifier `id`, if any.
    fn find(&self, id: u32) -> (place: Option<usize>)
        requires
            self.wf(),
        ensures
            match place {
                Some(k) => k < self@.len() && self@[k as int].id == id && has_id(self@, id as nat)
                    && position(self@, id as nat) == k,
                None => !has_id(self@, id as nat),
            },
    {
        let mut k: usize = 0;
        while k < self.rows.len()
            invariant
                0 <= k <= self.rows@.len(),
                self.wf(),
                self@ == contents(self.rows@),
                forall|j: int| 0 <= j < k ==> (#[trigger] self@[j]).id != id,
            decreases self.rows@.len() - k,
        {
            if self.rows[k].id == id {
                proof {
                    row_at(self@, k as int);
                }
                return Some(k);
            }
            k += 1;
        }
        None
    }

    /// Reads every row, in the order of insertion.
    pub fn select_all(&self) -> (rows: Result<Vec<Order>, StorageFault>)
        ensures
            rows is Ok,
            contents(rows->Ok_0@) == self@,
    {
        let mut copy: Vec<Order> = Vec::new();
        let mut k: usize = 0;
        while k < self.rows.len()
            invariant
                0 <= k <= self.rows@.len(),
                copy@.len() == k,
                forall|j: int| 0 <= j < k ==> (#[trigger] copy@[j])@ == self.rows@[j]@,
            decreases self.rows@.len() - k,
        {
            copy.push(self.rows[k].duplicate());
            k += 1;
        }
        assert(contents(copy@) =~= self@);
        Ok(copy)
    }

    /// Reads the row with the identifier `id`.
    pub fn select_by_id(&self, id: u32) -> (found: Result<Option<Order>, StorageFault>)
        requires
            self.wf(),
        ensures
            found is Ok,
            match found->Ok_0 {
                Some(o) => Some(o@),
                None => None,
            } == row(self@, id as nat),
    {
        match self.find(id) {
            Some(k) => Ok(Some(self.rows[k].duplicate())),
            None => Ok(None),
        }
    }

    /// Inserts `order` as a new row. The key forbids a second row with an
    /// identifier that is taken: that is a fault, and the table stays as it
    /// was. Otherwise one row is affected.
    pub fn insert(&mut self, order: &Order) -> (affected: Result<u64, StorageFault>)
        requires
            old(self).wf(),
        ensures
            final(self).wf(),
            has_id(old(self)@, order@.id) ==> affected is Err && final(self)@ == old(self)@,
            !has_id(old(self)@, order@.id) ==> affected == Ok::<u64, StorageFault>(1)
                && final(self)@ == old(self)@.push(order@),
    {
        match self.find(order.id) {
            Some(_) => Err(StorageFault {  }),
            None => {
                self.rows.push(order.duplicate());
                assert(self@ =~= old(self)@.push(order@));
                proof {
                    pushed_distinct(old(self)@, order@);
                }
                Ok(1)
            },
        }
    }

    /// Replaces item, status and quantity of the row with the identifier
    /// `id` by those of `order`, and says how many rows that affected.
    pub fn update_where_id(&mut self, id: u32, order: &Order) -> (affected: Result<
        u64,
        StorageFault,
    >)
        requires
            old(self).wf(),
        ensures
            final(self).wf(),
            affected is Ok,
            final(self)@ == replaced(old(self)@, id as nat, with_id(order@, id as nat)),
            affected->Ok_0 == (if has_id(old(self)@, id as nat) {
                1u64
            } else {
                0u64
            }),
    {
        match self.find(id) {
            Some(k) => {
                let mut copy = order.duplicate();
                copy.id = id;
                self.rows.set(k, copy);
                assert(self@ =~= old(self)@.update(k as int, with_id(order@, id as nat)));
                proof {
                    replaced_distinct(old(self)@, id as nat, with_id(order@, id as nat));
                }
                Ok(1)
            },
            None => Ok(0),
        }
    }

    /// Replaces the status of the row with the identifier `id`, and says how
    /// many rows that affected.
    pub fn set_status_where_id(&mut self, id: u32, status: &str) -> (affected: Result<
        u64,
        StorageFault,
    >)
        requires
            old(self).wf(),
        ensures
            final(self).wf(),
            affected is Ok,
            final(self)@ == restated(old(self)@, id as nat, status@),
            affected->Ok_0 == (if has_id(old(self)@, id as nat) {
                1u64
            } else {
                0u64
            }),
    {
        match self.find(id) {
            Some(k) => {
                let mut copy = self.rows[k].duplicate();
                copy.status = status.to_owned();
                let ghost next = with_status(old(self)@[k as int], status@);
                self.rows.set(k, copy);
                assert(self@ =~= old(self)@.update(k as int, next));
                proof {
                    replaced_distinct(old(self)@, id as nat, next);
                }
                Ok(1)
            },
            None => Ok(0),
        }
    }

    /// Removes the row with the identifier `id`, and says how many rows that
    /// affected.
    pub fn delete_where_id(&mut self, id: u32) -> (affected: Result<u64, StorageFault>)
        requires
            old(self).wf(),
        ensures
            final(self).wf(),
            affected is Ok,
            final(self)@ == removed(old(self)@, id as nat),
            affected->Ok_0 == (if has_id(old(self)@, id as nat) {
                1u64
            } else {
                0u64
            }),
    {
        match self.find(id) {
            Some(k) => {
                self.rows.remove(k);
                assert(self@ =~= old(self)@.remove(k as int));
                proof {
                    removed_distinct(old(self)@, id as nat);
                }
                Ok(1)
            },
            None => Ok(0),
        }
    }
}

/// The rows after the row with the identifier `id`, if any, has become `next`.
pub open spec fn replaced(rows: Seq<OrderView>, id: nat, next: OrderView) -> Seq<OrderView> {
    if has_id(rows, id) {
        rows.update(position(rows, id), next)
    } else {
        rows
    }
}

/// The rows after the row with the identifier `id`, if any, has taken the
/// status `status`.
pub open spec fn restated(rows: Seq<OrderView>, id: nat, status: Seq<char>) -> Seq<OrderView> {
    if has_id(rows, id) {
        rows.update(position(rows, id), with_status(rows[position(rows, id)], status))
    } else {
        rows
    }
}

/// The rows without the row with the identifier `id`, if there was one.
pub open spec fn removed(rows: Seq<OrderView>, id: nat) -> Seq<OrderView> {
    if has_id(rows, id) {
        rows.remove(position(rows, id))
    } else {
        rows
    }
}

/// A row under a free identifier keeps the identifiers distinct.
pub proof fn pushed_distinct(rows: Seq<OrderView>, o: OrderView)
    requires
        distinct_ids(rows),
        !has_id(rows, o.id),
    ensures
        distinct_ids(rows.push(o)),
{
    let after = rows.push(o);
    assert forall|i: int, j: int| 0 <= i < j < after.len() implies (#[trigger] after[i]).id != (
    #[trigger] after[j]).id by {
        if j == rows.len() {
            assert(rows[i].id != o.id);
        } else {
            assert(rows[i].id != rows[j].id);
        }
    }
}

/// A row that changes but keeps its identifier keeps the identifiers
/// distinct.
pub proof fn replaced_distinct(rows: Seq<OrderView>, id: nat, next: OrderView)
    requires
        distinct_ids(rows),
        next.id == id,
    ensures
        distinct_ids(replaced(rows, id, next)),
{
    if has_id(rows, id) {
        let p = position(rows, id);
        let after = rows.update(p, next);
        assert forall|i: int, j: int| 0 <= i < j < after.len() implies (#[trigger] after[i]).id
            != (#[trigger] after[j]).id by {
            assert(rows[i].id != rows[j].id);
        }
    }
}

/// Removing a row keeps the identifiers distinct.
pub proof fn removed_distinct(rows: Seq<OrderView>, id: nat)
    requires
        distinct_ids(rows),
    ensures
        distinct_ids(removed(rows, id)),
{
    if has_id(rows, id) {
        let p = position(rows, id);
        let after = rows.remove(p);
        assert forall|i: int, j: int| 0 <= i < j < after.len() implies (#[trigger] after[i]).id
            != (#[trigger] after[j]).id by {
            let a = if i < p { i } else { i + 1 };
            let b = if j < p { j } else { j + 1 };
            assert(after[i] == rows[a]);
            assert(after[j] == rows[b]);
            assert(rows[a].id != rows[b].id);
        }
    }
}

} // verus!
