//! A table of records keyed by a store-assigned id. Rows are kept in the
//! order of insertion; ids are handed out in increasing order and never
//! change afterwards.
//!
//! The table is a model of a relational table held in memory. Three choices
//! are its own: a new row gets the id after that of the last row, so the id
//! of a deleted last row is handed out again; rows that an ordered listing
//! ranks alike are listed by id; and texts are ranked byte by byte.

use crate::errors::StorageError;
use vstd::prelude::*;

verus! {

/// A row of a table.
pub trait Record: Sized {
    /// The id of the row.
    spec fn key(&self) -> int;

    /// The id of the row.
    fn id(&self) -> (id: i32)
        ensures
            id == self.key(),
    ;

    /// A copy of the row.
    fn duplicate(&self) -> (r: Self)
        ensures
            r == *self,
    ;
}

/// Whether the ids of `rows` are positive and strictly increasing.
pub open spec fn ascending<T: Record>(rows: Seq<T>) -> bool {
    &&& forall|i: int| 0 <= i < rows.len() ==> 1 <= #[trigger] rows[i].key() <= i32::MAX
    &&& forall|i: int, j: int|
        0 <= i < j < rows.len() ==> #[trigger] rows[i].key() < #[trigger] rows[j].key()
}

/// Whether `rows` holds a row with id `id`.
pub open spec fn has_key<T: Record>(rows: Seq<T>, id: int) -> bool {
    exists|i: int| 0 <= i < rows.len() && #[trigger] rows[i].key() == id
}

/// The position of the row with id `id`, where there is one.
pub open spec fn index_of<T: Record>(rows: Seq<T>, id: int) -> int {
    choose|i: int| 0 <= i < rows.len() && #[trigger] rows[i].key() == id
}

/// The row with id `id`, where there is one.
pub open spec fn row_of<T: Record>(rows: Seq<T>, id: int) -> T {
    rows[index_of(rows, id)]
}

/// `rows` without the row with id `id`.
pub open spec fn without<T: Record>(rows: Seq<T>, id: int) -> Seq<T> {
    if has_key(rows, id) {
        rows.remove(index_of(rows, id))
    } else {
        rows
    }
}

/// `rows` with `row` in place of the row that has its id, if there is one.
pub open spec fn replaced<T: Record>(rows: Seq<T>, row: T) -> Seq<T> {
    if has_key(rows, row.key()) {
        rows.update(index_of(rows, row.key()), row)
    } else {
        rows
    }
}

/// The id that the next inserted row gets: one more than the last.
pub open spec fn next_key<T: Record>(rows: Seq<T>) -> int {
    if rows.len() == 0 {
        1
    } else {
        rows.last().key() + 1
    }
}

/// The ids of `rows`, in order.
pub open spec fn keys<T: Record>(rows: Seq<T>) -> Seq<int> {
    rows.map_values(|r: T| r.key())
}

/// In a table with increasing ids, the row at position `i` is the row found
/// under its id.
pub proof fn lemma_index_of<T: Record>(rows: Seq<T>, i: int)
    requires
        ascending(rows),
        0 <= i < rows.len(),
    ensures
        has_key(rows, rows[i].key()),
        index_of(rows, rows[i].key()) == i,
{
    let j = index_of(rows, rows[i].key());
    assert(0 <= j < rows.len() && rows[j].key() == rows[i].key());
    if j < i {
        assert(rows[j].key() < rows[i].key());
    }
    if i < j {
        assert(rows[i].key() < rows[j].key());
    }
}

/// After a row was replaced, the row found under its id is the new one.
pub proof fn lemma_replaced<T: Record>(rows: Seq<T>, row: T)
    requires
        ascending(rows),
        has_key(rows, row.key()),
    ensures
        ascending(replaced(rows, row)),
        has_key(replaced(rows, row), row.key()),
        row_of(replaced(rows, row), row.key()) == row,
        replaced(rows, row).len() == rows.len(),
{
    let i = index_of(rows, row.key());
    let after = replaced(rows, row);
    assert(after[i] == row);
    assert forall|a: int, b: int| 0 <= a < b < after.len() implies #[trigger] after[a].key()
        < #[trigger] after[b].key() by {
        assert(after[a].key() == rows[a].key());
        assert(after[b].key() == rows[b].key());
    }
    assert forall|a: int| 0 <= a < after.len() implies 1 <= #[trigger] after[a].key()
        <= i32::MAX by {
        assert(after[a].key() == rows[a].key());
    }
    lemma_index_of(after, i);
}

/// Copies a list of rows.
pub fn duplicates<T: Record>(rows: &Vec<T>) -> (r: Vec<T>)
    ensures
        r@ == rows@,
{
    let mut out: Vec<T> = Vec::new();
    let mut i: usize = 0;
    while i < rows.len()
        invariant
            i <= rows.len(),
            out@ == rows@.take(i as int),
        decreases rows.len() - i,
    {
        out.push(rows[i].duplicate());
        assert(rows@.take(i as int).push(rows@[i as int]) =~= rows@.take(i + 1));
        i += 1;
    }
    assert(rows@.take(i as int) =~= rows@);
    out
}

/// A table of rows in insertion order.
pub struct Table<T: Record> {
    rows: Vec<T>,
}

impl<T: Record> Table<T> {
    /// The rows of the table, in insertion order.
    pub closed spec fn rows(&self) -> Seq<T> {
        self.rows@
    }

    /// The invariant of a table: ids are positive and increase with the order
    /// of insertion, so that no id occurs twice.
    pub open spec fn wf(&self) -> bool {
        ascending(self.rows())
    }

    /// An empty table.
    pub fn new() -> (t: Self)
        ensures
            t.rows() == Seq::<T>::empty(),
            t.wf(),
    {
        Table { rows: Vec::new() }
    }

    /// The number of rows.
    pub fn len(&self) -> (n: usize)
        ensures
            n == self.rows().len(),
    {
        self.rows.len()
    }

    /// The position of the row with id `id`.
    fn position(&self, id: i32) -> (r: Option<usize>)
        requires
            self.wf(),
        ensures
            r is Some <==> has_key(self.rows(), id as int),
            r matches Some(i) ==> i == index_of(self.rows(), id as int) && i < self.rows().len(),
    {
        let mut i: usize = 0;
        while i < self.rows.len()
            invariant
                i <= self.rows.len(),
                self.wf(),
                forall|j: int| 0 <= j < i ==> (#[trigger] self.rows@[j]).key() != id,
            decreases self.rows.len() - i,
        {
            if self.rows[i].id() == id {
                proof {
                    lemma_index_of(self.rows@, i as int);
                }
                return Some(i);
            }
            i += 1;
        }
        None
    }

    /// The row at position `i`.
    pub fn get(&self, i: usize) -> (row: &T)
        requires
            i < self.rows().len(),
        ensures
            *row == self.rows()[i as int],
    {
        &self.rows[i]
    }

    /// The id that the next inserted row gets; `None` where the ids are used
    /// up.
    pub fn next_id(&self) -> (r: Option<i32>)
        requires
            self.wf(),
        ensures
            r is Some <==> next_key(self.rows()) <= i32::MAX,
            r matches Some(id) ==> id == next_key(self.rows()),
    {
        let n = self.rows.len();
        if n == 0 {
            Some(1)
        } else {
            let last = self.rows[n - 1].id();
            if last < i32::MAX {
                Some(last + 1)
            } else {
                None
            }
        }
    }

    /// Appends a row that carries the next id.
    pub fn insert(&mut self, row: T)
        requires
            old(self).wf(),
            row.key() == next_key(old(self).rows()),
            row.key() <= i32::MAX,
        ensures
            final(self).rows() == old(self).rows().push(row),
            final(self).wf(),
    {
        self.rows.push(row);
    }

    /// A copy of the row with id `id`.
    pub fn find(&self, id: i32) -> (r: Option<T>)
        requires
            self.wf(),
        ensures
            r is Some <==> has_key(self.rows(), id as int),
            r matches Some(row) ==> row == row_of(self.rows(), id as int),
    {
        match self.position(id) {
            Some(i) => Some(self.rows[i].duplicate()),
            None => None,
        }
    }

    /// A copy of the row with id `id`, as a query for exactly one row answers.
    pub fn fetch(&self, id: i32) -> (r: Result<T, StorageError>)
        requires
            self.wf(),
        ensures
            r is Ok <==> has_key(self.rows(), id as int),
            r matches Ok(row) ==> row == row_of(self.rows(), id as int),
            r matches Err(e) ==> e == StorageError::NotFound,
    {
        match self.find(id) {
            Some(row) => Ok(row),
            None => Err(StorageError::NotFound),
        }
    }

    /// The ids of all rows, in insertion order.
    pub fn ids(&self) -> (r: Vec<i32>)
        ensures
            r@.map_values(|id: i32| id as int) == keys(self.rows()),
    {
        let mut out: Vec<i32> = Vec::new();
        let mut i: usize = 0;
        while i < self.rows.len()
            invariant
                i <= self.rows.len(),
                out@.len() == i,
                forall|j: int| 0 <= j < i ==> out@[j] == (#[trigger] self.rows@[j]).key(),
            decreases self.rows.len() - i,
        {
            out.push(self.rows[i].id());
            i += 1;
        }
        assert(out@.map_values(|id: i32| id as int) =~= keys(self.rows()));
        out
    }

    /// Copies of all rows, in insertion order.
    pub fn all(&self) -> (r: Vec<T>)
        ensures
            r@ == self.rows(),
    {
        duplicates(&self.rows)
    }

    /// Puts `row` in place of the row that has its id. Returns the number of
    /// rows changed: 1, or 0 where no row has that id.
    pub fn replace(&mut self, row: T) -> (changed: usize)
        requires
            old(self).wf(),
        ensures
            final(self).rows() == replaced(old(self).rows(), row),
            changed == (if has_key(old(self).rows(), row.key()) {
                1int
            } else {
                0int
            }),
            final(self).wf(),
    {
        match self.position(row.id()) {
            Some(i) => {
                self.rows.set(i, row);
                1
            },
            None => 0,
        }
    }

    /// Removes the row with id `id`. Returns the number of rows removed: 1, or
    /// 0 where no row has that id.
    pub fn delete(&mut self, id: i32) -> (removed: usize)
        requires
            old(self).wf(),
        ensures
            final(self).rows() == without(old(self).rows(), id as int),
            removed == (if has_key(old(self).rows(), id as int) {
                1int
            } else {
                0int
            }),
            final(self).wf(),
    {
        match self.position(id) {
            Some(i) => {
                self.rows.remove(i);
                1
            },
            None => 0,
        }
    }

    /// Removes every row. Returns the number of rows removed.
    pub fn clear(&mut self) -> (removed: usize)
        ensures
            final(self).rows() == Seq::<T>::empty(),
            removed == old(self).rows().len(),
            final(self).wf(),
    {
        let n = self.rows.len();
        self.rows.clear();
        n
    }
}

/// A row that listings are ordered by.
pub trait Ranked: Record {
    /// Whether `self` stands before `other` in an ordered listing.
    spec fn precedes(&self, other: &Self) -> bool;

    /// Whether `self` stands before `other` in an ordered listing.
    fn comes_before(&self, other: &Self) -> (b: bool)
        ensures
            b == self.precedes(other),
    ;

    /// `precedes` is a strict order, and total on rows with different ids.
    proof fn lemma_order(a: &Self, b: &Self, c: &Self)
        ensures
            !a.precedes(a),
            a.precedes(b) && b.precedes(c) ==> a.precedes(c),
            a.precedes(b) || b.precedes(a) || a.key() == b.key(),
    ;
}

/// Whether every row of `rows` stands before all rows after it.
pub open spec fn in_order<T: Ranked>(rows: Seq<T>) -> bool {
    forall|i: int, j: int|
        #![trigger rows[i], rows[j]]
        0 <= i < j < rows.len() ==> rows[i].precedes(&rows[j])
}

/// Whether `listing` holds exactly the rows of `rows`, in order.
pub open spec fn is_listing<T: Ranked>(listing: Seq<T>, rows: Seq<T>) -> bool {
    &&& in_order(listing)
    &&& listing.to_multiset() == rows.to_multiset()
}

/// Inserts `row` into an ordered listing, at the place that keeps it ordered.
pub fn insert_in_order<T: Ranked>(listing: &mut Vec<T>, row: T)
    requires
        in_order(old(listing)@),
        forall|i: int| 0 <= i < old(listing)@.len() ==> (#[trigger] old(listing)@[i]).key()
            != row.key(),
    ensures
        in_order(final(listing)@),
        final(listing)@.to_multiset() == old(listing)@.to_multiset().insert(row),
        exists|at: int|
            0 <= at <= old(listing)@.len() && final(listing)@ == old(listing)@.insert(at, row),
{
    let mut at: usize = 0;
    while at < listing.len() && !row.comes_before(&listing[at])
        invariant
            at <= listing.len(),
            listing@ == old(listing)@,
            forall|i: int| 0 <= i < at ==> !row.precedes(&#[trigger] listing@[i]),
        decreases listing.len() - at,
    {
        at += 1;
    }
    let ghost before = listing@;
    listing.insert(at, row);
    proof {
        vstd::seq_lib::to_multiset_insert(before, at as int, row);
        let after = listing@;
        assert forall|i: int, j: int|
            #![trigger after[i], after[j]]
            0 <= i < j < after.len() implies after[i].precedes(&after[j]) by {
            if j < at {
                assert(after[i] == before[i] && after[j] == before[j]);
            } else if j == at {
                assert(after[i] == before[i]);
                T::lemma_order(&row, &before[i], &row);
            } else if i < at {
                assert(after[i] == before[i] && after[j] == before[j - 1]);
            } else if i == at {
                assert(after[j] == before[j - 1]);
                if j - 1 > at {
                    assert(before[at as int].precedes(&before[j - 1]));
                    T::lemma_order(&row, &before[at as int], &before[j - 1]);
                }
            } else {
                assert(after[i] == before[i - 1] && after[j] == before[j - 1]);
            }
        }
    }
}

impl<T: Ranked> Table<T> {
    /// Copies of all rows, ordered.
    pub fn listing(&self) -> (r: Vec<T>)
        requires
            self.wf(),
        ensures
            is_listing(r@, self.rows()),
    {
        let mut out: Vec<T> = Vec::new();
        let mut i: usize = 0;
        assert(self.rows@.take(0) =~= out@);
        while i < self.rows.len()
            invariant
                i <= self.rows.len(),
                self.wf(),
                in_order(out@),
                out@.to_multiset() == self.rows@.take(i as int).to_multiset(),
                forall|k: int|
                    0 <= k < out@.len() ==> exists|m: int|
                        0 <= m < i && (#[trigger] out@[k]).key() == self.rows@[m].key(),
            decreases self.rows.len() - i,
        {
            let row = self.rows[i].duplicate();
            let ghost before = out@;
            insert_in_order(&mut out, row);
            proof {
                assert(self.rows@.take(i as int).push(row) =~= self.rows@.take(i + 1));
                vstd::seq_lib::to_multiset_build(self.rows@.take(i as int), row);
                let at = choose|at: int| 0 <= at <= before.len() && out@ == before.insert(at, row);
                assert forall|k: int| 0 <= k < out@.len() implies exists|m: int|
                    0 <= m < i + 1 && (#[trigger] out@[k]).key() == self.rows@[m].key() by {
                    if k < at {
                        assert(out@[k] == before[k]);
                    } else if k == at {
                        assert(out@[k].key() == self.rows@[i as int].key());
                    } else {
                        assert(out@[k] == before[k - 1]);
                    }
                }
            }
            i += 1;
        }
        assert(self.rows@.take(i as int) =~= self.rows@);
        out
    }
}

} // verus!
