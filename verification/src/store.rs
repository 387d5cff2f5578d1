//! The persisted state of the tracker: three tables, linked by id columns
//! that the store itself does not enforce.

use crate::errors::StorageError;
use crate::models::asset::{Asset, InAsset};
use crate::models::comment::{Comment, InComment};
use crate::models::ticket::{InTicket, Ticket};
use crate::table::{has_key, is_listing, next_key, replaced, row_of, Record, Table};
use vstd::prelude::*;

verus! {

/// The three tables.
pub struct Store {
    pub assets: Table<Asset>,
    pub tickets: Table<Ticket>,
    pub comments: Table<Comment>,
}

/// Whether a ticket is open.
pub open spec fn is_open() -> spec_fn(Ticket) -> bool {
    |t: Ticket| !t.is_closed
}

/// Whether a comment belongs to the ticket `ticket_id`.
pub open spec fn belongs_to(ticket_id: i32) -> spec_fn(Comment) -> bool {
    |c: Comment| c.ticket_id == ticket_id
}

/// Whether `comments` are the comments of one ticket out of `rows`, latest
/// first.
pub open spec fn is_thread(comments: Seq<Comment>, rows: Seq<Comment>, ticket_id: i32) -> bool {
    exists|all: Seq<Comment>|
        is_listing(all, rows) && comments == #[trigger] all.filter(belongs_to(ticket_id))
}

/// Whether the asset of a ticket is among `assets`.
pub open spec fn has_asset(assets: Seq<Asset>) -> spec_fn(Ticket) -> bool {
    |t: Ticket| has_key(assets, t.asset_id as int)
}

/// The tickets of `tickets` whose asset is among `assets`, each paired with
/// that asset, in the same order. A ticket whose asset is gone is left out.
pub open spec fn joined(tickets: Seq<Ticket>, assets: Seq<Asset>) -> Seq<(Ticket, Asset)> {
    tickets.filter(has_asset(assets)).map_values(
        |t: Ticket| (t, row_of(assets, t.asset_id as int)),
    )
}

/// The outcome of an insert into `rows`: the new row carries the next id, and
/// the insert fails only where the ids are used up.
pub open spec fn inserted<T: Record>(
    before: Seq<T>,
    after: Seq<T>,
    answer: Result<T, StorageError>,
    row: spec_fn(i32) -> T,
) -> bool {
    match answer {
        Ok(r) => {
            &&& next_key(before) <= i32::MAX
            &&& r == row(next_key(before) as i32)
            &&& after == before.push(r)
        },
        Err(e) => {
            &&& next_key(before) > i32::MAX
            &&& e == StorageError::Failed
            &&& after == before
        },
    }
}

impl Store {
    /// The invariant of the store: each table is well formed.
    pub open spec fn wf(&self) -> bool {
        &&& self.assets.wf()
        &&& self.tickets.wf()
        &&& self.comments.wf()
    }

    /// An empty store.
    pub fn new() -> (s: Store)
        ensures
            s.wf(),
            s.assets.rows() == Seq::<Asset>::empty(),
            s.tickets.rows() == Seq::<Ticket>::empty(),
            s.comments.rows() == Seq::<Comment>::empty(),
    {
        Store { assets: Table::new(), tickets: Table::new(), comments: Table::new() }
    }

    /// Inserts an asset and returns it with its id.
    pub fn insert_asset(&mut self, input: InAsset) -> (r: Result<Asset, StorageError>)
        requires
            old(self).wf(),
        ensures
            final(self).wf(),
            inserted(
                old(self).assets.rows(),
                final(self).assets.rows(),
                r,
                |id: i32| input.stored(id),
            ),
            final(self).tickets == old(self).tickets,
            final(self).comments == old(self).comments,
    {
        match self.assets.next_id() {
            Some(id) => {
                let row = input.with_id(id);
                self.assets.insert(row.clone());
                Ok(row)
            },
            None => Err(StorageError::Failed),
        }
    }

    /// Inserts a ticket and returns it with its id. Whether its asset exists
    /// is not the store's concern.
    pub fn insert_ticket(&mut self, input: InTicket) -> (r: Result<Ticket, StorageError>)
        requires
            old(self).wf(),
        ensures
            final(self).wf(),
            inserted(
                old(self).tickets.rows(),
                final(self).tickets.rows(),
                r,
                |id: i32| input.stored(id),
            ),
            final(self).assets == old(self).assets,
            final(self).comments == old(self).comments,
    {
        match self.tickets.next_id() {
            Some(id) => {
                let row = input.with_id(id);
                self.tickets.insert(row.clone());
                Ok(row)
            },
            None => Err(StorageError::Failed),
        }
    }

    /// Inserts a comment and returns it with its id. Whether its ticket exists
    /// is not the store's concern.
    pub fn insert_comment(&mut self, input: InComment) -> (r: Result<Comment, StorageError>)
        requires
            old(self).wf(),
        ensures
            final(self).wf(),
            inserted(
                old(self).comments.rows(),
                final(self).comments.rows(),
                r,
                |id: i32| input.stored(id),
            ),
            final(self).assets == old(self).assets,
            final(self).tickets == old(self).tickets,
    {
        match self.comments.next_id() {
            Some(id) => {
                let row = input.with_id(id);
                self.comments.insert(row.clone());
                Ok(row)
            },
            None => Err(StorageError::Failed),
        }
    }

    /// Replaces every field but the id of the asset `id` by those of `body`;
    /// the id that `body` carries is ignored. Returns the number of rows
    /// changed.
    pub fn update_asset(&mut self, id: i32, body: Asset) -> (changed: usize)
        requires
            old(self).wf(),
        ensures
            final(self).wf(),
            final(self).assets.rows() == replaced(
                old(self).assets.rows(),
                body.submitted().stored(id),
            ),
            changed == (if has_key(old(self).assets.rows(), id as int) {
                1int
            } else {
                0int
            }),
            final(self).tickets == old(self).tickets,
            final(self).comments == old(self).comments,
    {
        self.assets.replace(body.input().with_id(id))
    }

    /// Replaces every field but the id of the comment `id` by those of `body`;
    /// the id that `body` carries is ignored. Returns the number of rows
    /// changed.
    pub fn update_comment(&mut self, id: i32, body: Comment) -> (changed: usize)
        requires
            old(self).wf(),
        ensures
            final(self).wf(),
            final(self).comments.rows() == replaced(
                old(self).comments.rows(),
                body.submitted().stored(id),
            ),
            changed == (if has_key(old(self).comments.rows(), id as int) {
                1int
            } else {
                0int
            }),
            final(self).assets == old(self).assets,
            final(self).tickets == old(self).tickets,
    {
        self.comments.replace(body.input().with_id(id))
    }

    /// Replaces every field but the id of the ticket `id` by those of `body`
    /// and returns the row as stored; the id that `body` carries is ignored.
    pub fn update_ticket(&mut self, id: i32, body: Ticket) -> (r: Result<Ticket, StorageError>)
        requires
            old(self).wf(),
        ensures
            final(self).wf(),
            final(self).tickets.rows() == replaced(
                old(self).tickets.rows(),
                body.submitted().stored(id),
            ),
            r is Ok <==> has_key(old(self).tickets.rows(), id as int),
            r matches Ok(t) ==> t == body.submitted().stored(id),
            r matches Err(e) ==> e == StorageError::NotFound,
            final(self).assets == old(self).assets,
            final(self).comments == old(self).comments,
    {
        let row = body.input().with_id(id);
        let copy = row.clone();
        if self.tickets.replace(row) == 1 {
            Ok(copy)
        } else {
            Err(StorageError::NotFound)
        }
    }

    /// The tickets that are not closed, in insertion order.
    pub fn open_tickets(&self) -> (r: Vec<Ticket>)
        ensures
            r@ == self.tickets.rows().filter(is_open()),
    {
        let mut out: Vec<Ticket> = Vec::new();
        let mut i: usize = 0;
        proof {
            reveal(Seq::filter);
            assert(self.tickets.rows().take(0) =~= Seq::<Ticket>::empty());
        }
        while i < self.tickets.len()
            invariant
                i <= self.tickets.rows().len(),
                out@ == self.tickets.rows().take(i as int).filter(is_open()),
            decreases self.tickets.rows().len() - i,
        {
            let t = self.tickets.get(i);
            proof {
                reveal(Seq::filter);
                assert(self.tickets.rows().take(i + 1).drop_last() =~= self.tickets.rows().take(
                    i as int,
                ));
            }
            if !t.is_closed {
                out.push(t.clone());
            }
            i += 1;
        }
        assert(self.tickets.rows().take(i as int) =~= self.tickets.rows());
        out
    }

    /// Pairs each of `tickets` with its asset, leaving out those whose asset
    /// does not exist.
    pub fn join_assets(&self, tickets: &Vec<Ticket>) -> (r: Vec<(Ticket, Asset)>)
        requires
            self.wf(),
        ensures
            r@ == joined(tickets@, self.assets.rows()),
    {
        let mut out: Vec<(Ticket, Asset)> = Vec::new();
        let mut i: usize = 0;
        let ghost assets = self.assets.rows();
        proof {
            reveal(Seq::filter);
            assert(tickets@.take(0) =~= Seq::<Ticket>::empty());
            assert(out@ =~= joined(tickets@.take(0), assets));
        }
        while i < tickets.len()
            invariant
                i <= tickets@.len(),
                self.wf(),
                assets == self.assets.rows(),
                out@ == joined(tickets@.take(i as int), assets),
            decreases tickets@.len() - i,
        {
            let ghost before = tickets@.take(i as int).filter(has_asset(assets));
            proof {
                reveal(Seq::filter);
                assert(tickets@.take(i + 1).drop_last() =~= tickets@.take(i as int));
            }
            match self.assets.find(tickets[i].asset_id) {
                Some(asset) => {
                    out.push((tickets[i].clone(), asset));
                    proof {
                        let kept = before.push(tickets@[i as int]);
                        assert(tickets@.take(i + 1).filter(has_asset(assets)) == kept);
                        assert(out@ =~= joined(tickets@.take(i + 1), assets));
                    }
                },
                None => {},
            }
            i += 1;
        }
        assert(tickets@.take(i as int) =~= tickets@);
        out
    }

    /// The comments of one ticket, latest first.
    pub fn comments_of(&self, ticket_id: i32) -> (r: Vec<Comment>)
        requires
            self.wf(),
        ensures
            is_thread(r@, self.comments.rows(), ticket_id),
    {
        let all = self.comments.listing();
        select_comments(&all, ticket_id)
    }
}

/// The comments of `comments` that belong to one ticket, in the same order.
pub fn select_comments(comments: &Vec<Comment>, ticket_id: i32) -> (r: Vec<Comment>)
    ensures
        r@ == comments@.filter(belongs_to(ticket_id)),
{
    let mut out: Vec<Comment> = Vec::new();
    let mut i: usize = 0;
    proof {
        reveal(Seq::filter);
        assert(comments@.take(0) =~= Seq::<Comment>::empty());
    }
    while i < comments.len()
        invariant
            i <= comments@.len(),
            out@ == comments@.take(i as int).filter(belongs_to(ticket_id)),
        decreases comments@.len() - i,
    {
        proof {
            reveal(Seq::filter);
            assert(comments@.take(i + 1).drop_last() =~= comments@.take(i as int));
        }
        if comments[i].ticket_id == ticket_id {
            out.push(comments[i].clone());
        }
        i += 1;
    }
    assert(comments@.take(i as int) =~= comments@);
    out
}

} // verus!
