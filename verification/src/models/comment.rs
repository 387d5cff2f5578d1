//! Comments: replies attached to one ticket.

use crate::models::Timestamp;
use crate::config::{guard, guard_spec, header_view, AppState, Config, Tier};
use crate::errors::{
    answered, executed, or_missing, or_missing_spec, removed, ErrResponse, Failure, StorageError,
};
use crate::models::ticket::Ticket;
use crate::notify::{Notice, Payload};
use crate::table::{has_key, keys, next_key, replaced, row_of, without, Ranked, Record};
use crate::text::{trim, trim_spec};
use vstd::prelude::*;
use vstd::std_specs::cmp::PartialEqSpecImpl;

verus! {

/// A stored comment.
#[derive(Debug)]
pub struct Comment {
    pub id: i32,
    pub ticket_id: i32,
    pub time: Timestamp,
    pub creator: String,
    pub content: String,
}

/// A comment as submitted for creation: no id yet.
#[derive(Debug)]
pub struct InComment {
    pub ticket_id: i32,
    pub time: Timestamp,
    pub creator: String,
    pub content: String,
}

/// The contents of a comment as plain values.
pub struct CommentView {
    pub id: int,
    pub ticket_id: int,
    pub time: Timestamp,
    pub creator: Seq<char>,
    pub content: Seq<char>,
}

/// The contents of a submitted comment as plain values.
pub struct InCommentView {
    pub ticket_id: int,
    pub time: Timestamp,
    pub creator: Seq<char>,
    pub content: Seq<char>,
}

impl View for Comment {
    type V = CommentView;

    open spec fn view(&self) -> CommentView {
        CommentView {
            id: self.id as int,
            ticket_id: self.ticket_id as int,
            time: self.time,
            creator: self.creator@,
            content: self.content@,
        }
    }
}

impl View for InComment {
    type V = InCommentView;

    open spec fn view(&self) -> InCommentView {
        InCommentView {
            ticket_id: self.ticket_id as int,
            time: self.time,
            creator: self.creator@,
            content: self.content@,
        }
    }
}

impl CommentView {
    /// The fields that creation takes from the caller.
    pub open spec fn input(self) -> InCommentView {
        InCommentView {
            ticket_id: self.ticket_id,
            time: self.time,
            creator: self.creator,
            content: self.content,
        }
    }
}

impl InCommentView {
    /// The submitted comment with its free-text fields trimmed.
    pub open spec fn trimmed(self) -> InCommentView {
        InCommentView {
            ticket_id: self.ticket_id,
            time: self.time,
            creator: trim_spec(self.creator),
            content: trim_spec(self.content),
        }
    }

    /// The stored comment that holds these fields under `id`.
    pub open spec fn with_id(self, id: int) -> CommentView {
        CommentView {
            id,
            ticket_id: self.ticket_id,
            time: self.time,
            creator: self.creator,
            content: self.content,
        }
    }
}

impl Clone for Comment {
    fn clone(&self) -> (r: Comment)
        ensures
            r == *self,
    {
        Comment {
            id: self.id,
            ticket_id: self.ticket_id,
            time: self.time,
            creator: self.creator.clone(),
            content: self.content.clone(),
        }
    }
}

impl Clone for InComment {
    fn clone(&self) -> (r: InComment)
        ensures
            r == *self,
    {
        InComment {
            ticket_id: self.ticket_id,
            time: self.time,
            creator: self.creator.clone(),
            content: self.content.clone(),
        }
    }
}

impl PartialEq for Comment {
    fn eq(&self, other: &Comment) -> (b: bool) {
        self.id == other.id && self.ticket_id == other.ticket_id && self.time == other.time
            && self.creator == other.creator && self.content == other.content
    }
}

impl PartialEqSpecImpl for Comment {
    open spec fn obeys_eq_spec() -> bool {
        true
    }

    open spec fn eq_spec(&self, other: &Comment) -> bool {
        self@ == other@
    }
}

impl PartialEq for InComment {
    fn eq(&self, other: &InComment) -> (b: bool) {
        self.ticket_id == other.ticket_id && self.time == other.time && self.creator
            == other.creator && self.content == other.content
    }
}

impl PartialEqSpecImpl for InComment {
    open spec fn obeys_eq_spec() -> bool {
        true
    }

    open spec fn eq_spec(&self, other: &InComment) -> bool {
        self@ == other@
    }
}

/// A stored comment equals a submitted one where every submitted field agrees.
impl PartialEq<InComment> for Comment {
    fn eq(&self, other: &InComment) -> (b: bool) {
        self.ticket_id == other.ticket_id && self.content == other.content && self.time
            == other.time && self.creator == other.creator
    }
}

impl PartialEqSpecImpl<InComment> for Comment {
    open spec fn obeys_eq_spec() -> bool {
        true
    }

    open spec fn eq_spec(&self, other: &InComment) -> bool {
        self@.input() == other@
    }
}

impl InComment {
    /// The stored comment that holds these fields under `id`.
    pub open spec fn stored(self, id: i32) -> Comment {
        Comment {
            id,
            ticket_id: self.ticket_id,
            time: self.time,
            creator: self.creator,
            content: self.content,
        }
    }

    /// Trims the free-text fields.
    pub fn trimmed(self) -> (r: InComment)
        ensures
            r@ == self@.trimmed(),
    {
        InComment {
            ticket_id: self.ticket_id,
            time: self.time,
            creator: trim(self.creator.as_str()),
            content: trim(self.content.as_str()),
        }
    }

    /// The stored comment that holds these fields under `id`.
    pub fn with_id(self, id: i32) -> (r: Comment)
        ensures
            r == self.stored(id),
    {
        Comment {
            id,
            ticket_id: self.ticket_id,
            time: self.time,
            creator: self.creator,
            content: self.content,
        }
    }
}

impl Comment {
    /// The fields of this comment that creation takes from the caller.
    pub open spec fn submitted(self) -> InComment {
        InComment {
            ticket_id: self.ticket_id,
            time: self.time,
            creator: self.creator,
            content: self.content,
        }
    }

    /// The fields of this comment that creation takes from the caller.
    pub fn input(self) -> (r: InComment)
        ensures
            r == self.submitted(),
    {
        InComment {
            ticket_id: self.ticket_id,
            time: self.time,
            creator: self.creator,
            content: self.content,
        }
    }
}

impl Record for Comment {
    open spec fn key(&self) -> int {
        self.id as int
    }

    fn id(&self) -> (id: i32) {
        self.id
    }

    fn duplicate(&self) -> (r: Comment) {
        self.clone()
    }
}

/// Comments are listed latest first, and by id where times are equal.
impl Ranked for Comment {
    open spec fn precedes(&self, other: &Comment) -> bool {
        self.time.later_than(other.time) || (self.time == other.time && self.id < other.id)
    }

    fn comes_before(&self, other: &Comment) -> (b: bool) {
        self.time.is_later_than(&other.time) || (self.time == other.time && self.id < other.id)
    }

    proof fn lemma_order(a: &Comment, b: &Comment, c: &Comment) {
    }
}

/// Whether two states differ in nothing but the table of comments.
pub open spec fn only_comments_differ(pre: AppState, post: AppState) -> bool {
    &&& post.config == pre.config
    &&& post.mailer == pre.mailer
    &&& post.photos == pre.photos
    &&& post.store.assets == pre.store.assets
    &&& post.store.tickets == pre.store.tickets
}

/// The error for a comment on a ticket that does not exist.
pub open spec fn no_ticket() -> ErrResponse {
    ErrResponse::S404("cannot create comment related to non existing ticket")
}

/// The error for a comment of which the store returned no row.
pub open spec fn not_created() -> ErrResponse {
    ErrResponse::S404("could not create comment")
}

/// The ticket that a new comment is attached to, from the answer of the store
/// to the lookup of its `ticket_id`.
pub open spec fn parent_spec(found: Result<Ticket, StorageError>) -> Result<Ticket, ErrResponse> {
    or_missing_spec(found, no_ticket())
}

/// Decides whether the comment may be created, from the answer of the store
/// to the lookup of its ticket: no comment is inserted for a ticket that was
/// not found. A ticket that is missing is reported as not found, a lookup
/// that failed as the storage failure it is.
pub fn parent(found: Result<Ticket, StorageError>) -> (r: Result<Ticket, ErrResponse>)
    ensures
        r == parent_spec(found),
{
    or_missing(found, ErrResponse::S404("cannot create comment related to non existing ticket"))
}

/// The answer to the creation of a comment, from the answer of the store to
/// the insert: status 201 with the stored comment, and the notification that
/// is due to the comments mailbox.
pub open spec fn created_spec(
    inserted: Result<Comment, StorageError>,
    input: InComment,
    ticket: Ticket,
    config: &Config,
    r: Result<(u16, Comment, Notice), ErrResponse>,
) -> bool {
    match inserted {
        Ok(comment) => {
            &&& r matches Ok((status, stored, notice))
            &&& status == 201
            &&& stored == comment
            &&& notice.to@ == config.comment_mailbox()
            &&& notice.payload == Payload::NewComment { comment: input, ticket }
        },
        Err(StorageError::NotFound) => r == Err::<(u16, Comment, Notice), ErrResponse>(
            not_created(),
        ),
        Err(e) => r == Err::<(u16, Comment, Notice), ErrResponse>(ErrResponse::of_storage(e)),
    }
}

/// Decides the answer to the creation of a comment once the store has
/// answered the insert.
pub fn created(
    inserted: Result<Comment, StorageError>,
    input: InComment,
    ticket: Ticket,
    config: &Config,
) -> (r: Result<(u16, Comment, Notice), ErrResponse>)
    ensures
        created_spec(inserted, input, ticket, config, r),
{
    match inserted {
        Ok(comment) => {
            let notice = Notice {
                payload: Payload::NewComment { comment: input, ticket },
                to: config.comment_recipient().clone(),
            };
            Ok((201, comment, notice))
        },
        Err(StorageError::NotFound) => Err(ErrResponse::S404("could not create comment")),
        Err(e) => Err(ErrResponse::from(e)),
    }
}

/// The creation of a comment that waits for the lookup of its ticket.
/// Nothing has been asked of the store yet but that lookup.
#[derive(Debug)]
pub struct Creation {
    input: InComment,
}

/// The creation of a comment whose ticket was found and that waits for the
/// insert. There is no such value for a comment whose ticket was not found.
#[derive(Debug)]
pub struct Insertion {
    ticket: Ticket,
    input: InComment,
}

impl Creation {
    /// The comment that is to be inserted: the submitted one, trimmed.
    pub closed spec fn input(&self) -> InComment {
        self.input
    }

    /// Begins the creation of a comment: the free-text fields are trimmed,
    /// and the one query to make is the lookup of the ticket with the id
    /// returned.
    pub fn begin(comment: InComment) -> (r: (Creation, i32))
        ensures
            r.0.input()@ == comment@.trimmed(),
            r.1 == r.0.input().ticket_id,
    {
        let input = comment.trimmed();
        let ticket_id = input.ticket_id;
        (Creation { input }, ticket_id)
    }

    /// Goes on with what the store answered to the lookup of the ticket.
    /// Where the ticket is missing, or the lookup failed, the creation ends
    /// with that error and no insert is asked for. Else the one query to make
    /// is the insert of the comment returned.
    pub fn looked_up(self, found: Result<Ticket, StorageError>) -> (r: Result<
        (Insertion, InComment),
        ErrResponse,
    >)
        ensures
            match parent_spec(found) {
                Err(e) => r == Err::<(Insertion, InComment), ErrResponse>(e),
                Ok(ticket) => {
                    &&& r matches Ok(next)
                    &&& next.0.ticket() == ticket
                    &&& next.0.input() == self.input()
                    &&& next.1 == self.input()
                },
            },
    {
        match parent(found) {
            Err(e) => Err(e),
            Ok(ticket) => {
                let copy = self.input.clone();
                Ok((Insertion { ticket, input: self.input }, copy))
            },
        }
    }
}

impl Insertion {
    /// The ticket that the comment is attached to.
    pub closed spec fn ticket(&self) -> Ticket {
        self.ticket
    }

    /// The comment as it was handed over for the insert.
    pub closed spec fn input(&self) -> InComment {
        self.input
    }

    /// Ends the creation with what the store answered to the insert: status
    /// 201 with the stored comment and the notification due, or the error.
    pub fn inserted(self, answer: Result<Comment, StorageError>, config: &Config) -> (r: Result<
        (u16, Comment, Notice),
        ErrResponse,
    >)
        ensures
            created_spec(answer, self.input(), self.ticket(), config, r),
    {
        created(answer, self.input, self.ticket, config)
    }
}

/// The outcome of creating a comment.
pub open spec fn create_spec(
    pre: AppState,
    post: AppState,
    header: Option<Seq<u8>>,
    input: InComment,
    r: Result<(u16, Comment, Notice), Failure>,
) -> bool {
    let rows = pre.store.comments.rows();
    let tickets = pre.store.tickets.rows();
    match guard_spec(header, &pre.config, Tier::User) {
        Err(failure) => r == Err::<(u16, Comment, Notice), Failure>(failure) && post == pre,
        Ok(()) => if !has_key(tickets, input.ticket_id as int) {
            r == Err::<(u16, Comment, Notice), Failure>(Failure::Failed(no_ticket())) && post
                == pre
        } else {
            only_comments_differ(pre, post) && match r {
                Ok((status, comment, notice)) => {
                    &&& status == 201
                    &&& next_key(rows) <= i32::MAX
                    &&& comment@ == input@.trimmed().with_id(next_key(rows))
                    &&& post.store.comments.rows() == rows.push(comment)
                    &&& notice.to@ == pre.config.comment_mailbox()
                    &&& notice.payload matches Payload::NewComment { comment: sent, ticket }
                    &&& sent@ == input@.trimmed()
                    &&& ticket == row_of(tickets, input.ticket_id as int)
                },
                Err(failure) => {
                    &&& next_key(rows) > i32::MAX
                    &&& failure == Failure::Failed(ErrResponse::S500("database error"))
                    &&& post.store.comments.rows() == rows
                },
            }
        },
    }
}

/// Creates a comment: any credential. The free-text fields are trimmed; the
/// ticket must exist, else nothing is inserted; the store assigns the id. The
/// answer is status 201 with the stored comment, and the notification that is
/// due to the comments mailbox.
pub fn create(state: &mut AppState, header: Option<&[u8]>, comment: InComment) -> (r: Result<
    (u16, Comment, Notice),
    Failure,
>)
    requires
        old(state).wf(),
    ensures
        final(state).wf(),
        create_spec(*old(state), *final(state), header_view(header), comment, r),
{
    match guard(header, &state.config, Tier::User) {
        Err(failure) => Err(failure),
        Ok(()) => {
            let (creation, ticket_id) = Creation::begin(comment);
            match creation.looked_up(state.store.tickets.fetch(ticket_id)) {
                Err(e) => Err(Failure::Failed(e)),
                Ok((insertion, input)) => {
                    let inserted = state.store.insert_comment(input);
                    match insertion.inserted(inserted, &state.config) {
                        Ok(answer) => Ok(answer),
                        Err(e) => Err(Failure::Failed(e)),
                    }
                },
            }
        },
    }
}

/// The outcome of updating a comment.
pub open spec fn update_spec(
    pre: AppState,
    post: AppState,
    header: Option<Seq<u8>>,
    id: i32,
    body: Comment,
    r: Result<u16, Failure>,
) -> bool {
    let rows = pre.store.comments.rows();
    match guard_spec(header, &pre.config, Tier::Admin) {
        Err(failure) => r == Err::<u16, Failure>(failure) && post == pre,
        Ok(()) => {
            &&& only_comments_differ(pre, post)
            &&& r == Ok::<u16, Failure>(204)
            &&& exists|row: Comment|
                {
                    &&& row@ == body@.input().trimmed().with_id(id as int)
                    &&& post.store.comments.rows() == replaced(rows, row)
                }
        },
    }
}

/// Updates a comment: admin only. Every field but the id is replaced by the
/// trimmed fields of `comment`; the row is the one with the id `id` of the
/// path, and the id that `comment` carries is ignored. The answer is status
/// 204, also where no comment has that id.
pub fn update(state: &mut AppState, header: Option<&[u8]>, id: i32, comment: Comment) -> (r:
    Result<u16, Failure>)
    requires
        old(state).wf(),
    ensures
        final(state).wf(),
        update_spec(*old(state), *final(state), header_view(header), id, comment, r),
{
    match guard(header, &state.config, Tier::Admin) {
        Err(failure) => Err(failure),
        Ok(()) => {
            let body = comment.input().trimmed().with_id(id);
            let changed = state.store.update_comment(id, body);
            proof {
                let row = body.submitted().stored(id);
                assert(row@ == comment@.input().trimmed().with_id(id as int));
                assert(state.store.comments.rows() == replaced(
                    old(state).store.comments.rows(),
                    row,
                ));
            }
            match executed(Ok(changed)) {
                Ok(()) => Ok(204),
                Err(e) => Err(Failure::Failed(e)),
            }
        },
    }
}

/// Lists the ids of all comments, in insertion order: any credential.
pub fn list(state: &AppState, header: Option<&[u8]>) -> (r: Result<Vec<i32>, Failure>)
    ensures
        match guard_spec(header_view(header), &state.config, Tier::User) {
            Err(failure) => r == Err::<Vec<i32>, Failure>(failure),
            Ok(()) => r matches Ok(ids) && ids@.map_values(|id: i32| id as int) == keys(
                state.store.comments.rows(),
            ),
        },
{
    match guard(header, &state.config, Tier::User) {
        Err(failure) => Err(failure),
        Ok(()) => Ok(state.store.comments.ids()),
    }
}

/// Lists all comments, in insertion order: any credential.
pub fn list_all(state: &AppState, header: Option<&[u8]>) -> (r: Result<Vec<Comment>, Failure>)
    ensures
        match guard_spec(header_view(header), &state.config, Tier::User) {
            Err(failure) => r == Err::<Vec<Comment>, Failure>(failure),
            Ok(()) => r matches Ok(comments) && comments@ == state.store.comments.rows(),
        },
{
    match guard(header, &state.config, Tier::User) {
        Err(failure) => Err(failure),
        Ok(()) => Ok(state.store.comments.all()),
    }
}

/// The outcome of reading one comment.
pub open spec fn read_spec(
    state: AppState,
    header: Option<Seq<u8>>,
    id: i32,
    r: Result<Comment, Failure>,
) -> bool {
    let rows = state.store.comments.rows();
    match guard_spec(header, &state.config, Tier::User) {
        Err(failure) => r == Err::<Comment, Failure>(failure),
        Ok(()) => if has_key(rows, id as int) {
            r == Ok::<Comment, Failure>(row_of(rows, id as int))
        } else {
            r == Err::<Comment, Failure>(
                Failure::Failed(ErrResponse::S404("data not found in database")),
            )
        },
    }
}

/// Reads one comment: any credential.
pub fn read(state: &AppState, header: Option<&[u8]>, id: i32) -> (r: Result<Comment, Failure>)
    requires
        state.wf(),
    ensures
        read_spec(*state, header_view(header), id, r),
{
    match guard(header, &state.config, Tier::User) {
        Err(failure) => Err(failure),
        Ok(()) => match answered(state.store.comments.fetch(id)) {
            Ok(comment) => Ok(comment),
            Err(e) => Err(Failure::Failed(e)),
        },
    }
}

/// The outcome of deleting one comment.
pub open spec fn delete_spec(
    pre: AppState,
    post: AppState,
    header: Option<Seq<u8>>,
    id: i32,
    r: Result<(), Failure>,
) -> bool {
    let rows = pre.store.comments.rows();
    match guard_spec(header, &pre.config, Tier::Admin) {
        Err(failure) => r == Err::<(), Failure>(failure) && post == pre,
        Ok(()) => {
            &&& only_comments_differ(pre, post)
            &&& post.store.comments.rows() == without(rows, id as int)
            &&& r == if has_key(rows, id as int) {
                Ok::<(), Failure>(())
            } else {
                Err::<(), Failure>(
                    Failure::Failed(ErrResponse::S404("object not found in database")),
                )
            }
        },
    }
}

/// Deletes one comment: admin only.
pub fn delete(state: &mut AppState, header: Option<&[u8]>, id: i32) -> (r: Result<(), Failure>)
    requires
        old(state).wf(),
    ensures
        final(state).wf(),
        delete_spec(*old(state), *final(state), header_view(header), id, r),
{
    match guard(header, &state.config, Tier::Admin) {
        Err(failure) => Err(failure),
        Ok(()) => match removed(Ok(state.store.comments.delete(id))) {
            Ok(()) => Ok(()),
            Err(e) => Err(Failure::Failed(e)),
        },
    }
}

/// The outcome of deleting all comments.
pub open spec fn destroy_spec(
    pre: AppState,
    post: AppState,
    header: Option<Seq<u8>>,
    r: Result<(), Failure>,
) -> bool {
    match guard_spec(header, &pre.config, Tier::Admin) {
        Err(failure) => r == Err::<(), Failure>(failure) && post == pre,
        Ok(()) => {
            &&& only_comments_differ(pre, post)
            &&& post.store.comments.rows() == Seq::<Comment>::empty()
            &&& r == Ok::<(), Failure>(())
        },
    }
}

/// Deletes all comments: admin only. It succeeds on an empty table too.
pub fn destroy(state: &mut AppState, header: Option<&[u8]>) -> (r: Result<(), Failure>)
    requires
        old(state).wf(),
    ensures
        final(state).wf(),
        destroy_spec(*old(state), *final(state), header_view(header), r),
{
    match guard(header, &state.config, Tier::Admin) {
        Err(failure) => Err(failure),
        Ok(()) => match executed(Ok(state.store.comments.clear())) {
            Ok(()) => Ok(()),
            Err(e) => Err(Failure::Failed(e)),
        },
    }
}

} // verus!
