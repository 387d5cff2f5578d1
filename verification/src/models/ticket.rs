//! Tickets: issues raised against one asset, open until closed.

use crate::models::comment::Comment;
use crate::models::Timestamp;
use crate::config::{guard, guard_spec, header_view, AppState, Config, Tier};
use crate::errors::{
    answered, executed, or_missing, or_missing_spec, removed, ErrResponse, Failure, StorageError,
};
use crate::models::asset::Asset;
pub use crate::notify::template;
use crate::notify::{Notice, Payload, RenderError};
use crate::photo::{
    is_stored_for, not_stored, photo_filename, photo_filename_spec, prepare, prepared_size,
};
use crate::store::{belongs_to, is_open, is_thread, joined, select_comments};
use crate::table::{
    duplicates, has_key, is_listing, keys, next_key, replaced, row_of, without, Ranked, Record,
};
use crate::text::{trim, trim_spec};
use vstd::prelude::*;
use vstd::std_specs::cmp::PartialEqSpecImpl;

verus! {

/// A stored ticket.
#[derive(Debug)]
pub struct Ticket {
    pub id: i32,
    pub asset_id: i32,
    pub title: String,
    pub creator: String,
    pub creator_mail: String,
    pub creator_phone: String,
    pub description: String,
    pub time: Timestamp,
    pub is_closed: bool,
}

/// A ticket as submitted for creation: no id yet.
#[derive(Debug)]
pub struct InTicket {
    pub asset_id: i32,
    pub title: String,
    pub creator: String,
    pub creator_mail: String,
    pub creator_phone: String,
    pub description: String,
    pub time: Timestamp,
    pub is_closed: bool,
}

/// A ticket together with its comments, as it is read and exported.
#[derive(Debug)]
pub struct OutTicket {
    pub ticket: Ticket,
    pub comments: Vec<Comment>,
}

/// The contents of a ticket as plain values.
pub struct TicketView {
    pub id: int,
    pub asset_id: int,
    pub title: Seq<char>,
    pub creator: Seq<char>,
    pub creator_mail: Seq<char>,
    pub creator_phone: Seq<char>,
    pub description: Seq<char>,
    pub time: Timestamp,
    pub is_closed: bool,
}

/// The contents of a submitted ticket as plain values.
pub struct InTicketView {
    pub asset_id: int,
    pub title: Seq<char>,
    pub creator: Seq<char>,
    pub creator_mail: Seq<char>,
    pub creator_phone: Seq<char>,
    pub description: Seq<char>,
    pub time: Timestamp,
    pub is_closed: bool,
}

impl View for Ticket {
    type V = TicketView;

    open spec fn view(&self) -> TicketView {
        TicketView {
            id: self.id as int,
            asset_id: self.asset_id as int,
            title: self.title@,
            creator: self.creator@,
            creator_mail: self.creator_mail@,
            creator_phone: self.creator_phone@,
            description: self.description@,
            time: self.time,
            is_closed: self.is_closed,
        }
    }
}

impl View for InTicket {
    type V = InTicketView;

    open spec fn view(&self) -> InTicketView {
        InTicketView {
            asset_id: self.asset_id as int,
            title: self.title@,
            creator: self.creator@,
            creator_mail: self.creator_mail@,
            creator_phone: self.creator_phone@,
            description: self.description@,
            time: self.time,
            is_closed: self.is_closed,
        }
    }
}

impl TicketView {
    /// The fields that creation takes from the caller.
    pub open spec fn input(self) -> InTicketView {
        InTicketView {
            asset_id: self.asset_id,
            title: self.title,
            creator: self.creator,
            creator_mail: self.creator_mail,
            creator_phone: self.creator_phone,
            description: self.description,
            time: self.time,
            is_closed: self.is_closed,
        }
    }
}

impl InTicketView {
    /// The submitted ticket with its free-text fields trimmed.
    pub open spec fn trimmed(self) -> InTicketView {
        InTicketView {
            asset_id: self.asset_id,
            title: trim_spec(self.title),
            creator: trim_spec(self.creator),
            creator_mail: trim_spec(self.creator_mail),
            creator_phone: trim_spec(self.creator_phone),
            description: trim_spec(self.description),
            time: self.time,
            is_closed: self.is_closed,
        }
    }

    /// The stored ticket that holds these fields under `id`.
    pub open spec fn with_id(self, id: int) -> TicketView {
        TicketView {
            id,
            asset_id: self.asset_id,
            title: self.title,
            creator: self.creator,
            creator_mail: self.creator_mail,
            creator_phone: self.creator_phone,
            description: self.description,
            time: self.time,
            is_closed: self.is_closed,
        }
    }

    /// Whether a stored ticket agrees with these fields wherever the two are
    /// compared: on all of them but `is_closed`.
    pub open spec fn agrees(self, other: InTicketView) -> bool {
        &&& self.title == other.title
        &&& self.asset_id == other.asset_id
        &&& self.creator == other.creator
        &&& self.creator_mail == other.creator_mail
        &&& self.creator_phone == other.creator_phone
        &&& self.description == other.description
        &&& self.time == other.time
    }
}

impl Clone for Ticket {
    fn clone(&self) -> (r: Ticket)
        ensures
            r == *self,
    {
        Ticket {
            id: self.id,
            asset_id: self.asset_id,
            title: self.title.clone(),
            creator: self.creator.clone(),
            creator_mail: self.creator_mail.clone(),
            creator_phone: self.creator_phone.clone(),
            description: self.description.clone(),
            time: self.time,
            is_closed: self.is_closed,
        }
    }
}

impl Clone for InTicket {
    fn clone(&self) -> (r: InTicket)
        ensures
            r == *self,
    {
        InTicket {
            asset_id: self.asset_id,
            title: self.title.clone(),
            creator: self.creator.clone(),
            creator_mail: self.creator_mail.clone(),
            creator_phone: self.creator_phone.clone(),
            description: self.description.clone(),
            time: self.time,
            is_closed: self.is_closed,
        }
    }
}

impl PartialEq for Ticket {
    fn eq(&self, other: &Ticket) -> (b: bool) {
        self.id == other.id && self.asset_id == other.asset_id && self.title == other.title
            && self.creator == other.creator && self.creator_mail == other.creator_mail
            && self.creator_phone == other.creator_phone && self.description == other.description
            && self.time == other.time && self.is_closed == other.is_closed
    }
}

impl PartialEqSpecImpl for Ticket {
    open spec fn obeys_eq_spec() -> bool {
        true
    }

    open spec fn eq_spec(&self, other: &Ticket) -> bool {
        self@ == other@
    }
}

impl PartialEq for InTicket {
    fn eq(&self, other: &InTicket) -> (b: bool) {
        self.asset_id == other.asset_id && self.title == other.title && self.creator
            == other.creator && self.creator_mail == other.creator_mail && self.creator_phone
            == other.creator_phone && self.description == other.description && self.time
            == other.time && self.is_closed == other.is_closed
    }
}

impl PartialEqSpecImpl for InTicket {
    open spec fn obeys_eq_spec() -> bool {
        true
    }

    open spec fn eq_spec(&self, other: &InTicket) -> bool {
        self@ == other@
    }
}

/// A stored ticket equals a submitted one where title, asset, creator, mail,
/// phone, description and time agree. Whether it is closed is not compared.
impl PartialEq<InTicket> for Ticket {
    fn eq(&self, other: &InTicket) -> (b: bool) {
        self.title == other.title && self.asset_id == other.asset_id && self.creator
            == other.creator && self.creator_mail == other.creator_mail && self.creator_phone
            == other.creator_phone && self.description == other.description && self.time
            == other.time
    }
}

impl PartialEqSpecImpl<InTicket> for Ticket {
    open spec fn obeys_eq_spec() -> bool {
        true
    }

    open spec fn eq_spec(&self, other: &InTicket) -> bool {
        self@.input().agrees(other@)
    }
}

impl InTicket {
    /// The stored ticket that holds these fields under `id`.
    pub open spec fn stored(self, id: i32) -> Ticket {
        Ticket {
            id,
            asset_id: self.asset_id,
            title: self.title,
            creator: self.creator,
            creator_mail: self.creator_mail,
            creator_phone: self.creator_phone,
            description: self.description,
            time: self.time,
            is_closed: self.is_closed,
        }
    }

    /// Trims the free-text fields.
    pub fn trimmed(self) -> (r: InTicket)
        ensures
            r@ == self@.trimmed(),
    {
        InTicket {
            asset_id: self.asset_id,
            title: trim(self.title.as_str()),
            creator: trim(self.creator.as_str()),
            creator_mail: trim(self.creator_mail.as_str()),
            creator_phone: trim(self.creator_phone.as_str()),
            description: trim(self.description.as_str()),
            time: self.time,
            is_closed: self.is_closed,
        }
    }

    /// The stored ticket that holds these fields under `id`.
    pub fn with_id(self, id: i32) -> (r: Ticket)
        ensures
            r == self.stored(id),
    {
        Ticket {
            id,
            asset_id: self.asset_id,
            title: self.title,
            creator: self.creator,
            creator_mail: self.creator_mail,
            creator_phone: self.creator_phone,
            description: self.description,
            time: self.time,
            is_closed: self.is_closed,
        }
    }
}

impl Ticket {
    /// The fields of this ticket that creation takes from the caller.
    pub open spec fn submitted(self) -> InTicket {
        InTicket {
            asset_id: self.asset_id,
            title: self.title,
            creator: self.creator,
            creator_mail: self.creator_mail,
            creator_phone: self.creator_phone,
            description: self.description,
            time: self.time,
            is_closed: self.is_closed,
        }
    }

    /// The fields of this ticket that creation takes from the caller.
    pub fn input(self) -> (r: InTicket)
        ensures
            r == self.submitted(),
    {
        InTicket {
            asset_id: self.asset_id,
            title: self.title,
            creator: self.creator,
            creator_mail: self.creator_mail,
            creator_phone: self.creator_phone,
            description: self.description,
            time: self.time,
            is_closed: self.is_closed,
        }
    }
}

/// Whether two states differ in nothing but the table of tickets.
pub open spec fn only_tickets_differ(pre: AppState, post: AppState) -> bool {
    &&& post.config == pre.config
    &&& post.mailer == pre.mailer
    &&& post.photos == pre.photos
    &&& post.store.assets == pre.store.assets
    &&& post.store.comments == pre.store.comments
}

/// Whether two states differ in nothing but the table of tickets and the
/// stored photos.
pub open spec fn only_tickets_and_photos_differ(pre: AppState, post: AppState) -> bool {
    &&& post.config == pre.config
    &&& post.mailer == pre.mailer
    &&& post.store.assets == pre.store.assets
    &&& post.store.comments == pre.store.comments
}

/// Whether two states differ in nothing but the stored photos.
pub open spec fn only_photos_differ(pre: AppState, post: AppState) -> bool {
    &&& post.config == pre.config
    &&& post.mailer == pre.mailer
    &&& post.store == pre.store
}

/// The error for a ticket on an asset that does not exist.
pub open spec fn no_asset() -> ErrResponse {
    ErrResponse::S404("cannot create ticket related to non existing asset")
}

/// The error for a ticket that cannot be read.
pub open spec fn no_ticket() -> ErrResponse {
    ErrResponse::S404("could not get ticket")
}

/// The error for a ticket whose comments cannot be read.
pub open spec fn no_comments() -> ErrResponse {
    ErrResponse::S404("could not get comments for ticket")
}

/// The error for a photo that is not stored.
pub open spec fn no_photo() -> ErrResponse {
    ErrResponse::S404("no image available")
}

/// The asset that a new ticket is raised against, from the answer of the
/// store to the lookup of its `asset_id`.
pub open spec fn parent_spec(found: Result<Asset, StorageError>) -> Result<Asset, ErrResponse> {
    or_missing_spec(found, no_asset())
}

/// Decides whether the ticket may be created, from the answer of the store to
/// the lookup of its asset: no ticket is inserted for an asset that was not
/// found. An asset that is missing is reported as not found, a lookup that
/// failed as the storage failure it is.
pub fn parent(found: Result<Asset, StorageError>) -> (r: Result<Asset, ErrResponse>)
    ensures
        r == parent_spec(found),
{
    or_missing(found, ErrResponse::S404("cannot create ticket related to non existing asset"))
}

/// The answer to the creation of a ticket, from the answer of the store to
/// the insert: status 201 with the stored ticket, and the notification that
/// is due to the tickets mailbox.
pub open spec fn created_spec(
    inserted: Result<Ticket, StorageError>,
    asset: Asset,
    config: &Config,
    r: Result<(u16, Ticket, Notice), ErrResponse>,
) -> bool {
    match inserted {
        Ok(ticket) => {
            &&& r matches Ok((status, stored, notice))
            &&& status == 201
            &&& stored == ticket
            &&& notice.to@ == config.ticket_mailbox()
            &&& notice.payload == Payload::NewTicket { asset, ticket }
        },
        Err(e) => r == Err::<(u16, Ticket, Notice), ErrResponse>(ErrResponse::of_storage(e)),
    }
}

/// Decides the answer to the creation of a ticket once the store has
/// answered the insert.
pub fn created(inserted: Result<Ticket, StorageError>, asset: Asset, config: &Config) -> (r:
    Result<(u16, Ticket, Notice), ErrResponse>)
    ensures
        created_spec(inserted, asset, config, r),
{
    match inserted {
        Ok(ticket) => {
            let notice = Notice {
                payload: Payload::NewTicket { asset, ticket: ticket.clone() },
                to: config.ticket_recipient().clone(),
            };
            Ok((201, ticket, notice))
        },
        Err(e) => Err(ErrResponse::from(e)),
    }
}

/// Whether an update closes a ticket whose creator is to be told: the ticket
/// was open, is closed now, and names a mail address.
pub open spec fn closes_spec(was_closed: bool, updated: Ticket) -> bool {
    !was_closed && updated.is_closed && updated.creator_mail@.len() > 0
}

/// Decides whether an update closes a ticket whose creator is to be told.
pub fn closes(was_closed: bool, updated: &Ticket) -> (b: bool)
    ensures
        b == closes_spec(was_closed, *updated),
{
    !was_closed && updated.is_closed && !updated.creator_mail.as_str().is_empty()
}

/// The notification for a closed ticket: it goes to the creator of the
/// ticket, and is rendered from the ticket with its comments.
pub fn closed_notice(closed: OutTicket) -> (notice: Notice)
    ensures
        notice.to@ == closed.ticket.creator_mail@,
        notice.payload == Payload::ClosedTicket(closed),
{
    let to = closed.ticket.creator_mail.clone();
    Notice { payload: Payload::ClosedTicket(closed), to }
}

/// The ticket that is read, from the answer of the store.
pub open spec fn found_spec(ticket: Result<Ticket, StorageError>) -> Result<Ticket, ErrResponse> {
    or_missing_spec(ticket, no_ticket())
}

/// Decides how reading a ticket goes on once the store has answered the
/// query for the ticket.
pub fn found(ticket: Result<Ticket, StorageError>) -> (r: Result<Ticket, ErrResponse>)
    ensures
        r == found_spec(ticket),
{
    or_missing(ticket, ErrResponse::S404("could not get ticket"))
}

/// The ticket with its comments, from the answer of the store to the query
/// for the comments.
pub open spec fn with_comments_spec(
    ticket: Ticket,
    comments: Result<Vec<Comment>, StorageError>,
) -> Result<OutTicket, ErrResponse> {
    match comments {
        Ok(list) => Ok(OutTicket { ticket, comments: list }),
        Err(StorageError::NotFound) => Err(no_comments()),
        Err(e) => Err(ErrResponse::of_storage(e)),
    }
}

/// Merges a ticket with its comments once the store has answered the query
/// for the comments.
pub fn with_comments(ticket: Ticket, comments: Result<Vec<Comment>, StorageError>) -> (r: Result<
    OutTicket,
    ErrResponse,
>)
    ensures
        r == with_comments_spec(ticket, comments),
{
    match comments {
        Ok(list) => Ok(OutTicket { ticket, comments: list }),
        Err(StorageError::NotFound) => Err(ErrResponse::S404("could not get comments for ticket")),
        Err(e) => Err(ErrResponse::from(e)),
    }
}

/// The digest that is due for the open tickets: none where no ticket is open,
/// else one to the tickets mailbox, rendered from the open tickets.
pub open spec fn digest_spec(open: Seq<Ticket>, config: &Config, notice: Option<Notice>) -> bool {
    if open.len() == 0 {
        notice is None
    } else {
        &&& notice matches Some(n)
        &&& n.to@ == config.ticket_mailbox()
        &&& n.payload matches Payload::OpenTickets(list)
        &&& list@ == open
    }
}

/// Decides whether a digest of the open tickets is due.
pub fn digest(open: &Vec<Ticket>, config: &Config) -> (notice: Option<Notice>)
    ensures
        digest_spec(open@, config, notice),
{
    if open.len() == 0 {
        None
    } else {
        Some(
            Notice {
                payload: Payload::OpenTickets(duplicates(open)),
                to: config.ticket_recipient().clone(),
            },
        )
    }
}

/// Whether `rows` pairs each ticket of `pairs` with its comments out of
/// `comments`, in the same order, and keeps its asset.
pub open spec fn export_rows_spec(
    pairs: Seq<(Ticket, Asset)>,
    comments: Seq<Comment>,
    rows: Seq<(OutTicket, Asset)>,
) -> bool {
    &&& rows.len() == pairs.len()
    &&& forall|i: int|
        0 <= i < pairs.len() ==> {
            &&& (#[trigger] rows[i]).0.ticket == pairs[i].0
            &&& rows[i].1 == pairs[i].1
            &&& rows[i].0.comments@ == comments.filter(belongs_to(pairs[i].0.id))
        }
}

/// Joins every ticket with its comments for the export. The tickets come
/// paired with their assets; each gets the comments that belong to it, in
/// the order in which `comments` holds them.
pub fn export_rows(pairs: &Vec<(Ticket, Asset)>, comments: &Vec<Comment>) -> (rows: Vec<
    (OutTicket, Asset),
>)
    ensures
        export_rows_spec(pairs@, comments@, rows@),
{
    let mut rows: Vec<(OutTicket, Asset)> = Vec::new();
    let mut i: usize = 0;
    while i < pairs.len()
        invariant
            i <= pairs.len(),
            export_rows_spec(pairs@.take(i as int), comments@, rows@),
        decreases pairs.len() - i,
    {
        let ticket = pairs[i].0.clone();
        let asset = pairs[i].1.clone();
        let thread = select_comments(comments, ticket.id);
        let ghost before = rows@;
        rows.push((OutTicket { ticket, comments: thread }, asset));
        proof {
            let next = pairs@.take(i + 1);
            assert forall|k: int| 0 <= k < next.len() implies {
                &&& (#[trigger] rows@[k]).0.ticket == next[k].0
                &&& rows@[k].1 == next[k].1
                &&& rows@[k].0.comments@ == comments@.filter(belongs_to(next[k].0.id))
            } by {
                if k < i {
                    assert(rows@[k] == before[k]);
                    assert(pairs@.take(i as int)[k] == next[k]);
                }
            }
        }
        i += 1;
    }
    assert(pairs@.take(i as int) =~= pairs@);
    rows
}

/// The answer to an export, from the rendered document: its body, or the
/// error for a document that could not be rendered.
pub fn exported(rendered: Result<(String, String), RenderError>) -> (r: Result<
    String,
    ErrResponse,
>)
    ensures
        r == match rendered {
            Ok((_, body)) => Ok::<String, ErrResponse>(body),
            Err(_) => Err(ErrResponse::S500("could not export data")),
        },
{
    match rendered {
        Ok((_, body)) => Ok(body),
        Err(_) => Err(ErrResponse::S500("could not export data")),
    }
}

/// The answer to the retrieval of a photo, from what was found under the
/// ticket id.
pub fn retrieved<T>(photo: Option<T>) -> (r: Result<T, ErrResponse>)
    ensures
        r == match photo {
            Some(p) => Ok::<T, ErrResponse>(p),
            None => Err(no_photo()),
        },
{
    match photo {
        Some(p) => Ok(p),
        None => Err(ErrResponse::S404("no image available")),
    }
}

/// The answer to the deletion of a photo, from whether a photo was removed.
pub fn photo_deleted(removed: bool) -> (r: Result<&'static str, ErrResponse>)
    ensures
        removed ==> (r matches Ok(text) && text@ == "File deleted"@),
        !removed ==> r == Err::<&'static str, ErrResponse>(no_photo()),
{
    if removed {
        Ok("File deleted")
    } else {
        Err(ErrResponse::S404("no image available"))
    }
}

/// The creation of a ticket that waits for the lookup of its asset. Nothing
/// has been asked of the store yet but that lookup.
#[derive(Debug)]
pub struct Creation {
    input: InTicket,
}

/// The creation of a ticket whose asset was found and that waits for the
/// insert. There is no such value for a ticket whose asset was not found.
#[derive(Debug)]
pub struct Insertion {
    asset: Asset,
}

impl Creation {
    /// The ticket that is to be inserted: the submitted one, trimmed.
    pub closed spec fn input(&self) -> InTicket {
        self.input
    }

    /// Begins the creation of a ticket: the free-text fields are trimmed, and
    /// the one query to make is the lookup of the asset with the id returned.
    pub fn begin(ticket: InTicket) -> (r: (Creation, i32))
        ensures
            r.0.input()@ == ticket@.trimmed(),
            r.1 == r.0.input().asset_id,
    {
        let input = ticket.trimmed();
        let asset_id = input.asset_id;
        (Creation { input }, asset_id)
    }

    /// Goes on with what the store answered to the lookup of the asset. Where
    /// the asset is missing, or the lookup failed, the creation ends with that
    /// error and no insert is asked for. Else the one query to make is the
    /// insert of the ticket returned.
    pub fn looked_up(self, found: Result<Asset, StorageError>) -> (r: Result<
        (Insertion, InTicket),
        ErrResponse,
    >)
        ensures
            match parent_spec(found) {
                Err(e) => r == Err::<(Insertion, InTicket), ErrResponse>(e),
                Ok(asset) => r matches Ok(next) && next.0.asset() == asset && next.1
                    == self.input(),
            },
    {
        match parent(found) {
            Err(e) => Err(e),
            Ok(asset) => Ok((Insertion { asset }, self.input)),
        }
    }
}

impl Insertion {
    /// The asset that the ticket is raised against.
    pub closed spec fn asset(&self) -> Asset {
        self.asset
    }

    /// Ends the creation with what the store answered to the insert: status
    /// 201 with the stored ticket and the notification due, or the error.
    pub fn inserted(self, answer: Result<Ticket, StorageError>, config: &Config) -> (r: Result<
        (u16, Ticket, Notice),
        ErrResponse,
    >)
        ensures
            created_spec(answer, self.asset(), config, r),
    {
        created(answer, self.asset, config)
    }
}

/// The reading of a ticket that was found and waits for its comments. There
/// is no such value for a ticket that was not found.
#[derive(Debug)]
pub struct Threading {
    ticket: Ticket,
}

impl Threading {
    /// The ticket that was found.
    pub closed spec fn ticket(&self) -> Ticket {
        self.ticket
    }

    /// Begins the reading of a ticket with what the store answered to the
    /// query for it. Where the ticket is missing, or the query failed, the
    /// reading ends with that error and no comments are asked for. Else the
    /// one query to make is that for the comments of the ticket with the id
    /// returned, latest first.
    pub fn begin(found: Result<Ticket, StorageError>) -> (r: Result<(Threading, i32), ErrResponse>)
        ensures
            match found_spec(found) {
                Err(e) => r == Err::<(Threading, i32), ErrResponse>(e),
                Ok(ticket) => r matches Ok(next) && next.0.ticket() == ticket && next.1
                    == ticket.id,
            },
    {
        match self::found(found) {
            Err(e) => Err(e),
            Ok(ticket) => {
                let id = ticket.id;
                Ok((Threading { ticket }, id))
            },
        }
    }

    /// Ends the reading with what the store answered to the query for the
    /// comments: the ticket merged with them, or the error.
    pub fn loaded(self, comments: Result<Vec<Comment>, StorageError>) -> (r: Result<
        OutTicket,
        ErrResponse,
    >)
        ensures
            r == with_comments_spec(self.ticket(), comments),
    {
        with_comments(self.ticket, comments)
    }
}

/// The update of a ticket that waits for the answer on whether the ticket is
/// closed. Nothing has been changed in the store yet.
#[derive(Debug)]
pub struct Update {
    id: i32,
    body: Ticket,
}

/// The update of a ticket that waits for the store to replace the row.
#[derive(Debug)]
pub struct Replacing {
    was_closed: bool,
}

/// The update of a ticket that closed it, and that waits for the comments
/// that the notification for the creator is rendered with.
#[derive(Debug)]
pub struct Closing {
    row: Ticket,
}

/// How an update goes on once the row was replaced.
#[derive(Debug)]
pub enum Replaced {
    /// The update is done, with this status; no notification is due.
    Done(u16),
    /// The update closed the ticket: the one query to make is that for the
    /// comments of the ticket with this id, latest first.
    Notify(Closing, i32),
}

impl Update {
    /// The id of the row that is updated.
    pub closed spec fn id(&self) -> i32 {
        self.id
    }

    /// The row that replaces the stored one.
    pub closed spec fn body(&self) -> Ticket {
        self.body
    }

    /// Begins the update of the ticket `id`: the free-text fields are
    /// trimmed and the id of the path is the id of the row; the one query to
    /// make is whether the ticket with the id returned is closed.
    pub fn begin(id: i32, ticket: Ticket) -> (r: (Update, i32))
        ensures
            r.0.id() == id,
            r.0.body()@ == ticket@.input().trimmed().with_id(id as int),
            r.1 == id,
    {
        (Update { id, body: ticket.input().trimmed().with_id(id) }, id)
    }

    /// Goes on with what the store answered on whether the ticket is closed;
    /// a ticket of which that is not known counts as open. The one query to
    /// make is the replacement of the row with the id returned by the ticket
    /// returned.
    pub fn was(self, closed: Result<bool, StorageError>) -> (r: (Replacing, i32, Ticket))
        ensures
            r.0.was_closed() == (closed == Ok::<bool, StorageError>(true)),
            r.1 == self.id(),
            r.2 == self.body(),
    {
        let was_closed = match closed {
            Ok(flag) => flag,
            Err(_) => false,
        };
        (Replacing { was_closed }, self.id, self.body)
    }
}

impl Replacing {
    /// Whether the ticket was closed before the update.
    pub closed spec fn was_closed(&self) -> bool {
        self.was_closed
    }

    /// Goes on with what the store answered to the replacement: the error,
    /// or, for the row as stored, either the end of the update with status
    /// 204 or, where the update closed an open ticket that names a creator
    /// mail, the query for its comments.
    pub fn replaced(self, answer: Result<Ticket, StorageError>) -> (r: Result<Replaced, ErrResponse>)
        ensures
            match answer {
                Err(e) => r == Err::<Replaced, ErrResponse>(ErrResponse::of_storage(e)),
                Ok(row) => if closes_spec(self.was_closed(), row) {
                    &&& r matches Ok(Replaced::Notify(closing, id))
                    &&& closing.row() == row
                    &&& id == row.id
                } else {
                    r matches Ok(Replaced::Done(status)) && status == 204
                },
            },
    {
        match answered(answer) {
            Err(e) => Err(e),
            Ok(row) => if closes(self.was_closed, &row) {
                let id = row.id;
                Ok(Replaced::Notify(Closing { row }, id))
            } else {
                Ok(Replaced::Done(204))
            },
        }
    }
}

/// The notification due for a ticket that was closed, from what the store
/// answered to the query for its comments: none where they could not be
/// loaded.
pub open spec fn closing_notice_spec(
    row: Ticket,
    comments: Result<Vec<Comment>, StorageError>,
    notice: Option<Notice>,
) -> bool {
    match with_comments_spec(row, comments) {
        Ok(out) => {
            &&& notice matches Some(n)
            &&& n.to@ == row.creator_mail@
            &&& n.payload == Payload::ClosedTicket(out)
        },
        Err(_) => notice is None,
    }
}

impl Closing {
    /// The row as stored by the update.
    pub closed spec fn row(&self) -> Ticket {
        self.row
    }

    /// Ends the update with what the store answered to the query for the
    /// comments: status 204, and the notification for the creator where the
    /// comments were loaded. Comments that cannot be loaded do not change the
    /// answer.
    pub fn loaded(self, comments: Result<Vec<Comment>, StorageError>) -> (r: (u16, Option<Notice>))
        ensures
            r.0 == 204,
            closing_notice_spec(self.row(), comments, r.1),
    {
        match with_comments(self.row, comments) {
            Ok(out) => (204, Some(closed_notice(out))),
            Err(_) => (204, None),
        }
    }
}

/// The outcome of creating a ticket.
pub open spec fn create_spec(
    pre: AppState,
    post: AppState,
    header: Option<Seq<u8>>,
    input: InTicket,
    r: Result<(u16, Ticket, Notice), Failure>,
) -> bool {
    let rows = pre.store.tickets.rows();
    let assets = pre.store.assets.rows();
    match guard_spec(header, &pre.config, Tier::User) {
        Err(failure) => r == Err::<(u16, Ticket, Notice), Failure>(failure) && post == pre,
        Ok(()) => if !has_key(assets, input.asset_id as int) {
            r == Err::<(u16, Ticket, Notice), Failure>(Failure::Failed(no_asset())) && post == pre
        } else {
            only_tickets_differ(pre, post) && match r {
                Ok((status, ticket, notice)) => {
                    &&& status == 201
                    &&& next_key(rows) <= i32::MAX
                    &&& ticket@ == input@.trimmed().with_id(next_key(rows))
                    &&& post.store.tickets.rows() == rows.push(ticket)
                    &&& notice.to@ == pre.config.ticket_mailbox()
                    &&& notice.payload == Payload::NewTicket {
                        asset: row_of(assets, input.asset_id as int),
                        ticket,
                    }
                },
                Err(failure) => {
                    &&& next_key(rows) > i32::MAX
                    &&& failure == Failure::Failed(ErrResponse::S500("database error"))
                    &&& post.store.tickets.rows() == rows
                },
            }
        },
    }
}

/// Creates a ticket: any credential. The free-text fields are trimmed; the
/// asset must exist, else nothing is inserted; the store assigns the id. The
/// answer is status 201 with the stored ticket, and the notification that is
/// due to the tickets mailbox.
pub fn create(state: &mut AppState, header: Option<&[u8]>, ticket: InTicket) -> (r: Result<
    (u16, Ticket, Notice),
    Failure,
>)
    requires
        old(state).wf(),
    ensures
        final(state).wf(),
        create_spec(*old(state), *final(state), header_view(header), ticket, r),
{
    match guard(header, &state.config, Tier::User) {
        Err(failure) => Err(failure),
        Ok(()) => {
            let (creation, asset_id) = Creation::begin(ticket);
            match creation.looked_up(state.store.assets.fetch(asset_id)) {
                Err(e) => Err(Failure::Failed(e)),
                Ok((insertion, input)) => {
                    let inserted = state.store.insert_ticket(input);
                    match insertion.inserted(inserted, &state.config) {
                        Ok(answer) => Ok(answer),
                        Err(e) => Err(Failure::Failed(e)),
                    }
                },
            }
        },
    }
}

/// The ticket `id` with its comments, latest first; no credential is asked
/// for here.
pub fn ticket_with_comments(state: &AppState, id: i32) -> (r: Result<OutTicket, ErrResponse>)
    requires
        state.wf(),
    ensures
        r is Ok <==> has_key(state.store.tickets.rows(), id as int),
        r matches Ok(out) ==> out.ticket == row_of(state.store.tickets.rows(), id as int)
            && is_thread(out.comments@, state.store.comments.rows(), id),
        r matches Err(e) ==> e == no_ticket(),
{
    match Threading::begin(state.store.tickets.fetch(id)) {
        Err(e) => Err(e),
        Ok((threading, ticket_id)) => threading.loaded(Ok(state.store.comments_of(ticket_id))),
    }
}

/// The notification that an update of the ticket `id` to `row` is due.
pub open spec fn closing_spec(pre: AppState, post: AppState, id: i32, row: Ticket, notice: Option<Notice>) -> bool {
    let was_closed = row_of(pre.store.tickets.rows(), id as int).is_closed;
    if closes_spec(was_closed, row) {
        &&& notice matches Some(n)
        &&& n.to@ == row.creator_mail@
        &&& n.payload matches Payload::ClosedTicket(out)
        &&& out.ticket == row
        &&& is_thread(out.comments@, post.store.comments.rows(), id)
    } else {
        notice is None
    }
}

/// The outcome of updating a ticket.
pub open spec fn update_spec(
    pre: AppState,
    post: AppState,
    header: Option<Seq<u8>>,
    id: i32,
    body: Ticket,
    r: Result<(u16, Option<Notice>), Failure>,
) -> bool {
    let rows = pre.store.tickets.rows();
    match guard_spec(header, &pre.config, Tier::Admin) {
        Err(failure) => r == Err::<(u16, Option<Notice>), Failure>(failure) && post == pre,
        Ok(()) => only_tickets_differ(pre, post) && if !has_key(rows, id as int) {
            &&& r == Err::<(u16, Option<Notice>), Failure>(
                Failure::Failed(ErrResponse::S404("data not found in database")),
            )
            &&& post.store.tickets.rows() == rows
        } else {
            &&& r matches Ok((status, notice))
            &&& status == 204
            &&& exists|row: Ticket|
                {
                    &&& row@ == body@.input().trimmed().with_id(id as int)
                    &&& post.store.tickets.rows() == replaced(rows, row)
                    &&& closing_spec(pre, post, id, row, notice)
                }
        },
    }
}

/// Updates a ticket: admin only. Every field but the id is replaced by the
/// trimmed fields of `ticket`; the row is the one with the id `id` of the
/// path, and the id that `ticket` carries is ignored. Where the update closes
/// a ticket that was open and names a creator mail, the notification for the
/// creator is due, with the ticket and its comments. The answer is status 204.
pub fn update(state: &mut AppState, header: Option<&[u8]>, id: i32, ticket: Ticket) -> (r: Result<
    (u16, Option<Notice>),
    Failure,
>)
    requires
        old(state).wf(),
    ensures
        final(state).wf(),
        update_spec(*old(state), *final(state), header_view(header), id, ticket, r),
{
    match guard(header, &state.config, Tier::Admin) {
        Err(failure) => Err(failure),
        Ok(()) => {
            let (update, asked) = Update::begin(id, ticket);
            let closed = match state.store.tickets.fetch(asked) {
                Ok(before) => Ok(before.is_closed),
                Err(e) => Err(e),
            };
            let (replacing, row_id, body) = update.was(closed);
            match replacing.replaced(state.store.update_ticket(row_id, body)) {
                Err(e) => Err(Failure::Failed(e)),
                Ok(next) => {
                    let ghost updated = body.submitted().stored(id);
                    proof {
                        let rows = old(state).store.tickets.rows();
                        crate::table::lemma_replaced(rows, updated);
                    }
                    match next {
                        Replaced::Done(status) => {
                            assert(closing_spec(*old(state), *state, id, updated, None));
                            Ok((status, None))
                        },
                        Replaced::Notify(closing, ticket_id) => {
                            let answer = closing.loaded(Ok(state.store.comments_of(ticket_id)));
                            assert(closing_spec(*old(state), *state, id, updated, answer.1));
                            Ok(answer)
                        },
                    }
                },
            }
        },
    }
}

/// Lists the ids of all tickets, in insertion order: any credential.
pub fn list(state: &AppState, header: Option<&[u8]>) -> (r: Result<Vec<i32>, Failure>)
    ensures
        match guard_spec(header_view(header), &state.config, Tier::User) {
            Err(failure) => r == Err::<Vec<i32>, Failure>(failure),
            Ok(()) => r matches Ok(ids) && ids@.map_values(|id: i32| id as int) == keys(
                state.store.tickets.rows(),
            ),
        },
{
    match guard(header, &state.config, Tier::User) {
        Err(failure) => Err(failure),
        Ok(()) => Ok(state.store.tickets.ids()),
    }
}

/// Lists all tickets, latest first: any credential.
pub fn list_all(state: &AppState, header: Option<&[u8]>) -> (r: Result<Vec<Ticket>, Failure>)
    requires
        state.wf(),
    ensures
        match guard_spec(header_view(header), &state.config, Tier::User) {
            Err(failure) => r == Err::<Vec<Ticket>, Failure>(failure),
            Ok(()) => r matches Ok(tickets) && is_listing(tickets@, state.store.tickets.rows()),
        },
{
    match guard(header, &state.config, Tier::User) {
        Err(failure) => Err(failure),
        Ok(()) => Ok(state.store.tickets.listing()),
    }
}

/// Lists the open tickets, in insertion order: any credential. Where there
/// is one, the digest for the tickets mailbox is due. The list is the answer
/// whatever becomes of the digest.
pub fn mail_open(state: &AppState, header: Option<&[u8]>) -> (r: Result<
    (Vec<Ticket>, Option<Notice>),
    Failure,
>)
    ensures
        match guard_spec(header_view(header), &state.config, Tier::User) {
            Err(failure) => r == Err::<(Vec<Ticket>, Option<Notice>), Failure>(failure),
            Ok(()) => {
                &&& r matches Ok((open, notice))
                &&& open@ == state.store.tickets.rows().filter(is_open())
                &&& digest_spec(open@, &state.config, notice)
            },
        },
{
    match guard(header, &state.config, Tier::User) {
        Err(failure) => Err(failure),
        Ok(()) => {
            let open = state.store.open_tickets();
            let notice = digest(&open, &state.config);
            Ok((open, notice))
        },
    }
}

/// The outcome of reading one ticket.
pub open spec fn read_spec(
    state: AppState,
    header: Option<Seq<u8>>,
    id: i32,
    r: Result<OutTicket, Failure>,
) -> bool {
    let rows = state.store.tickets.rows();
    match guard_spec(header, &state.config, Tier::User) {
        Err(failure) => r == Err::<OutTicket, Failure>(failure),
        Ok(()) => if has_key(rows, id as int) {
            &&& r matches Ok(out)
            &&& out.ticket == row_of(rows, id as int)
            &&& is_thread(out.comments@, state.store.comments.rows(), id)
        } else {
            r == Err::<OutTicket, Failure>(Failure::Failed(no_ticket()))
        },
    }
}

/// Reads one ticket with its comments, latest first: any credential.
pub fn read(state: &AppState, header: Option<&[u8]>, id: i32) -> (r: Result<OutTicket, Failure>)
    requires
        state.wf(),
    ensures
        read_spec(*state, header_view(header), id, r),
{
    match guard(header, &state.config, Tier::User) {
        Err(failure) => Err(failure),
        Ok(()) => match ticket_with_comments(state, id) {
            Ok(out) => Ok(out),
            Err(e) => Err(Failure::Failed(e)),
        },
    }
}

/// The outcome of deleting one ticket.
pub open spec fn delete_spec(
    pre: AppState,
    post: AppState,
    header: Option<Seq<u8>>,
    id: i32,
    r: Result<(), Failure>,
) -> bool {
    let rows = pre.store.tickets.rows();
    match guard_spec(header, &pre.config, Tier::Admin) {
        Err(failure) => r == Err::<(), Failure>(failure) && post == pre,
        Ok(()) => {
            &&& only_tickets_and_photos_differ(pre, post)
            &&& post.store.tickets.rows() == without(rows, id as int)
            &&& if has_key(rows, id as int) {
                r == Ok::<(), Failure>(()) && post.photos@ == pre.photos@.remove(id)
            } else {
                &&& r == Err::<(), Failure>(
                    Failure::Failed(ErrResponse::S404("object not found in database")),
                )
                &&& post.photos@ == pre.photos@
            }
        },
    }
}

/// Deletes one ticket: admin only. The photo of a deleted ticket is removed
/// with it. Its comments are left in place.
pub fn delete(state: &mut AppState, header: Option<&[u8]>, id: i32) -> (r: Result<(), Failure>)
    requires
        old(state).wf(),
    ensures
        final(state).wf(),
        delete_spec(*old(state), *final(state), header_view(header), id, r),
{
    broadcast use vstd::std_specs::hash::group_hash_axioms;

    match guard(header, &state.config, Tier::Admin) {
        Err(failure) => Err(failure),
        Ok(()) => match removed(Ok(state.store.tickets.delete(id))) {
            Ok(()) => {
                state.photos.remove(&id);
                Ok(())
            },
            Err(e) => Err(Failure::Failed(e)),
        },
    }
}

/// The outcome of deleting all tickets.
pub open spec fn destroy_spec(
    pre: AppState,
    post: AppState,
    header: Option<Seq<u8>>,
    r: Result<(), Failure>,
) -> bool {
    match guard_spec(header, &pre.config, Tier::Admin) {
        Err(failure) => r == Err::<(), Failure>(failure) && post == pre,
        Ok(()) => {
            &&& only_tickets_differ(pre, post)
            &&& post.store.tickets.rows() == Seq::<Ticket>::empty()
            &&& r == Ok::<(), Failure>(())
        },
    }
}

/// Deletes all tickets: admin only. It succeeds on an empty table too.
pub fn destroy(state: &mut AppState, header: Option<&[u8]>) -> (r: Result<(), Failure>)
    requires
        old(state).wf(),
    ensures
        final(state).wf(),
        destroy_spec(*old(state), *final(state), header_view(header), r),
{
    match guard(header, &state.config, Tier::Admin) {
        Err(failure) => Err(failure),
        Ok(()) => match executed(Ok(state.store.tickets.clear())) {
            Ok(()) => Ok(()),
            Err(e) => Err(Failure::Failed(e)),
        },
    }
}

/// Whether `rows` is the export of the state: every ticket whose asset
/// exists, latest first, with that asset and with its comments, latest first.
pub open spec fn export_spec(state: AppState, rows: Seq<(OutTicket, Asset)>) -> bool {
    exists|tickets: Seq<Ticket>, comments: Seq<Comment>|
        {
            &&& is_listing(tickets, state.store.tickets.rows())
            &&& is_listing(comments, state.store.comments.rows())
            &&& #[trigger] export_rows_spec(
                joined(tickets, state.store.assets.rows()),
                comments,
                rows,
            )
        }
}

/// Collects the export: any credential. The answer is the data that the
/// export document is rendered from.
pub fn export(state: &AppState, header: Option<&[u8]>) -> (r: Result<Payload, Failure>)
    requires
        state.wf(),
    ensures
        match guard_spec(header_view(header), &state.config, Tier::User) {
            Err(failure) => r == Err::<Payload, Failure>(failure),
            Ok(()) => {
                &&& r matches Ok(Payload::TicketsWithComments(rows))
                &&& export_spec(*state, rows@)
            },
        },
{
    match guard(header, &state.config, Tier::User) {
        Err(failure) => Err(failure),
        Ok(()) => {
            let tickets = state.store.tickets.listing();
            let pairs = state.store.join_assets(&tickets);
            let comments = state.store.comments.listing();
            let rows = export_rows(&pairs, &comments);
            assert(export_rows_spec(
                joined(tickets@, state.store.assets.rows()),
                comments@,
                rows@,
            ));
            Ok(Payload::TicketsWithComments(rows))
        },
    }
}

/// The outcome of uploading a photo. It succeeds exactly where the upload
/// is an image with pixels; the photo stored under `id` is then a JPEG of the
/// upload's size scaled into its box.
pub open spec fn upload_spec(
    pre: AppState,
    post: AppState,
    header: Option<Seq<u8>>,
    id: i32,
    image: Seq<u8>,
    r: Result<String, Failure>,
) -> bool {
    match guard_spec(header, &pre.config, Tier::User) {
        Err(failure) => r == Err::<String, Failure>(failure) && post == pre,
        Ok(()) => only_photos_differ(pre, post) && match r {
            Ok(path) => {
                &&& path@ == photo_filename_spec(id)
                &&& post.photos@.dom() == pre.photos@.dom().insert(id)
                &&& is_stored_for(image, post.photos@[id]@)
                &&& forall|other: i32|
                    other != id && pre.photos@.dom().contains(other) ==> post.photos@[other]
                        == pre.photos@[other]
            },
            Err(failure) => {
                &&& prepared_size(image) is None
                &&& post.photos@ == pre.photos@
                &&& failure == Failure::Failed(not_stored(image))
            },
        },
    }
}

/// Stores the photo of the ticket `id`: any credential. The upload is
/// decoded, scaled down where a side is longer than 1280 pixels, and kept as
/// JPEG in place of any earlier photo of that ticket. The answer is the path
/// of the photo.
pub fn upload(state: &mut AppState, header: Option<&[u8]>, id: i32, image: &[u8]) -> (r: Result<
    String,
    Failure,
>)
    ensures
        upload_spec(*old(state), *final(state), header_view(header), id, image@, r),
        old(state).wf() ==> final(state).wf(),
{
    broadcast use vstd::std_specs::hash::group_hash_axioms;

    match guard(header, &state.config, Tier::User) {
        Err(failure) => Err(failure),
        Ok(()) => match prepare(image) {
            Err(e) => Err(Failure::Failed(e)),
            Ok(jpeg) => {
                state.photos.insert(id, jpeg);
                Ok(photo_filename(id))
            },
        },
    }
}

/// The outcome of retrieving a photo.
pub open spec fn retrieve_spec(
    state: AppState,
    header: Option<Seq<u8>>,
    id: i32,
    r: Result<Vec<u8>, Failure>,
) -> bool {
    match guard_spec(header, &state.config, Tier::User) {
        Err(failure) => r == Err::<Vec<u8>, Failure>(failure),
        Ok(()) => if state.photos@.dom().contains(id) {
            r matches Ok(bytes) && bytes@ == state.photos@[id]@
        } else {
            r == Err::<Vec<u8>, Failure>(Failure::Failed(no_photo()))
        },
    }
}

/// Retrieves the photo of the ticket `id`: any credential.
pub fn retrieve(state: &AppState, header: Option<&[u8]>, id: i32) -> (r: Result<Vec<u8>, Failure>)
    ensures
        retrieve_spec(*state, header_view(header), id, r),
{
    broadcast use vstd::std_specs::hash::group_hash_axioms;

    match guard(header, &state.config, Tier::User) {
        Err(failure) => Err(failure),
        Ok(()) => match retrieved(state.photos.get(&id)) {
            Ok(bytes) => {
                let copy = bytes.clone();
                assert(copy@ =~= bytes@);
                Ok(copy)
            },
            Err(e) => Err(Failure::Failed(e)),
        },
    }
}

/// The outcome of deleting a photo.
pub open spec fn delete_photo_spec(
    pre: AppState,
    post: AppState,
    header: Option<Seq<u8>>,
    id: i32,
    r: Result<&'static str, Failure>,
) -> bool {
    match guard_spec(header, &pre.config, Tier::User) {
        Err(failure) => r == Err::<&'static str, Failure>(failure) && post == pre,
        Ok(()) => {
            &&& only_photos_differ(pre, post)
            &&& post.photos@ == pre.photos@.remove(id)
            &&& if pre.photos@.dom().contains(id) {
                r matches Ok(text) && text@ == "File deleted"@
            } else {
                r == Err::<&'static str, Failure>(Failure::Failed(no_photo()))
            }
        },
    }
}

/// Deletes the photo of the ticket `id`: any credential. Where there is none
/// the answer is the error for a missing photo.
pub fn delete_photo(state: &mut AppState, header: Option<&[u8]>, id: i32) -> (r: Result<
    &'static str,
    Failure,
>)
    ensures
        delete_photo_spec(*old(state), *final(state), header_view(header), id, r),
        old(state).wf() ==> final(state).wf(),
{
    broadcast use vstd::std_specs::hash::group_hash_axioms;

    match guard(header, &state.config, Tier::User) {
        Err(failure) => Err(failure),
        Ok(()) => {
            let removed = state.photos.remove(&id).is_some();
            match photo_deleted(removed) {
                Ok(text) => Ok(text),
                Err(e) => Err(Failure::Failed(e)),
            }
        },
    }
}

impl Record for Ticket {
    open spec fn key(&self) -> int {
        self.id as int
    }

    fn id(&self) -> (id: i32) {
        self.id
    }

    fn duplicate(&self) -> (r: Ticket) {
        self.clone()
    }
}

/// Tickets are listed latest first, and by id where times are equal.
impl Ranked for Ticket {
    open spec fn precedes(&self, other: &Ticket) -> bool {
        self.time.later_than(other.time) || (self.time == other.time && self.id < other.id)
    }

    fn comes_before(&self, other: &Ticket) -> (b: bool) {
        self.time.is_later_than(&other.time) || (self.time == other.time && self.id < other.id)
    }

    proof fn lemma_order(a: &Ticket, b: &Ticket, c: &Ticket) {
    }
}

} // verus!
