//! What holds of the tracker across operations, proved from the contracts of
//! the operations.

use crate::config::{
    ascii_text, guard_spec, is_header_text, lemma_secrets_differ, AppState, Config, Rejection, Tier,
};
use crate::errors::Failure;
use crate::mail::{record, Dispatch, Mailer, MailView};
use crate::models::asset;
use crate::models::asset::{Asset, InAsset};
use crate::models::comment;
use crate::models::comment::{Comment, InComment};
use crate::models::ticket;
use crate::models::ticket::{InTicket, OutTicket, Ticket};
use crate::notify::{deliver_spec, Notice};
use crate::photo::{is_stored_for, law_photo_size, photo_filename_spec, photo_size, MAX_SIDE};
use crate::table::{
    ascending, has_key, index_of, keys, lemma_index_of, next_key, row_of, without, Record,
};
use vstd::prelude::*;

verus! {

/// The row appended to a table is the row found under its id.
pub proof fn lemma_pushed<T: Record>(rows: Seq<T>, row: T)
    requires
        ascending(rows),
        row.key() == next_key(rows),
        row.key() <= i32::MAX,
    ensures
        ascending(rows.push(row)),
        has_key(rows.push(row), row.key()),
        row_of(rows.push(row), row.key()) == row,
{
    let after = rows.push(row);
    assert forall|i: int, j: int| 0 <= i < j < after.len() implies #[trigger] after[i].key()
        < #[trigger] after[j].key() by {
        if j == rows.len() {
            assert(after[i] == rows[i]);
            assert(rows[i].key() <= rows.last().key());
        } else {
            assert(after[i] == rows[i] && after[j] == rows[j]);
        }
    }
    assert forall|i: int| 0 <= i < after.len() implies 1 <= #[trigger] after[i].key()
        <= i32::MAX by {
        if i < rows.len() {
            assert(after[i] == rows[i]);
        }
    }
    lemma_index_of(after, rows.len() as int);
}

/// No row of a table is left under the id of a row that was removed.
pub proof fn lemma_removed<T: Record>(rows: Seq<T>, id: int)
    requires
        ascending(rows),
    ensures
        !has_key(without(rows, id), id),
        ascending(without(rows, id)),
{
    if has_key(rows, id) {
        let at = index_of(rows, id);
        let after = rows.remove(at);
        assert forall|i: int| 0 <= i < after.len() implies (#[trigger] after[i]).key() != id by {
            if i < at {
                assert(after[i] == rows[i]);
                assert(rows[i].key() < rows[at].key());
            } else {
                assert(after[i] == rows[i + 1]);
                assert(rows[at].key() < rows[i + 1].key());
            }
        }
        assert forall|i: int, j: int| 0 <= i < j < after.len() implies #[trigger] after[i].key()
            < #[trigger] after[j].key() by {
            let a = if i < at { i } else { i + 1 };
            let b = if j < at { j } else { j + 1 };
            assert(after[i] == rows[a] && after[j] == rows[b]);
        }
        assert forall|i: int| 0 <= i < after.len() implies 1 <= #[trigger] after[i].key()
            <= i32::MAX by {
            let a = if i < at { i } else { i + 1 };
            assert(after[i] == rows[a]);
        }
    }
}

/// An asset that was created is read back under its id as it was stored:
/// with the submitted fields, trimmed.
pub proof fn law_asset_read_after_create(
    pre: AppState,
    mid: AppState,
    admin: Option<Seq<u8>>,
    input: InAsset,
    created: Asset,
    user: Option<Seq<u8>>,
    read: Result<Asset, Failure>,
)
    requires
        pre.wf(),
        asset::create_spec(pre, mid, admin, input, Ok((201u16, created))),
        guard_spec(user, &mid.config, Tier::User) is Ok,
        asset::read_spec(mid, user, created.id, read),
    ensures
        read == Ok::<Asset, Failure>(created),
        created@.input() == input@.trimmed(),
{
    lemma_pushed(pre.store.assets.rows(), created);
}

/// A ticket that was created is read back under its id as it was stored:
/// with the submitted fields, trimmed.
pub proof fn law_ticket_read_after_create(
    pre: AppState,
    mid: AppState,
    creator: Option<Seq<u8>>,
    input: InTicket,
    created: Ticket,
    notice: Notice,
    user: Option<Seq<u8>>,
    read: Result<OutTicket, Failure>,
)
    requires
        pre.wf(),
        ticket::create_spec(pre, mid, creator, input, Ok((201u16, created, notice))),
        guard_spec(user, &mid.config, Tier::User) is Ok,
        ticket::read_spec(mid, user, created.id, read),
    ensures
        read matches Ok(out) && out.ticket == created,
        created@.input() == input@.trimmed(),
{
    lemma_pushed(pre.store.tickets.rows(), created);
}

/// A comment that was created is read back under its id as it was stored:
/// with the submitted fields, trimmed.
pub proof fn law_comment_read_after_create(
    pre: AppState,
    mid: AppState,
    creator: Option<Seq<u8>>,
    input: InComment,
    created: Comment,
    notice: Notice,
    user: Option<Seq<u8>>,
    read: Result<Comment, Failure>,
)
    requires
        pre.wf(),
        comment::create_spec(pre, mid, creator, input, Ok((201u16, created, notice))),
        guard_spec(user, &mid.config, Tier::User) is Ok,
        comment::read_spec(mid, user, created.id, read),
    ensures
        read == Ok::<Comment, Failure>(created),
        created@.input() == input@.trimmed(),
{
    lemma_pushed(pre.store.comments.rows(), created);
}

/// After an asset was deleted, reading it and deleting it again both answer
/// that it is not found.
pub proof fn law_asset_gone_after_delete(
    pre: AppState,
    mid: AppState,
    post: AppState,
    admin: Option<Seq<u8>>,
    id: i32,
    user: Option<Seq<u8>>,
    read: Result<Asset, Failure>,
    again: Result<(), Failure>,
)
    requires
        pre.wf(),
        asset::delete_spec(pre, mid, admin, id, Ok(())),
        guard_spec(user, &mid.config, Tier::User) is Ok,
        asset::read_spec(mid, user, id, read),
        asset::delete_spec(mid, post, admin, id, again),
    ensures
        read matches Err(Failure::Failed(e)) && e.status_spec() == 404,
        again matches Err(Failure::Failed(e)) && e.status_spec() == 404,
{
    lemma_removed(pre.store.assets.rows(), id as int);
}

/// After a ticket was deleted, reading it and deleting it again both answer
/// that it is not found.
pub proof fn law_ticket_gone_after_delete(
    pre: AppState,
    mid: AppState,
    post: AppState,
    admin: Option<Seq<u8>>,
    id: i32,
    user: Option<Seq<u8>>,
    read: Result<OutTicket, Failure>,
    again: Result<(), Failure>,
)
    requires
        pre.wf(),
        ticket::delete_spec(pre, mid, admin, id, Ok(())),
        guard_spec(user, &mid.config, Tier::User) is Ok,
        ticket::read_spec(mid, user, id, read),
        ticket::delete_spec(mid, post, admin, id, again),
    ensures
        read matches Err(Failure::Failed(e)) && e.status_spec() == 404,
        again matches Err(Failure::Failed(e)) && e.status_spec() == 404,
{
    lemma_removed(pre.store.tickets.rows(), id as int);
}

/// After a comment was deleted, reading it and deleting it again both answer
/// that it is not found.
pub proof fn law_comment_gone_after_delete(
    pre: AppState,
    mid: AppState,
    post: AppState,
    admin: Option<Seq<u8>>,
    id: i32,
    user: Option<Seq<u8>>,
    read: Result<Comment, Failure>,
    again: Result<(), Failure>,
)
    requires
        pre.wf(),
        comment::delete_spec(pre, mid, admin, id, Ok(())),
        guard_spec(user, &mid.config, Tier::User) is Ok,
        comment::read_spec(mid, user, id, read),
        comment::delete_spec(mid, post, admin, id, again),
    ensures
        read matches Err(Failure::Failed(e)) && e.status_spec() == 404,
        again matches Err(Failure::Failed(e)) && e.status_spec() == 404,
{
    lemma_removed(pre.store.comments.rows(), id as int);
}

/// A ticket for an asset that does not exist is refused as not found, and
/// no row is inserted: the ids of the tickets are as before.
pub proof fn law_ticket_needs_asset(
    pre: AppState,
    post: AppState,
    user: Option<Seq<u8>>,
    input: InTicket,
    r: Result<(u16, Ticket, Notice), Failure>,
)
    requires
        guard_spec(user, &pre.config, Tier::User) is Ok,
        !has_key(pre.store.assets.rows(), input.asset_id as int),
        ticket::create_spec(pre, post, user, input, r),
    ensures
        r matches Err(Failure::Failed(e)) && e.status_spec() == 404,
        keys(post.store.tickets.rows()) == keys(pre.store.tickets.rows()),
        post == pre,
{
}

/// A comment for a ticket that does not exist is refused as not found, and
/// no row is inserted: the ids of the comments are as before.
pub proof fn law_comment_needs_ticket(
    pre: AppState,
    post: AppState,
    user: Option<Seq<u8>>,
    input: InComment,
    r: Result<(u16, Comment, Notice), Failure>,
)
    requires
        guard_spec(user, &pre.config, Tier::User) is Ok,
        !has_key(pre.store.tickets.rows(), input.ticket_id as int),
        comment::create_spec(pre, post, user, input, r),
    ensures
        r matches Err(Failure::Failed(e)) && e.status_spec() == 404,
        keys(post.store.comments.rows()) == keys(pre.store.comments.rows()),
        post == pre,
{
}

/// The two tiers: a request without a credential is unauthorized wherever a
/// tier is asked for; the user secret is forbidden where admin is asked for;
/// the admin secret is admitted wherever the user secret is.
pub proof fn law_tiers(config: &Config, header: Option<Seq<u8>>, tier: Tier)
    requires
        config.wf(),
    ensures
        header is None ==> guard_spec(header, config, tier) == Err::<(), Failure>(
            Failure::Rejected(Rejection::Missing),
        ) && Rejection::Missing.status_spec() == 401,
        header matches Some(raw) && is_header_text(raw) && ascii_text(raw) == config.user_token()
            ==> {
            &&& guard_spec(header, config, Tier::User) is Ok
            &&& guard_spec(header, config, Tier::Admin) == Err::<(), Failure>(
                Failure::Rejected(Rejection::Denied),
            )
            &&& Rejection::Denied.status_spec() == 403
        },
        header matches Some(raw) && is_header_text(raw) && ascii_text(raw) == config.admin_token()
            ==> guard_spec(header, config, tier) is Ok,
        guard_spec(header, config, Tier::Admin) is Ok ==> guard_spec(header, config, Tier::User)
            is Ok,
{
    lemma_secrets_differ(config);
}

/// Deleting a ticket removes its photo: retrieving the photo afterwards
/// answers that it is not found.
pub proof fn law_photo_gone_with_ticket(
    pre: AppState,
    post: AppState,
    admin: Option<Seq<u8>>,
    id: i32,
    user: Option<Seq<u8>>,
    retrieved: Result<Vec<u8>, Failure>,
)
    requires
        ticket::delete_spec(pre, post, admin, id, Ok(())),
        guard_spec(user, &post.config, Tier::User) is Ok,
        ticket::retrieve_spec(post, user, id, retrieved),
    ensures
        retrieved matches Err(Failure::Failed(e)) && e.status_spec() == 404,
{
}

/// A photo that was uploaded is retrieved as it was stored: a JPEG of the
/// upload's size scaled into its box. It is never enlarged and has no side
/// longer than 1280 pixels; an upload within 1280 pixels keeps its size, a
/// larger one has its longer side at exactly 1280.
pub proof fn law_photo_retrieved(
    pre: AppState,
    post: AppState,
    uploader: Option<Seq<u8>>,
    id: i32,
    image: Seq<u8>,
    path: String,
    user: Option<Seq<u8>>,
    retrieved: Result<Vec<u8>, Failure>,
)
    requires
        ticket::upload_spec(pre, post, uploader, id, image, Ok(path)),
        guard_spec(user, &post.config, Tier::User) is Ok,
        ticket::retrieve_spec(post, user, id, retrieved),
    ensures
        retrieved matches Ok(bytes) && bytes@ == post.photos@[id]@ && is_stored_for(
            image,
            bytes@,
        ),
        ({
            let source = photo_size(image)->0;
            let stored = photo_size(retrieved->Ok_0@)->0;
            &&& 1 <= stored.0 <= source.0 && 1 <= stored.1 <= source.1
            &&& stored.0 <= MAX_SIDE && stored.1 <= MAX_SIDE
            &&& source.0 <= MAX_SIDE && source.1 <= MAX_SIDE ==> stored == source
            &&& source.0 > MAX_SIDE || source.1 > MAX_SIDE ==> stored.0 == MAX_SIDE || stored.1
                == MAX_SIDE
            &&& source == (2560u32, 1280u32) ==> stored == (1280u32, 640u32)
        }),
{
    assert(post.photos@.dom().contains(id));
    let source = photo_size(image)->0;
    let stored = photo_size(post.photos@[id]@)->0;
    law_photo_size(source, stored);
}

/// An upload that is an image with pixels succeeds for every caller with a
/// credential, whatever its size: a photo larger than 1280 pixels is stored
/// with its longer side at exactly 1280 and no side longer.
pub proof fn law_upload_succeeds(
    pre: AppState,
    post: AppState,
    user: Option<Seq<u8>>,
    id: i32,
    image: Seq<u8>,
    r: Result<String, Failure>,
)
    requires
        guard_spec(user, &pre.config, Tier::User) is Ok,
        photo_size(image) matches Some(size) && size.0 > 0 && size.1 > 0,
        ticket::upload_spec(pre, post, user, id, image, r),
    ensures
        r matches Ok(path) && path@ == photo_filename_spec(id),
        post.photos@.dom().contains(id),
        ({
            let source = photo_size(image)->0;
            &&& photo_size(post.photos@[id]@) matches Some(stored)
            &&& stored.0 <= MAX_SIDE && stored.1 <= MAX_SIDE
            &&& source.0 > MAX_SIDE || source.1 > MAX_SIDE ==> stored.0 == MAX_SIDE || stored.1
                == MAX_SIDE
            &&& source.0 <= MAX_SIDE && source.1 <= MAX_SIDE ==> stored == source
        }),
{
    let source = photo_size(image)->0;
    let stored = photo_size(post.photos@[id]@)->0;
    law_photo_size(source, stored);
}

/// Closing an open ticket that names a creator mail makes exactly one
/// notification due, addressed to that mail; once it is rendered and handed
/// to the recording transport, the transport holds it exactly once.
pub proof fn law_closing_notifies_creator(
    pre: AppState,
    post: AppState,
    admin: Option<Seq<u8>>,
    id: i32,
    body: Ticket,
    notice: Option<Notice>,
    before: Mailer,
    after: Mailer,
    subject: String,
    text: String,
    dispatch: Option<Dispatch>,
)
    requires
        pre.wf(),
        has_key(pre.store.tickets.rows(), id as int),
        !row_of(pre.store.tickets.rows(), id as int).is_closed,
        body.is_closed,
        crate::text::trim_spec(body.creator_mail@).len() > 0,
        ticket::update_spec(pre, post, admin, id, body, Ok((204u16, notice))),
        before.is_test(),
        before.recorded().no_duplicates(),
        notice is Some ==> deliver_spec(
            before,
            after,
            notice->0.to@,
            Ok((subject, text)),
            dispatch,
        ),
    ensures
        notice matches Some(n) && n.to@ == crate::text::trim_spec(body.creator_mail@),
        ({
            let mail = MailView { to: notice->0.to@, subject: subject@, body: text@ };
            after.recorded().filter(same_as(mail)).len() == 1
        }),
{
    let n = notice->0;
    let mail = MailView { to: n.to@, subject: subject@, body: text@ };
    lemma_recorded_once(before.recorded(), mail);
}

/// The messages equal to `mail`.
pub open spec fn same_as(mail: MailView) -> spec_fn(MailView) -> bool {
    |m: MailView| m == mail
}

/// A message recorded into a list without duplicates occurs in it exactly
/// once afterwards.
pub proof fn lemma_recorded_once(recorded: Seq<MailView>, mail: MailView)
    requires
        recorded.no_duplicates(),
    ensures
        record(recorded, mail).no_duplicates(),
        record(recorded, mail).filter(same_as(mail)).len() == 1,
{
    let after = record(recorded, mail);
    if !recorded.contains(mail) {
        assert(after[after.len() - 1] == mail);
        assert forall|i: int, j: int| 0 <= i < after.len() && 0 <= j < after.len() && i
            != j implies after[i] != after[j] by {
            if i < recorded.len() && j < recorded.len() {
                assert(recorded[i] != recorded[j]);
            } else if i < recorded.len() {
                assert(recorded[i] != mail);
            } else {
                assert(recorded[j] != mail);
            }
        }
    }
    assert(after.contains(mail));
    lemma_count_once(after, mail);
}

/// An element of a list without duplicates occurs in it exactly once.
pub proof fn lemma_count_once(s: Seq<MailView>, mail: MailView)
    requires
        s.no_duplicates(),
    ensures
        s.filter(same_as(mail)).len() == (if s.contains(mail) {
            1nat
        } else {
            0nat
        }),
    decreases s.len(),
{
    reveal(Seq::filter);
    if s.len() > 0 {
        let rest = s.drop_last();
        assert(rest.no_duplicates());
        lemma_count_once(rest, mail);
        if s.last() == mail {
            if rest.contains(mail) {
                let i = choose|i: int| 0 <= i < rest.len() && rest[i] == mail;
                assert(s[i] == s[s.len() - 1]);
            }
            assert(s.contains(mail));
        } else {
            if s.contains(mail) {
                let i = choose|i: int| 0 <= i < s.len() && s[i] == mail;
                assert(rest[i] == mail);
            }
            if rest.contains(mail) {
                let i = choose|i: int| 0 <= i < rest.len() && rest[i] == mail;
                assert(s[i] == mail);
            }
        }
    }
}

/// Deleting all rows of a table succeeds on an empty table, and succeeds
/// again on the table that it left empty.
pub proof fn law_bulk_delete_twice(
    pre: AppState,
    mid: AppState,
    post: AppState,
    header: Option<Seq<u8>>,
    first: Result<(), Failure>,
    second: Result<(), Failure>,
)
    requires
        guard_spec(header, &pre.config, Tier::Admin) is Ok,
    ensures
        asset::destroy_spec(pre, mid, header, first) && asset::destroy_spec(mid, post, header, second)
            ==> first is Ok && second is Ok && post.store.assets.rows().len() == 0,
        ticket::destroy_spec(pre, mid, header, first) && ticket::destroy_spec(
            mid,
            post,
            header,
            second,
        ) ==> first is Ok && second is Ok && post.store.tickets.rows().len() == 0,
        comment::destroy_spec(pre, mid, header, first) && comment::destroy_spec(
            mid,
            post,
            header,
            second,
        ) ==> first is Ok && second is Ok && post.store.comments.rows().len() == 0,
{
}

} // verus!
