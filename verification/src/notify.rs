//! Notifications: what is rendered from which template, and what happens to
//! the rendered message.

use crate::mail::{Dispatch, Mailer, MailView, RealMailer, record};
use crate::models::asset::Asset;
use crate::models::comment::InComment;
use crate::models::ticket::{OutTicket, Ticket};
use crate::models::Timestamp;
use vstd::prelude::*;

verus! {

/// A template that could not be rendered, with the renderer's reason.
#[derive(Debug)]
pub struct RenderError {
    pub reason: String,
}

/// The data that a notification is rendered from.
#[derive(Debug)]
pub enum Payload {
    /// A ticket was created against an asset.
    NewTicket { asset: Asset, ticket: Ticket },
    /// A comment was submitted on a ticket.
    NewComment { comment: InComment, ticket: Ticket },
    /// A ticket was closed; its comments come with it.
    ClosedTicket(OutTicket),
    /// The digest of the tickets that are open.
    OpenTickets(Vec<Ticket>),
    /// The export of all tickets with their comments and assets.
    TicketsWithComments(Vec<(OutTicket, Asset)>),
}

/// A notification that is due: what to render, and for whom.
#[derive(Debug)]
pub struct Notice {
    pub payload: Payload,
    pub to: String,
}

impl Payload {
    /// The name of the template pair that renders this payload.
    pub open spec fn template_spec(&self) -> Seq<char> {
        match self {
            Payload::NewTicket { .. } => "new_ticket"@,
            Payload::NewComment { .. } => "new_comment"@,
            Payload::ClosedTicket(_) => "closed_ticket"@,
            Payload::OpenTickets(_) => "open_tickets"@,
            Payload::TicketsWithComments(_) => "tickets_with_comments"@,
        }
    }

    /// The name of the template pair that renders this payload.
    pub fn template_name(&self) -> (name: &'static str)
        ensures
            name@ == self.template_spec(),
    {
        match self {
            Payload::NewTicket { .. } => "new_ticket",
            Payload::NewComment { .. } => "new_comment",
            Payload::ClosedTicket(_) => "closed_ticket",
            Payload::OpenTickets(_) => "open_tickets",
            Payload::TicketsWithComments(_) => "tickets_with_comments",
        }
    }
}

/// What the time helper of the templates writes for a value that carries no
/// time.
pub open spec fn no_time_text() -> Seq<char> {
    "[NOT A TICKET NOR A COMMENT: CANNOT GET TIME]"@
}

/// What the time helper of the templates writes: the day of `time`, or the
/// placeholder where there is no time to write.
pub open spec fn formattime_spec(time: Option<Timestamp>) -> Seq<char> {
    match time {
        Some(t) => match t.day_spec() {
            Some(day) => day,
            None => no_time_text(),
        },
        None => no_time_text(),
    }
}

/// The time helper of the templates. It is handed the time of the ticket or
/// comment it was called on, or `None` where it was called on anything else,
/// and never fails: it then writes a placeholder.
pub fn formattime(time: Option<Timestamp>) -> (text: String)
    ensures
        text@ == formattime_spec(time),
{
    match time {
        Some(t) => match t.day() {
            Some(day) => day,
            None => "[NOT A TICKET NOR A COMMENT: CANNOT GET TIME]".to_owned(),
        },
        None => "[NOT A TICKET NOR A COMMENT: CANNOT GET TIME]".to_owned(),
    }
}

/// The name of the template that renders the body of `template`.
pub open spec fn body_template(template: Seq<char>) -> Seq<char> {
    template + "_body"@
}

/// The name of the template that renders the subject of `template`.
pub open spec fn subject_template(template: Seq<char>) -> Seq<char> {
    template + "_subject"@
}

/// Whether `render` may answer `out` when asked for the template `name`, with
/// or without HTML escaping.
pub open spec fn renders<F: Fn(String, bool) -> Result<String, RenderError>>(
    render: F,
    name: Seq<char>,
    escape: bool,
    out: Result<String, RenderError>,
) -> bool {
    exists|asked: String| asked@ == name && render.ensures((asked, escape), out)
}

/// The outcome of rendering the template pair `template` with `render`.
pub open spec fn template_spec<F: Fn(String, bool) -> Result<String, RenderError>>(
    render: F,
    template: Seq<char>,
    r: Result<(String, String), RenderError>,
) -> bool {
    match r {
        Ok((subject, body)) => {
            &&& renders(render, body_template(template), true, Ok(body))
            &&& renders(render, subject_template(template), false, Ok(subject))
        },
        Err(e) => {
            ||| renders(render, body_template(template), true, Err(e))
            ||| exists|body: String|
                {
                    &&& renders(render, body_template(template), true, Ok(body))
                    &&& renders(render, subject_template(template), false, Err(e))
                }
        },
    }
}

/// Renders a notification from the template pair `pair`: the body first,
/// with HTML escaping, then the subject, without. `render` renders one named
/// template; the first failure ends the rendering and is returned. On success
/// the result is the subject, then the body.
pub fn template<F: Fn(String, bool) -> Result<String, RenderError>>(
    render: F,
    pair: &str,
) -> (r: Result<(String, String), RenderError>)
    requires
        forall|name: String, escape: bool| render.requires((name, escape)),
    ensures
        template_spec(render, pair@, r),
{
    let mut body_name = pair.to_owned();
    body_name.append("_body");
    let ghost asked_body = body_name;
    let first = render(body_name, true);
    assert(renders(render, body_template(pair@), true, first)) by {
        assert(asked_body@ == body_template(pair@) && render.ensures((asked_body, true), first));
    }
    match first {
        Ok(body) => {
            let mut subject_name = pair.to_owned();
            subject_name.append("_subject");
            let ghost asked_subject = subject_name;
            let second = render(subject_name, false);
            assert(renders(render, subject_template(pair@), false, second)) by {
                assert(asked_subject@ == subject_template(pair@) && render.ensures(
                    (asked_subject, false),
                    second,
                ));
            }
            match second {
                Ok(subject) => Ok((subject, body)),
                Err(e) => Err(e),
            }
        },
        Err(e) => Err(e),
    }
}

/// The outcome of handing a rendered notification to the mailer: a message
/// that could not be rendered is dropped, any other is sent to `to`.
pub open spec fn deliver_spec(
    before: Mailer,
    after: Mailer,
    to: Seq<char>,
    rendered: Result<(String, String), RenderError>,
    dispatch: Option<Dispatch>,
) -> bool {
    match rendered {
        Err(_) => dispatch is None && after == before,
        Ok((subject, body)) => {
            let mail = MailView { to, subject: subject@, body: body@ };
            &&& dispatch is Some
            &&& after.is_test() == before.is_test()
            &&& before.is_test() ==> dispatch->0 is Recorded && after.recorded() == record(
                before.recorded(),
                mail,
            )
            &&& !before.is_test() ==> after.recorded() == before.recorded()
                && RealMailer::dispatch_ok(dispatch->0, mail)
        },
    }
}

/// Hands a rendered notification to the mailer. A notification that could not
/// be rendered is dropped: the failure never reaches the caller of the
/// operation that caused it.
pub fn deliver(
    mailer: &mut Mailer,
    to: String,
    rendered: Result<(String, String), RenderError>,
) -> (dispatch: Option<Dispatch>)
    ensures
        deliver_spec(*old(mailer), *final(mailer), to@, rendered, dispatch),
{
    match rendered {
        Ok((subject, body)) => Some(mailer.send_mail_to(subject, body, to)),
        Err(_) => None,
    }
}

} // verus!
