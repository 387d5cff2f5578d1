//! The notification dispatcher: a transport that either records every
//! message in memory, for inspection, or hands it over for delivery by SMTP.

use crate::text::{quote, quoted, split, split_spec, texts, trim, trim_spec};
use vstd::prelude::*;

verus! {

/// One message: recipient list, subject and body.
#[derive(Debug)]
pub struct Mail {
    pub to: String,
    pub subject: String,
    pub body: String,
}

/// The contents of a message as plain text.
pub struct MailView {
    pub to: Seq<char>,
    pub subject: Seq<char>,
    pub body: Seq<char>,
}

impl View for Mail {
    type V = MailView;

    open spec fn view(&self) -> MailView {
        MailView { to: self.to@, subject: self.subject@, body: self.body@ }
    }
}

/// A message that passed the recipient rules and is ready for the SMTP relay.
/// Its content type is HTML.
#[derive(Debug)]
pub struct Envelope {
    pub recipients: Vec<String>,
    pub subject: String,
    pub body: String,
}

/// What the caller has to do after handing a message to the mailer.
#[derive(Debug)]
pub enum Dispatch {
    /// The message was recorded in memory; nothing is left to do.
    Recorded,
    /// The message has to be delivered through the SMTP relay.
    Deliver(Envelope),
    /// A recipient is not a mail address; the message is dropped.
    Refused,
}

/// Whether `lettre` accepts `s` as a mail address.
pub uninterp spec fn is_mail_address(s: Seq<char>) -> bool;

/// Parses `s` as a `lettre::Address` (`str::parse`) and tells whether that
/// succeeded.
#[verifier::external_body]
fn address_parses(s: &str) -> (ok: bool)
    ensures
        ok == is_mail_address(s@),
{
    s.parse::<lettre::Address>().is_ok()
}

/// The recipients named by a comma-separated list, each trimmed.
pub open spec fn recipient_list(to: Seq<char>) -> Seq<Seq<char>> {
    split_spec(to, ',').map_values(|piece: Seq<char>| trim_spec(piece))
}

/// The recipients of a comma-separated list, if every one of them is a mail
/// address.
pub open spec fn recipients_spec(to: Seq<char>) -> Option<Seq<Seq<char>>> {
    let list = recipient_list(to);
    if forall|i: int| 0 <= i < list.len() ==> is_mail_address(#[trigger] list[i]) {
        Some(list)
    } else {
        None
    }
}

/// Splits a comma-separated recipient list, trims every entry and checks that
/// each is a mail address.
pub fn recipients(to: &str) -> (r: Option<Vec<String>>)
    ensures
        r matches Some(list) ==> recipients_spec(to@) == Some(texts(list@)),
        r is None ==> recipients_spec(to@) is None,
{
    let pieces = split(to, ',');
    let ghost list = recipient_list(to@);
    let mut out: Vec<String> = Vec::new();
    let mut i: usize = 0;
    while i < pieces.len()
        invariant
            i <= pieces.len(),
            texts(pieces@) == split_spec(to@, ','),
            list == recipient_list(to@),
            out@.len() == i,
            forall|j: int| 0 <= j < i ==> (#[trigger] out@[j])@ == list[j],
            forall|j: int| 0 <= j < i ==> is_mail_address(#[trigger] list[j]),
        decreases pieces.len() - i,
    {
        let entry = trim(pieces[i].as_str());
        proof {
            assert(texts(pieces@)[i as int] == pieces@[i as int]@);
            assert(list[i as int] == trim_spec(split_spec(to@, ',')[i as int]));
        }
        if !address_parses(entry.as_str()) {
            return None;
        }
        out.push(entry);
        i += 1;
    }
    proof {
        assert(texts(pieces@).len() == pieces@.len());
        assert(texts(out@) =~= list);
    }
    Some(out)
}

impl Mail {
    /// The `Debug` rendering of a message.
    pub open spec fn describe_spec(m: MailView) -> Seq<char> {
        "Mail { to: "@ + quoted(m.to) + ", subject: "@ + quoted(m.subject) + ", body: "@ + quoted(
            m.body,
        ) + " }"@
    }

    /// Renders the message as `Debug` formatting does.
    pub fn describe(&self) -> (r: String)
        ensures
            r@ == Mail::describe_spec(self@),
    {
        let mut r = "Mail { to: ".to_owned();
        r.append(quote(self.to.as_str()).as_str());
        r.append(", subject: ");
        r.append(quote(self.subject.as_str()).as_str());
        r.append(", body: ");
        r.append(quote(self.body.as_str()).as_str());
        r.append(" }");
        r
    }

    /// Whether two messages have the same recipient list, subject and body.
    pub fn same(&self, other: &Mail) -> (b: bool)
        ensures
            b == (self@ == other@),
    {
        self.to == other.to && self.subject == other.subject && self.body == other.body
    }
}

/// The views of a list of messages.
pub open spec fn mail_views(mails: Seq<Mail>) -> Seq<MailView> {
    mails.map_values(|m: Mail| m@)
}

/// A list of recorded messages after `mail` was recorded too: unchanged where
/// it already holds `mail`, else with `mail` at its end.
pub open spec fn record(recorded: Seq<MailView>, mail: MailView) -> Seq<MailView> {
    if recorded.contains(mail) {
        recorded
    } else {
        recorded.push(mail)
    }
}

/// The concatenated `Debug` renderings of a list of messages.
pub open spec fn printed(recorded: Seq<MailView>) -> Seq<char>
    decreases recorded.len(),
{
    if recorded.len() == 0 {
        Seq::empty()
    } else {
        printed(recorded.drop_last()) + Mail::describe_spec(recorded.last())
    }
}

/// The transport for tests: records every distinct message, sends nothing.
pub struct MockMailer {
    test_mails: Vec<Mail>,
}

impl MockMailer {
    #[verifier::type_invariant]
    spec fn distinct(&self) -> bool {
        mail_views(self.test_mails@).no_duplicates()
    }

    /// The recorded messages, in the order in which each was first sent.
    pub closed spec fn recorded(&self) -> Seq<MailView> {
        mail_views(self.test_mails@)
    }

    /// A transport that has recorded nothing.
    pub fn new() -> (m: MockMailer)
        ensures
            m.recorded() == Seq::<MailView>::empty(),
    {
        let m = MockMailer { test_mails: Vec::new() };
        assert(mail_views(m.test_mails@) =~= Seq::<MailView>::empty());
        m
    }

    /// Whether `mail` was recorded before.
    pub fn contains(&self, mail: &Mail) -> (b: bool)
        ensures
            b == self.recorded().contains(mail@),
    {
        let mut i: usize = 0;
        while i < self.test_mails.len()
            invariant
                i <= self.test_mails.len(),
                forall|j: int| 0 <= j < i ==> mail_views(self.test_mails@)[j] != mail@,
            decreases self.test_mails.len() - i,
        {
            if self.test_mails[i].same(mail) {
                assert(mail_views(self.test_mails@)[i as int] == mail@);
                return true;
            }
            i += 1;
        }
        false
    }

    /// Records a message unless an equal one was recorded before.
    pub fn send_mail_to(&mut self, subject: String, body: String, to: String)
        ensures
            final(self).recorded() == record(
                old(self).recorded(),
                MailView { to: to@, subject: subject@, body: body@ },
            ),
            final(self).recorded().no_duplicates(),
    {
        proof {
            use_type_invariant(&*self);
        }
        let mail = Mail { to, subject, body };
        if !self.contains(&mail) {
            let ghost before = mail_views(self.test_mails@);
            let mut taken = MockMailer::new();
            std::mem::swap(self, &mut taken);
            let MockMailer { test_mails: mut mails } = taken;
            mails.push(mail);
            assert(mail_views(mails@) =~= before.push(mail@));
            *self = MockMailer { test_mails: mails };
        }
    }

    /// The `Debug` renderings of the recorded messages, one after the other.
    pub fn print_test_mails(&self) -> (r: String)
        ensures
            r@ == printed(self.recorded()),
    {
        let mut r = String::new();
        let mut i: usize = 0;
        while i < self.test_mails.len()
            invariant
                i <= self.test_mails.len(),
                r@ == printed(mail_views(self.test_mails@).take(i as int)),
            decreases self.test_mails.len() - i,
        {
            proof {
                let next = mail_views(self.test_mails@).take(i + 1);
                assert(next.drop_last() =~= mail_views(self.test_mails@).take(i as int));
                assert(next.last() == self.test_mails@[i as int]@);
            }
            r.append(self.test_mails[i].describe().as_str());
            i += 1;
        }
        assert(mail_views(self.test_mails@).take(i as int) =~= mail_views(self.test_mails@));
        r
    }

    /// How many distinct messages were recorded.
    pub fn count(&self) -> (n: usize)
        ensures
            n == self.recorded().len(),
    {
        self.test_mails.len()
    }

    /// The recorded message at position `i`.
    pub fn get(&self, i: usize) -> (mail: &Mail)
        requires
            i < self.recorded().len(),
        ensures
            mail@ == self.recorded()[i as int],
    {
        &self.test_mails[i]
    }
}

/// The transport for production: checks the recipients and hands the message
/// over for delivery. It keeps no state.
pub struct RealMailer {}

impl RealMailer {
    /// The outcome of handing a message to the SMTP transport.
    pub open spec fn dispatch_ok(dispatch: Dispatch, mail: MailView) -> bool {
        match dispatch {
            Dispatch::Recorded => false,
            Dispatch::Deliver(e) => {
                &&& recipients_spec(mail.to) == Some(texts(e.recipients@))
                &&& e.subject@ == mail.subject
                &&& e.body@ == mail.body
            },
            Dispatch::Refused => recipients_spec(mail.to) is None,
        }
    }

    /// Prepares a message for the SMTP relay: `to` is a comma-separated list of
    /// addresses. The message is refused where one of them is not an address.
    pub fn send_mail_to(&mut self, subject: String, body: String, to: String) -> (dispatch:
        Dispatch)
        ensures
            RealMailer::dispatch_ok(dispatch, MailView { to: to@, subject: subject@, body: body@ }),
    {
        match recipients(to.as_str()) {
            Some(list) => Dispatch::Deliver(Envelope { recipients: list, subject, body }),
            None => Dispatch::Refused,
        }
    }

    /// The production transport records nothing.
    pub fn print_test_mails(&self) -> (r: String)
        ensures
            r@ == "Not implemented..."@,
    {
        "Not implemented...".to_owned()
    }
}

/// The notification transport chosen at start-up.
pub enum Mailer {
    Mock(MockMailer),
    Real(RealMailer),
}

impl Mailer {
    /// Whether this is the recording transport.
    pub open spec fn is_test(&self) -> bool {
        self is Mock
    }

    /// The recorded messages; none for the production transport.
    pub open spec fn recorded(&self) -> Seq<MailView> {
        match self {
            Mailer::Mock(m) => m.recorded(),
            Mailer::Real(_) => Seq::empty(),
        }
    }

    /// The transport for the given mode: recording in test mode, SMTP else.
    pub fn new(test_mode: bool) -> (m: Mailer)
        ensures
            m.is_test() == test_mode,
            m.recorded() == Seq::<MailView>::empty(),
    {
        if test_mode {
            Mailer::Mock(MockMailer::new())
        } else {
            Mailer::Real(RealMailer {  })
        }
    }

    /// Hands a message to the transport. The recording transport keeps it,
    /// once; the production transport returns it for delivery, or refuses it.
    pub fn send_mail_to(&mut self, subject: String, body: String, to: String) -> (dispatch:
        Dispatch)
        ensures
            final(self).is_test() == old(self).is_test(),
            old(self).is_test() ==> dispatch is Recorded && final(self).recorded() == record(
                old(self).recorded(),
                MailView { to: to@, subject: subject@, body: body@ },
            ),
            !old(self).is_test() ==> final(self).recorded() == old(self).recorded()
                && RealMailer::dispatch_ok(
                dispatch,
                MailView { to: to@, subject: subject@, body: body@ },
            ),
            final(self).recorded().no_duplicates(),
    {
        match self {
            Mailer::Mock(m) => {
                m.send_mail_to(subject, body, to);
                Dispatch::Recorded
            },
            Mailer::Real(m) => m.send_mail_to(subject, body, to),
        }
    }

    /// The recorded messages as text: their `Debug` renderings, one after the
    /// other, for the recording transport; a fixed notice for the other.
    pub fn print_test_mails(&self) -> (r: String)
        ensures
            self.is_test() ==> r@ == printed(self.recorded()),
            !self.is_test() ==> r@ == "Not implemented..."@,
    {
        match self {
            Mailer::Mock(m) => m.print_test_mails(),
            Mailer::Real(m) => m.print_test_mails(),
        }
    }
}

} // verus!
