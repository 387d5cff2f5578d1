//! Process-wide configuration and the two-tier bearer-token authenticator.
//!
//! Two secrets are fixed at start-up. A request presents at most one opaque
//! credential; it is classified as admin, user or rejected, and every route
//! states the least tier it needs. Admin privilege includes user privilege.

use crate::errors::Failure;
use crate::mail::{Mailer, MailView};
use crate::models::asset::Asset;
use crate::models::comment::Comment;
use crate::models::ticket::Ticket;
use crate::store::Store;
use std::collections::HashMap;
use vstd::prelude::*;

verus! {

/// Length of a generated secret.
pub const SECRET_LENGTH: usize = 48;

/// The prefix that namespaces the admin secret.
pub open spec fn admin_prefix() -> Seq<char> {
    "$ADMIN$"@
}

/// The prefix that namespaces the user secret.
pub open spec fn user_prefix() -> Seq<char> {
    "$USER$"@
}

/// Whether `b` is an ASCII letter or digit.
pub open spec fn is_alphanumeric(b: u8) -> bool {
    ||| 0x30 <= b <= 0x39
    ||| 0x41 <= b <= 0x5A
    ||| 0x61 <= b <= 0x7A
}

/// Whether `s` has the shape of a generated secret: `SECRET_LENGTH` ASCII
/// letters and digits.
pub open spec fn is_generated_secret(s: Seq<char>) -> bool {
    &&& s.len() == SECRET_LENGTH
    &&& forall|i: int| 0 <= i < s.len() ==> (#[trigger] s[i] as u32) < 128 && is_alphanumeric(
        s[i] as u8,
    )
}

/// Whether a header byte is visible ASCII (or a tab), the only bytes a header
/// value may hold to be read as text.
pub open spec fn is_visible_ascii(b: u8) -> bool {
    32 <= b < 127 || b == 9
}

/// The text of a header value made of visible ASCII only.
pub open spec fn ascii_text(raw: Seq<u8>) -> Seq<char> {
    Seq::new(raw.len(), |i: int| raw[i] as char)
}

/// Whether `raw` can be read as header text.
pub open spec fn is_header_text(raw: Seq<u8>) -> bool {
    forall|i: int| 0 <= i < raw.len() ==> is_visible_ascii(#[trigger] raw[i])
}

/// Draws one byte from `rand`'s `Alphanumeric` distribution with the
/// thread-local generator (`Rng::sample`). The distribution yields only ASCII
/// letters and digits; which one is left open.
#[verifier::external_body]
fn sample_alphanumeric() -> (b: u8)
    ensures
        is_alphanumeric(b),
{
    rand::Rng::sample(&mut rand::thread_rng(), rand::distributions::Alphanumeric)
}

/// Appends one character to a string (`String::push`).
#[verifier::external_body]
fn push_char(s: &mut String, c: char)
    ensures
        final(s)@ == old(s)@.push(c),
{
    s.push(c)
}

/// Reads header bytes as text with `http`'s `HeaderValue::from_bytes` and
/// `HeaderValue::to_str`: the value is text exactly when every byte is visible
/// ASCII or a tab, and the text then holds one character per byte.
#[verifier::external_body]
fn header_text(raw: &[u8]) -> (text: Option<String>)
    ensures
        text is Some <==> is_header_text(raw@),
        text matches Some(t) ==> t@ == ascii_text(raw@),
{
    let value = http::HeaderValue::from_bytes(raw).ok()?;
    value.to_str().ok().map(String::from)
}

/// Generates a secret of `SECRET_LENGTH` random ASCII letters and digits.
pub fn random_string() -> (s: String)
    ensures
        is_generated_secret(s@),
{
    let mut s = String::new();
    let mut n: usize = 0;
    while n < SECRET_LENGTH
        invariant
            n <= SECRET_LENGTH,
            s@.len() == n,
            forall|i: int| 0 <= i < s@.len() ==> (#[trigger] s@[i] as u32) < 128 && is_alphanumeric(
                s@[i] as u8,
            ),
        decreases SECRET_LENGTH - n,
    {
        let b: u8 = sample_alphanumeric();
        push_char(&mut s, b as char);
        n += 1;
    }
    s
}

/// The process-wide configuration, fixed at start-up and never mutated.
#[derive(Debug)]
pub struct Config {
    admin_token: String,
    user_token: String,
    pub debug_mode: bool,
    pub ticket_mail_to: String,
    pub comment_mail_to: String,
}

impl Clone for Config {
    fn clone(&self) -> (r: Config)
        ensures
            r == *self,
    {
        Config {
            admin_token: self.admin_token.clone(),
            user_token: self.user_token.clone(),
            debug_mode: self.debug_mode,
            ticket_mail_to: self.ticket_mail_to.clone(),
            comment_mail_to: self.comment_mail_to.clone(),
        }
    }
}

/// The text of an optional setting: empty where it is not set.
pub open spec fn setting_text(value: Option<String>) -> Seq<char> {
    match value {
        Some(s) => s@,
        None => Seq::empty(),
    }
}

fn setting_or_empty(value: Option<String>) -> (s: String)
    ensures
        s@ == setting_text(value),
{
    match value {
        Some(s) => s,
        None => String::new(),
    }
}

impl Config {
    /// The admin secret, prefix included.
    pub closed spec fn admin_token(&self) -> Seq<char> {
        self.admin_token@
    }

    /// The user secret, prefix included.
    pub closed spec fn user_token(&self) -> Seq<char> {
        self.user_token@
    }

    /// Whether the process runs in debug mode.
    pub closed spec fn debug(&self) -> bool {
        self.debug_mode
    }

    /// The mailbox that ticket notifications go to.
    pub closed spec fn ticket_mailbox(&self) -> Seq<char> {
        self.ticket_mail_to@
    }

    /// The mailbox that comment notifications go to.
    pub closed spec fn comment_mailbox(&self) -> Seq<char> {
        self.comment_mail_to@
    }

    /// The admin secret, prefix included, as it is logged at start-up.
    pub fn admin_secret(&self) -> (token: &String)
        ensures
            token@ == self.admin_token(),
    {
        &self.admin_token
    }

    /// The user secret, prefix included, as it is logged at start-up.
    pub fn user_secret(&self) -> (token: &String)
        ensures
            token@ == self.user_token(),
    {
        &self.user_token
    }

    /// Whether the process runs in debug mode.
    pub fn is_debug(&self) -> (b: bool)
        ensures
            b == self.debug(),
    {
        self.debug_mode
    }

    /// The mailbox that ticket notifications go to.
    pub fn ticket_recipient(&self) -> (to: &String)
        ensures
            to@ == self.ticket_mailbox(),
    {
        &self.ticket_mail_to
    }

    /// The mailbox that comment notifications go to.
    pub fn comment_recipient(&self) -> (to: &String)
        ensures
            to@ == self.comment_mailbox(),
    {
        &self.comment_mail_to
    }

    /// The invariant of a configuration: each secret carries its prefix.
    pub open spec fn wf(&self) -> bool {
        &&& admin_prefix().is_prefix_of(self.admin_token())
        &&& user_prefix().is_prefix_of(self.user_token())
    }

    /// Builds the configuration from the two secret suffixes and the two
    /// mailbox addresses.
    pub fn with_secrets(
        debug_mode: bool,
        admin_secret: &str,
        user_secret: &str,
        ticket_mail_to: String,
        comment_mail_to: String,
    ) -> (config: Config)
        ensures
            config.wf(),
            config.admin_token() == admin_prefix() + admin_secret@,
            config.user_token() == user_prefix() + user_secret@,
            config.debug() == debug_mode,
            config.ticket_mailbox() == ticket_mail_to@,
            config.comment_mailbox() == comment_mail_to@,
    {
        let mut admin_token = "$ADMIN$".to_owned();
        admin_token.append(admin_secret);
        let mut user_token = "$USER$".to_owned();
        user_token.append(user_secret);
        Config { admin_token, user_token, debug_mode, ticket_mail_to, comment_mail_to }
    }

    /// Builds the configuration from the settings found at start-up. A secret
    /// that is not set is generated; a mailbox that is not set is empty.
    pub fn init(
        debug_mode: bool,
        admin_secret: Option<String>,
        user_secret: Option<String>,
        ticket_mail_to: Option<String>,
        comment_mail_to: Option<String>,
    ) -> (config: Config)
        ensures
            config.wf(),
            config.debug() == debug_mode,
            config.ticket_mailbox() == setting_text(ticket_mail_to),
            config.comment_mailbox() == setting_text(comment_mail_to),
            admin_secret matches Some(a) ==> config.admin_token() == admin_prefix() + a@,
            admin_secret is None ==> exists|s: Seq<char>|
                is_generated_secret(s) && config.admin_token() == admin_prefix() + s,
            user_secret matches Some(u) ==> config.user_token() == user_prefix() + u@,
            user_secret is None ==> exists|s: Seq<char>|
                is_generated_secret(s) && config.user_token() == user_prefix() + s,
    {
        let admin = match admin_secret {
            Some(a) => a,
            None => random_string(),
        };
        let user = match user_secret {
            Some(u) => u,
            None => random_string(),
        };
        Config::with_secrets(
            debug_mode,
            admin.as_str(),
            user.as_str(),
            setting_or_empty(ticket_mail_to),
            setting_or_empty(comment_mail_to),
        )
    }
}

/// The two secrets of a configuration differ, whatever their suffixes: the
/// prefixes part them at the second character.
pub proof fn lemma_secrets_differ(config: &Config)
    requires
        config.wf(),
    ensures
        config.admin_token() != config.user_token(),
{
    reveal_strlit("$ADMIN$");
    reveal_strlit("$USER$");
    assert(config.admin_token()[1] == admin_prefix()[1]);
    assert(config.user_token()[1] == user_prefix()[1]);
}

/// A privilege level a route can ask for.
#[derive(Clone, Copy, Debug, PartialEq, Eq, Structural)]
pub enum Tier {
    User,
    Admin,
}

/// Why a request was refused.
#[derive(Clone, Copy, Debug, PartialEq, Eq, Structural)]
pub enum Rejection {
    /// No credential was presented.
    Missing,
    /// The credential is not text.
    Corrupted,
    /// The credential is text but does not grant the tier asked for.
    Denied,
}

impl Rejection {
    pub open spec fn status_spec(self) -> int {
        match self {
            Rejection::Missing => 401,
            Rejection::Corrupted => 401,
            Rejection::Denied => 403,
        }
    }

    /// The HTTP status code of the rejection.
    pub fn status(&self) -> (code: u16)
        ensures
            code == self.status_spec(),
    {
        match self {
            Rejection::Missing => 401,
            Rejection::Corrupted => 401,
            Rejection::Denied => 403,
        }
    }

    /// The static message sent with the rejection.
    pub open spec fn message_spec(self) -> Seq<char> {
        match self {
            Rejection::Missing => "`X-TOKEN` header is missing"@,
            Rejection::Corrupted => "`X-TOKEN` header is corrupted"@,
            Rejection::Denied => "access denied"@,
        }
    }

    /// The static message sent with the rejection.
    pub fn message(&self) -> (text: &'static str)
        ensures
            text@ == self.message_spec(),
    {
        match self {
            Rejection::Missing => "`X-TOKEN` header is missing",
            Rejection::Corrupted => "`X-TOKEN` header is corrupted",
            Rejection::Denied => "access denied",
        }
    }
}

/// What a credential was classified as.
#[derive(Clone, Copy, Debug, PartialEq, Eq, Structural)]
pub enum Access {
    Admin,
    User,
    Rejected(Rejection),
}

/// The classification of a credential: `None` where the header is absent,
/// else its raw bytes.
pub open spec fn classify_spec(header: Option<Seq<u8>>, config: &Config) -> Access {
    match header {
        None => Access::Rejected(Rejection::Missing),
        Some(raw) => if !is_header_text(raw) {
            Access::Rejected(Rejection::Corrupted)
        } else if ascii_text(raw) == config.admin_token() {
            Access::Admin
        } else if ascii_text(raw) == config.user_token() {
            Access::User
        } else {
            Access::Rejected(Rejection::Denied)
        },
    }
}

/// The outcome of asking for `tier` with a credential classified as `access`.
pub open spec fn permit_spec(access: Access, tier: Tier) -> Result<(), Rejection> {
    match access {
        Access::Admin => Ok(()),
        Access::User => if tier == Tier::User {
            Ok(())
        } else {
            Err(Rejection::Denied)
        },
        Access::Rejected(r) => Err(r),
    }
}

/// The view of an optional header as plain bytes.
pub open spec fn header_view(header: Option<&[u8]>) -> Option<Seq<u8>> {
    match header {
        Some(raw) => Some(raw@),
        None => None,
    }
}

/// Classifies the credential of a request: the value of its token header, or
/// `None` where the request has no such header.
pub fn classify(header: Option<&[u8]>, config: &Config) -> (access: Access)
    ensures
        access == classify_spec(header_view(header), config),
{
    match header {
        None => Access::Rejected(Rejection::Missing),
        Some(raw) => match header_text(raw) {
            None => Access::Rejected(Rejection::Corrupted),
            Some(token) => {
                if token == config.admin_token {
                    Access::Admin
                } else if token == config.user_token {
                    Access::User
                } else {
                    Access::Rejected(Rejection::Denied)
                }
            },
        },
    }
}

/// Decides whether a request may use a route that asks for `tier`.
pub fn authorize(header: Option<&[u8]>, config: &Config, tier: Tier) -> (r: Result<(), Rejection>)
    ensures
        r == permit_spec(classify_spec(header_view(header), config), tier),
{
    match classify(header, config) {
        Access::Admin => Ok(()),
        Access::User => match tier {
            Tier::User => Ok(()),
            Tier::Admin => Err(Rejection::Denied),
        },
        Access::Rejected(r) => Err(r),
    }
}

/// Proof that a request holds the admin secret.
#[derive(Clone, Copy, Debug)]
pub struct AdminToken;

/// Proof that a request holds the user secret or the admin secret.
#[derive(Clone, Copy, Debug)]
pub struct UserToken;

impl AdminToken {
    /// Extracts the admin capability from the token header of a request.
    pub fn from_request_parts(header: Option<&[u8]>, config: &Config) -> (r: Result<
        AdminToken,
        Rejection,
    >)
        ensures
            r is Ok <==> classify_spec(header_view(header), config) == Access::Admin,
            r matches Err(e) ==> permit_spec(classify_spec(header_view(header), config), Tier::Admin)
                == Err::<(), Rejection>(e),
    {
        match authorize(header, config, Tier::Admin) {
            Ok(()) => Ok(AdminToken),
            Err(e) => Err(e),
        }
    }
}

impl UserToken {
    /// Extracts the user capability from the token header of a request. The
    /// admin secret grants it too.
    pub fn from_request_parts(header: Option<&[u8]>, config: &Config) -> (r: Result<
        UserToken,
        Rejection,
    >)
        ensures
            r is Ok <==> classify_spec(header_view(header), config) == Access::Admin
                || classify_spec(header_view(header), config) == Access::User,
            r matches Err(e) ==> classify_spec(header_view(header), config) == Access::Rejected(e),
    {
        match authorize(header, config, Tier::User) {
            Ok(()) => Ok(UserToken),
            Err(e) => Err(e),
        }
    }
}

/// The outcome of presenting `header` where `tier` is asked for, as the
/// failure that the request ends with.
pub open spec fn guard_spec(header: Option<Seq<u8>>, config: &Config, tier: Tier) -> Result<
    (),
    Failure,
> {
    match permit_spec(classify_spec(header, config), tier) {
        Ok(()) => Ok(()),
        Err(rejection) => Err(Failure::Rejected(rejection)),
    }
}

/// Admits or refuses a request on a route that asks for `tier`.
pub fn guard(header: Option<&[u8]>, config: &Config, tier: Tier) -> (r: Result<(), Failure>)
    ensures
        r == guard_spec(header_view(header), config, tier),
{
    match authorize(header, config, tier) {
        Ok(()) => Ok(()),
        Err(rejection) => Err(Failure::Rejected(rejection)),
    }
}

/// The notification transport of a tracker: the one given or, where none
/// is given, the recording one in debug mode and the SMTP one else.
pub fn transport(mailer: Option<Mailer>, config: &Config) -> (chosen: Mailer)
    ensures
        mailer matches Some(m) ==> chosen == m,
        mailer is None ==> chosen.is_test() == config.debug() && chosen.recorded() == Seq::<
            MailView,
        >::empty(),
{
    match mailer {
        Some(m) => m,
        None => Mailer::new(config.is_debug()),
    }
}

/// The state of a running tracker: its configuration, its notification
/// transport, the three tables and the stored photos, keyed by ticket id.
pub struct AppState {
    pub config: Config,
    pub mailer: Mailer,
    pub store: Store,
    pub photos: HashMap<i32, Vec<u8>>,
}

impl AppState {
    /// The invariant of the state: the tables are well formed.
    pub open spec fn wf(&self) -> bool {
        self.store.wf() && self.config.wf()
    }

    /// A fresh state: empty tables, no photos. Where no transport is given,
    /// debug mode selects the recording one.
    pub fn new(mailer: Option<Mailer>, config: Config) -> (state: AppState)
        requires
            config.wf(),
        ensures
            state.wf(),
            state.config == config,
            state.store.assets.rows() == Seq::<Asset>::empty(),
            state.store.tickets.rows() == Seq::<Ticket>::empty(),
            state.store.comments.rows() == Seq::<Comment>::empty(),
            state.photos@ == Map::<i32, Vec<u8>>::empty(),
            mailer matches Some(m) ==> state.mailer == m,
            mailer is None ==> state.mailer.is_test() == config.debug()
                && state.mailer.recorded() == Seq::<MailView>::empty(),
    {
        let mailer = transport(mailer, &config);
        AppState { config, mailer, store: Store::new(), photos: HashMap::new() }
    }
}

} // verus!
