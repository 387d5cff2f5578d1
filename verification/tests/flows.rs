use tinytickets_backend::config::{transport, Config};
use tinytickets_backend::errors::{ErrResponse, StorageError};
use tinytickets_backend::mail::Mailer;
use tinytickets_backend::models::asset::Asset;
use tinytickets_backend::models::comment;
use tinytickets_backend::models::comment::{Comment, InComment};
use tinytickets_backend::models::ticket::{
    Creation, InTicket, Replaced, Threading, Ticket, Update,
};
use tinytickets_backend::models::Timestamp;
use tinytickets_backend::notify::Payload;

fn config() -> Config {
    Config::with_secrets(false, "a", "u", String::from("tickets@x.com"), String::from("comments@x.com"))
}

fn input() -> InTicket {
    InTicket {
        asset_id: 3,
        title: String::from(" Jammed "),
        creator: String::from("Alice"),
        creator_mail: String::from("alice@x.com"),
        creator_phone: String::from("555"),
        description: String::from("paper jam"),
        time: Timestamp { secs: 100, nanos: 0 },
        is_closed: false,
    }
}

fn asset() -> Asset {
    Asset { id: 3, title: String::from("Printer"), description: String::from("Floor 2") }
}

fn reply(id: i32, secs: i64) -> Comment {
    Comment {
        id,
        ticket_id: 8,
        time: Timestamp { secs, nanos: 0 },
        creator: String::from("Bob"),
        content: String::from("looking into it"),
    }
}

#[test]
fn ticket_is_looked_up_then_inserted() {
    let (creation, asset_id) = Creation::begin(input());
    assert_eq!(asset_id, 3);
    let (insertion, to_insert) = creation.looked_up(Ok(asset())).unwrap();
    assert_eq!(to_insert.title, "Jammed");
    assert_eq!(to_insert.asset_id, 3);
    let (status, stored, notice) =
        insertion.inserted(Ok(to_insert.with_id(8)), &config()).unwrap();
    assert_eq!((status, stored.id, stored.title.as_str()), (201, 8, "Jammed"));
    assert_eq!(notice.to, "tickets@x.com");
    match notice.payload {
        Payload::NewTicket { asset: parent, ticket: sent } => {
            assert_eq!(parent, asset());
            assert_eq!(sent, stored);
        }
        other => panic!("unexpected payload {:?}", other),
    }
}

#[test]
fn ticket_without_asset_asks_for_no_insert() {
    for (answer, expected) in [
        (
            StorageError::NotFound,
            ErrResponse::S404("cannot create ticket related to non existing asset"),
        ),
        (StorageError::Failed, ErrResponse::S500("database error")),
        (StorageError::Interaction, ErrResponse::S500("database interaction error")),
    ] {
        let (creation, _) = Creation::begin(input());
        assert_eq!(creation.looked_up(Err(answer)).unwrap_err(), expected);
    }
    let (creation, _) = Creation::begin(input());
    let (insertion, _) = creation.looked_up(Ok(asset())).unwrap();
    assert_eq!(
        insertion.inserted(Err(StorageError::Failed), &config()).unwrap_err(),
        ErrResponse::S500("database error")
    );
}

#[test]
fn comment_is_looked_up_then_inserted() {
    let submitted = InComment {
        ticket_id: 8,
        time: Timestamp { secs: 5, nanos: 0 },
        creator: String::from(" Bob"),
        content: String::from("looking into it\n"),
    };
    let parent = input().with_id(8);
    let (creation, ticket_id) = comment::Creation::begin(submitted.clone());
    assert_eq!(ticket_id, 8);
    let (insertion, to_insert) = creation.looked_up(Ok(parent.clone())).unwrap();
    assert_eq!((to_insert.creator.as_str(), to_insert.content.as_str()), ("Bob", "looking into it"));
    let (status, stored, notice) =
        insertion.inserted(Ok(to_insert.clone().with_id(2)), &config()).unwrap();
    assert_eq!((status, stored.id, stored.content.as_str()), (201, 2, "looking into it"));
    assert_eq!(notice.to, "comments@x.com");
    match notice.payload {
        Payload::NewComment { comment: sent, ticket } => {
            assert_eq!(sent, to_insert);
            assert_eq!(ticket, parent);
        }
        other => panic!("unexpected payload {:?}", other),
    }

    let (creation, _) = comment::Creation::begin(submitted);
    assert_eq!(
        creation.looked_up(Err(StorageError::NotFound)).unwrap_err(),
        ErrResponse::S404("cannot create comment related to non existing ticket")
    );
}

#[test]
fn ticket_is_read_before_its_comments() {
    let (threading, ticket_id) = Threading::begin(Ok(input().with_id(8))).unwrap();
    assert_eq!(ticket_id, 8);
    let out = threading.loaded(Ok(vec![reply(2, 9), reply(1, 4)])).unwrap();
    assert_eq!(out.ticket.id, 8);
    assert_eq!(out.comments, vec![reply(2, 9), reply(1, 4)]);

    assert_eq!(
        Threading::begin(Err(StorageError::NotFound)).unwrap_err(),
        ErrResponse::S404("could not get ticket")
    );
    assert_eq!(
        Threading::begin(Err(StorageError::Failed)).unwrap_err(),
        ErrResponse::S500("database error")
    );
    let (threading, _) = Threading::begin(Ok(input().with_id(8))).unwrap();
    assert_eq!(
        threading.loaded(Err(StorageError::Failed)).unwrap_err(),
        ErrResponse::S500("database error")
    );
}

/// Runs an update against a store that holds what the update writes.
fn update(was_closed: Result<bool, StorageError>, body: Ticket) -> (Vec<String>, (u16, Option<String>)) {
    let mut log = Vec::new();
    let (update, asked) = Update::begin(8, body);
    log.push(format!("closed {}", asked));
    let (replacing, row_id, row) = update.was(was_closed);
    log.push(format!("replace {} {}", row_id, row.id));
    let (status, notice) = match replacing.replaced(Ok(row)).unwrap() {
        Replaced::Done(status) => (status, None),
        Replaced::Notify(closing, ticket_id) => {
            log.push(format!("comments {}", ticket_id));
            closing.loaded(Ok(vec![reply(1, 4)]))
        }
    };
    (log, (status, notice.map(|n| n.to)))
}

#[test]
fn update_notifies_the_creator_on_closing() {
    let mut body: Ticket = input().with_id(99);
    body.is_closed = true;
    let (log, answer) = update(Ok(false), body.clone());
    assert_eq!(log, vec!["closed 8", "replace 8 8", "comments 8"]);
    assert_eq!(answer, (204, Some(String::from("alice@x.com"))));

    let (log, answer) = update(Err(StorageError::Failed), body.clone());
    assert_eq!(log, vec!["closed 8", "replace 8 8", "comments 8"]);
    assert_eq!(answer, (204, Some(String::from("alice@x.com"))));

    let (log, answer) = update(Ok(true), body.clone());
    assert_eq!(log, vec!["closed 8", "replace 8 8"]);
    assert_eq!(answer, (204, None));

    body.is_closed = false;
    let (_, answer) = update(Ok(false), body.clone());
    assert_eq!(answer, (204, None));

    body.is_closed = true;
    body.creator_mail = String::from("   ");
    let (log, answer) = update(Ok(false), body);
    assert_eq!(log, vec!["closed 8", "replace 8 8"]);
    assert_eq!(answer, (204, None));
}

#[test]
fn update_ends_where_the_row_is_not_replaced() {
    let (update, _) = Update::begin(8, input().with_id(8));
    let (replacing, _, _) = update.was(Err(StorageError::NotFound));
    assert_eq!(
        replacing.replaced(Err(StorageError::NotFound)).unwrap_err(),
        ErrResponse::S404("data not found in database")
    );
    let mut closed = input().with_id(8);
    closed.is_closed = true;
    let (update, _) = Update::begin(8, closed.clone());
    let (replacing, _, row) = update.was(Ok(false));
    match replacing.replaced(Ok(row)).unwrap() {
        Replaced::Notify(closing, _) => {
            let (status, notice) = closing.loaded(Err(StorageError::Failed));
            assert_eq!(status, 204);
            assert!(notice.is_none());
        }
        Replaced::Done(_) => panic!("the update closed the ticket"),
    }
}

#[test]
fn transport_is_the_one_given_or_follows_debug_mode() {
    let debug = Config::with_secrets(true, "a", "u", String::new(), String::new());
    assert!(matches!(transport(None, &debug), Mailer::Mock(_)));
    assert!(matches!(transport(None, &config()), Mailer::Real(_)));
    assert!(matches!(transport(Some(Mailer::new(true)), &config()), Mailer::Mock(_)));
    assert!(matches!(transport(Some(Mailer::new(false)), &debug), Mailer::Real(_)));
}
