use tinytickets_backend::config::{Config, Rejection};
use tinytickets_backend::errors::{
    answered, executed, or_missing, removed, ErrResponse, Failure, StorageError,
};
use tinytickets_backend::models::asset::Asset;
use tinytickets_backend::models::comment;
use tinytickets_backend::models::comment::InComment;
use tinytickets_backend::models::ticket;
use tinytickets_backend::models::ticket::Ticket;
use tinytickets_backend::models::Timestamp;

#[test]
fn storage_errors_are_mapped_once() {
    assert_eq!(
        ErrResponse::from(StorageError::NotFound),
        ErrResponse::S404("data not found in database")
    );
    assert_eq!(ErrResponse::from(StorageError::Failed), ErrResponse::S500("database error"));
    assert_eq!(
        ErrResponse::from(StorageError::Interaction),
        ErrResponse::S500("database interaction error")
    );
    assert_eq!(answered(Ok::<i32, StorageError>(3)), Ok(3));
    assert_eq!(
        answered(Err::<i32, StorageError>(StorageError::NotFound)),
        Err(ErrResponse::S404("data not found in database"))
    );
}

#[test]
fn errors_map_to_status_and_message() {
    let pair: (u16, &'static str) = ErrResponse::S500("database error").into();
    assert_eq!(pair, (500, "database error"));
    let pair: (u16, &'static str) = ErrResponse::S404("no image available").into();
    assert_eq!(pair, (404, "no image available"));
    let pair: (u16, &'static str) = ErrResponse::S403("access denied").into();
    assert_eq!(pair, (403, "access denied"));
    assert_eq!(ErrResponse::S404("x").status(), 404);
    assert_eq!(ErrResponse::S404("x").message(), "x");
    assert_eq!(ErrResponse::S404("could not get ticket").to_string(), "S404(\"could not get ticket\")");
    assert_eq!(
        ErrResponse::S500("a \"b\"").to_string(),
        format!("{:?}", ErrResponse::S500("a \"b\""))
    );
    assert_eq!(Failure::Rejected(Rejection::Missing).status(), 401);
    assert_eq!(Failure::Rejected(Rejection::Denied).message(), "access denied");
    assert_eq!(Failure::Rejected(Rejection::Missing).message(), "`X-TOKEN` header is missing");
    assert_eq!(
        Failure::Rejected(Rejection::Corrupted).message(),
        "`X-TOKEN` header is corrupted"
    );
    assert_eq!(Failure::Failed(ErrResponse::S500("database error")).status(), 500);
    assert_eq!(Failure::Failed(ErrResponse::S500("database error")).message(), "database error");
}

#[test]
fn delete_succeeds_on_exactly_one_row() {
    assert_eq!(removed(Ok(1)), Ok(()));
    assert_eq!(removed(Ok(0)), Err(ErrResponse::S404("object not found in database")));
    assert_eq!(removed(Ok(2)), Err(ErrResponse::S404("object not found in database")));
    assert_eq!(removed(Err(StorageError::Failed)), Err(ErrResponse::S500("database error")));
    assert_eq!(executed(Ok(0)), Ok(()));
    assert_eq!(executed(Ok(7)), Ok(()));
    assert_eq!(
        executed(Err(StorageError::Interaction)),
        Err(ErrResponse::S500("database interaction error"))
    );
}

fn ticket() -> Ticket {
    Ticket {
        id: 4,
        asset_id: 1,
        title: "T".to_string(),
        creator: "C".to_string(),
        creator_mail: "c@x.com".to_string(),
        creator_phone: String::new(),
        description: String::new(),
        time: Timestamp { secs: 0, nanos: 0 },
        is_closed: true,
    }
}

#[test]
fn ticket_decisions_follow_the_answers_of_the_store() {
    let asset = Asset { id: 1, title: "A".to_string(), description: String::new() };
    assert_eq!(ticket::parent(Ok(asset.clone())), Ok(asset));
    assert_eq!(
        ticket::parent(Err(StorageError::NotFound)),
        Err(ErrResponse::S404("cannot create ticket related to non existing asset"))
    );
    assert_eq!(ticket::parent(Err(StorageError::Failed)), Err(ErrResponse::S500("database error")));
    assert_eq!(
        ticket::parent(Err(StorageError::Interaction)),
        Err(ErrResponse::S500("database interaction error"))
    );
    assert_eq!(
        ticket::found(Err(StorageError::NotFound)),
        Err(ErrResponse::S404("could not get ticket"))
    );
    assert_eq!(
        ticket::found(Err(StorageError::Failed)),
        Err(ErrResponse::S500("database error"))
    );
    assert_eq!(
        ticket::with_comments(ticket(), Err(StorageError::NotFound)).unwrap_err(),
        ErrResponse::S404("could not get comments for ticket")
    );
    assert_eq!(
        ticket::with_comments(ticket(), Err(StorageError::Failed)).unwrap_err(),
        ErrResponse::S500("database error")
    );
    assert_eq!(ticket::with_comments(ticket(), Ok(vec![])).unwrap().ticket, ticket());
    assert!(ticket::closes(false, &ticket()));
    assert!(!ticket::closes(true, &ticket()));
    let mut open = ticket();
    open.is_closed = false;
    assert!(!ticket::closes(false, &open));
    let mut silent = ticket();
    silent.creator_mail = String::new();
    assert!(!ticket::closes(false, &silent));
    assert_eq!(ticket::retrieved(Some(5)), Ok(5));
    assert_eq!(ticket::retrieved(None::<i32>), Err(ErrResponse::S404("no image available")));
    assert_eq!(ticket::photo_deleted(true), Ok("File deleted"));
    assert_eq!(ticket::photo_deleted(false), Err(ErrResponse::S404("no image available")));
}

#[test]
fn comment_decisions_follow_the_answers_of_the_store() {
    assert_eq!(comment::parent(Ok(ticket())), Ok(ticket()));
    assert_eq!(
        comment::parent(Err(StorageError::NotFound)),
        Err(ErrResponse::S404("cannot create comment related to non existing ticket"))
    );
    assert_eq!(
        comment::parent(Err(StorageError::Interaction)),
        Err(ErrResponse::S500("database interaction error"))
    );
    assert_eq!(comment::parent(Err(StorageError::Failed)), Err(ErrResponse::S500("database error")));
    let config = Config::with_secrets(false, "a", "u", String::new(), String::from("c@x.com"));
    let input = InComment {
        ticket_id: 4,
        time: Timestamp { secs: 0, nanos: 0 },
        creator: String::from("Bob"),
        content: String::from("hello"),
    };
    assert_eq!(
        comment::created(Err(StorageError::NotFound), input.clone(), ticket(), &config).unwrap_err(),
        ErrResponse::S404("could not create comment")
    );
    assert_eq!(
        comment::created(Err(StorageError::Failed), input.clone(), ticket(), &config).unwrap_err(),
        ErrResponse::S500("database error")
    );
    let stored = input.clone().with_id(9);
    let (status, comment, notice) =
        comment::created(Ok(stored.clone()), input, ticket(), &config).unwrap();
    assert_eq!((status, comment), (201, stored));
    assert_eq!(notice.to, "c@x.com");
}

#[test]
fn only_a_missing_row_is_not_found() {
    let missing = ErrResponse::S404("No tickets found");
    assert_eq!(or_missing(Ok::<i32, StorageError>(1), missing), Ok(1));
    assert_eq!(or_missing(Err::<i32, StorageError>(StorageError::NotFound), missing), Err(missing));
    assert_eq!(
        or_missing(Err::<i32, StorageError>(StorageError::Failed), missing),
        Err(ErrResponse::S500("database error"))
    );
    assert_eq!(
        or_missing(Err::<i32, StorageError>(StorageError::Interaction), missing),
        Err(ErrResponse::S500("database interaction error"))
    );
}
