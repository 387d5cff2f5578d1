use tinytickets_backend::config::{AppState, Config};
use tinytickets_backend::errors::{ErrResponse, Failure};
use tinytickets_backend::mail::Mailer;
use tinytickets_backend::models::asset;
use tinytickets_backend::models::asset::{Asset, InAsset};
use tinytickets_backend::models::comment;
use tinytickets_backend::models::comment::{Comment, InComment};
use tinytickets_backend::models::ticket;
use tinytickets_backend::models::ticket::{InTicket, Ticket};
use tinytickets_backend::models::Timestamp;
use tinytickets_backend::notify::{deliver, template, Notice, Payload, RenderError};

const ADMIN: Option<&[u8]> = Some(b"$ADMIN$development_admin_token");
const USER: Option<&[u8]> = Some(b"$USER$development_user_token");
const N: usize = 20;

fn fresh() -> AppState {
    let config = Config::init(
        true,
        Some(String::from("development_admin_token")),
        Some(String::from("development_user_token")),
        Some(String::from("tickets@x.com")),
        Some(String::from("comments@x.com")),
    );
    AppState::new(Some(Mailer::new(true)), config)
}

fn stamp(text: &str) -> Timestamp {
    let time = chrono::NaiveDateTime::parse_from_str(text, "%Y-%m-%dT%H:%M:%S").unwrap().and_utc();
    Timestamp { secs: time.timestamp(), nanos: time.timestamp_subsec_nanos() }
}

fn status<T>(r: &Result<T, Failure>) -> u16 {
    match r {
        Ok(_) => 200,
        Err(failure) => failure.status(),
    }
}

/// Renders a notice as the templates of the tests do, and hands it to the
/// mailer of the state.
fn notify(state: &mut AppState, notice: Notice) {
    let Notice { payload, to } = notice;
    let rendered = template(
        |name: String, _escape: bool| match &payload {
            Payload::ClosedTicket(closed) => Ok(format!(
                "{}: Ticket created by {}: {} has been closed ({} comments)",
                name,
                closed.ticket.creator,
                closed.ticket.title,
                closed.comments.len()
            )),
            Payload::NewTicket { asset, ticket } => {
                Ok(format!("{}: new ticket {} on {}", name, ticket.title, asset.title))
            }
            Payload::NewComment { comment, ticket } => {
                Ok(format!("{}: {} commented on {}", name, comment.creator, ticket.title))
            }
            Payload::OpenTickets(open) => Ok(format!("{}: {} open", name, open.len())),
            Payload::TicketsWithComments(_) => {
                Err(RenderError { reason: String::from("not a mail") })
            }
        },
        payload.template_name(),
    );
    deliver(&mut state.mailer, to, rendered);
}

fn test_assets(state: &mut AppState) {
    assert_eq!(status(&asset::destroy(state, None)), 401);
    assert_eq!(status(&asset::destroy(state, USER)), 403);
    assert_eq!(asset::destroy(state, ADMIN), Ok(()));
    assert_eq!(asset::list(state, USER), Ok(vec![]));

    for i in 1..=N {
        let input = InAsset {
            title: format!("My Asset - {}", i),
            description: format!("Once upon a time, at {}'o clock...", i),
        };
        assert_eq!(status(&asset::create(state, None, input.clone())), 401);
        let (code, created) = asset::create(state, ADMIN, input.clone()).unwrap();
        assert_eq!(code, 201);
        assert!(created == input);

        let list = asset::list(state, USER).unwrap();
        assert_eq!(list.len(), i);
        let last = *list.last().unwrap();
        assert!(asset::read(state, USER, last).unwrap() == input);
    }

    for _ in 1..=N {
        let id = asset::list(state, USER).unwrap()[0];
        let patched = Asset {
            id,
            title: "patched title".to_string(),
            description: format!("Once upon a time, at {}'o clock...", id),
        };
        assert_eq!(status(&asset::update(state, None, id, patched.clone())), 401);
        assert_eq!(asset::update(state, ADMIN, id, patched.clone()), Ok(204));
        assert_eq!(asset::read(state, USER, id).unwrap(), patched);
        assert_eq!(asset::delete(state, None, id).unwrap_err().status(), 401);
        assert_eq!(asset::delete(state, ADMIN, id), Ok(()));
    }

    assert!(asset::list(state, USER).unwrap().is_empty());
    assert_eq!(status(&asset::delete(state, ADMIN, 1)), 404);
}

fn test_tickets(state: &mut AppState) {
    assert_eq!(status(&ticket::destroy(state, None)), 401);
    assert_eq!(status(&ticket::destroy(state, USER)), 403);
    assert_eq!(ticket::destroy(state, ADMIN), Ok(()));
    assert_eq!(ticket::list(state, USER), Ok(vec![]));

    let orphan = InTicket {
        title: "test".to_string(),
        creator: "test".to_string(),
        creator_mail: "test@test.com".to_string(),
        creator_phone: "0102030405".to_string(),
        description: "test".to_string(),
        time: stamp("2021-08-12T20:00:00"),
        asset_id: 9999,
        is_closed: false,
    };
    assert_eq!(status(&ticket::create(state, USER, orphan)), 404);
    assert_eq!(ticket::list(state, USER), Ok(vec![]));

    let input = InAsset { title: "MyAsset".to_string(), description: "MyAssetDescription".to_string() };
    let (_, created) = asset::create(state, ADMIN, input.clone()).unwrap();
    assert!(created == input);
    let asset_id = *asset::list(state, USER).unwrap().last().unwrap();

    for i in 1..=N {
        let input = InTicket {
            title: format!("My Ticket - {}", i),
            creator: format!("My Ticket Creator - {}", i),
            creator_mail: format!("testmail{}@test.com", i),
            creator_phone: format!("000000{}", i),
            description: format!("Once upon a time, at {}'o clock...", i),
            time: stamp("2021-08-12T20:00:00"),
            asset_id,
            is_closed: false,
        };
        assert_eq!(status(&ticket::create(state, None, input.clone())), 401);
        let (code, created, notice) = ticket::create(state, USER, input.clone()).unwrap();
        assert_eq!(code, 201);
        assert!(created == input);
        notify(state, notice);

        let list = ticket::list(state, USER).unwrap();
        assert_eq!(list.len(), i);
        let last = *list.last().unwrap();
        assert!(ticket::read(state, USER, last).unwrap().ticket == input);
    }
    assert_eq!(ticket::list(state, ADMIN).unwrap().len(), N);

    for _ in 1..=N {
        let open = ticket::mail_open(state, USER).unwrap().0;
        let id = open[0].id;
        let patched = Ticket {
            id,
            title: "patched title".to_string(),
            creator: "patched creator".to_string(),
            creator_mail: "patchedmail@test.com".to_string(),
            creator_phone: "010203040506".to_string(),
            description: format!("Once upon a time, at {}'o clock...", id),
            time: stamp("2021-08-12T20:00:00"),
            asset_id,
            is_closed: true,
        };
        assert_eq!(status(&ticket::update(state, USER, id, patched.clone())), 403);
        let (code, notice) = ticket::update(state, ADMIN, id, patched.clone()).unwrap();
        assert_eq!(code, 204);
        notify(state, notice.unwrap());
        assert_eq!(ticket::read(state, USER, id).unwrap().ticket, patched);
    }

    assert_eq!(status(&ticket::upload(state, None, 1, b"")), 401);
    let id = ticket::list(state, USER).unwrap()[0];
    let picture = image::RgbImage::from_pixel(8, 6, image::Rgb([200, 10, 10]));
    let mut body = std::io::Cursor::new(Vec::new());
    image::DynamicImage::ImageRgb8(picture).write_to(&mut body, image::ImageFormat::Jpeg).unwrap();
    let body = body.into_inner();
    let path = ticket::upload(state, USER, id, &body).unwrap();
    assert_eq!(path, format!("data/tickets/photos/{}.jpg", id));
    let stored = ticket::retrieve(state, USER, id).unwrap();
    let decoded = image::load_from_memory(&stored).unwrap();
    assert_eq!((decoded.width(), decoded.height()), (8, 6));

    for _ in 1..=N {
        let id = ticket::list(state, USER).unwrap()[0];
        assert_eq!(status(&ticket::delete(state, USER, id)), 403);
        assert_eq!(ticket::delete(state, ADMIN, id), Ok(()));
    }
    assert!(ticket::list(state, USER).unwrap().is_empty());
    assert_eq!(status(&ticket::retrieve(state, USER, id)), 404);
    assert_eq!(status(&ticket::delete(state, ADMIN, 1)), 404);
}

fn test_comments(state: &mut AppState) {
    assert_eq!(status(&comment::destroy(state, None)), 401);
    assert_eq!(status(&comment::destroy(state, USER)), 403);
    assert_eq!(comment::destroy(state, ADMIN), Ok(()));
    assert_eq!(comment::list(state, USER), Ok(vec![]));

    let orphan = InComment {
        creator: "test".to_string(),
        content: "test".to_string(),
        time: stamp("2021-08-12T20:00:00"),
        ticket_id: 9999,
    };
    assert_eq!(status(&comment::create(state, USER, orphan)), 404);
    assert_eq!(comment::list(state, USER), Ok(vec![]));

    let asset_id = *asset::list(state, USER).unwrap().last().unwrap();
    let input = InTicket {
        title: "MyTicket".to_string(),
        creator: "MyTicketCreator".to_string(),
        creator_mail: "test@test.com".to_string(),
        creator_phone: "01020304".to_string(),
        description: "MyDescription".to_string(),
        time: stamp("2021-08-12T20:00:00"),
        asset_id,
        is_closed: false,
    };
    let (_, created, _) = ticket::create(state, USER, input.clone()).unwrap();
    assert!(created == input);
    let ticket_id = ticket::list(state, USER).unwrap()[0];

    for i in 1..=N {
        let input = InComment {
            ticket_id,
            creator: format!("My Comment Creator - {}", i),
            content: format!("My Comment - {}", i),
            time: stamp("2021-08-12T20:00:00"),
        };
        assert_eq!(status(&comment::create(state, None, input.clone())), 401);
        let (code, created, notice) = comment::create(state, USER, input.clone()).unwrap();
        assert_eq!(code, 201);
        assert!(created == input);
        notify(state, notice);

        let list = comment::list(state, USER).unwrap();
        assert_eq!(list.len(), i);
        let last = *list.last().unwrap();
        assert!(comment::read(state, USER, last).unwrap() == input);
    }

    for _ in 1..=N {
        let id = comment::list(state, USER).unwrap()[0];
        let patched = Comment {
            id,
            creator: "patched creator".to_string(),
            content: "patched content".to_string(),
            time: stamp("2021-08-12T20:00:00"),
            ticket_id,
        };
        assert_eq!(status(&comment::update(state, USER, id, patched.clone())), 403);
        assert_eq!(comment::update(state, ADMIN, id, patched.clone()), Ok(204));
        assert_eq!(comment::read(state, USER, id).unwrap(), patched);
        assert_eq!(status(&comment::delete(state, USER, id)), 403);
        assert_eq!(comment::delete(state, ADMIN, id), Ok(()));
    }
    assert!(comment::list(state, USER).unwrap().is_empty());
    assert_eq!(status(&comment::delete(state, ADMIN, 1)), 404);
}

#[test]
fn test_models() {
    let mut state = fresh();
    test_assets(&mut state);
    test_tickets(&mut state);
    test_comments(&mut state);
    assert!(state
        .mailer
        .print_test_mails()
        .contains("Ticket created by patched creator: patched title has been closed"));
}

#[test]
fn tests_endtoend() {
    let mut state = fresh();
    let t0 = stamp("2024-03-01T09:00:00");
    let t1 = stamp("2024-03-01T10:30:00");

    let (code, printer) = asset::create(
        &mut state,
        ADMIN,
        InAsset { title: "Printer".to_string(), description: "Floor 2".to_string() },
    )
    .unwrap();
    assert_eq!((code, printer.id), (201, 1));

    let (code, jammed, notice) = ticket::create(
        &mut state,
        USER,
        InTicket {
            asset_id: 1,
            title: "Jammed".to_string(),
            creator: "Alice".to_string(),
            creator_mail: "alice@x.com".to_string(),
            creator_phone: "555".to_string(),
            description: "paper jam".to_string(),
            time: t0,
            is_closed: false,
        },
    )
    .unwrap();
    assert_eq!((code, jammed.id), (201, 1));
    assert_eq!(notice.to, "tickets@x.com");
    assert_eq!(notice.payload.template_name(), "new_ticket");
    notify(&mut state, notice);

    let (code, reply, notice) = comment::create(
        &mut state,
        USER,
        InComment {
            ticket_id: 1,
            creator: "Bob".to_string(),
            content: "looking into it".to_string(),
            time: t1,
        },
    )
    .unwrap();
    assert_eq!((code, reply.id), (201, 1));
    assert_eq!(notice.to, "comments@x.com");
    assert_eq!(notice.payload.template_name(), "new_comment");
    notify(&mut state, notice);

    let mut closed = jammed.clone();
    closed.is_closed = true;
    let (code, notice) = ticket::update(&mut state, ADMIN, 1, closed.clone()).unwrap();
    assert_eq!(code, 204);
    let notice = notice.unwrap();
    assert_eq!(notice.to, "alice@x.com");
    assert_eq!(notice.payload.template_name(), "closed_ticket");
    notify(&mut state, notice);

    let read = ticket::read(&state, USER, 1).unwrap();
    assert!(read.ticket.is_closed);
    assert_eq!(read.ticket, closed);
    assert_eq!(read.comments, vec![reply]);

    match &state.mailer {
        Mailer::Mock(mock) => {
            assert_eq!(mock.count(), 3);
            assert_eq!(mock.get(0).to, "tickets@x.com");
            assert_eq!(mock.get(1).to, "comments@x.com");
            assert_eq!(mock.get(2).to, "alice@x.com");
            assert!(mock.get(2).body.contains("Alice"));
            assert!(mock.get(2).body.contains("Jammed"));
            assert!(mock.get(2).body.starts_with("closed_ticket_body"));
            assert!(mock.get(2).subject.starts_with("closed_ticket_subject"));
        }
        Mailer::Real(_) => panic!("the state was given the recording transport"),
    }
}

#[test]
fn closing_notifies_only_on_the_transition() {
    let mut state = fresh();
    asset::create(&mut state, ADMIN, InAsset { title: "A".to_string(), description: String::new() })
        .unwrap();
    let input = InTicket {
        asset_id: 1,
        title: "T".to_string(),
        creator: "C".to_string(),
        creator_mail: "  ".to_string(),
        creator_phone: String::new(),
        description: String::new(),
        time: stamp("2024-03-01T09:00:00"),
        is_closed: false,
    };
    let (_, stored, _) = ticket::create(&mut state, USER, input).unwrap();
    assert_eq!(stored.creator_mail, "");

    let mut body = stored.clone();
    body.is_closed = true;
    let (_, notice) = ticket::update(&mut state, ADMIN, 1, body.clone()).unwrap();
    assert!(notice.is_none(), "no creator mail, no notification");

    body.is_closed = false;
    body.creator_mail = "c@x.com".to_string();
    let (_, notice) = ticket::update(&mut state, ADMIN, 1, body.clone()).unwrap();
    assert!(notice.is_none(), "the ticket was reopened, not closed");

    body.is_closed = true;
    let (_, notice) = ticket::update(&mut state, ADMIN, 1, body.clone()).unwrap();
    assert_eq!(notice.unwrap().to, "c@x.com");

    let (_, notice) = ticket::update(&mut state, ADMIN, 1, body.clone()).unwrap();
    assert!(notice.is_none(), "the ticket was closed already");
}

#[test]
fn update_uses_the_id_of_the_path() {
    let mut state = fresh();
    for title in ["one", "two"] {
        asset::create(
            &mut state,
            ADMIN,
            InAsset { title: title.to_string(), description: String::new() },
        )
        .unwrap();
    }
    let body = Asset { id: 1, title: " changed ".to_string(), description: "d".to_string() };
    assert_eq!(asset::update(&mut state, ADMIN, 2, body), Ok(204));
    assert_eq!(asset::read(&state, USER, 1).unwrap().title, "one");
    let second = asset::read(&state, USER, 2).unwrap();
    assert_eq!((second.id, second.title.as_str(), second.description.as_str()), (2, "changed", "d"));
    let body = Asset { id: 9, title: "x".to_string(), description: String::new() };
    assert_eq!(asset::update(&mut state, ADMIN, 7, body), Ok(204));
    assert_eq!(asset::list(&state, USER), Ok(vec![1, 2]));

    let missing = Ticket {
        id: 1,
        asset_id: 1,
        title: String::new(),
        creator: String::new(),
        creator_mail: String::new(),
        creator_phone: String::new(),
        description: String::new(),
        time: stamp("2024-03-01T09:00:00"),
        is_closed: false,
    };
    assert_eq!(
        ticket::update(&mut state, ADMIN, 1, missing).unwrap_err(),
        Failure::Failed(ErrResponse::S404("data not found in database"))
    );
}

#[test]
fn create_trims_free_text() {
    let mut state = fresh();
    let (_, stored) = asset::create(
        &mut state,
        ADMIN,
        InAsset { title: "  Printer\n".to_string(), description: "\tFloor 2 ".to_string() },
    )
    .unwrap();
    assert_eq!((stored.title.as_str(), stored.description.as_str()), ("Printer", "Floor 2"));
    assert_eq!(asset::read(&state, USER, stored.id).unwrap(), stored);
}

#[test]
fn listings_are_ordered() {
    let mut state = fresh();
    for title in ["pear", "apple", "fig", "apple"] {
        asset::create(
            &mut state,
            ADMIN,
            InAsset { title: title.to_string(), description: String::new() },
        )
        .unwrap();
    }
    let titles: Vec<(String, i32)> =
        asset::list_all(&state, USER).unwrap().into_iter().map(|a| (a.title, a.id)).collect();
    assert_eq!(
        titles,
        vec![
            ("apple".to_string(), 2),
            ("apple".to_string(), 4),
            ("fig".to_string(), 3),
            ("pear".to_string(), 1)
        ]
    );
    assert_eq!(asset::list(&state, USER), Ok(vec![1, 2, 3, 4]));

    for (day, closed) in [("2024-03-02", false), ("2024-03-04", true), ("2024-03-03", false)] {
        let input = InTicket {
            asset_id: 1,
            title: day.to_string(),
            creator: String::new(),
            creator_mail: String::new(),
            creator_phone: String::new(),
            description: String::new(),
            time: stamp(&format!("{}T08:00:00", day)),
            is_closed: closed,
        };
        ticket::create(&mut state, USER, input).unwrap();
    }
    let ids: Vec<i32> = ticket::list_all(&state, USER).unwrap().iter().map(|t| t.id).collect();
    assert_eq!(ids, vec![2, 3, 1]);
    assert_eq!(ticket::list(&state, USER), Ok(vec![1, 2, 3]));
    let (open, notice) = ticket::mail_open(&state, USER).unwrap();
    assert_eq!(open.iter().map(|t| t.id).collect::<Vec<i32>>(), vec![1, 3]);
    let notice = notice.unwrap();
    assert_eq!(notice.to, "tickets@x.com");
    assert_eq!(notice.payload.template_name(), "open_tickets");

    for (ticket_id, hour) in [(1, "09"), (2, "07"), (1, "11"), (1, "10")] {
        let input = InComment {
            ticket_id,
            creator: String::new(),
            content: hour.to_string(),
            time: stamp(&format!("2024-03-05T{}:00:00", hour)),
        };
        comment::create(&mut state, USER, input).unwrap();
    }
    let thread: Vec<i32> =
        ticket::read(&state, USER, 1).unwrap().comments.iter().map(|c| c.id).collect();
    assert_eq!(thread, vec![3, 4, 1]);
    let all: Vec<i32> = comment::list_all(&state, USER).unwrap().iter().map(|c| c.id).collect();
    assert_eq!(all, vec![1, 2, 3, 4]);
}

#[test]
fn mail_open_without_open_tickets_sends_nothing() {
    let state = fresh();
    let (open, notice) = ticket::mail_open(&state, USER).unwrap();
    assert!(open.is_empty());
    assert!(notice.is_none());
    assert_eq!(status(&ticket::mail_open(&state, None)), 401);
}

#[test]
fn export_joins_tickets_assets_and_comments() {
    let mut state = fresh();
    for title in ["Printer", "Scanner"] {
        asset::create(
            &mut state,
            ADMIN,
            InAsset { title: title.to_string(), description: String::new() },
        )
        .unwrap();
    }
    for (asset_id, day) in [(1, "2024-03-02"), (2, "2024-03-04"), (2, "2024-03-03")] {
        let input = InTicket {
            asset_id,
            title: day.to_string(),
            creator: String::new(),
            creator_mail: String::new(),
            creator_phone: String::new(),
            description: String::new(),
            time: stamp(&format!("{}T08:00:00", day)),
            is_closed: false,
        };
        ticket::create(&mut state, USER, input).unwrap();
    }
    for (ticket_id, hour) in [(3, "09"), (1, "07"), (3, "11")] {
        let input = InComment {
            ticket_id,
            creator: String::new(),
            content: hour.to_string(),
            time: stamp(&format!("2024-03-05T{}:00:00", hour)),
        };
        comment::create(&mut state, USER, input).unwrap();
    }
    assert_eq!(asset::delete(&mut state, ADMIN, 1), Ok(()));

    let rows = match ticket::export(&state, USER).unwrap() {
        Payload::TicketsWithComments(rows) => rows,
        other => panic!("unexpected payload {:?}", other),
    };
    let summary: Vec<(i32, i32, Vec<i32>)> = rows
        .iter()
        .map(|(out, asset)| (out.ticket.id, asset.id, out.comments.iter().map(|c| c.id).collect()))
        .collect();
    assert_eq!(summary, vec![(2, 2, vec![]), (3, 2, vec![3, 1])]);
    assert_eq!(status(&ticket::export(&state, None)), 401);
    assert_eq!(ticket::list(&state, USER), Ok(vec![1, 2, 3]), "tickets of a deleted asset stay");

    assert_eq!(
        ticket::exported(Ok((String::from("subject"), String::from("<html>")))),
        Ok(String::from("<html>"))
    );
    assert_eq!(
        ticket::exported(Err(RenderError { reason: String::from("broken") })),
        Err(ErrResponse::S500("could not export data"))
    );
}

#[test]
fn photos_follow_their_ticket() {
    let mut state = fresh();
    asset::create(&mut state, ADMIN, InAsset { title: "A".to_string(), description: String::new() })
        .unwrap();
    let input = InTicket {
        asset_id: 1,
        title: "T".to_string(),
        creator: String::new(),
        creator_mail: String::new(),
        creator_phone: String::new(),
        description: String::new(),
        time: stamp("2024-03-01T09:00:00"),
        is_closed: false,
    };
    ticket::create(&mut state, USER, input).unwrap();
    let picture = image::RgbImage::from_pixel(1500, 300, image::Rgb([1, 2, 3]));
    let mut body = std::io::Cursor::new(Vec::new());
    image::DynamicImage::ImageRgb8(picture).write_to(&mut body, image::ImageFormat::Png).unwrap();
    let body = body.into_inner();

    assert_eq!(
        ticket::upload(&mut state, USER, 1, b"garbage").unwrap_err(),
        Failure::Failed(ErrResponse::S500("error loading image"))
    );
    assert_eq!(status(&ticket::retrieve(&state, USER, 1)), 404);
    assert_eq!(ticket::upload(&mut state, USER, 1, &body).unwrap(), "data/tickets/photos/1.jpg");
    let first = ticket::retrieve(&state, USER, 1).unwrap();
    let decoded = image::load_from_memory(&first).unwrap();
    assert_eq!((decoded.width(), decoded.height()), (1280, 256));
    assert_eq!(ticket::upload(&mut state, ADMIN, 1, &first).unwrap(), "data/tickets/photos/1.jpg");
    assert_eq!(state.photos.len(), 1);

    assert_eq!(ticket::delete_photo(&mut state, USER, 1), Ok("File deleted"));
    assert_eq!(
        ticket::delete_photo(&mut state, USER, 1).unwrap_err(),
        Failure::Failed(ErrResponse::S404("no image available"))
    );
    assert_eq!(status(&ticket::delete_photo(&mut state, None, 1)), 401);

    ticket::upload(&mut state, USER, 1, &body).unwrap();
    assert_eq!(ticket::delete(&mut state, ADMIN, 1), Ok(()));
    assert_eq!(
        ticket::retrieve(&state, USER, 1).unwrap_err(),
        Failure::Failed(ErrResponse::S404("no image available"))
    );
}

#[test]
fn upload_for_ticket_7_stores_one_jpeg_of_1280_by_640() {
    let mut state = fresh();
    let picture = image::RgbImage::new(2560, 1280);
    let mut body = std::io::Cursor::new(Vec::new());
    image::DynamicImage::ImageRgb8(picture).write_to(&mut body, image::ImageFormat::Png).unwrap();
    let body = body.into_inner();
    assert_eq!(ticket::upload(&mut state, USER, 7, &body), Ok(String::from("data/tickets/photos/7.jpg")));
    assert_eq!(state.photos.len(), 1);
    let stored = ticket::retrieve(&state, USER, 7).unwrap();
    assert_eq!(&stored, state.photos.get(&7).unwrap());
    assert_eq!(image::guess_format(&stored).unwrap(), image::ImageFormat::Jpeg);
    let decoded = image::load_from_memory(&stored).unwrap();
    assert_eq!((decoded.width(), decoded.height()), (1280, 640));
    assert_eq!(ticket::retrieve(&state, USER, 7).unwrap(), stored);
}

#[test]
fn bulk_delete_succeeds_on_an_empty_table() {
    let mut state = fresh();
    assert_eq!(asset::destroy(&mut state, ADMIN), Ok(()));
    assert_eq!(asset::destroy(&mut state, ADMIN), Ok(()));
    assert_eq!(ticket::destroy(&mut state, ADMIN), Ok(()));
    assert_eq!(ticket::destroy(&mut state, ADMIN), Ok(()));
    assert_eq!(comment::destroy(&mut state, ADMIN), Ok(()));
    assert_eq!(comment::destroy(&mut state, ADMIN), Ok(()));
}

#[test]
fn deleted_rows_are_gone() {
    let mut state = fresh();
    let (_, created) = asset::create(
        &mut state,
        ADMIN,
        InAsset { title: "A".to_string(), description: String::new() },
    )
    .unwrap();
    assert_eq!(asset::delete(&mut state, ADMIN, created.id), Ok(()));
    assert_eq!(
        asset::read(&state, USER, created.id).unwrap_err(),
        Failure::Failed(ErrResponse::S404("data not found in database"))
    );
    assert_eq!(
        asset::delete(&mut state, ADMIN, created.id).unwrap_err(),
        Failure::Failed(ErrResponse::S404("object not found in database"))
    );
    assert_eq!(
        ticket::read(&state, USER, 1).unwrap_err(),
        Failure::Failed(ErrResponse::S404("could not get ticket"))
    );
    assert_eq!(
        comment::read(&state, USER, 1).unwrap_err(),
        Failure::Failed(ErrResponse::S404("data not found in database"))
    );
}
