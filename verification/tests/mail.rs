use tinytickets_backend::mail::{recipients, Dispatch, Mail, Mailer, MockMailer, RealMailer};

#[derive(Debug)]
#[allow(dead_code)]
struct Expected {
    to: String,
    subject: String,
    body: String,
}

fn text(s: &str) -> String {
    String::from(s)
}

#[test]
fn mock_records_each_distinct_mail_once() {
    let mut mailer = Mailer::new(true);
    assert_eq!(mailer.print_test_mails(), "");
    let first = mailer.send_mail_to(text("s"), text("b"), text("a@x.com"));
    assert!(matches!(first, Dispatch::Recorded));
    mailer.send_mail_to(text("s"), text("b"), text("a@x.com"));
    mailer.send_mail_to(text("s"), text("other"), text("a@x.com"));
    match &mailer {
        Mailer::Mock(mock) => {
            assert_eq!(mock.count(), 2);
            assert_eq!(mock.get(0).body, "b");
            assert_eq!(mock.get(1).body, "other");
        }
        Mailer::Real(_) => panic!("test mode selects the recording transport"),
    }
}

#[test]
fn mock_prints_the_debug_rendering_of_each_mail() {
    let mut mock = MockMailer::new();
    mock.send_mail_to(text("Hello \"you\""), text("line\nbreak é"), text("a@x.com, b@y.org"));
    mock.send_mail_to(text("second"), text(""), text("c@z.net"));
    let one = Expected {
        to: text("a@x.com, b@y.org"),
        subject: text("Hello \"you\""),
        body: text("line\nbreak é"),
    };
    let two = Expected { to: text("c@z.net"), subject: text("second"), body: text("") };
    let expected = format!("{:?}{:?}", one, two).replace("Expected", "Mail");
    assert_eq!(mock.print_test_mails(), expected);
    assert!(mock.contains(&Mail { to: text("c@z.net"), subject: text("second"), body: text("") }));
    assert!(!mock.contains(&Mail { to: text("c@z.net"), subject: text("third"), body: text("") }));
}

#[test]
fn describe_is_the_derived_debug_text() {
    let mail = Mail { to: text("a@x.com"), subject: text("tab\there"), body: text("'q' \\ \u{7f}") };
    assert_eq!(mail.describe(), format!("{:?}", mail));
    assert_ne!(mail.describe(), "tab\there");
}

#[test]
fn real_mailer_hands_valid_mail_over_for_delivery() {
    let mut mailer = Mailer::new(false);
    let dispatch = mailer.send_mail_to(text("s"), text("<p>b</p>"), text(" a@x.com ,b@y.org"));
    match dispatch {
        Dispatch::Deliver(envelope) => {
            assert_eq!(envelope.recipients, vec![text("a@x.com"), text("b@y.org")]);
            assert_eq!(envelope.subject, "s");
            assert_eq!(envelope.body, "<p>b</p>");
        }
        other => panic!("expected a delivery, got {:?}", other),
    }
    assert_eq!(mailer.print_test_mails(), "Not implemented...");
}

#[test]
fn real_mailer_refuses_what_is_no_address() {
    let mut real = RealMailer {};
    assert!(matches!(real.send_mail_to(text("s"), text("b"), text("")), Dispatch::Refused));
    assert!(matches!(
        real.send_mail_to(text("s"), text("b"), text("a@x.com,")),
        Dispatch::Refused
    ));
    assert!(matches!(
        real.send_mail_to(text("s"), text("b"), text("not an address")),
        Dispatch::Refused
    ));
    assert!(matches!(
        real.send_mail_to(text("s"), text("b"), text("a@x.com")),
        Dispatch::Deliver(_)
    ));
}

#[test]
fn recipients_are_split_trimmed_and_checked() {
    assert_eq!(recipients("a@x.com"), Some(vec![text("a@x.com")]));
    assert_eq!(
        recipients("a@x.com,  b@y.org\t, c@z.net"),
        Some(vec![text("a@x.com"), text("b@y.org"), text("c@z.net")])
    );
    assert_eq!(recipients("a@x.com,,b@y.org"), None);
    assert_eq!(recipients("a@@x"), None);
    assert_eq!(recipients(""), None);
}
