use tinytickets_backend::config::{
    authorize, classify, guard, random_string, Access, AdminToken, Config, Rejection, Tier,
    UserToken, SECRET_LENGTH,
};
use tinytickets_backend::errors::Failure;

fn config() -> Config {
    Config::with_secrets(
        false,
        "development_admin_token",
        "development_user_token",
        String::from("tickets@x.com"),
        String::from("comments@x.com"),
    )
}

const ADMIN: &[u8] = b"$ADMIN$development_admin_token";
const USER: &[u8] = b"$USER$development_user_token";

#[test]
fn secrets_are_prefixed() {
    let config = config();
    assert_eq!(config.admin_secret(), "$ADMIN$development_admin_token");
    assert_eq!(config.user_secret(), "$USER$development_user_token");
    assert_eq!(config.ticket_recipient(), "tickets@x.com");
    assert_eq!(config.comment_recipient(), "comments@x.com");
    assert!(!config.is_debug());
}

#[test]
fn init_takes_settings_or_defaults() {
    let config = Config::init(true, Some(String::from("a")), None, None, Some(String::from("c@x.com")));
    assert!(config.is_debug());
    assert_eq!(config.admin_secret(), "$ADMIN$a");
    assert_eq!(config.ticket_recipient(), "");
    assert_eq!(config.comment_recipient(), "c@x.com");
    let user = config.user_secret();
    assert!(user.starts_with("$USER$"));
    let suffix = &user["$USER$".len()..];
    assert_eq!(suffix.chars().count(), 48);
    assert!(suffix.chars().all(|c| c.is_ascii_alphanumeric()));
}

#[test]
fn generated_secret_is_48_alphanumerics() {
    assert_eq!(SECRET_LENGTH, 48);
    let a = random_string();
    let b = random_string();
    assert_eq!(a.len(), 48);
    assert!(a.bytes().all(|c| c.is_ascii_alphanumeric()));
    assert!(b.bytes().all(|c| c.is_ascii_alphanumeric()));
    assert_ne!(a, b);
}

#[test]
fn equal_suffixes_do_not_collide() {
    let config = Config::with_secrets(false, "same", "same", String::new(), String::new());
    assert_ne!(config.admin_secret(), config.user_secret());
    assert_eq!(classify(Some(b"$ADMIN$same"), &config), Access::Admin);
    assert_eq!(classify(Some(b"$USER$same"), &config), Access::User);
    assert_eq!(classify(Some(b"same"), &config), Access::Rejected(Rejection::Denied));
}

#[test]
fn admin_secret_is_classified_as_admin() {
    let config = config();
    assert_eq!(classify(Some(ADMIN), &config), Access::Admin);
    assert_eq!(classify(Some(USER), &config), Access::User);
    assert_eq!(classify(None, &config), Access::Rejected(Rejection::Missing));
}

#[test]
fn wrong_or_partial_secret_is_denied() {
    let config = config();
    assert_eq!(classify(Some(b""), &config), Access::Rejected(Rejection::Denied));
    assert_eq!(
        classify(Some(b"development_admin_token"), &config),
        Access::Rejected(Rejection::Denied)
    );
    assert_eq!(
        classify(Some(b"$ADMIN$development_admin_token "), &config),
        Access::Rejected(Rejection::Denied)
    );
    assert_eq!(
        classify(Some(b"x$ADMIN$development_admin_token"), &config),
        Access::Rejected(Rejection::Denied)
    );
    assert_eq!(
        classify(Some(b"$USER$development_admin_token"), &config),
        Access::Rejected(Rejection::Denied)
    );
}

#[test]
fn header_that_is_not_text_is_corrupted() {
    let config = config();
    assert_eq!(classify(Some(b"caf\xc3\xa9"), &config), Access::Rejected(Rejection::Corrupted));
    assert_eq!(classify(Some(b"a\nb"), &config), Access::Rejected(Rejection::Corrupted));
    assert_eq!(classify(Some(b"\x7f"), &config), Access::Rejected(Rejection::Corrupted));
    assert_eq!(classify(Some(b"\x00"), &config), Access::Rejected(Rejection::Corrupted));
    assert_eq!(classify(Some(b"a\tb"), &config), Access::Rejected(Rejection::Denied));
}

#[test]
fn rejections_carry_status_and_message() {
    assert_eq!(Rejection::Missing.status(), 401);
    assert_eq!(Rejection::Missing.message(), "`X-TOKEN` header is missing");
    assert_eq!(Rejection::Corrupted.status(), 401);
    assert_eq!(Rejection::Corrupted.message(), "`X-TOKEN` header is corrupted");
    assert_eq!(Rejection::Denied.status(), 403);
    assert_eq!(Rejection::Denied.message(), "access denied");
}

#[test]
fn admin_includes_user() {
    let config = config();
    assert_eq!(authorize(Some(ADMIN), &config, Tier::Admin), Ok(()));
    assert_eq!(authorize(Some(ADMIN), &config, Tier::User), Ok(()));
    assert_eq!(authorize(Some(USER), &config, Tier::User), Ok(()));
    assert_eq!(authorize(Some(USER), &config, Tier::Admin), Err(Rejection::Denied));
    assert_eq!(authorize(None, &config, Tier::User), Err(Rejection::Missing));
    assert_eq!(authorize(None, &config, Tier::Admin), Err(Rejection::Missing));
    assert_eq!(guard(None, &config, Tier::Admin), Err(Failure::Rejected(Rejection::Missing)));
    assert_eq!(guard(Some(USER), &config, Tier::Admin).unwrap_err().status(), 403);
    assert_eq!(guard(None, &config, Tier::User).unwrap_err().status(), 401);
}

#[test]
fn extractors_follow_the_tiers() {
    let config = config();
    assert!(AdminToken::from_request_parts(Some(ADMIN), &config).is_ok());
    assert_eq!(
        AdminToken::from_request_parts(Some(USER), &config).unwrap_err(),
        Rejection::Denied
    );
    assert_eq!(AdminToken::from_request_parts(None, &config).unwrap_err(), Rejection::Missing);
    assert_eq!(
        AdminToken::from_request_parts(Some(b"\xff"), &config).unwrap_err(),
        Rejection::Corrupted
    );
    assert!(UserToken::from_request_parts(Some(ADMIN), &config).is_ok());
    assert!(UserToken::from_request_parts(Some(USER), &config).is_ok());
    assert_eq!(
        UserToken::from_request_parts(Some(b"nope"), &config).unwrap_err(),
        Rejection::Denied
    );
    assert_eq!(UserToken::from_request_parts(None, &config).unwrap_err(), Rejection::Missing);
}
