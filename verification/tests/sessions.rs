use cap_cdts::auth::{AuthError, AuthErrorKind, AuthManager};
use cap_cdts::clock::{FIRST_SECOND, LAST_SECOND};
use cap_cdts::fresh::Fresh;
use cap_cdts::models::{CreateUserRequest, StoreData, UserRecord};
use cap_cdts::store::{JsonStore, Loaded};

const TOKEN: &str = "00112233445566778899aabbccddeeff00112233445566778899aabbccddeeff";

fn store() -> JsonStore {
    let mut s = JsonStore::open(Loaded::Missing).store;
    for (name, level, passcode) in [("Ada", 1, Some("12345")), ("Bo", 5, None)] {
        s.create_user_with(
            CreateUserRequest {
                username: name.to_string(),
                rfid_uid: "77".to_string(),
                level,
                passcode: passcode.map(|p: &str| p.to_string()),
            },
            Fresh::draw(),
        )
        .unwrap();
    }
    s
}

fn assert_refused(r: Result<cap_cdts::models::LoginResponse, AuthError>, kind: AuthErrorKind, message: &str) {
    let e = r.unwrap_err();
    assert_eq!(e.kind, kind);
    assert_eq!(e.text(), message);
}

#[test]
fn errors_of_logins_have_kinds_and_texts() {
    assert_eq!(AuthError::bad_request("a").kind, AuthErrorKind::BadRequest);
    assert_eq!(AuthError::unauthorized("b").kind, AuthErrorKind::Unauthorized);
    assert_eq!(AuthError::forbidden("c").kind, AuthErrorKind::Forbidden);
    assert_eq!(AuthError::internal("d").kind, AuthErrorKind::Internal);
    assert_eq!(AuthError::internal("d").text(), "d");
}

#[test]
fn a_login_opens_a_session_that_ends() {
    let s = store();
    let mut auth = AuthManager::new(60);
    let r = auth.login_with(&s, " ada ", " 12345 ", TOKEN.to_string(), 1_000).unwrap();
    assert_eq!(r.token, TOKEN);
    assert_eq!(r.user.username, "Ada");
    assert_eq!(r.user.rfid_uid, "77");
    assert_eq!(r.user.level, 1);
    assert_eq!(r.expires_at_utc, "1970-01-01T00:17:40Z");
    let u = auth.authenticate_at(&format!(" {TOKEN} "), 1_059).unwrap();
    assert_eq!((u.username.as_str(), u.level), ("Ada", 1));
    assert!(auth.authenticate_at(TOKEN, 1_060).is_none());
    assert!(auth.authenticate_at(TOKEN, 1_000).is_none());
}

#[test]
fn logins_are_refused() {
    let s = store();
    let mut auth = AuthManager::new(60);
    let login = |auth: &mut AuthManager, name: &str, passcode: &str| {
        auth.login_with(&s, name, passcode, TOKEN.to_string(), 0)
    };
    assert_refused(login(&mut auth, " ", "1"), AuthErrorKind::BadRequest, "username is required");
    assert_refused(login(&mut auth, "Ada", " "), AuthErrorKind::BadRequest, "passcode is required");
    assert_refused(
        login(&mut auth, "Cy", "12345"),
        AuthErrorKind::Unauthorized,
        "invalid username or passcode",
    );
    assert_refused(
        login(&mut auth, "Ada", "54321"),
        AuthErrorKind::Unauthorized,
        "invalid username or passcode",
    );
    assert_refused(login(&mut auth, "Bo", "12345"), AuthErrorKind::Forbidden, "basic users cannot log in");
    assert!(auth.authenticate_at(TOKEN, -5).is_none());
}

#[test]
fn users_without_a_usable_hash_cannot_log_in() {
    let mut d = StoreData::default();
    for (name, hash) in [("none", None), ("odd", Some("odd"))] {
        d.users.push(UserRecord {
            username: name.to_string(),
            rfid_uid: String::new(),
            level: 3,
            passcode_hash: hash.map(|h: &str| h.to_string()),
            created_at_utc: String::new(),
        });
    }
    let s = JsonStore::open(Loaded::Data(d)).store;
    let mut auth = AuthManager::new(60);
    assert_refused(
        auth.login_with(&s, "none", "12345", TOKEN.to_string(), 0),
        AuthErrorKind::Unauthorized,
        "invalid username or passcode",
    );
    assert_refused(
        auth.login_with(&s, "odd", "12345", TOKEN.to_string(), 0),
        AuthErrorKind::Internal,
        "failed to verify passcode: parse passcode hash",
    );
}

#[test]
fn a_logout_ends_one_session() {
    let s = store();
    let mut auth = AuthManager::new(60);
    let other = TOKEN.replace('0', "1");
    auth.login_with(&s, "ada", "12345", TOKEN.to_string(), 0).unwrap();
    auth.login_with(&s, "ada", "12345", other.clone(), 0).unwrap();
    assert!(auth.logout(&format!(" {TOKEN}")));
    assert!(!auth.logout(TOKEN));
    assert!(!auth.logout("  "));
    assert!(auth.authenticate_at(TOKEN, 1).is_none());
    assert!(auth.authenticate_at(&other, 1).is_some());
    assert!(auth.authenticate_at(" ", 1).is_none());
}

#[test]
fn a_login_now_lasts_as_set() {
    let s = store();
    let mut auth = AuthManager::new(3_600);
    let r = auth.login(&s, "ada", "12345").unwrap();
    assert_eq!(r.token.len(), 64);
    assert!(r.expires_at_utc.starts_with("20"));
    assert_eq!(auth.authenticate(&r.token).unwrap().username, "Ada");
    assert!(auth.authenticate("x").is_none());
    let mut ended = AuthManager::new(-1);
    let r = ended.login(&s, "ada", "12345").unwrap();
    assert!(ended.authenticate(&r.token).is_none());
}

#[test]
fn an_end_beyond_the_clock_has_the_text_of_the_epoch() {
    let s = store();
    let mut auth = AuthManager::new(LAST_SECOND);
    let r = auth.login_with(&s, "ada", "12345", TOKEN.to_string(), 1).unwrap();
    assert_eq!(r.expires_at_utc, "1970-01-01T00:00:00Z");
    assert!(auth.authenticate_at(TOKEN, LAST_SECOND).is_some());
}

#[test]
fn lifetimes_that_overflow_are_not_usable() {
    assert!(AuthManager::new(0).is_ttl_usable());
    assert!(AuthManager::new(i64::MAX - LAST_SECOND).is_ttl_usable());
    assert!(!AuthManager::new(i64::MAX - LAST_SECOND + 1).is_ttl_usable());
    assert!(AuthManager::new(i64::MIN - FIRST_SECOND).is_ttl_usable());
    assert!(!AuthManager::new(i64::MIN - FIRST_SECOND - 1).is_ttl_usable());
}

#[test]
fn refusals_need_no_usable_lifetime() {
    let s = store();
    let mut auth = AuthManager::new(i64::MAX);
    assert!(!auth.is_end_usable(1));
    assert!(auth.is_end_usable(0));
    assert_refused(auth.login(&s, "Ada", "54321"), AuthErrorKind::Unauthorized, "invalid username or passcode");
    assert_refused(
        auth.login_with(&s, "", "12345", TOKEN.to_string(), 1),
        AuthErrorKind::BadRequest,
        "username is required",
    );
    assert!(auth.try_login(&s, "Ada", "12345").is_none());
    assert!(auth.try_login_with(&s, "Ada", "12345", TOKEN.to_string(), 1).is_none());
    assert!(auth.try_login_with(&s, "Ada", "1", TOKEN.to_string(), 1).unwrap().is_err());
    assert!(auth.try_login_with(&s, "Ada", "12345", TOKEN.to_string(), 0).unwrap().is_ok());
}

#[test]
fn a_session_lasts_through_other_events() {
    let s = store();
    let mut auth = AuthManager::new(60);
    auth.login_with(&s, "ada", "12345", TOKEN.to_string(), 0).unwrap();
    let other = TOKEN.replace('0', "1");
    auth.login_with(&s, "ada", "12345", other.clone(), 10).unwrap();
    assert!(auth.authenticate_at("nobody", 20).is_none());
    assert!(auth.logout(&other));
    assert_eq!(auth.authenticate_at(TOKEN, 59).unwrap().username, "Ada");
}
