use cap_cdts::api::{
    bearer_token, can_manage_reports, can_manage_users, can_use_app, is_advanced_user,
    require_user, require_user_at, ApiError,
};
use cap_cdts::auth::AuthManager;
use cap_cdts::endpoints;
use cap_cdts::fresh::Fresh;
use cap_cdts::models::{
    CreateReportRequest, CreateUserRequest, GpioConfig, LoginRequest, StoreData,
    UpdateReportRequest, UpdateUserRequest,
};
use cap_cdts::store::{JsonStore, Loaded, StoreError};
use cap_cdts::update::{Platform, UpdateConfig, UpdateState, Updater};

const NOW: i64 = 1_000;

fn fresh() -> Fresh {
    Fresh {
        salt: "AAAAAAAAAAAAAAAAAAAAAA".to_string(),
        record_at: "then".to_string(),
        live_at: "now".to_string(),
    }
}

fn token(c: char) -> String {
    c.to_string().repeat(64)
}

fn header(c: char) -> String {
    format!("Bearer {}", token(c))
}

fn user(name: &str, level: i32) -> CreateUserRequest {
    CreateUserRequest {
        username: name.to_string(),
        rfid_uid: String::new(),
        level,
        passcode: Some("12345".to_string()),
    }
}

fn report(person: &str) -> CreateReportRequest {
    CreateReportRequest {
        person: person.to_string(),
        title: "t".to_string(),
        category: "c".to_string(),
        priority: "p".to_string(),
        description: "d".to_string(),
        opened_by: None,
    }
}

fn close() -> UpdateReportRequest {
    UpdateReportRequest {
        person: None,
        title: None,
        category: None,
        priority: None,
        description: None,
        closed: Some(true),
        closing_comments: None,
    }
}

fn relevel(level: Option<i32>) -> UpdateUserRequest {
    UpdateUserRequest { rfid_uid: None, level, passcode: None }
}

/// A store with a user of each level that can log in, all logged in, the level
/// being the digit that their token repeats.
fn world() -> (AuthManager, JsonStore) {
    let mut store = JsonStore::open(Loaded::Missing).store;
    let mut auth = AuthManager::new(60);
    for (name, level, c) in [("ada", 1, '1'), ("june", 2, '2'), ("mod", 3, '3'), ("adv", 4, '4')] {
        store.create_user_with(user(name, level), fresh()).unwrap();
        let req = LoginRequest { username: name.to_string(), passcode: "12345".to_string() };
        endpoints::auth_login_with(&mut auth, &store, &req, token(c), NOW).unwrap();
    }
    (auth, store)
}

fn assert_refused<T>(r: Result<T, ApiError>, status: u16, message: &str) {
    match r {
        Ok(_) => panic!("not refused"),
        Err(e) => {
            assert_eq!(e.status, status);
            assert_eq!(e.message, message);
        }
    }
}

#[test]
fn the_service_is_ok() {
    assert_eq!(endpoints::api_status().status, "ok");
}

#[test]
fn tokens_are_read_from_the_header() {
    assert_eq!(bearer_token(None), None);
    assert_eq!(bearer_token(Some("")), None);
    assert_eq!(bearer_token(Some("Bearer")), None);
    assert_eq!(bearer_token(Some("Bearer   ")), None);
    assert_eq!(bearer_token(Some("bearer abc")), None);
    assert_eq!(bearer_token(Some("Basic abc")), None);
    assert_eq!(bearer_token(Some("  Bearer   abc  ")), Some("abc".to_string()));
    assert_eq!(bearer_token(Some("Bearer a b")), Some("a b".to_string()));
    assert_eq!(bearer_token(Some(&header('7'))), Some(token('7')));
}

#[test]
fn permissions_follow_the_level() {
    let expected = [
        (0, false, true, false),
        (1, true, true, false),
        (2, true, true, false),
        (3, false, true, false),
        (4, false, true, true),
        (5, false, false, false),
        (6, false, false, false),
        (-1, false, false, false),
    ];
    for (level, manages, uses, advanced) in expected {
        assert_eq!(can_manage_users(level), manages);
        assert_eq!(can_manage_reports(level), manages);
        assert_eq!(can_use_app(level), uses);
        assert_eq!(is_advanced_user(level), advanced);
    }
}

#[test]
fn refusals_of_the_store_have_status_codes() {
    assert_eq!(ApiError::from(StoreError::bad_request("a")).status, 400);
    assert_eq!(ApiError::from(StoreError::conflict("b")).status, 409);
    assert_eq!(ApiError::from(StoreError::internal("c")).status, 500);
    assert_eq!(ApiError::from(StoreError::internal("c")).message, "c");
    assert_eq!(ApiError::new(418, "x").status, 418);
}

#[test]
fn callers_need_a_live_session() {
    let (mut auth, _) = world();
    assert_refused(require_user_at(&mut auth, None, NOW), 401, "missing Authorization: Bearer token");
    assert_refused(
        require_user_at(&mut auth, Some("Bearer x"), NOW),
        401,
        "invalid or expired session",
    );
    let u = require_user_at(&mut auth, Some(&header('2')), NOW + 59).unwrap();
    assert_eq!((u.username.as_str(), u.level), ("june", 2));
    assert_refused(
        require_user_at(&mut auth, Some(&header('2')), NOW + 60),
        401,
        "invalid or expired session",
    );
    assert_refused(require_user(&mut auth, Some(&header('1'))), 401, "invalid or expired session");
}

#[test]
fn logins_are_answered() {
    let (_, store) = world();
    let mut auth = AuthManager::new(60);
    let req = |name: &str, passcode: &str| LoginRequest {
        username: name.to_string(),
        passcode: passcode.to_string(),
    };
    let r = endpoints::auth_login(&mut auth, &store, &req("ADA", "12345")).unwrap();
    assert_eq!(r.user.username, "ada");
    let h = format!("Bearer {}", r.token);
    assert_eq!(endpoints::auth_me(&mut auth, &store, Some(&h)).unwrap().user.level, 1);
    let login = |auth: &mut AuthManager, name: &str, passcode: &str| {
        endpoints::auth_login_with(auth, &store, &req(name, passcode), token('9'), NOW)
    };
    assert_refused(login(&mut auth, "", "1"), 400, "username is required");
    assert_refused(login(&mut auth, "ada", ""), 400, "passcode is required");
    assert_refused(login(&mut auth, "ada", "1"), 401, "invalid username or passcode");
    assert_refused(login(&mut auth, "zed", "1"), 401, "invalid username or passcode");
}

#[test]
fn a_basic_user_is_forbidden_to_log_in() {
    let mut store = JsonStore::open(Loaded::Missing).store;
    let req = CreateUserRequest { passcode: None, ..user("bo", 5) };
    store.create_user(req).unwrap();
    let mut auth = AuthManager::new(60);
    let req = LoginRequest { username: "bo".to_string(), passcode: "12345".to_string() };
    assert_refused(
        endpoints::auth_login(&mut auth, &store, &req),
        403,
        "basic users cannot log in",
    );
}

#[test]
fn callers_learn_who_they_are() {
    let (mut auth, store) = world();
    let me = endpoints::auth_me_at(&mut auth, &store, Some(&header('4')), NOW).unwrap();
    assert_eq!((me.user.username.as_str(), me.user.level), ("adv", 4));
    let nobody = JsonStore::open(Loaded::Data(StoreData::default())).store;
    assert_refused(
        endpoints::auth_me_at(&mut auth, &nobody, Some(&header('4')), NOW),
        401,
        "session user no longer exists",
    );
    assert_refused(
        endpoints::auth_me(&mut auth, &store, None),
        401,
        "missing Authorization: Bearer token",
    );
}

#[test]
fn logouts_are_answered() {
    let (mut auth, _) = world();
    assert_refused(
        endpoints::auth_logout(&mut auth, None),
        401,
        "missing Authorization: Bearer token",
    );
    assert_eq!(endpoints::auth_logout(&mut auth, Some(&header('1'))).unwrap(), 204);
    assert_eq!(endpoints::auth_logout(&mut auth, Some(&header('1'))).unwrap(), 204);
    assert!(require_user_at(&mut auth, Some(&header('1')), NOW).is_err());
    assert!(require_user_at(&mut auth, Some(&header('2')), NOW).is_ok());
}

#[test]
fn users_are_listed_for_callers() {
    let (mut auth, store) = world();
    let users = endpoints::list_users_at(&mut auth, &store, Some(&header('4')), NOW).unwrap();
    let names: Vec<&str> = users.iter().map(|u| u.username.as_str()).collect();
    assert_eq!(names, vec!["ada", "adv", "june", "mod"]);
    assert_refused(
        endpoints::list_users(&mut auth, &store, Some("x")),
        401,
        "missing Authorization: Bearer token",
    );
}

#[test]
fn administrators_create_users() {
    let (mut auth, mut store) = world();
    let staged =
        endpoints::create_user_with(&mut auth, &mut store, Some(&header('1')), user("new", 1), NOW, fresh())
            .unwrap();
    let created = endpoints::finish(&mut store, staged, Ok(())).unwrap();
    assert_eq!((created.username.as_str(), created.level), ("new", 1));
    assert_eq!(store.subscribe_live().counts.users, 5);
    assert_refused(
        endpoints::create_user_with(&mut auth, &mut store, Some(&header('1')), user("NEW", 1), NOW, fresh()),
        409,
        "username already exists",
    );
    assert_refused(
        endpoints::create_user_with(&mut auth, &mut store, Some(&header('3')), user("x", 5), NOW, fresh()),
        403,
        "insufficient role",
    );
    assert_refused(
        endpoints::create_user(&mut auth, &mut store, None, user("x", 5)),
        401,
        "missing Authorization: Bearer token",
    );
}

#[test]
fn junior_administrators_create_no_administrators() {
    let (mut auth, mut store) = world();
    for level in [1, 2] {
        assert_refused(
            endpoints::create_user_with(
                &mut auth,
                &mut store,
                Some(&header('2')),
                user("x", level),
                NOW,
                fresh(),
            ),
            403,
            "junior admin cannot create admin or junior admin users",
        );
    }
    assert!(endpoints::create_user_with(
        &mut auth,
        &mut store,
        Some(&header('2')),
        user("x", 3),
        NOW,
        fresh()
    )
    .is_ok());
}

#[test]
fn junior_administrators_leave_administrators_alone() {
    let (mut auth, mut store) = world();
    let mut update = |name: &str, level: Option<i32>| {
        endpoints::update_user_with(
            &mut auth,
            &mut store,
            Some(&header('2')),
            name,
            relevel(level),
            NOW,
            fresh(),
        )
    };
    let account = "junior admin cannot modify admin or junior admin accounts";
    let role = "junior admin cannot assign admin or junior admin roles";
    assert_refused(update("ada", Some(5)), 403, account);
    assert_refused(update(" JUNE ", None), 403, account);
    assert_refused(update("mod", Some(1)), 403, role);
    assert_refused(update("mod", Some(2)), 403, role);
    assert_refused(update("nobody", Some(2)), 403, role);
    assert_refused(update("nobody", None), 404, "user not found");
    assert_eq!(update("mod", Some(4)).unwrap().value.level, 4);
}

#[test]
fn administrators_update_users() {
    let (mut auth, mut store) = world();
    let mut update = |c: char, name: &str, req: UpdateUserRequest| {
        endpoints::update_user_with(&mut auth, &mut store, Some(&header(c)), name, req, NOW, fresh())
    };
    assert_eq!(update('1', "june", relevel(Some(1))).unwrap().value.level, 1);
    assert_refused(update('1', "nobody", relevel(None)), 404, "user not found");
    assert_refused(update('1', " ", relevel(None)), 400, "username is required");
    let odd = UpdateUserRequest { passcode: Some("x".to_string()), ..relevel(None) };
    assert_refused(update('1', "mod", odd), 400, "passcode must be exactly 5 digits");
    assert_refused(update('4', "mod", relevel(None)), 403, "insufficient role");
    assert_refused(
        endpoints::update_user(&mut auth, &mut store, Some("Bearer ?"), "mod", relevel(None)),
        401,
        "invalid or expired session",
    );
}

#[test]
fn an_updated_passcode_opens_a_session() {
    let (mut auth, mut store) = world();
    let req = UpdateUserRequest { passcode: Some("99999".to_string()), ..relevel(None) };
    endpoints::update_user_with(&mut auth, &mut store, Some(&header('1')), "mod", req, NOW, fresh())
        .unwrap();
    let login = |auth: &mut AuthManager, passcode: &str| {
        let req = LoginRequest { username: "mod".to_string(), passcode: passcode.to_string() };
        endpoints::auth_login_with(auth, &store, &req, token('a'), NOW)
    };
    assert!(login(&mut auth, "99999").is_ok());
    assert_refused(login(&mut auth, "12345"), 401, "invalid username or passcode");
}

#[test]
fn advanced_users_do_not_see_reports_about_themselves() {
    let (mut auth, mut store) = world();
    for person in ["ADV", "mod", "Adv"] {
        endpoints::create_report_with(&mut auth, &mut store, Some(&header('3')), report(person), NOW, fresh())
            .unwrap();
    }
    let nums = |auth: &mut AuthManager, c: char| -> Vec<u32> {
        let reports = endpoints::list_reports_at(auth, &store, Some(&header(c)), NOW).unwrap();
        reports.iter().map(|r| r.num).collect()
    };
    assert_eq!(nums(&mut auth, '4'), vec![100_001]);
    assert_eq!(nums(&mut auth, '3'), vec![100_002, 100_001, 100_000]);
    let get = |auth: &mut AuthManager, c: char, num: u32| {
        endpoints::get_report_at(auth, &store, Some(&header(c)), num, NOW)
    };
    assert_refused(
        get(&mut auth, '4', 100_000),
        403,
        "advanced users cannot view reports about themselves",
    );
    assert_eq!(get(&mut auth, '4', 100_001).unwrap().person, "mod");
    assert_eq!(get(&mut auth, '3', 100_000).unwrap().person, "ADV");
    assert_refused(get(&mut auth, '4', 100_009), 404, "report not found");
    assert_refused(
        endpoints::get_report(&mut auth, &store, None, 100_000),
        401,
        "missing Authorization: Bearer token",
    );
    assert_refused(
        endpoints::list_reports(&mut auth, &store, None),
        401,
        "missing Authorization: Bearer token",
    );
}

#[test]
fn reports_are_opened_by_the_caller() {
    let (mut auth, mut store) = world();
    let staged =
        endpoints::create_report_with(&mut auth, &mut store, Some(&header('4')), report("x"), NOW, fresh())
            .unwrap();
    assert_eq!(staged.value.opened_by, "adv");
    assert_eq!(staged.value.opened_by_level, Some(4));
    assert_refused(
        endpoints::create_report_with(&mut auth, &mut store, Some(&header('4')), report(" "), NOW, fresh()),
        400,
        "person is required",
    );
    assert_refused(
        endpoints::create_report(&mut auth, &mut store, None, report("x")),
        401,
        "missing Authorization: Bearer token",
    );
}

#[test]
fn managers_close_and_delete_reports() {
    let (mut auth, mut store) = world();
    endpoints::create_report_with(&mut auth, &mut store, Some(&header('4')), report("x"), NOW, fresh())
        .unwrap();
    assert_refused(
        endpoints::update_report_with(&mut auth, &mut store, Some(&header('3')), 100_000, close(), NOW, fresh()),
        403,
        "insufficient role",
    );
    let closed =
        endpoints::update_report_with(&mut auth, &mut store, Some(&header('2')), 100_000, close(), NOW, fresh())
            .unwrap();
    assert_eq!(closed.value.closed_by.as_deref(), Some("june"));
    assert_eq!(closed.value.closed_at_utc.as_deref(), Some("then"));
    assert_refused(
        endpoints::update_report_with(&mut auth, &mut store, Some(&header('2')), 1, close(), NOW, fresh()),
        404,
        "report not found",
    );
    assert_refused(
        endpoints::update_report(&mut auth, &mut store, None, 100_000, close()),
        401,
        "missing Authorization: Bearer token",
    );
    assert_refused(
        endpoints::delete_report_with(&mut auth, &mut store, Some(&header('4')), 100_000, NOW, "t".to_string()),
        403,
        "insufficient role",
    );
    let deleted =
        endpoints::delete_report_with(&mut auth, &mut store, Some(&header('1')), 100_000, NOW, "t".to_string())
            .unwrap();
    assert_eq!(endpoints::finish(&mut store, deleted, Ok(())).unwrap(), 204);
    assert_refused(
        endpoints::delete_report_with(&mut auth, &mut store, Some(&header('1')), 100_000, NOW, "t".to_string()),
        404,
        "report not found",
    );
    assert_refused(
        endpoints::delete_report(&mut auth, &mut store, None, 100_000),
        401,
        "missing Authorization: Bearer token",
    );
}

#[test]
fn a_change_that_is_not_written_is_a_failure() {
    let (mut auth, mut store) = world();
    let staged =
        endpoints::create_user_with(&mut auth, &mut store, Some(&header('1')), user("n", 3), NOW, fresh())
            .unwrap();
    assert_refused(
        endpoints::finish(&mut store, staged, Err("read-only".to_string())),
        500,
        "failed to persist store: read-only",
    );
}

#[test]
fn managers_of_users_assign_pins() {
    let (mut auth, mut store) = world();
    let cfg = GpioConfig { push_btn: Some(4), ..GpioConfig::default() };
    let staged =
        endpoints::set_gpio_config_with(&mut auth, &mut store, Some(&header('2')), cfg, NOW, "t".to_string())
            .unwrap();
    assert_eq!(endpoints::finish(&mut store, staged, Ok(())).unwrap().push_btn, Some(4));
    assert_eq!(
        endpoints::get_gpio_config_at(&mut auth, &store, Some(&header('1')), NOW).unwrap().push_btn,
        Some(4)
    );
    assert_refused(
        endpoints::get_gpio_config_at(&mut auth, &store, Some(&header('3')), NOW),
        403,
        "insufficient role",
    );
    let bad = GpioConfig { push_btn: Some(28), ..cfg };
    assert_refused(
        endpoints::set_gpio_config_with(&mut auth, &mut store, Some(&header('2')), bad, NOW, "t".to_string()),
        400,
        "push_btn must be a BCM GPIO number 0-27 (got 28)",
    );
    assert_refused(
        endpoints::get_gpio_config(&mut auth, &store, None),
        401,
        "missing Authorization: Bearer token",
    );
    assert_refused(
        endpoints::set_gpio_config(&mut auth, &mut store, None, cfg),
        401,
        "missing Authorization: Bearer token",
    );
}

fn updater(enabled: bool) -> Updater {
    let cfg = UpdateConfig {
        enabled,
        repo_dir: "/repo".to_string(),
        state_path: "state.json".to_string(),
        new_bin: "bin/new".to_string(),
        live_bin: None,
        auto_restart: true,
        max_log_lines: 3,
    };
    Updater::open_with(cfg, Platform::Unix, None, "t0".to_string())
}

#[test]
fn the_update_endpoints_need_the_admin_token() {
    let none: Option<String> = None;
    let some = Some("secret".to_string());
    let u = updater(true);
    let missing = "admin token not configured; set CAP_CDTS_ADMIN_TOKEN to enable update endpoints";
    assert_refused(endpoints::require_admin(&none, Some("secret")), 503, missing);
    assert_refused(endpoints::require_admin(&some, None), 401, "missing X-Admin-Token header");
    assert_refused(endpoints::require_admin(&some, Some("  ")), 401, "missing X-Admin-Token header");
    assert_refused(endpoints::require_admin(&some, Some("Secret")), 403, "invalid admin token");
    assert!(endpoints::require_admin(&some, Some(" secret ")).is_ok());
    assert_refused(endpoints::get_update_status(&none, None, &u, None), 503, missing);
    let status =
        endpoints::get_update_status(&some, Some("secret"), &u, Some("/usr/bin/app".to_string())).unwrap();
    assert_eq!(status.live_bin, "/usr/bin/app");
    assert_eq!(status.repo_dir, "/repo");
    assert_eq!(status.new_bin, "bin/new");
    let status = endpoints::get_update_status(&some, Some("secret"), &u, None).unwrap();
    assert_eq!(status.live_bin, "<unknown>");
}

#[test]
fn runs_are_started_one_at_a_time() {
    let some = Some("secret".to_string());
    let mut u = updater(true);
    assert_refused(
        endpoints::start_update_with(&some, Some("x"), &mut u, None, "t1".to_string()),
        403,
        "invalid admin token",
    );
    assert_eq!(u.current_status().state, UpdateState::Idle);
    let answer = endpoints::start_update(&some, Some("secret"), &mut u, Some("/app".to_string())).unwrap();
    assert_eq!(answer.status.state, UpdateState::Running);
    assert_eq!(answer.status.step.as_deref(), Some("starting"));
    assert!(answer.status.started_at_utc.unwrap().starts_with("20"));
    assert_eq!(answer.live_bin, "/app");
    assert!(answer.log_tail.is_empty());
    assert_eq!(u.current_status().state, UpdateState::Running);
    assert_refused(
        endpoints::start_update_with(&some, Some("secret"), &mut u, None, "t2".to_string()),
        409,
        "an update is already running",
    );
    let mut off = updater(false);
    assert_refused(
        endpoints::start_update(&some, Some("secret"), &mut off, None),
        503,
        "update feature is disabled (check CAP_CDTS_UPDATE_ENABLED and CAP_CDTS_ADMIN_TOKEN)",
    );
}

#[test]
fn a_login_whose_end_is_beyond_all_numbers_opens_no_session() {
    let (_, store) = world();
    let req = |passcode: &str| LoginRequest {
        username: "ada".to_string(),
        passcode: passcode.to_string(),
    };
    let mut endless = AuthManager::new(i64::MAX);
    assert!(endpoints::try_auth_login(&mut endless, &store, &req("12345")).is_none());
    assert!(endpoints::try_auth_login_with(&mut endless, &store, &req("12345"), token('1'), NOW).is_none());
    assert!(require_user_at(&mut endless, Some(&header('1')), NOW).is_err());
    assert_refused(
        endpoints::try_auth_login(&mut endless, &store, &req("0")).unwrap(),
        401,
        "invalid username or passcode",
    );
    assert!(endpoints::try_auth_login_with(&mut endless, &store, &req("12345"), token('1'), 0)
        .unwrap()
        .is_ok());
    let mut hour = AuthManager::new(3_600);
    let r = endpoints::try_auth_login(&mut hour, &store, &req("12345")).unwrap().unwrap();
    assert_eq!(r.user.username, "ada");
}
