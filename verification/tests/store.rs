use cap_cdts::fresh::Fresh;
use cap_cdts::models::{
    CreateReportRequest, CreateUserRequest, GpioConfig, ReportRecord, StoreData,
    UpdateReportRequest, UpdateUserRequest, UserRecord,
};
use cap_cdts::numbering::{allocate_report_num, normalize_store};
use cap_cdts::store::{compute_live_state, JsonStore, Loaded, StoreError, StoreErrorKind};

fn fresh() -> Fresh {
    Fresh {
        salt: "AAAAAAAAAAAAAAAAAAAAAA".to_string(),
        record_at: "2024-01-02T03:04:05Z".to_string(),
        live_at: "2024-01-02T03:04:06Z".to_string(),
    }
}

fn empty() -> JsonStore {
    JsonStore::open_with(Loaded::Missing, "2024-01-01T00:00:00Z".to_string()).store
}

fn user(name: &str, level: i32, passcode: Option<&str>) -> CreateUserRequest {
    CreateUserRequest {
        username: name.to_string(),
        rfid_uid: " 04AB ".to_string(),
        level,
        passcode: passcode.map(|p| p.to_string()),
    }
}

fn report(person: &str) -> CreateReportRequest {
    CreateReportRequest {
        person: person.to_string(),
        title: " Late ".to_string(),
        category: " Conduct ".to_string(),
        priority: " Low ".to_string(),
        description: " Was late. ".to_string(),
        opened_by: Some("somebody else".to_string()),
    }
}

fn no_edit() -> UpdateReportRequest {
    UpdateReportRequest {
        person: None,
        title: None,
        category: None,
        priority: None,
        description: None,
        closed: None,
        closing_comments: None,
    }
}

fn no_user_edit() -> UpdateUserRequest {
    UpdateUserRequest { rfid_uid: None, level: None, passcode: None }
}

fn numbered(num: u32) -> ReportRecord {
    ReportRecord {
        num,
        created_at_utc: "t".to_string(),
        opened_by: "a".to_string(),
        opened_by_level: None,
        closed_by: None,
        closed_at_utc: None,
        closing_comments: None,
        person: "p".to_string(),
        title: "t".to_string(),
        category: "c".to_string(),
        priority: "p".to_string(),
        description: "d".to_string(),
    }
}

fn assert_refused(e: StoreError, kind: StoreErrorKind, message: &str) {
    assert_eq!(e.kind, kind);
    assert_eq!(e.text(), message);
}

#[test]
fn errors_have_kinds_and_texts() {
    assert_refused(StoreError::bad_request("a"), StoreErrorKind::BadRequest, "a");
    assert_refused(StoreError::conflict("b"), StoreErrorKind::Conflict, "b");
    assert_refused(StoreError::internal("c"), StoreErrorKind::Internal, "c");
}

#[test]
fn a_missing_file_gives_an_empty_store_to_write() {
    let o = JsonStore::open(Loaded::Missing);
    assert!(o.should_persist);
    assert!(!o.keep_backup);
    let d = o.store.store_data();
    assert_eq!(d.schema_version, 1);
    assert_eq!(d.next_report_num, 100_000);
    assert!(d.users.is_empty() && d.reports.is_empty());
    assert_eq!(o.store.subscribe_live().auth.stage, "None");
    assert!(o.store.subscribe_live().last_update_utc.ends_with('Z'));
}

#[test]
fn an_invalid_file_is_kept_and_replaced() {
    let o = JsonStore::open_with(Loaded::Invalid, "now".to_string());
    assert!(o.should_persist);
    assert!(o.keep_backup);
    assert!(o.store.store_data().users.is_empty());
    assert_eq!(o.store.subscribe_live().last_update_utc, "now");
}

#[test]
fn stored_data_is_repaired_when_opened() {
    let mut d = StoreData::default();
    d.schema_version = 0;
    d.next_report_num = 7;
    for (i, level) in [0, 1, 9].into_iter().enumerate() {
        d.users.push(UserRecord {
            username: format!("u{i}"),
            rfid_uid: String::new(),
            level,
            passcode_hash: None,
            created_at_utc: String::new(),
        });
    }
    d.reports.push(numbered(100_000));
    let o = JsonStore::open_with(Loaded::Data(d), "now".to_string());
    assert!(!o.should_persist && !o.keep_backup);
    let d = o.store.store_data();
    assert_eq!(d.schema_version, 1);
    assert_eq!(d.next_report_num, 100_000);
    let levels: Vec<i32> = d.users.iter().map(|u| u.level).collect();
    assert_eq!(levels, vec![3, 1, 5]);
    let live = o.store.subscribe_live();
    assert_eq!(live.counts.users, 3);
    assert_eq!(live.counts.reports, 1);
    assert_eq!(live.counts.open_reports, 1);
}

#[test]
fn repair_is_done_once() {
    let mut d = StoreData::default();
    d.next_report_num = 1_000_000;
    d.schema_version = 3;
    normalize_store(&mut d);
    assert_eq!(d.next_report_num, 100_000);
    assert_eq!(d.schema_version, 3);
    d.next_report_num = 999_999;
    normalize_store(&mut d);
    assert_eq!(d.next_report_num, 999_999);
}

#[test]
fn numbers_wrap_and_skip_taken_ones() {
    let mut d = StoreData::default();
    d.next_report_num = 999_999;
    d.reports.push(numbered(999_999));
    d.reports.push(numbered(100_000));
    assert_eq!(allocate_report_num(&mut d), 100_001);
    assert_eq!(d.next_report_num, 100_002);
    d.next_report_num = 999_999;
    d.reports.clear();
    assert_eq!(allocate_report_num(&mut d), 999_999);
    assert_eq!(d.next_report_num, 100_000);
}

#[test]
fn open_reports_are_counted() {
    let mut d = StoreData::default();
    d.reports.push(numbered(100_000));
    let mut closed = numbered(100_001);
    closed.closed_at_utc = Some("t".to_string());
    d.reports.push(closed);
    let live = compute_live_state(&d, "now".to_string());
    assert_eq!(live.counts.reports, 2);
    assert_eq!(live.counts.open_reports, 1);
    assert_eq!(live.last_update_utc, "now");
    assert!(live.auth.user.is_none());
}

#[test]
fn a_created_user_is_found() {
    let mut s = empty();
    let staged = s.create_user_with(user("  Ada ", 1, Some(" 12345 ")), fresh()).unwrap();
    assert_eq!(staged.value.username, "Ada");
    assert_eq!(staged.value.rfid_uid, "04AB");
    assert_eq!(staged.value.level, 1);
    assert_eq!(staged.live.counts.users, 1);
    assert_eq!(staged.live.last_update_utc, "2024-01-02T03:04:06Z");
    let u = s.get_user_record(" aDA ").unwrap();
    assert_eq!(u.username, "Ada");
    assert_eq!(u.created_at_utc, "2024-01-02T03:04:05Z");
    assert!(u.passcode_hash.unwrap().starts_with("$argon2id$"));
    assert!(s.get_user_record("Bob").is_none());
}

#[test]
fn users_that_break_a_rule_are_refused() {
    let mut s = empty();
    let cases = [
        (user("  ", 1, Some("12345")), "username is required"),
        (
            user("a", 6, Some("12345")),
            "level must be 1 (admin), 2 (junior admin), 3 (moderator), 4 (advanced user), or 5 (basic)",
        ),
        (
            user("a", -1, None),
            "level must be 1 (admin), 2 (junior admin), 3 (moderator), 4 (advanced user), or 5 (basic)",
        ),
        (user("a", 1, None), "passcode is required for non-basic users (exactly 5 digits)"),
        (user("a", 0, Some("  ")), "passcode is required for non-basic users (exactly 5 digits)"),
        (user("a", 2, Some("1234")), "passcode must be exactly 5 digits"),
    ];
    for (req, message) in cases {
        let e = s.create_user_with(req, fresh()).unwrap_err();
        assert_refused(e, StoreErrorKind::BadRequest, message);
    }
    assert!(s.store_data().users.is_empty());
    let bad_salt = Fresh { salt: "!".to_string(), ..fresh() };
    let e = s.create_user_with(user("a", 1, Some("12345")), bad_salt).unwrap_err();
    assert_eq!(e.kind, StoreErrorKind::Internal);
    assert!(e.message.starts_with("failed to hash passcode: "));
}

#[test]
fn names_are_unique_up_to_case() {
    let mut s = empty();
    s.create_user(user("Ada", 5, None)).unwrap();
    let e = s.create_user(user(" ADA", 5, None)).unwrap_err();
    assert_refused(e, StoreErrorKind::Conflict, "username already exists");
    assert_eq!(s.store_data().users.len(), 1);
}

#[test]
fn basic_users_have_no_passcode() {
    let mut s = empty();
    s.create_user_with(user("b", 5, Some("not digits")), fresh()).unwrap();
    assert_eq!(s.get_user_record("b").unwrap().passcode_hash, None);
}

#[test]
fn the_old_level_zero_is_a_moderator() {
    let mut s = empty();
    let staged = s.create_user(user("m", 0, Some("12345"))).unwrap();
    assert_eq!(staged.value.level, 3);
}

#[test]
fn users_are_listed_by_name() {
    let mut s = empty();
    for name in ["bob", "Ada", "cy", "ADAM", "Östen", "abe"] {
        s.create_user_with(user(name, 5, None), fresh()).unwrap();
    }
    let names: Vec<String> = s.list_users().into_iter().map(|u| u.username).collect();
    assert_eq!(names, vec!["abe", "Ada", "ADAM", "bob", "cy", "Östen"]);
}

#[test]
fn users_that_sort_alike_keep_their_order() {
    let mut d = StoreData::default();
    for (name, rfid) in [("x", "1"), ("ÄB", "2"), ("äb", "3"), ("a", "4")] {
        d.users.push(UserRecord {
            username: name.to_string(),
            rfid_uid: rfid.to_string(),
            level: 5,
            passcode_hash: None,
            created_at_utc: String::new(),
        });
    }
    let s = JsonStore::open(Loaded::Data(d)).store;
    let rfids: Vec<String> = s.list_users().into_iter().map(|u| u.rfid_uid).collect();
    assert_eq!(rfids, vec!["4", "1", "2", "3"]);
}

#[test]
fn a_user_is_updated() {
    let mut s = empty();
    s.create_user_with(user("Ada", 4, Some("12345")), fresh()).unwrap();
    let before = s.get_user_record("ada").unwrap().passcode_hash;
    let req = UpdateUserRequest { rfid_uid: Some(" 77 ".to_string()), level: Some(0), passcode: None };
    let staged = s.update_user_with("ADA", req, fresh()).unwrap().unwrap();
    assert_eq!(staged.value.rfid_uid, "77");
    assert_eq!(staged.value.level, 3);
    assert_eq!(s.get_user_record("ada").unwrap().passcode_hash, before);
}

#[test]
fn a_passcode_is_set_and_removed() {
    let mut s = empty();
    s.create_user_with(user("Ada", 4, Some("12345")), fresh()).unwrap();
    let before = s.get_user_record("ada").unwrap().passcode_hash;
    let set = UpdateUserRequest { passcode: Some(" 54321 ".to_string()), ..no_user_edit() };
    s.update_user("ada", set).unwrap().unwrap();
    let after = s.get_user_record("ada").unwrap().passcode_hash;
    assert!(after.is_some());
    assert_ne!(after, before);
    let remove = UpdateUserRequest { passcode: Some("  ".to_string()), ..no_user_edit() };
    s.update_user("ada", remove).unwrap().unwrap();
    assert_eq!(s.get_user_record("ada").unwrap().passcode_hash, None);
}

#[test]
fn becoming_basic_removes_the_passcode() {
    let mut s = empty();
    s.create_user_with(user("Ada", 4, Some("12345")), fresh()).unwrap();
    let req = UpdateUserRequest { level: Some(5), passcode: Some("x".to_string()), rfid_uid: None };
    assert_eq!(s.update_user("ada", req).unwrap().unwrap().value.level, 5);
    assert_eq!(s.get_user_record("ada").unwrap().passcode_hash, None);
}

#[test]
fn updates_of_users_that_break_a_rule_are_refused() {
    let mut s = empty();
    s.create_user_with(user("Ada", 4, Some("12345")), fresh()).unwrap();
    let e = s.update_user(" ", no_user_edit()).unwrap_err();
    assert_refused(e, StoreErrorKind::BadRequest, "username is required");
    let e = s.update_user("Ada", UpdateUserRequest { level: Some(9), ..no_user_edit() }).unwrap_err();
    assert_refused(
        e,
        StoreErrorKind::BadRequest,
        "level must be 1 (admin), 2 (junior admin), 3 (moderator), 4 (advanced user), or 5 (basic)",
    );
    assert!(s.update_user("Bob", no_user_edit()).unwrap().is_none());
    let req = UpdateUserRequest {
        rfid_uid: Some("9".to_string()),
        level: Some(2),
        passcode: Some("abc".to_string()),
    };
    let e = s.update_user("Ada", req).unwrap_err();
    assert_refused(e, StoreErrorKind::BadRequest, "passcode must be exactly 5 digits");
    let u = s.get_user_record("Ada").unwrap();
    assert_eq!((u.rfid_uid.as_str(), u.level), ("9", 2));
}

#[test]
fn an_opened_report_is_found() {
    let mut s = empty();
    let staged = s.create_report_with(" Ada ", 3, report(" Bob "), fresh()).unwrap();
    let r = staged.value;
    assert_eq!(r.num, 100_000);
    assert_eq!(r.opened_by, "Ada");
    assert_eq!(r.opened_by_level, Some(3));
    assert_eq!(r.created_at_utc, "2024-01-02T03:04:05Z");
    assert_eq!(
        (r.person.as_str(), r.title.as_str(), r.category.as_str(), r.priority.as_str()),
        ("Bob", "Late", "Conduct", "Low")
    );
    assert_eq!(r.description, "Was late.");
    assert!(r.closed_by.is_none() && r.closed_at_utc.is_none() && r.closing_comments.is_none());
    assert_eq!(staged.live.counts.open_reports, 1);
    assert_eq!(s.get_report(100_000).unwrap().person, "Bob");
    assert!(s.get_report(100_001).is_none());
    assert_eq!(s.create_report("Ada", 3, report("Cy")).unwrap().value.num, 100_001);
}

#[test]
fn reports_with_blank_fields_are_refused() {
    let mut s = empty();
    let cases = [
        (report(" "), "person is required"),
        (CreateReportRequest { title: " ".to_string(), ..report("x") }, "title is required"),
        (
            CreateReportRequest { description: String::new(), ..report("x") },
            "description is required",
        ),
    ];
    for (req, message) in cases {
        let e = s.create_report("Ada", 1, req).unwrap_err();
        assert_refused(e, StoreErrorKind::BadRequest, message);
    }
    assert_eq!(s.store_data().next_report_num, 100_000);
}

#[test]
fn reports_are_listed_highest_number_first() {
    let mut s = empty();
    for person in ["a", "b", "c"] {
        s.create_report_with("x", 1, report(person), fresh()).unwrap();
    }
    let nums: Vec<u32> = s.list_reports().iter().map(|r| r.num).collect();
    assert_eq!(nums, vec![100_002, 100_001, 100_000]);
}

#[test]
fn a_report_is_closed_and_reopened() {
    let mut s = empty();
    s.create_report_with("x", 1, report("a"), fresh()).unwrap();
    let close = UpdateReportRequest {
        closed: Some(true),
        closing_comments: Some("  done ".to_string()),
        ..no_edit()
    };
    let closed = s.update_report_with(100_000, close, " Ada ", fresh()).unwrap().unwrap();
    assert_eq!(closed.value.closed_by.as_deref(), Some("Ada"));
    assert_eq!(closed.value.closed_at_utc.as_deref(), Some("2024-01-02T03:04:05Z"));
    assert_eq!(closed.value.closing_comments.as_deref(), Some("done"));
    assert_eq!(closed.live.counts.open_reports, 0);
    let reopen = UpdateReportRequest { closed: Some(false), ..no_edit() };
    let reopened = s.update_report(100_000, reopen, "Ada").unwrap().unwrap();
    assert!(reopened.value.closed_by.is_none());
    assert!(reopened.value.closed_at_utc.is_none());
    assert!(reopened.value.closing_comments.is_none());
    assert_eq!(reopened.live.counts.open_reports, 1);
    let blank = UpdateReportRequest {
        closed: Some(true),
        closing_comments: Some("  ".to_string()),
        ..no_edit()
    };
    let closed = s.update_report(100_000, blank, "Ada").unwrap().unwrap();
    assert_eq!(closed.value.closing_comments, None);
}

#[test]
fn a_refused_update_of_a_report_keeps_the_edits_before_it() {
    let mut s = empty();
    s.create_report_with("x", 1, report("a"), fresh()).unwrap();
    let req = UpdateReportRequest {
        person: Some(" New ".to_string()),
        title: Some(" ".to_string()),
        category: Some("z".to_string()),
        ..no_edit()
    };
    let e = s.update_report(100_000, req, "Ada").unwrap_err();
    assert_refused(e, StoreErrorKind::BadRequest, "title is required");
    let r = s.get_report(100_000).unwrap();
    assert_eq!((r.person.as_str(), r.title.as_str(), r.category.as_str()), ("New", "Late", "Conduct"));
    let e = s
        .update_report(100_000, UpdateReportRequest { person: Some(" ".to_string()), ..no_edit() }, "Ada")
        .unwrap_err();
    assert_refused(e, StoreErrorKind::BadRequest, "person is required");
    let req = UpdateReportRequest {
        priority: Some(" High ".to_string()),
        description: Some("".to_string()),
        ..no_edit()
    };
    let e = s.update_report(100_000, req, "Ada").unwrap_err();
    assert_refused(e, StoreErrorKind::BadRequest, "description is required");
    assert_eq!(s.get_report(100_000).unwrap().priority, "High");
    assert!(s.update_report(100_009, no_edit(), "Ada").unwrap().is_none());
}

#[test]
fn a_deleted_report_is_gone() {
    let mut s = empty();
    for person in ["a", "b", "c"] {
        s.create_report_with("x", 1, report(person), fresh()).unwrap();
    }
    let staged = s.delete_report_with(100_001, "later".to_string()).unwrap();
    assert!(staged.value);
    assert_eq!(staged.live.counts.reports, 2);
    assert_eq!(staged.live.last_update_utc, "later");
    assert!(s.get_report(100_001).is_none());
    assert_eq!(s.get_report(100_000).unwrap().person, "a");
    assert_eq!(s.get_report(100_002).unwrap().person, "c");
    assert!(s.delete_report(100_001).is_none());
    assert_eq!(s.create_report("x", 1, report("d")).unwrap().value.num, 100_003);
}

#[test]
fn every_report_with_a_number_is_deleted() {
    let mut d = StoreData::default();
    for num in [100_005, 100_006, 100_005] {
        d.reports.push(numbered(num));
    }
    let mut s = JsonStore::open(Loaded::Data(d)).store;
    assert!(s.delete_report(100_005).is_some());
    let nums: Vec<u32> = s.store_data().reports.iter().map(|r| r.num).collect();
    assert_eq!(nums, vec![100_006]);
}

#[test]
fn a_written_change_is_published() {
    let mut s = empty();
    let staged = s.create_user_with(user("a", 5, None), fresh()).unwrap();
    assert_eq!(s.subscribe_live().counts.users, 0);
    assert_eq!(s.settle(staged, Ok(())).unwrap().username, "a");
    assert_eq!(s.subscribe_live().counts.users, 1);
}

#[test]
fn a_change_that_is_not_written_stays_unpublished() {
    let mut s = empty();
    let staged = s.create_user_with(user("a", 5, None), fresh()).unwrap();
    let e = s.settle(staged, Err("disk full".to_string())).unwrap_err();
    assert_refused(e, StoreErrorKind::Internal, "failed to persist store: disk full");
    assert_eq!(s.subscribe_live().counts.users, 0);
    assert!(s.get_user_record("a").is_some());
}

#[test]
fn a_sound_pin_assignment_is_stored() {
    let mut s = empty();
    let cfg = GpioConfig { push_btn: Some(27), spdt1_a: Some(0), ..GpioConfig::default() };
    let staged = s.set_gpio_config_with(cfg, "later".to_string()).unwrap();
    assert_eq!(staged.value.push_btn, Some(27));
    assert_eq!(staged.live.gpio_config.spdt1_a, Some(0));
    assert_eq!(s.get_gpio_config().push_btn, Some(27));
}

#[test]
fn faulty_pin_assignments_are_refused() {
    let mut s = empty();
    let none = GpioConfig::default();
    let cases = [
        (
            GpioConfig { spdt2_b: Some(28), push_btn: Some(99), ..none },
            "spdt2_b must be a BCM GPIO number 0-27 (got 28)",
        ),
        (
            GpioConfig { rfid_spi_bus: Some(2), rfid_spi_cs: Some(2), ..none },
            "rfid_spi_bus must be 0 or 1 (typical Raspberry Pi uses 0)",
        ),
        (GpioConfig { rfid_spi_cs: Some(2), ..none }, "rfid_spi_cs must be 0 (CE0) or 1 (CE1)"),
        (
            GpioConfig { rotary_a: Some(5), rotary_b: Some(5), ..none },
            "GPIO 5 is assigned more than once (rotary_a and rotary_b)",
        ),
        (
            GpioConfig { rfid_rst_gpio: Some(7), cap_touch: Some(7), push_btn: Some(7), ..none },
            "GPIO 7 is assigned more than once (rfid_rst_gpio and cap_touch)",
        ),
    ];
    for (cfg, message) in cases {
        let e = s.set_gpio_config(cfg).unwrap_err();
        assert_refused(e, StoreErrorKind::BadRequest, message);
    }
    assert_eq!(s.get_gpio_config().rotary_a, None);
}

#[test]
fn reopening_keeps_the_data() {
    let mut s = empty();
    s.create_user_with(user("Ada", 1, Some("12345")), fresh()).unwrap();
    s.create_report_with("Ada", 1, report("Bob"), fresh()).unwrap();
    let before = format!("{:?}", s.store_data());
    let again = JsonStore::open(Loaded::Data(s.store_data().clone()));
    assert!(!again.should_persist);
    assert_eq!(format!("{:?}", again.store.store_data()), before);
}

#[test]
fn changes_made_now_carry_the_time() {
    let mut s = empty();
    let staged = s.create_report("x", 1, report("a")).unwrap();
    assert!(staged.value.created_at_utc.starts_with("20"));
    assert!(staged.live.last_update_utc.ends_with('Z'));
    let close = UpdateReportRequest { closed: Some(true), ..no_edit() };
    let closed = s.update_report(100_000, close, "Ada").unwrap().unwrap();
    assert!(closed.value.closed_at_utc.unwrap().starts_with("20"));
    assert!(s.create_user(user("a", 5, None)).unwrap().live.last_update_utc.starts_with("20"));
    assert!(s.get_user_record("a").unwrap().created_at_utc.starts_with("20"));
    assert!(s.delete_report(100_000).unwrap().live.last_update_utc.starts_with("20"));
}
