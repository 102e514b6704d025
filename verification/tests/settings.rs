use cap_cdts::settings::{parse_i64, parse_usize, Environment, Settings};

fn nothing_set() -> Environment {
    Environment {
        bind_addr: None,
        store_path: None,
        admin_token: None,
        update_enabled: None,
        repo_dir: None,
        update_state_path: None,
        update_new_bin: None,
        update_live_bin: None,
        update_auto_restart: None,
        update_log_lines: None,
        auth_ttl_secs: None,
        current_dir: None,
        exe_suffix: String::new(),
    }
}

fn text(s: &str) -> Option<String> {
    Some(s.to_string())
}

#[test]
fn numbers_parse_as_the_standard_library_parses_them() {
    let cases = [
        "", "0", "7", "+7", "-7", "-0", "+", "-", "+-7", "--7", "00012", "1_000", " 5", "5 ", "0x10",
        "9223372036854775807", "9223372036854775808", "-9223372036854775808",
        "-9223372036854775809", "18446744073709551615", "18446744073709551616",
        "99999999999999999999999999", "-99999999999999999999999999", "４", "1a", "a1",
        "000000000000000000000000000000000000000000000001",
    ];
    for s in cases {
        assert_eq!(parse_usize(s), s.parse::<usize>().ok(), "{s:?}");
        assert_eq!(parse_i64(s), s.parse::<i64>().ok(), "{s:?}");
    }
}

#[test]
fn settings_have_defaults() {
    let s = Settings::read(&nothing_set());
    assert_eq!(s.bind_addr, "0.0.0.0:8080");
    assert_eq!(s.store_path, "data/store.json");
    assert_eq!(s.admin_token, None);
    assert_eq!(s.auth_ttl_secs, 28800);
    assert!(!s.update.enabled);
    assert_eq!(s.update.repo_dir, ".");
    assert_eq!(s.update.state_path, "data/update_state.json");
    assert_eq!(s.update.new_bin, "bin/cap-cdts-backend.new");
    assert_eq!(s.update.live_bin, None);
    assert!(s.update.auto_restart);
    assert_eq!(s.update.max_log_lines, 400);
}

#[test]
fn settings_follow_the_environment() {
    let env = Environment {
        bind_addr: text("127.0.0.1:9000"),
        store_path: text("/var/store.json"),
        admin_token: text("  secret  "),
        update_enabled: text("1"),
        repo_dir: text("/opt/app"),
        update_state_path: text("/var/state.json"),
        update_new_bin: text("/tmp/new"),
        update_live_bin: text(" /usr/bin/app "),
        update_auto_restart: text(" 0 "),
        update_log_lines: text(" 12 "),
        auth_ttl_secs: text("-5"),
        current_dir: text("/home"),
        exe_suffix: ".exe".to_string(),
    };
    let s = Settings::read(&env);
    assert_eq!(s.bind_addr, "127.0.0.1:9000");
    assert_eq!(s.store_path, "/var/store.json");
    assert_eq!(s.admin_token, text("secret"));
    assert_eq!(s.auth_ttl_secs, -5);
    assert!(s.update.enabled);
    assert_eq!(s.update.repo_dir, "/opt/app");
    assert_eq!(s.update.state_path, "/var/state.json");
    assert_eq!(s.update.new_bin, "/tmp/new");
    assert_eq!(s.update.live_bin, text("/usr/bin/app"));
    assert!(!s.update.auto_restart);
    assert_eq!(s.update.max_log_lines, 12);
}

#[test]
fn odd_values_fall_back() {
    let env = Environment {
        admin_token: text("   "),
        update_live_bin: text(" "),
        update_log_lines: text("many"),
        auth_ttl_secs: text("1e3"),
        current_dir: text("/home"),
        exe_suffix: ".exe".to_string(),
        ..nothing_set()
    };
    let s = Settings::read(&env);
    assert_eq!(s.admin_token, None);
    assert_eq!(s.update.live_bin, None);
    assert_eq!(s.update.max_log_lines, 400);
    assert_eq!(s.auth_ttl_secs, 28800);
    assert_eq!(s.update.repo_dir, "/home");
    assert_eq!(s.update.new_bin, "bin/cap-cdts-backend.new.exe");
}

#[test]
fn updates_need_a_token_and_the_switch() {
    let on = Environment { admin_token: text("t"), ..nothing_set() };
    assert!(Settings::read(&on).update.enabled);
    let off = Environment { admin_token: text("t"), update_enabled: text(" 0"), ..nothing_set() };
    assert!(!Settings::read(&off).update.enabled);
    let none = Environment { update_enabled: text("1"), ..nothing_set() };
    assert!(!Settings::read(&none).update.enabled);
    let other = Environment { admin_token: text("t"), update_enabled: text("00"), ..nothing_set() };
    assert!(Settings::read(&other).update.enabled);
}
