//! The settings of the backend, as the variables of its environment give them.

use vstd::prelude::*;

use crate::models::opt_text;
use crate::text::{char_vec, is_same_text, trimmed};
use crate::update::{UpdateConfig, UpdateConfigView};

verus! {

/// How many log lines are kept unless a number is set.
pub const DEFAULT_LOG_LINES: usize = 400;

/// How many seconds a session lasts unless a number is set: eight hours.
pub const DEFAULT_SESSION_SECS: i64 = 28_800;

/// What the environment of the process says; a variable that is not set, or not
/// text, is absent.
#[derive(Debug)]
pub struct Environment {
    /// `CAP_CDTS_BIND_ADDR`.
    pub bind_addr: Option<String>,
    /// `CAP_CDTS_STORE_PATH`.
    pub store_path: Option<String>,
    /// `CAP_CDTS_ADMIN_TOKEN`.
    pub admin_token: Option<String>,
    /// `CAP_CDTS_UPDATE_ENABLED`.
    pub update_enabled: Option<String>,
    /// `CAP_CDTS_REPO_DIR`.
    pub repo_dir: Option<String>,
    /// `CAP_CDTS_UPDATE_STATE_PATH`.
    pub update_state_path: Option<String>,
    /// `CAP_CDTS_UPDATE_NEW_BIN`.
    pub update_new_bin: Option<String>,
    /// `CAP_CDTS_UPDATE_LIVE_BIN`.
    pub update_live_bin: Option<String>,
    /// `CAP_CDTS_UPDATE_AUTO_RESTART`.
    pub update_auto_restart: Option<String>,
    /// `CAP_CDTS_UPDATE_LOG_LINES`.
    pub update_log_lines: Option<String>,
    /// `CAP_CDTS_AUTH_TTL_SECS`.
    pub auth_ttl_secs: Option<String>,
    /// The working directory.
    pub current_dir: Option<String>,
    /// What the names of executables end in.
    pub exe_suffix: String,
}

/// The settings of the backend.
#[derive(Debug)]
pub struct Settings {
    /// The address to listen at.
    pub bind_addr: String,
    /// The file that keeps the store.
    pub store_path: String,
    /// The token that opens the update endpoints.
    pub admin_token: Option<String>,
    /// How the updater is set up.
    pub update: UpdateConfig,
    /// How many seconds a session lasts.
    pub auth_ttl_secs: i64,
}

/// A text of decimal digits.
pub open spec fn all_digits(s: Seq<char>) -> bool {
    &&& s.len() > 0
    &&& forall|i: int| 0 <= i < s.len() ==> '0' <= #[trigger] s[i] <= '9'
}

/// The number that a text of decimal digits denotes.
pub open spec fn digits_value(s: Seq<char>) -> nat
    decreases s.len(),
{
    if s.len() == 0 {
        0
    } else {
        digits_value(s.drop_last()) * 10 + (s.last() as nat - '0' as nat) as nat
    }
}

/// The number that a text of decimal digits, with a plus sign or without,
/// denotes.
pub open spec fn unsigned_value(s: Seq<char>) -> Option<int> {
    let digits = if s.len() > 0 && s[0] == '+' {
        s.skip(1)
    } else {
        s
    };
    if all_digits(digits) {
        Some(digits_value(digits) as int)
    } else {
        None
    }
}

/// The number that a text of decimal digits, with a sign or without, denotes.
pub open spec fn signed_value(s: Seq<char>) -> Option<int> {
    if s.len() > 0 && s[0] == '-' {
        if all_digits(s.skip(1)) {
            Some(-digits_value(s.skip(1)))
        } else {
            None
        }
    } else {
        unsigned_value(s)
    }
}

proof fn lemma_digits_value_grows(s: Seq<char>, k: int)
    requires
        0 <= k <= s.len(),
    ensures
        digits_value(s.take(k)) <= digits_value(s),
    decreases s.len(),
{
    if k < s.len() {
        lemma_digits_value_grows(s.drop_last(), k);
        assert(s.drop_last().take(k) =~= s.take(k));
    } else {
        assert(s.take(k) =~= s);
    }
}

/// Reads decimal digits from a place on; none where there is anything else, or
/// where the number does not fit.
fn read_digits(chars: &Vec<char>, from: usize) -> (r: Option<u64>)
    requires
        from <= chars@.len(),
    ensures
        match r {
            Some(v) => all_digits(chars@.skip(from as int)) && v == digits_value(
                chars@.skip(from as int),
            ),
            None => !all_digits(chars@.skip(from as int)) || digits_value(chars@.skip(from as int))
                > u64::MAX,
        },
{
    let ghost s = chars@.skip(from as int);
    if from == chars.len() {
        return None;
    }
    let mut value: u64 = 0;
    let mut i: usize = from;
    assert(s.take(0) =~= Seq::<char>::empty());
    while i < chars.len()
        invariant
            s == chars@.skip(from as int),
            from <= i <= chars@.len(),
            value == digits_value(s.take(i - from)),
            forall|k: int| 0 <= k < i - from ==> '0' <= #[trigger] s[k] <= '9',
        decreases chars@.len() - i,
    {
        let c = chars[i];
        assert(s[i - from] == c);
        if c < '0' || c > '9' {
            return None;
        }
        let d: u64 = (c as u32 - '0' as u32) as u64;
        proof {
            assert(s.take(i + 1 - from).drop_last() =~= s.take(i - from));
            assert(s.take(i + 1 - from).last() == c);
            lemma_digits_value_grows(s, i + 1 - from);
        }
        if value > (u64::MAX - d) / 10 {
            return None;
        }
        value = value * 10 + d;
        i += 1;
    }
    assert(s.take(i - from) =~= s);
    Some(value)
}

/// Reads a `usize` in decimal, with a plus sign or without.
pub fn parse_usize(s: &str) -> (r: Option<usize>)
    ensures
        match r {
            Some(v) => unsigned_value(s@) == Some(v as int),
            None => match unsigned_value(s@) {
                Some(v) => v > usize::MAX,
                None => true,
            },
        },
{
    let chars = char_vec(s);
    let from: usize = if chars.len() > 0 && chars[0] == '+' {
        1
    } else {
        0
    };
    assert(chars@.skip(0) =~= chars@);
    match read_digits(&chars, from) {
        Some(v) => if v <= usize::MAX as u64 {
            Some(v as usize)
        } else {
            None
        },
        None => None,
    }
}

/// Reads an `i64` in decimal, with a sign or without.
pub fn parse_i64(s: &str) -> (r: Option<i64>)
    ensures
        match r {
            Some(v) => signed_value(s@) == Some(v as int),
            None => match signed_value(s@) {
                Some(v) => v < i64::MIN || v > i64::MAX,
                None => true,
            },
        },
{
    let chars = char_vec(s);
    let negative = chars.len() > 0 && chars[0] == '-';
    let from: usize = if negative || (chars.len() > 0 && chars[0] == '+') {
        1
    } else {
        0
    };
    assert(chars@.skip(0) =~= chars@);
    match read_digits(&chars, from) {
        Some(v) => if negative {
            if v <= i64::MAX as u64 {
                Some(-(v as i64))
            } else if v == 0x8000_0000_0000_0000 {
                Some(i64::MIN)
            } else {
                None
            }
        } else if v <= i64::MAX as u64 {
            Some(v as i64)
        } else {
            None
        },
        None => None,
    }
}

/// A variable without the white space around it; none where nothing is left.
pub open spec fn given(raw: Option<Seq<char>>) -> Option<Seq<char>> {
    match raw {
        Some(s) if trimmed(s).len() > 0 => Some(trimmed(s)),
        _ => None,
    }
}

/// A switch, which is on unless it is set to zero.
pub open spec fn switched_on(raw: Option<Seq<char>>) -> bool {
    match raw {
        Some(s) => trimmed(s) != "0"@,
        None => true,
    }
}

/// A variable, or what stands for it where it is not set.
pub open spec fn value_or(raw: Option<Seq<char>>, default: Seq<char>) -> Seq<char> {
    match raw {
        Some(s) => s,
        None => default,
    }
}

/// How many log lines are kept: four hundred unless a number is set.
pub open spec fn log_lines(raw: Option<Seq<char>>) -> int {
    match raw {
        Some(s) => match unsigned_value(trimmed(s)) {
            Some(v) => if v <= usize::MAX {
                v
            } else {
                DEFAULT_LOG_LINES as int
            },
            None => DEFAULT_LOG_LINES as int,
        },
        None => DEFAULT_LOG_LINES as int,
    }
}

/// How many seconds a session lasts: eight hours unless a number is set.
pub open spec fn session_secs(raw: Option<Seq<char>>) -> int {
    match raw {
        Some(s) => match signed_value(trimmed(s)) {
            Some(v) => if i64::MIN <= v <= i64::MAX {
                v
            } else {
                DEFAULT_SESSION_SECS as int
            },
            None => DEFAULT_SESSION_SECS as int,
        },
        None => DEFAULT_SESSION_SECS as int,
    }
}

/// How the updater is set up. It is enabled only where there is an admin token.
pub open spec fn update_config(env: Environment) -> UpdateConfigView {
    UpdateConfigView {
        enabled: given(opt_text(env.admin_token)) is Some && switched_on(
            opt_text(env.update_enabled),
        ),
        repo_dir: value_or(opt_text(env.repo_dir), value_or(opt_text(env.current_dir), "."@)),
        state_path: value_or(opt_text(env.update_state_path), "data/update_state.json"@),
        new_bin: value_or(
            opt_text(env.update_new_bin),
            "bin/cap-cdts-backend.new"@ + env.exe_suffix@,
        ),
        live_bin: given(opt_text(env.update_live_bin)),
        auto_restart: switched_on(opt_text(env.update_auto_restart)),
        max_log_lines: log_lines(opt_text(env.update_log_lines)) as usize,
    }
}

/// A variable without the white space around it; none where nothing is left.
fn read_given(raw: &Option<String>) -> (r: Option<String>)
    ensures
        opt_text(r) == given(opt_text(*raw)),
{
    match raw {
        Some(s) => {
            let t = s.as_str().trim();
            if t.is_empty() {
                None
            } else {
                Some(t.to_owned())
            }
        },
        None => None,
    }
}

/// A switch, which is on unless it is set to zero.
fn read_switch(raw: &Option<String>) -> (r: bool)
    ensures
        r == switched_on(opt_text(*raw)),
{
    match raw {
        Some(s) => !is_same_text(s.as_str().trim(), "0"),
        None => true,
    }
}

/// A variable, or what stands for it where it is not set.
fn read_or(raw: &Option<String>, default: &str) -> (r: String)
    ensures
        r@ == value_or(opt_text(*raw), default@),
{
    match raw {
        Some(s) => s.clone(),
        None => default.to_owned(),
    }
}

/// How many log lines are kept.
fn read_log_lines(raw: &Option<String>) -> (r: usize)
    ensures
        r == log_lines(opt_text(*raw)),
{
    match raw {
        Some(s) => match parse_usize(s.as_str().trim()) {
            Some(v) => v,
            None => DEFAULT_LOG_LINES,
        },
        None => DEFAULT_LOG_LINES,
    }
}

/// How many seconds a session lasts.
fn read_session_secs(raw: &Option<String>) -> (r: i64)
    ensures
        r == session_secs(opt_text(*raw)),
{
    match raw {
        Some(s) => match parse_i64(s.as_str().trim()) {
            Some(v) => v,
            None => DEFAULT_SESSION_SECS,
        },
        None => DEFAULT_SESSION_SECS,
    }
}

impl Settings {
    /// The settings that an environment gives.
    pub fn read(env: &Environment) -> (r: Self)
        ensures
            r.bind_addr@ == value_or(opt_text(env.bind_addr), "0.0.0.0:8080"@),
            r.store_path@ == value_or(opt_text(env.store_path), "data/store.json"@),
            opt_text(r.admin_token) == given(opt_text(env.admin_token)),
            r.update@ == update_config(*env),
            r.auth_ttl_secs == session_secs(opt_text(env.auth_ttl_secs)),
    {
        let admin_token = read_given(&env.admin_token);
        let update_enabled = read_switch(&env.update_enabled);
        let working_dir = read_or(&env.current_dir, ".");
        let new_bin = "bin/cap-cdts-backend.new".to_owned().concat(env.exe_suffix.as_str());
        let update = UpdateConfig {
            enabled: admin_token.is_some() && update_enabled,
            repo_dir: read_or(&env.repo_dir, working_dir.as_str()),
            state_path: read_or(&env.update_state_path, "data/update_state.json"),
            new_bin: read_or(&env.update_new_bin, new_bin.as_str()),
            live_bin: read_given(&env.update_live_bin),
            auto_restart: read_switch(&env.update_auto_restart),
            max_log_lines: read_log_lines(&env.update_log_lines),
        };
        Settings {
            bind_addr: read_or(&env.bind_addr, "0.0.0.0:8080"),
            store_path: read_or(&env.store_path, "data/store.json"),
            admin_token,
            update,
            auth_ttl_secs: read_session_secs(&env.auth_ttl_secs),
        }
    }
}

/// Without an admin token there are no updates, whatever else is set.
pub proof fn lemma_updates_need_a_token(env: Environment)
    requires
        given(opt_text(env.admin_token)) is None,
    ensures
        !update_config(env).enabled,
{
}

} // verus!
