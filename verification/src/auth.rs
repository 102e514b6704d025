//! Sessions: who may log in, how long a session lasts, and whom a token stands
//! for.

use vstd::prelude::*;

use rand_core::{OsRng, RngCore};
use vstd::hash_map::StringHashMap;

use crate::clock::{
    epoch_text, now_unix, rfc3339_of, unix_to_rfc3339, FIRST_RFC3339_SECOND, FIRST_SECOND,
    LAST_SECOND,
};
use crate::models::{
    level_name, normal_level, normalize_level, role_of, LoginResponse, LoginResponseView,
    StoreDataView, UserPublic, UserPublicView, UserRecord, UserRecordView, LEVEL_BASIC,
};
use crate::passcode::{passcode_matches, verify_passcode};
use crate::store::{user_named, JsonStore};
use crate::text::{digit_char, hex, hex_text, is_white_space, lemma_trimmed_twice, trimmed};

verus! {

/// A user with a session.
#[derive(Debug)]
pub struct AuthUser {
    /// The name.
    pub username: String,
    /// The permission level.
    pub level: i32,
}

/// What an [`AuthUser`] stands for.
pub struct AuthUserView {
    pub username: Seq<char>,
    pub level: i32,
}

impl View for AuthUser {
    type V = AuthUserView;

    open spec fn view(&self) -> AuthUserView {
        AuthUserView { username: self.username@, level: self.level }
    }
}

impl Clone for AuthUser {
    fn clone(&self) -> (r: Self)
        ensures
            r == *self,
    {
        AuthUser { username: self.username.clone(), level: self.level }
    }
}

/// A session.
#[derive(Debug)]
pub struct SessionInfo {
    /// Whose it is.
    pub user: AuthUser,
    /// The second at which it ends.
    pub expires_at_unix: i64,
    /// The text of that second.
    pub expires_at_utc: String,
}

/// What a [`SessionInfo`] stands for.
pub struct SessionView {
    pub user: AuthUserView,
    pub expires_at_unix: i64,
    pub expires_at_utc: Seq<char>,
}

impl View for SessionInfo {
    type V = SessionView;

    open spec fn view(&self) -> SessionView {
        SessionView {
            user: self.user@,
            expires_at_unix: self.expires_at_unix,
            expires_at_utc: self.expires_at_utc@,
        }
    }
}

/// What kind of refusal an error is.
#[derive(Clone, Copy, Debug, PartialEq, Eq, Structural)]
pub enum AuthErrorKind {
    /// The request is incomplete.
    BadRequest,
    /// The name or the passcode is wrong.
    Unauthorized,
    /// The user may not do this.
    Forbidden,
    /// The check failed.
    Internal,
}

/// A refusal of a login.
#[derive(Debug)]
pub struct AuthError {
    /// The kind.
    pub kind: AuthErrorKind,
    /// What to tell the caller.
    pub message: String,
}

/// What an [`AuthError`] stands for.
pub struct AuthErrorView {
    pub kind: AuthErrorKind,
    pub message: Seq<char>,
}

impl View for AuthError {
    type V = AuthErrorView;

    open spec fn view(&self) -> AuthErrorView {
        AuthErrorView { kind: self.kind, message: self.message@ }
    }
}

impl AuthError {
    /// An incomplete request.
    pub fn bad_request(msg: &str) -> (r: Self)
        ensures
            r@ == (AuthErrorView { kind: AuthErrorKind::BadRequest, message: msg@ }),
    {
        AuthError { kind: AuthErrorKind::BadRequest, message: msg.to_owned() }
    }

    /// A wrong name or passcode.
    pub fn unauthorized(msg: &str) -> (r: Self)
        ensures
            r@ == (AuthErrorView { kind: AuthErrorKind::Unauthorized, message: msg@ }),
    {
        AuthError { kind: AuthErrorKind::Unauthorized, message: msg.to_owned() }
    }

    /// A user who may not do this.
    pub fn forbidden(msg: &str) -> (r: Self)
        ensures
            r@ == (AuthErrorView { kind: AuthErrorKind::Forbidden, message: msg@ }),
    {
        AuthError { kind: AuthErrorKind::Forbidden, message: msg.to_owned() }
    }

    /// A check that failed.
    pub fn internal(msg: &str) -> (r: Self)
        ensures
            r@ == (AuthErrorView { kind: AuthErrorKind::Internal, message: msg@ }),
    {
        AuthError { kind: AuthErrorKind::Internal, message: msg.to_owned() }
    }

    /// The text of the error: its message.
    pub fn text(&self) -> (r: &str)
        ensures
            r@ == self@.message,
    {
        self.message.as_str()
    }
}

/// The refusal that does not tell a wrong name from a wrong passcode.
pub open spec fn wrong_login() -> AuthErrorView {
    AuthErrorView {
        kind: AuthErrorKind::Unauthorized,
        message: "invalid username or passcode"@,
    }
}

/// Why a login is refused: an empty name or passcode, an unknown name, a basic
/// user, a user without passcode, a hash that does not parse, or a wrong
/// passcode, in this order.
pub open spec fn login_error(
    d: StoreDataView,
    username: Seq<char>,
    passcode: Seq<char>,
) -> Option<AuthErrorView> {
    if trimmed(username).len() == 0 {
        Some(
            AuthErrorView { kind: AuthErrorKind::BadRequest, message: "username is required"@ },
        )
    } else if trimmed(passcode).len() == 0 {
        Some(
            AuthErrorView { kind: AuthErrorKind::BadRequest, message: "passcode is required"@ },
        )
    } else {
        match user_named(d, username) {
            None => Some(wrong_login()),
            Some(user) => if normal_level(user.level) == LEVEL_BASIC {
                Some(
                    AuthErrorView {
                        kind: AuthErrorKind::Forbidden,
                        message: "basic users cannot log in"@,
                    },
                )
            } else {
                match user.passcode_hash {
                    None => Some(wrong_login()),
                    Some(hash) => match passcode_matches(hash, trimmed(passcode)) {
                        None => Some(
                            AuthErrorView {
                                kind: AuthErrorKind::Internal,
                                message: "failed to verify passcode: "@ + "parse passcode hash"@,
                            },
                        ),
                        Some(false) => Some(wrong_login()),
                        Some(true) => None,
                    },
                }
            },
        }
    }
}

/// The text of the second at which a session ends; the epoch where it has none.
pub open spec fn expiry_text(second: int) -> Seq<char> {
    if FIRST_RFC3339_SECOND <= second <= LAST_SECOND {
        rfc3339_of(second)
    } else {
        epoch_text()
    }
}

/// The session that a login opens.
pub open spec fn new_session(user: UserRecordView, expires: i64) -> SessionView {
    SessionView {
        user: AuthUserView { username: user.username, level: normal_level(user.level) },
        expires_at_unix: expires,
        expires_at_utc: expiry_text(expires as int),
    }
}

/// The answer to a successful login.
pub open spec fn login_answer(
    user: UserRecordView,
    token: Seq<char>,
    expires: i64,
) -> LoginResponseView {
    LoginResponseView {
        token,
        user: UserPublicView { level: normal_level(user.level), ..user.public() },
        expires_at_utc: expiry_text(expires as int),
    }
}

/// What a login does: a refusal opens no session.
pub open spec fn login_post(
    sessions: Map<Seq<char>, SessionView>,
    ttl_secs: i64,
    d: StoreDataView,
    username: Seq<char>,
    passcode: Seq<char>,
    token: Seq<char>,
    now: i64,
    after: Map<Seq<char>, SessionView>,
    r: Result<LoginResponse, AuthError>,
) -> bool {
    match login_error(d, username, passcode) {
        Some(e) => {
            &&& r matches Err(x) && x@ == e
            &&& after == sessions
        },
        None => {
            let user = user_named(d, username)->0;
            let expires = (now + ttl_secs) as i64;
            &&& r matches Ok(x) && x@ == login_answer(user, token, expires)
            &&& after == sessions.insert(token, new_session(user, expires))
        },
    }
}

/// The user that a token stands for at a second: none once the session ended.
pub open spec fn session_user(
    sessions: Map<Seq<char>, SessionView>,
    token: Seq<char>,
    now: i64,
) -> Option<AuthUserView> {
    let t = trimmed(token);
    if t.len() > 0 && sessions.contains_key(t) && sessions[t].expires_at_unix > now {
        Some(sessions[t].user)
    } else {
        None
    }
}

/// The sessions after a token was shown: one that has ended is dropped.
pub open spec fn after_authenticate(
    sessions: Map<Seq<char>, SessionView>,
    token: Seq<char>,
    now: i64,
) -> Map<Seq<char>, SessionView> {
    let t = trimmed(token);
    if t.len() > 0 && sessions.contains_key(t) && sessions[t].expires_at_unix <= now {
        sessions.remove(t)
    } else {
        sessions
    }
}

/// The sessions after a logout.
pub open spec fn after_logout(
    sessions: Map<Seq<char>, SessionView>,
    token: Seq<char>,
) -> Map<Seq<char>, SessionView> {
    if trimmed(token).len() > 0 {
        sessions.remove(trimmed(token))
    } else {
        sessions
    }
}

/// A session token: the hexadecimal text of thirty-two bytes.
pub open spec fn is_token(token: Seq<char>) -> bool {
    exists|bytes: Seq<u8>| bytes.len() == 32 && token == #[trigger] hex(bytes)
}

/// `RngCore::fill_bytes` of the operating system's generator, on thirty-two
/// bytes. Nothing is said of which they are.
#[verifier::external_body]
fn random_bytes() -> (r: [u8; 32]) {
    let mut bytes = [0u8; 32];
    OsRng.fill_bytes(&mut bytes);
    bytes
}

/// The token of thirty-two bytes.
pub fn token_of(bytes: &[u8; 32]) -> (r: String)
    ensures
        r@ == hex(bytes@),
{
    hex_text(bytes.as_slice())
}

/// Draws a session token.
pub fn generate_token() -> (r: String)
    ensures
        is_token(r@),
{
    let bytes = random_bytes();
    token_of(&bytes)
}

/// The user whom a name and a passcode stand for, or why the login is refused.
fn check_login(store: &JsonStore, username: &str, passcode: &str) -> (r: Result<
    UserRecord,
    AuthError,
>)
    ensures
        match login_error(store.data(), username@, passcode@) {
            Some(e) => r matches Err(x) && x@ == e,
            None => r matches Ok(user) && user_named(store.data(), username@) == Some(user@),
        },
{
    proof {
        lemma_trimmed_twice(username@);
    }
    let username = username.trim();
    if username.is_empty() {
        return Err(AuthError::bad_request("username is required"));
    }
    let passcode = passcode.trim();
    if passcode.is_empty() {
        return Err(AuthError::bad_request("passcode is required"));
    }
    let user = match store.get_user_record(username) {
        Some(user) => user,
        None => {
            return Err(AuthError::unauthorized("invalid username or passcode"));
        },
    };
    if normalize_level(user.level) == LEVEL_BASIC {
        return Err(AuthError::forbidden("basic users cannot log in"));
    }
    let ok = match &user.passcode_hash {
        None => {
            return Err(AuthError::unauthorized("invalid username or passcode"));
        },
        Some(hash) => match verify_passcode(hash.as_str(), passcode) {
            Ok(ok) => ok,
            Err(e) => {
                let message = "failed to verify passcode: ".to_owned().concat(e.text());
                return Err(AuthError::internal(message.as_str()));
            },
        },
    };
    if !ok {
        return Err(AuthError::unauthorized("invalid username or passcode"));
    }
    Ok(user)
}

/// The sessions, and how long one lasts.
pub struct AuthManager {
    ttl_secs: i64,
    sessions: StringHashMap<SessionInfo>,
}

impl AuthManager {
    /// How many seconds a session lasts.
    pub closed spec fn ttl(&self) -> i64 {
        self.ttl_secs
    }

    /// The sessions by their tokens.
    pub closed spec fn sessions(&self) -> Map<Seq<char>, SessionView> {
        self.sessions@.map_values(|s: SessionInfo| s@)
    }

    /// The end of a session opened at any second of the clock is a 64-bit
    /// number.
    pub open spec fn ttl_fits(&self) -> bool {
        i64::MIN <= FIRST_SECOND + self.ttl() && LAST_SECOND + self.ttl() <= i64::MAX
    }

    /// No sessions yet; each will last `ttl_secs` seconds.
    pub fn new(ttl_secs: i64) -> (r: Self)
        ensures
            r.ttl() == ttl_secs,
            r.sessions() == Map::<Seq<char>, SessionView>::empty(),
    {
        let r = AuthManager { ttl_secs, sessions: StringHashMap::new() };
        assert(r.sessions() =~= Map::<Seq<char>, SessionView>::empty());
        r
    }

    /// Whether the end of a session opened at any second of the clock is a
    /// 64-bit number.
    pub fn is_ttl_usable(&self) -> (r: bool)
        ensures
            r == self.ttl_fits(),
    {
        if self.ttl_secs >= 0 {
            self.ttl_secs <= i64::MAX - LAST_SECOND
        } else {
            self.ttl_secs >= i64::MIN - FIRST_SECOND
        }
    }

    /// Whether the end of a session opened at a given second is a 64-bit number.
    pub fn is_end_usable(&self, now: i64) -> (r: bool)
        ensures
            r == (i64::MIN <= now + self.ttl() <= i64::MAX),
    {
        now.checked_add(self.ttl_secs).is_some()
    }

    /// Logs a user in at a given second, with a given token.
    pub fn login_with(
        &mut self,
        store: &JsonStore,
        username: &str,
        passcode: &str,
        token: String,
        now: i64,
    ) -> (r: Result<LoginResponse, AuthError>)
        requires
            login_error(store.data(), username@, passcode@) is None ==> i64::MIN <= now + old(
                self,
            ).ttl() <= i64::MAX,
        ensures
            login_post(
                old(self).sessions(),
                old(self).ttl(),
                store.data(),
                username@,
                passcode@,
                token@,
                now,
                final(self).sessions(),
                r,
            ),
            final(self).ttl() == old(self).ttl(),
    {
        let user = check_login(store, username, passcode)?;
        let level = normalize_level(user.level);
        let expires: i64 = now + self.ttl_secs;
        let expires_at_utc = match unix_to_rfc3339(expires) {
            Ok(text) => text,
            Err(_) => "1970-01-01T00:00:00Z".to_owned(),
        };
        let info = SessionInfo {
            user: AuthUser { username: user.username.clone(), level },
            expires_at_unix: expires,
            expires_at_utc: expires_at_utc.clone(),
        };
        let ghost session = info@;
        self.sessions.insert(token.clone(), info);
        assert(self.sessions() =~= old(self).sessions().insert(token@, session));
        let public = UserPublic::from(&user);
        Ok(
            LoginResponse {
                token,
                user: UserPublic { username: public.username, rfid_uid: public.rfid_uid, level },
                expires_at_utc,
            },
        )
    }

    /// Logs a user in, now, with a token drawn for the session.
    pub fn login(&mut self, store: &JsonStore, username: &str, passcode: &str) -> (r: Result<
        LoginResponse,
        AuthError,
    >)
        requires
            login_error(store.data(), username@, passcode@) is None ==> old(self).ttl_fits(),
        ensures
            exists|token: Seq<char>, now: i64|
                is_token(token) && FIRST_SECOND <= now <= LAST_SECOND && #[trigger] login_post(
                    old(self).sessions(),
                    old(self).ttl(),
                    store.data(),
                    username@,
                    passcode@,
                    token,
                    now,
                    final(self).sessions(),
                    r,
                ),
            final(self).ttl() == old(self).ttl(),
    {
        let token = generate_token();
        let now = now_unix();
        self.login_with(store, username, passcode, token, now)
    }

    /// Logs a user in at a given second, with a given token; nothing happens where
    /// the end of the session that is due is not a 64-bit number.
    pub fn try_login_with(
        &mut self,
        store: &JsonStore,
        username: &str,
        passcode: &str,
        token: String,
        now: i64,
    ) -> (r: Option<Result<LoginResponse, AuthError>>)
        ensures
            match r {
                Some(r) => login_post(
                    old(self).sessions(),
                    old(self).ttl(),
                    store.data(),
                    username@,
                    passcode@,
                    token@,
                    now,
                    final(self).sessions(),
                    r,
                ),
                None => final(self).sessions() == old(self).sessions(),
            },
            r is None <==> login_error(store.data(), username@, passcode@) is None && !(i64::MIN
                <= now + old(self).ttl() <= i64::MAX),
            final(self).ttl() == old(self).ttl(),
    {
        if self.is_end_usable(now) {
            return Some(self.login_with(store, username, passcode, token, now));
        }
        match check_login(store, username, passcode) {
            Ok(_) => None,
            Err(e) => Some(Err(e)),
        }
    }

    /// Logs a user in, now, with a token drawn for the session; nothing happens
    /// where the end of the session that is due is not a 64-bit number.
    pub fn try_login(&mut self, store: &JsonStore, username: &str, passcode: &str) -> (r: Option<
        Result<LoginResponse, AuthError>,
    >)
        ensures
            r matches Some(r) ==> exists|token: Seq<char>, now: i64|
                is_token(token) && FIRST_SECOND <= now <= LAST_SECOND && #[trigger] login_post(
                    old(self).sessions(),
                    old(self).ttl(),
                    store.data(),
                    username@,
                    passcode@,
                    token,
                    now,
                    final(self).sessions(),
                    r,
                ),
            r is None ==> final(self).sessions() == old(self).sessions() && login_error(
                store.data(),
                username@,
                passcode@,
            ) is None && !old(self).ttl_fits(),
            final(self).ttl() == old(self).ttl(),
    {
        if self.is_ttl_usable() {
            return Some(self.login(store, username, passcode));
        }
        let token = generate_token();
        let now = now_unix();
        self.try_login_with(store, username, passcode, token, now)
    }

    /// The user that a token stands for at a given second.
    pub fn authenticate_at(&mut self, token: &str, now: i64) -> (r: Option<AuthUser>)
        ensures
            match r {
                Some(u) => session_user(old(self).sessions(), token@, now) == Some(u@),
                None => session_user(old(self).sessions(), token@, now) is None,
            },
            final(self).sessions() == after_authenticate(old(self).sessions(), token@, now),
            final(self).ttl() == old(self).ttl(),
    {
        let token = token.trim();
        if token.is_empty() {
            return None;
        }
        let (out, remove): (Option<AuthUser>, bool) = match self.sessions.get(token) {
            None => (None, false),
            Some(info) => if info.expires_at_unix <= now {
                (None, true)
            } else {
                (Some(info.user.clone()), false)
            },
        };
        if remove {
            self.sessions.remove(token);
            assert(self.sessions() =~= old(self).sessions().remove(token@));
        }
        out
    }

    /// The user that a token stands for now.
    pub fn authenticate(&mut self, token: &str) -> (r: Option<AuthUser>)
        ensures
            exists|now: i64|
                FIRST_SECOND <= now <= LAST_SECOND && final(self).sessions()
                    == #[trigger] after_authenticate(old(self).sessions(), token@, now)
                    && match r {
                    Some(u) => session_user(old(self).sessions(), token@, now) == Some(u@),
                    None => session_user(old(self).sessions(), token@, now) is None,
                },
            final(self).ttl() == old(self).ttl(),
    {
        let now = now_unix();
        self.authenticate_at(token, now)
    }

    /// Ends the session of a token, and says whether there was one.
    pub fn logout(&mut self, token: &str) -> (r: bool)
        ensures
            r == (trimmed(token@).len() > 0 && old(self).sessions().contains_key(trimmed(token@))),
            final(self).sessions() == after_logout(old(self).sessions(), token@),
            final(self).ttl() == old(self).ttl(),
    {
        let token = token.trim();
        if token.is_empty() {
            return false;
        }
        let found = self.sessions.contains_key(token);
        self.sessions.remove(token);
        assert(self.sessions() =~= old(self).sessions().remove(token@));
        found
    }

    /// The name of the role that a level gives.
    pub fn role_name(level: i32) -> (r: &'static str)
        ensures
            r@ == role_of(level),
    {
        level_name(level)
    }
}

// Laws.

/// A token has no white space around it, and it is not empty.
pub proof fn lemma_token_is_trimmed(token: Seq<char>)
    requires
        is_token(token),
    ensures
        token.len() == 64,
        trimmed(token) == token,
        forall|i: int| 0 <= i < token.len() ==> !is_white_space(#[trigger] token[i]),
{
    let bytes = choose|bytes: Seq<u8>| bytes.len() == 32 && token == #[trigger] hex(bytes);
    assert forall|i: int| 0 <= i < token.len() implies !is_white_space(#[trigger] token[i]) by {
        let b = bytes[i / 2] as int;
        assert(token[i] == digit_char(if i % 2 == 0 { b / 16 } else { b % 16 }));
    }
}

/// The user who logged in is the one whom the token stands for, up to the second
/// at which the session ends and not from then on.
pub proof fn lemma_login_opens_a_session(
    sessions: Map<Seq<char>, SessionView>,
    ttl_secs: i64,
    d: StoreDataView,
    username: Seq<char>,
    passcode: Seq<char>,
    token: Seq<char>,
    now: i64,
    after: Map<Seq<char>, SessionView>,
    r: Result<LoginResponse, AuthError>,
    later: i64,
)
    requires
        is_token(token),
        i64::MIN <= now + ttl_secs <= i64::MAX,
        login_post(sessions, ttl_secs, d, username, passcode, token, now, after, r),
        r is Ok,
    ensures
        r->Ok_0@.token == token,
        later < now + ttl_secs ==> session_user(after, r->Ok_0@.token, later) == Some(
            AuthUserView {
                username: r->Ok_0@.user.username,
                level: r->Ok_0@.user.level,
            },
        ),
        later >= now + ttl_secs ==> session_user(after, r->Ok_0@.token, later) is None,
{
    lemma_token_is_trimmed(token);
}

/// A login leaves the sessions of all other tokens as they are.
pub proof fn lemma_login_leaves_others(
    sessions: Map<Seq<char>, SessionView>,
    ttl_secs: i64,
    d: StoreDataView,
    username: Seq<char>,
    passcode: Seq<char>,
    token: Seq<char>,
    now: i64,
    after: Map<Seq<char>, SessionView>,
    r: Result<LoginResponse, AuthError>,
    other: Seq<char>,
    later: i64,
)
    requires
        login_post(sessions, ttl_secs, d, username, passcode, token, now, after, r),
        trimmed(other) != token,
    ensures
        session_user(after, other, later) == session_user(sessions, other, later),
{
}

/// After a logout the token stands for nobody; other tokens stand for whom they
/// stood for.
pub proof fn lemma_logout_ends_the_session(
    sessions: Map<Seq<char>, SessionView>,
    token: Seq<char>,
    other: Seq<char>,
    now: i64,
)
    ensures
        session_user(after_logout(sessions, token), token, now) is None,
        trimmed(other) != trimmed(token) ==> session_user(
            after_logout(sessions, token),
            other,
            now,
        ) == session_user(sessions, other, now),
{
}

/// A session that has ended stays so, and showing a token changes whom no token
/// stands for from then on.
pub proof fn lemma_ended_sessions_stay_ended(
    sessions: Map<Seq<char>, SessionView>,
    token: Seq<char>,
    other: Seq<char>,
    now: i64,
    later: i64,
)
    requires
        now <= later,
    ensures
        session_user(sessions, token, now) is None ==> session_user(sessions, token, later) is None,
        session_user(after_authenticate(sessions, token, now), other, later) == session_user(
            sessions,
            other,
            later,
        ),
{
}

/// What holds of the sessions at all times: each has a normal level, which is not
/// that of a basic user.
pub open spec fn sessions_hold(sessions: Map<Seq<char>, SessionView>) -> bool {
    forall|token: Seq<char>| #[trigger]
        sessions.contains_key(token) ==> {
            &&& normal_level(sessions[token].user.level) == sessions[token].user.level
            &&& sessions[token].user.level != LEVEL_BASIC
        }
}

/// There are no sessions of basic users: none at the start, and none through a
/// login, a logout or a token that is shown.
pub proof fn lemma_no_session_of_a_basic_user(
    sessions: Map<Seq<char>, SessionView>,
    ttl_secs: i64,
    d: StoreDataView,
    username: Seq<char>,
    passcode: Seq<char>,
    token: Seq<char>,
    now: i64,
    after: Map<Seq<char>, SessionView>,
    r: Result<LoginResponse, AuthError>,
)
    ensures
        sessions_hold(Map::<Seq<char>, SessionView>::empty()),
        sessions_hold(sessions) && login_post(
            sessions,
            ttl_secs,
            d,
            username,
            passcode,
            token,
            now,
            after,
            r,
        ) ==> sessions_hold(after),
        sessions_hold(sessions) ==> sessions_hold(after_logout(sessions, token)) && sessions_hold(
            after_authenticate(sessions, token, now),
        ),
{
}

/// A basic user cannot log in, whatever the passcode.
pub proof fn lemma_basic_users_cannot_log_in(
    d: StoreDataView,
    username: Seq<char>,
    passcode: Seq<char>,
)
    requires
        user_named(d, username) is Some,
        normal_level(user_named(d, username)->0.level) == LEVEL_BASIC,
    ensures
        login_error(d, username, passcode) is Some,
        trimmed(username).len() > 0 && trimmed(passcode).len() > 0 ==> login_error(
            d,
            username,
            passcode,
        )->0.kind == AuthErrorKind::Forbidden,
{
}

/// A refusal does not tell whether the name or the passcode was wrong: an unknown
/// name and a wrong passcode are answered alike.
pub proof fn lemma_wrong_name_and_wrong_passcode_look_alike(
    d: StoreDataView,
    unknown: Seq<char>,
    known: Seq<char>,
    passcode: Seq<char>,
)
    requires
        trimmed(unknown).len() > 0,
        trimmed(known).len() > 0,
        trimmed(passcode).len() > 0,
        user_named(d, unknown) is None,
        user_named(d, known) is Some,
        normal_level(user_named(d, known)->0.level) != LEVEL_BASIC,
        user_named(d, known)->0.passcode_hash matches Some(h) ==> passcode_matches(
            h,
            trimmed(passcode),
        ) == Some(false),
    ensures
        login_error(d, unknown, passcode) == login_error(d, known, passcode),
{
}

/// Something that happens to the sessions.
pub enum SessionEvent {
    /// A login that succeeds opens a session under a token.
    Opened { token: Seq<char>, session: SessionView },
    /// A token is shown at a second.
    Shown { token: Seq<char>, now: i64 },
    /// A token is logged out.
    LoggedOut { token: Seq<char> },
}

/// The sessions after something happened to them.
pub open spec fn after_event(
    sessions: Map<Seq<char>, SessionView>,
    event: SessionEvent,
) -> Map<Seq<char>, SessionView> {
    match event {
        SessionEvent::Opened { token, session } => sessions.insert(token, session),
        SessionEvent::Shown { token, now } => after_authenticate(sessions, token, now),
        SessionEvent::LoggedOut { token } => after_logout(sessions, token),
    }
}

/// The sessions after a sequence of events.
pub open spec fn after_events(
    sessions: Map<Seq<char>, SessionView>,
    events: Seq<SessionEvent>,
) -> Map<Seq<char>, SessionView>
    decreases events.len(),
{
    if events.len() == 0 {
        sessions
    } else {
        after_event(after_events(sessions, events.drop_last()), events.last())
    }
}

/// The event leaves alone what a token stands for at a second: it neither opens a
/// session under the token nor logs it out, and it lies not after the second.
pub open spec fn leaves_alone(event: SessionEvent, token: Seq<char>, later: i64) -> bool {
    match event {
        SessionEvent::Opened { token: t, session } => t != trimmed(token),
        SessionEvent::Shown { token: t, now } => now <= later,
        SessionEvent::LoggedOut { token: t } => trimmed(t) != trimmed(token),
    }
}

/// A session lasts: whatever other logins, logouts and requests happen in the
/// meantime, a token stands for whom it stood for until its session ends or it is
/// logged out.
pub proof fn lemma_session_lasts(
    sessions: Map<Seq<char>, SessionView>,
    events: Seq<SessionEvent>,
    token: Seq<char>,
    later: i64,
)
    requires
        forall|i: int|
            0 <= i < events.len() ==> leaves_alone(#[trigger] events[i], token, later),
    ensures
        session_user(after_events(sessions, events), token, later) == session_user(
            sessions,
            token,
            later,
        ),
    decreases events.len(),
{
    if events.len() > 0 {
        let before = after_events(sessions, events.drop_last());
        assert forall|i: int| 0 <= i < events.drop_last().len() implies leaves_alone(
            #[trigger] events.drop_last()[i],
            token,
            later,
        ) by {
            assert(leaves_alone(events[i], token, later));
        }
        lemma_session_lasts(sessions, events.drop_last(), token, later);
        assert(leaves_alone(events[events.len() - 1], token, later));
        match events.last() {
            SessionEvent::Opened { token: t, session } => {},
            SessionEvent::Shown { token: t, now } => {
                lemma_ended_sessions_stay_ended(before, t, token, now, later);
            },
            SessionEvent::LoggedOut { token: t } => {
                lemma_logout_ends_the_session(before, t, token, later);
            },
        }
    }
}

} // verus!
