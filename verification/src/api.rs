//! What the endpoints share: refusals as they are sent, who makes a request, and
//! who may do what.

use vstd::prelude::*;

use crate::auth::{
    after_authenticate, session_user, AuthError, AuthErrorKind, AuthErrorView, AuthManager,
    AuthUser, AuthUserView, SessionView,
};
use crate::clock::{now_unix, FIRST_SECOND, LAST_SECOND};
use crate::models::{
    normal_level, normalize_level, opt_text, LEVEL_ADMIN, LEVEL_ADVANCED_USER, LEVEL_BASIC,
    LEVEL_JUNIOR_ADMIN,
};
use crate::store::{StoreError, StoreErrorKind, StoreErrorView};
use crate::text::{after_prefix, strip_text_prefix, trimmed};

verus! {

/// The request was carried out, and there is nothing to send.
pub const NO_CONTENT: u16 = 204;

/// The request breaks a rule.
pub const BAD_REQUEST: u16 = 400;

/// The caller is not known.
pub const UNAUTHORIZED: u16 = 401;

/// The caller may not do this.
pub const FORBIDDEN: u16 = 403;

/// What was asked for does not exist.
pub const NOT_FOUND: u16 = 404;

/// The request clashes with what there is.
pub const CONFLICT: u16 = 409;

/// The backend failed.
pub const INTERNAL_SERVER_ERROR: u16 = 500;

/// The endpoint is not available.
pub const SERVICE_UNAVAILABLE: u16 = 503;

/// A refusal as it is sent: a status code and a message.
#[derive(Debug)]
pub struct ApiError {
    /// The status code.
    pub status: u16,
    /// What to tell the caller.
    pub message: String,
}

/// What an [`ApiError`] stands for.
pub struct ApiErrorView {
    pub status: u16,
    pub message: Seq<char>,
}

impl View for ApiError {
    type V = ApiErrorView;

    open spec fn view(&self) -> ApiErrorView {
        ApiErrorView { status: self.status, message: self.message@ }
    }
}

impl ApiError {
    /// A refusal.
    pub fn new(status: u16, message: &str) -> (r: Self)
        ensures
            r@ == (ApiErrorView { status, message: message@ }),
    {
        ApiError { status, message: message.to_owned() }
    }
}

/// The status code of a refusal of the store.
pub open spec fn store_status(kind: StoreErrorKind) -> u16 {
    match kind {
        StoreErrorKind::BadRequest => BAD_REQUEST,
        StoreErrorKind::Conflict => CONFLICT,
        StoreErrorKind::Internal => INTERNAL_SERVER_ERROR,
    }
}

/// A refusal of the store, as it is sent.
pub open spec fn store_refusal(e: StoreErrorView) -> ApiErrorView {
    ApiErrorView { status: store_status(e.kind), message: e.message }
}

impl vstd::std_specs::convert::FromSpecImpl<StoreError> for ApiError {
    open spec fn obeys_from_spec() -> bool {
        true
    }

    open spec fn from_spec(value: StoreError) -> Self {
        ApiError { status: store_status(value.kind), message: value.message }
    }
}

impl From<StoreError> for ApiError {
    fn from(value: StoreError) -> (r: Self) {
        let status: u16 = match value.kind {
            StoreErrorKind::BadRequest => BAD_REQUEST,
            StoreErrorKind::Conflict => CONFLICT,
            StoreErrorKind::Internal => INTERNAL_SERVER_ERROR,
        };
        ApiError { status, message: value.message }
    }
}

/// A refusal of a login, as it is sent.
pub open spec fn login_refusal(e: AuthErrorView) -> ApiErrorView {
    ApiErrorView {
        status: match e.kind {
            AuthErrorKind::BadRequest => BAD_REQUEST,
            AuthErrorKind::Unauthorized => UNAUTHORIZED,
            AuthErrorKind::Forbidden => FORBIDDEN,
            AuthErrorKind::Internal => INTERNAL_SERVER_ERROR,
        },
        message: e.message,
    }
}

/// A refusal of a login, as it is sent.
pub(crate) fn refuse_login(e: AuthError) -> (r: ApiError)
    ensures
        r@ == login_refusal(e@),
{
    let status: u16 = match e.kind {
        AuthErrorKind::BadRequest => BAD_REQUEST,
        AuthErrorKind::Unauthorized => UNAUTHORIZED,
        AuthErrorKind::Forbidden => FORBIDDEN,
        AuthErrorKind::Internal => INTERNAL_SERVER_ERROR,
    };
    ApiError { status, message: e.message }
}

/// A header by its characters.
pub open spec fn header_text(header: Option<&str>) -> Option<Seq<char>> {
    match header {
        Some(h) => Some(h@),
        None => None,
    }
}

/// A header without the white space around it; empty where there is none.
pub open spec fn header_trimmed(header: Option<Seq<char>>) -> Seq<char> {
    match header {
        Some(h) => trimmed(h),
        None => Seq::empty(),
    }
}

/// A header without the white space around it; empty where there is none.
pub(crate) fn trim_header<'a>(header: Option<&'a str>) -> (r: &'a str)
    ensures
        r@ == header_trimmed(header_text(header)),
{
    match header {
        Some(h) => h.trim(),
        None => {
            proof {
                reveal_strlit("");
            }
            assert(""@ =~= Seq::<char>::empty());
            ""
        },
    }
}

/// The token that an `Authorization` header carries.
pub open spec fn bearer(authorization: Option<Seq<char>>) -> Option<Seq<char>> {
    match after_prefix(header_trimmed(authorization), "Bearer "@) {
        Some(t) => if trimmed(t).len() == 0 {
            None
        } else {
            Some(trimmed(t))
        },
        None => None,
    }
}

/// The token that an `Authorization` header carries.
pub fn bearer_token(authorization: Option<&str>) -> (r: Option<String>)
    ensures
        opt_text(r) == bearer(header_text(authorization)),
{
    let v = trim_header(authorization);
    match strip_text_prefix(v, "Bearer ") {
        Some(t) => {
            let t = t.trim();
            if t.is_empty() {
                None
            } else {
                Some(t.to_owned())
            }
        },
        None => None,
    }
}

// Permissions.

/// Whether a level may manage users.
pub open spec fn manages_users(level: i32) -> bool {
    normal_level(level) == LEVEL_ADMIN || normal_level(level) == LEVEL_JUNIOR_ADMIN
}

/// Whether a level may manage reports.
pub open spec fn manages_reports(level: i32) -> bool {
    normal_level(level) == LEVEL_ADMIN || normal_level(level) == LEVEL_JUNIOR_ADMIN
}

/// Whether a level may use the application: all but basic users may.
pub open spec fn uses_app(level: i32) -> bool {
    normal_level(level) != LEVEL_BASIC
}

/// Whether a level is that of an advanced user.
pub open spec fn is_advanced(level: i32) -> bool {
    normal_level(level) == LEVEL_ADVANCED_USER
}

/// Whether a level is that of a junior administrator.
pub open spec fn is_junior(level: i32) -> bool {
    normal_level(level) == LEVEL_JUNIOR_ADMIN
}

/// Whether a level is that of an administrator, junior or not.
pub open spec fn is_administrative(level: i32) -> bool {
    normal_level(level) == LEVEL_ADMIN || normal_level(level) == LEVEL_JUNIOR_ADMIN
}

/// Whether a level may manage users.
pub fn can_manage_users(level: i32) -> (r: bool)
    ensures
        r == manages_users(level),
{
    let lvl = normalize_level(level);
    lvl == LEVEL_ADMIN || lvl == LEVEL_JUNIOR_ADMIN
}

/// Whether a level may manage reports.
pub fn can_manage_reports(level: i32) -> (r: bool)
    ensures
        r == manages_reports(level),
{
    let lvl = normalize_level(level);
    lvl == LEVEL_ADMIN || lvl == LEVEL_JUNIOR_ADMIN
}

/// Whether a level may use the application.
pub fn can_use_app(level: i32) -> (r: bool)
    ensures
        r == uses_app(level),
{
    normalize_level(level) != LEVEL_BASIC
}

/// Whether a level is that of an advanced user.
pub fn is_advanced_user(level: i32) -> (r: bool)
    ensures
        r == is_advanced(level),
{
    normalize_level(level) == LEVEL_ADVANCED_USER
}

/// Whether a level is that of an administrator, junior or not.
pub(crate) fn is_admin_or_junior(level: i32) -> (r: bool)
    ensures
        r == is_administrative(level),
{
    let lvl = normalize_level(level);
    lvl == LEVEL_ADMIN || lvl == LEVEL_JUNIOR_ADMIN
}

// Callers.

/// What a request without a token is answered.
pub open spec fn no_token() -> ApiErrorView {
    ApiErrorView { status: UNAUTHORIZED, message: "missing Authorization: Bearer token"@ }
}

/// What a request with a token that stands for nobody is answered.
pub open spec fn no_session() -> ApiErrorView {
    ApiErrorView { status: UNAUTHORIZED, message: "invalid or expired session"@ }
}

/// What a caller is answered who may not do what was asked.
pub open spec fn forbidden(message: Seq<char>) -> ApiErrorView {
    ApiErrorView { status: FORBIDDEN, message }
}

/// What a request for something is answered that does not exist.
pub open spec fn not_found(message: Seq<char>) -> ApiErrorView {
    ApiErrorView { status: NOT_FOUND, message }
}

/// The user who makes a request, or the refusal where there is none.
pub open spec fn caller(
    sessions: Map<Seq<char>, SessionView>,
    authorization: Option<Seq<char>>,
    now: i64,
) -> Result<AuthUserView, ApiErrorView> {
    match bearer(authorization) {
        None => Err(no_token()),
        Some(token) => match session_user(sessions, token, now) {
            Some(user) => Ok(user),
            None => Err(no_session()),
        },
    }
}

/// The sessions after a request: an ended one is dropped when its token is
/// shown.
pub open spec fn after_request(
    sessions: Map<Seq<char>, SessionView>,
    authorization: Option<Seq<char>>,
    now: i64,
) -> Map<Seq<char>, SessionView> {
    match bearer(authorization) {
        None => sessions,
        Some(token) => after_authenticate(sessions, token, now),
    }
}

/// The user who makes a request and may use the application, or the refusal.
pub open spec fn app_caller(
    sessions: Map<Seq<char>, SessionView>,
    authorization: Option<Seq<char>>,
    now: i64,
) -> Result<AuthUserView, ApiErrorView> {
    match caller(sessions, authorization, now) {
        Ok(user) => if uses_app(user.level) {
            Ok(user)
        } else {
            Err(forbidden("not permitted"@))
        },
        Err(e) => Err(e),
    }
}

/// The user who makes a request and may manage users, or the refusal.
pub open spec fn user_manager(
    sessions: Map<Seq<char>, SessionView>,
    authorization: Option<Seq<char>>,
    now: i64,
) -> Result<AuthUserView, ApiErrorView> {
    match caller(sessions, authorization, now) {
        Ok(user) => if manages_users(user.level) {
            Ok(user)
        } else {
            Err(forbidden("insufficient role"@))
        },
        Err(e) => Err(e),
    }
}

/// The user who makes a request and may manage reports, or the refusal.
pub open spec fn report_manager(
    sessions: Map<Seq<char>, SessionView>,
    authorization: Option<Seq<char>>,
    now: i64,
) -> Result<AuthUserView, ApiErrorView> {
    match caller(sessions, authorization, now) {
        Ok(user) => if manages_reports(user.level) {
            Ok(user)
        } else {
            Err(forbidden("insufficient role"@))
        },
        Err(e) => Err(e),
    }
}

/// A result agrees with what it should be.
pub open spec fn is_caller(
    r: Result<AuthUser, ApiError>,
    expected: Result<AuthUserView, ApiErrorView>,
) -> bool {
    match expected {
        Ok(user) => r matches Ok(u) && u@ == user,
        Err(e) => r matches Err(x) && x@ == e,
    }
}

/// The user who makes a request at a given second.
pub fn require_user_at(auth: &mut AuthManager, authorization: Option<&str>, now: i64) -> (r: Result<
    AuthUser,
    ApiError,
>)
    ensures
        is_caller(r, caller(old(auth).sessions(), header_text(authorization), now)),
        final(auth).sessions() == after_request(
            old(auth).sessions(),
            header_text(authorization),
            now,
        ),
        final(auth).ttl() == old(auth).ttl(),
{
    match bearer_token(authorization) {
        None => Err(ApiError::new(UNAUTHORIZED, "missing Authorization: Bearer token")),
        Some(token) => match auth.authenticate_at(token.as_str(), now) {
            Some(user) => Ok(user),
            None => Err(ApiError::new(UNAUTHORIZED, "invalid or expired session")),
        },
    }
}

/// What asking for the user who makes a request does.
pub open spec fn require_user_post(
    sessions: Map<Seq<char>, SessionView>,
    authorization: Option<Seq<char>>,
    now: i64,
    after: Map<Seq<char>, SessionView>,
    r: Result<AuthUser, ApiError>,
) -> bool {
    &&& after == after_request(sessions, authorization, now)
    &&& is_caller(r, caller(sessions, authorization, now))
}

/// A second that the clock can show.
pub open spec fn is_moment(now: i64) -> bool {
    FIRST_SECOND <= now <= LAST_SECOND
}

/// The user who makes a request, now.
pub fn require_user(auth: &mut AuthManager, authorization: Option<&str>) -> (r: Result<
    AuthUser,
    ApiError,
>)
    ensures
        exists|now: i64|
            is_moment(now) && #[trigger] require_user_post(
                old(auth).sessions(),
                header_text(authorization),
                now,
                final(auth).sessions(),
                r,
            ),
        final(auth).ttl() == old(auth).ttl(),
{
    let now = now_unix();
    let r = require_user_at(auth, authorization, now);
    assert(require_user_post(
        old(auth).sessions(),
        header_text(authorization),
        now,
        auth.sessions(),
        r,
    ));
    r
}

/// The user who makes a request and may use the application.
pub(crate) fn require_app_user(auth: &mut AuthManager, authorization: Option<&str>, now: i64) -> (r: Result<
    AuthUser,
    ApiError,
>)
    ensures
        is_caller(r, app_caller(old(auth).sessions(), header_text(authorization), now)),
        final(auth).sessions() == after_request(
            old(auth).sessions(),
            header_text(authorization),
            now,
        ),
        final(auth).ttl() == old(auth).ttl(),
{
    let user = require_user_at(auth, authorization, now)?;
    if !can_use_app(user.level) {
        return Err(ApiError::new(FORBIDDEN, "not permitted"));
    }
    Ok(user)
}

/// The user who makes a request and may manage users.
pub(crate) fn require_user_manager(auth: &mut AuthManager, authorization: Option<&str>, now: i64) -> (r:
    Result<AuthUser, ApiError>)
    ensures
        is_caller(r, user_manager(old(auth).sessions(), header_text(authorization), now)),
        final(auth).sessions() == after_request(
            old(auth).sessions(),
            header_text(authorization),
            now,
        ),
        final(auth).ttl() == old(auth).ttl(),
{
    let user = require_user_at(auth, authorization, now)?;
    if !can_manage_users(user.level) {
        return Err(ApiError::new(FORBIDDEN, "insufficient role"));
    }
    Ok(user)
}

/// The user who makes a request and may manage reports.
pub(crate) fn require_report_manager(auth: &mut AuthManager, authorization: Option<&str>, now: i64) -> (r:
    Result<AuthUser, ApiError>)
    ensures
        is_caller(r, report_manager(old(auth).sessions(), header_text(authorization), now)),
        final(auth).sessions() == after_request(
            old(auth).sessions(),
            header_text(authorization),
            now,
        ),
        final(auth).ttl() == old(auth).ttl(),
{
    let user = require_user_at(auth, authorization, now)?;
    if !can_manage_reports(user.level) {
        return Err(ApiError::new(FORBIDDEN, "insufficient role"));
    }
    Ok(user)
}

} // verus!
