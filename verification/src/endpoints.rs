//! The endpoints: what each request is answered, and what it changes.
//!
//! A request that changes the store is answered by a [`Staged`] value; the
//! caller writes the data and hands the outcome to [`finish`].

use vstd::prelude::*;

use crate::api::{
    after_request, app_caller, bearer, bearer_token, caller, forbidden, header_text,
    header_trimmed, is_admin_or_junior, is_administrative, is_advanced, is_advanced_user,
    is_junior, is_moment, login_refusal, no_token, not_found, refuse_login, report_manager,
    require_app_user, require_report_manager, require_user_at, require_user_manager, store_refusal,
    trim_header, user_manager, ApiError, ApiErrorView, CONFLICT, FORBIDDEN, INTERNAL_SERVER_ERROR,
    NOT_FOUND, NO_CONTENT, SERVICE_UNAVAILABLE, UNAUTHORIZED,
};
use crate::auth::{
    after_logout, generate_token, is_token, login_answer, login_error, new_session, AuthManager,
    AuthUserView, SessionView,
};
use crate::clock::{is_instant_text, now_rfc3339, now_unix};
use crate::fresh::{Fresh, FreshView};
use crate::models::{
    normal_level, normalize_level, opt_text, report_views, ApiStatus, CreateReportRequest,
    CreateReportRequestView, CreateUserRequest, CreateUserRequestView, GpioConfig, LiveStateView, LoginRequest,
    LoginRequestView, LoginResponse, MeResponse, ReportRecord, ReportRecordView, StoreDataView,
    UpdateReportRequest, UpdateReportRequestView, UpdateUserRequest, UpdateUserRequestView,
    UserPublic, LEVEL_BASIC, LEVEL_JUNIOR_ADMIN,
};
use crate::order::is_stable_sort;
use crate::passcode::is_salt;
use crate::store::{
    by_name, by_num_descending, create_report_post, create_user_post, delete_report_post, internal,
    public_views, report_numbered, set_gpio_post, sets_passcode, update_report_post,
    update_user_post, user_named, JsonStore, Staged, StoreError,
};
use crate::text::{is_same_text, same_ignoring_case};
use crate::update::{
    start_error, started, StartUpdateError, UpdateStatusResponse, Updater, UpdaterView,
};

verus! {

/// How the service is.
pub fn api_status() -> (r: ApiStatus)
    ensures
        r.status@ == "ok"@,
{
    ApiStatus { status: "ok" }
}

/// What settling a change does, and what the caller is answered.
pub open spec fn finish_post<T>(
    d: StoreDataView,
    live: LiveStateView,
    staged: Staged<T>,
    written: Result<(), String>,
    after_d: StoreDataView,
    after_live: LiveStateView,
    r: Result<T, ApiError>,
) -> bool {
    &&& after_d == d
    &&& match written {
        Ok(_) => r == Ok::<T, ApiError>(staged.value) && after_live == staged.live@,
        Err(e) => {
            &&& r matches Err(x) && x@ == store_refusal(
                internal("failed to persist store: "@ + e@),
            )
            &&& after_live == live
        },
    }
}

/// Settles a change with the outcome of writing it, for the caller.
pub fn finish<T>(store: &mut JsonStore, staged: Staged<T>, written: Result<(), String>) -> (r:
    Result<T, ApiError>)
    ensures
        finish_post(
            old(store).data(),
            old(store).live(),
            staged,
            written,
            final(store).data(),
            final(store).live(),
            r,
        ),
        final(store).data() == old(store).data(),
        match written {
            Ok(_) => r == Ok::<T, ApiError>(staged.value) && final(store).live() == staged.live@,
            Err(e) => {
                &&& r matches Err(x) && x@ == store_refusal(
                    internal("failed to persist store: "@ + e@),
                )
                &&& final(store).live() == old(store).live()
            },
        },
{
    match store.settle(staged, written) {
        Ok(value) => Ok(value),
        Err(e) => Err(ApiError::from(e)),
    }
}

// Sessions.

/// What a login request is answered, and what it changes.
pub open spec fn auth_login_post(
    sessions: Map<Seq<char>, SessionView>,
    ttl_secs: i64,
    d: StoreDataView,
    req: LoginRequestView,
    token: Seq<char>,
    now: i64,
    after: Map<Seq<char>, SessionView>,
    r: Result<LoginResponse, ApiError>,
) -> bool {
    match login_error(d, req.username, req.passcode) {
        Some(e) => {
            &&& r matches Err(x) && x@ == login_refusal(e)
            &&& after == sessions
        },
        None => {
            let user = user_named(d, req.username)->0;
            let expires = (now + ttl_secs) as i64;
            &&& r matches Ok(x) && x@ == login_answer(user, token, expires)
            &&& after == sessions.insert(token, new_session(user, expires))
        },
    }
}

/// Logs a user in at a given second, with a given token.
pub fn auth_login_with(
    auth: &mut AuthManager,
    store: &JsonStore,
    req: &LoginRequest,
    token: String,
    now: i64,
) -> (r: Result<LoginResponse, ApiError>)
    requires
        login_error(store.data(), req@.username, req@.passcode) is None ==> i64::MIN <= now + old(
            auth,
        ).ttl() <= i64::MAX,
    ensures
        auth_login_post(
            old(auth).sessions(),
            old(auth).ttl(),
            store.data(),
            req@,
            token@,
            now,
            final(auth).sessions(),
            r,
        ),
        final(auth).ttl() == old(auth).ttl(),
{
    match auth.login_with(store, req.username.as_str(), req.passcode.as_str(), token, now) {
        Ok(answer) => Ok(answer),
        Err(e) => Err(refuse_login(e)),
    }
}

/// Logs a user in, now, with a token drawn for the session.
pub fn auth_login(auth: &mut AuthManager, store: &JsonStore, req: &LoginRequest) -> (r: Result<
    LoginResponse,
    ApiError,
>)
    requires
        login_error(store.data(), req@.username, req@.passcode) is None ==> old(auth).ttl_fits(),
    ensures
        exists|token: Seq<char>, now: i64|
            is_token(token) && is_moment(now) && #[trigger] auth_login_post(
                old(auth).sessions(),
                old(auth).ttl(),
                store.data(),
                req@,
                token,
                now,
                final(auth).sessions(),
                r,
            ),
        final(auth).ttl() == old(auth).ttl(),
{
    let token = generate_token();
    let now = now_unix();
    auth_login_with(auth, store, req, token, now)
}

/// Logs a user in at a given second, with a given token; nothing happens where the
/// end of the session that is due is not a 64-bit number.
pub fn try_auth_login_with(
    auth: &mut AuthManager,
    store: &JsonStore,
    req: &LoginRequest,
    token: String,
    now: i64,
) -> (r: Option<Result<LoginResponse, ApiError>>)
    ensures
        match r {
            Some(r) => auth_login_post(
                old(auth).sessions(),
                old(auth).ttl(),
                store.data(),
                req@,
                token@,
                now,
                final(auth).sessions(),
                r,
            ),
            None => final(auth).sessions() == old(auth).sessions(),
        },
        r is None <==> login_error(store.data(), req@.username, req@.passcode) is None && !(
        i64::MIN <= now + old(auth).ttl() <= i64::MAX),
        final(auth).ttl() == old(auth).ttl(),
{
    if auth.is_end_usable(now) {
        return Some(auth_login_with(auth, store, req, token, now));
    }
    match auth.try_login_with(store, req.username.as_str(), req.passcode.as_str(), token, now) {
        Some(Ok(answer)) => Some(Ok(answer)),
        Some(Err(e)) => Some(Err(refuse_login(e))),
        None => None,
    }
}

/// Logs a user in, now, with a token drawn for the session; nothing happens where
/// the end of the session that is due is not a 64-bit number.
pub fn try_auth_login(auth: &mut AuthManager, store: &JsonStore, req: &LoginRequest) -> (r: Option<
    Result<LoginResponse, ApiError>,
>)
    ensures
        r matches Some(r) ==> exists|token: Seq<char>, now: i64|
            is_token(token) && is_moment(now) && #[trigger] auth_login_post(
                old(auth).sessions(),
                old(auth).ttl(),
                store.data(),
                req@,
                token,
                now,
                final(auth).sessions(),
                r,
            ),
        r is None ==> final(auth).sessions() == old(auth).sessions() && login_error(
            store.data(),
            req@.username,
            req@.passcode,
        ) is None && !old(auth).ttl_fits(),
        final(auth).ttl() == old(auth).ttl(),
{
    if auth.is_ttl_usable() {
        return Some(auth_login(auth, store, req));
    }
    let token = generate_token();
    let now = now_unix();
    try_auth_login_with(auth, store, req, token, now)
}

/// What a caller is answered who asks who they are.
pub open spec fn auth_me_post(
    sessions: Map<Seq<char>, SessionView>,
    d: StoreDataView,
    authorization: Option<Seq<char>>,
    now: i64,
    after: Map<Seq<char>, SessionView>,
    r: Result<MeResponse, ApiError>,
) -> bool {
    &&& after == after_request(sessions, authorization, now)
    &&& match caller(sessions, authorization, now) {
        Err(e) => r matches Err(x) && x@ == e,
        Ok(user) => match user_named(d, user.username) {
            Some(record) => r matches Ok(x) && x@.user == record.public(),
            None => r matches Err(x) && x@ == (ApiErrorView {
                status: UNAUTHORIZED,
                message: "session user no longer exists"@,
            }),
        },
    }
}

/// Tells callers who they are, at a given second.
pub fn auth_me_at(
    auth: &mut AuthManager,
    store: &JsonStore,
    authorization: Option<&str>,
    now: i64,
) -> (r: Result<MeResponse, ApiError>)
    ensures
        auth_me_post(
            old(auth).sessions(),
            store.data(),
            header_text(authorization),
            now,
            final(auth).sessions(),
            r,
        ),
        final(auth).ttl() == old(auth).ttl(),
{
    let user = require_user_at(auth, authorization, now)?;
    match store.get_user_record(user.username.as_str()) {
        Some(record) => Ok(MeResponse { user: UserPublic::from(&record) }),
        None => Err(ApiError::new(UNAUTHORIZED, "session user no longer exists")),
    }
}

/// Tells callers who they are, now.
pub fn auth_me(auth: &mut AuthManager, store: &JsonStore, authorization: Option<&str>) -> (r:
    Result<MeResponse, ApiError>)
    ensures
        exists|now: i64|
            is_moment(now) && #[trigger] auth_me_post(
                old(auth).sessions(),
                store.data(),
                header_text(authorization),
                now,
                final(auth).sessions(),
                r,
            ),
        final(auth).ttl() == old(auth).ttl(),
{
    let now = now_unix();
    auth_me_at(auth, store, authorization, now)
}

/// What a logout is answered, and what it changes.
pub open spec fn auth_logout_post(
    sessions: Map<Seq<char>, SessionView>,
    authorization: Option<Seq<char>>,
    after: Map<Seq<char>, SessionView>,
    r: Result<u16, ApiError>,
) -> bool {
    match bearer(authorization) {
        None => {
            &&& r matches Err(x) && x@ == no_token()
            &&& after == sessions
        },
        Some(token) => {
            &&& r == Ok::<u16, ApiError>(NO_CONTENT)
            &&& after == after_logout(sessions, token)
        },
    }
}

/// Ends the caller's session, if there is one.
pub fn auth_logout(auth: &mut AuthManager, authorization: Option<&str>) -> (r: Result<
    u16,
    ApiError,
>)
    ensures
        auth_logout_post(
            old(auth).sessions(),
            header_text(authorization),
            final(auth).sessions(),
            r,
        ),
        match bearer(header_text(authorization)) {
            None => {
                &&& r matches Err(x) && x@ == no_token()
                &&& final(auth).sessions() == old(auth).sessions()
            },
            Some(token) => {
                &&& r == Ok::<u16, ApiError>(NO_CONTENT)
                &&& final(auth).sessions() == after_logout(old(auth).sessions(), token)
            },
        },
        final(auth).ttl() == old(auth).ttl(),
{
    match bearer_token(authorization) {
        None => Err(ApiError::new(UNAUTHORIZED, "missing Authorization: Bearer token")),
        Some(token) => {
            let _ = auth.logout(token.as_str());
            Ok(NO_CONTENT)
        },
    }
}

// Users.

/// What a request for all users is answered.
pub open spec fn list_users_post(
    sessions: Map<Seq<char>, SessionView>,
    d: StoreDataView,
    authorization: Option<Seq<char>>,
    now: i64,
    after: Map<Seq<char>, SessionView>,
    r: Result<Vec<UserPublic>, ApiError>,
) -> bool {
    &&& after == after_request(sessions, authorization, now)
    &&& match app_caller(sessions, authorization, now) {
        Err(e) => r matches Err(x) && x@ == e,
        Ok(_) => r matches Ok(users) && is_stable_sort(
            public_views(d.users),
            users@.map_values(|u: UserPublic| u@),
            by_name(),
        ),
    }
}

/// Lists all users, at a given second.
pub fn list_users_at(
    auth: &mut AuthManager,
    store: &JsonStore,
    authorization: Option<&str>,
    now: i64,
) -> (r: Result<Vec<UserPublic>, ApiError>)
    ensures
        list_users_post(
            old(auth).sessions(),
            store.data(),
            header_text(authorization),
            now,
            final(auth).sessions(),
            r,
        ),
        final(auth).ttl() == old(auth).ttl(),
{
    let _ = require_app_user(auth, authorization, now)?;
    Ok(store.list_users())
}

/// Lists all users, now.
pub fn list_users(auth: &mut AuthManager, store: &JsonStore, authorization: Option<&str>) -> (r:
    Result<Vec<UserPublic>, ApiError>)
    ensures
        exists|now: i64|
            is_moment(now) && #[trigger] list_users_post(
                old(auth).sessions(),
                store.data(),
                header_text(authorization),
                now,
                final(auth).sessions(),
                r,
            ),
        final(auth).ttl() == old(auth).ttl(),
{
    let now = now_unix();
    list_users_at(auth, store, authorization, now)
}

/// The store's answer, as it is sent.
pub open spec fn passes_on<T>(s: Result<T, StoreError>, r: Result<T, ApiError>) -> bool {
    match s {
        Ok(value) => r == Ok::<T, ApiError>(value),
        Err(e) => r matches Err(x) && x@ == store_refusal(e@),
    }
}

/// The store's answer, as it is sent, where the store may not know what was
/// asked for.
pub open spec fn passes_on_or<T>(
    s: Result<Option<T>, StoreError>,
    missing: ApiErrorView,
    r: Result<T, ApiError>,
) -> bool {
    match s {
        Ok(Some(value)) => r == Ok::<T, ApiError>(value),
        Ok(None) => r matches Err(x) && x@ == missing,
        Err(e) => r matches Err(x) && x@ == store_refusal(e@),
    }
}

/// A failure of the backend, not of the request.
pub open spec fn is_failure<T>(r: Result<T, ApiError>) -> bool {
    r matches Err(e) && e@.status == INTERNAL_SERVER_ERROR
}

/// The caller who may create such a user, or the refusal: a junior administrator
/// creates no administrators.
pub open spec fn may_create_user(
    sessions: Map<Seq<char>, SessionView>,
    authorization: Option<Seq<char>>,
    now: i64,
    level: i32,
) -> Result<AuthUserView, ApiErrorView> {
    match user_manager(sessions, authorization, now) {
        Ok(actor) => if is_junior(actor.level) && is_administrative(level) {
            Err(forbidden("junior admin cannot create admin or junior admin users"@))
        } else {
            Ok(actor)
        },
        Err(e) => Err(e),
    }
}

/// What a request for a new user is answered, and what it changes.
pub open spec fn api_create_user_post(
    sessions: Map<Seq<char>, SessionView>,
    d: StoreDataView,
    authorization: Option<Seq<char>>,
    req: CreateUserRequestView,
    now: i64,
    fresh: FreshView,
    after: Map<Seq<char>, SessionView>,
    after_d: StoreDataView,
    r: Result<Staged<UserPublic>, ApiError>,
) -> bool {
    &&& after == after_request(sessions, authorization, now)
    &&& match may_create_user(sessions, authorization, now, req.level) {
        Err(e) => {
            &&& r matches Err(x) && x@ == e
            &&& after_d == d
        },
        Ok(_) => exists|s: Result<Staged<UserPublic>, StoreError>| #[trigger]
            create_user_post(d, req, fresh, after_d, s) && passes_on(s, r),
    }
}

/// Creates a user, at a given second, with a given salt and given times.
pub fn create_user_with(
    auth: &mut AuthManager,
    store: &mut JsonStore,
    authorization: Option<&str>,
    req: CreateUserRequest,
    now: i64,
    fresh: Fresh,
) -> (r: Result<Staged<UserPublic>, ApiError>)
    ensures
        api_create_user_post(
            old(auth).sessions(),
            old(store).data(),
            header_text(authorization),
            req@,
            now,
            fresh@,
            final(auth).sessions(),
            final(store).data(),
            r,
        ),
        final(auth).ttl() == old(auth).ttl(),
        final(store).live() == old(store).live(),
        is_salt(fresh@.salt) ==> !is_failure(r),
        r is Ok && normal_level(req.level) != LEVEL_BASIC ==> login_error(
            final(store).data(),
            req.username@,
            req.passcode->0@,
        ) is None,
{
    let actor = require_user_manager(auth, authorization, now)?;
    if normalize_level(actor.level) == LEVEL_JUNIOR_ADMIN && is_admin_or_junior(req.level) {
        return Err(
            ApiError::new(FORBIDDEN, "junior admin cannot create admin or junior admin users"),
        );
    }
    let s = store.create_user_with(req, fresh);
    match s {
        Ok(staged) => Ok(staged),
        Err(e) => Err(ApiError::from(e)),
    }
}

/// Creates a user, now.
pub fn create_user(
    auth: &mut AuthManager,
    store: &mut JsonStore,
    authorization: Option<&str>,
    req: CreateUserRequest,
) -> (r: Result<Staged<UserPublic>, ApiError>)
    ensures
        exists|now: i64, fresh: FreshView|
            is_moment(now) && fresh.is_drawn() && #[trigger] api_create_user_post(
                old(auth).sessions(),
                old(store).data(),
                header_text(authorization),
                req@,
                now,
                fresh,
                final(auth).sessions(),
                final(store).data(),
                r,
            ),
        final(auth).ttl() == old(auth).ttl(),
        final(store).live() == old(store).live(),
        !is_failure(r),
        r is Ok && normal_level(req.level) != LEVEL_BASIC ==> login_error(
            final(store).data(),
            req.username@,
            req.passcode->0@,
        ) is None,
{
    let now = now_unix();
    let fresh = Fresh::draw();
    create_user_with(auth, store, authorization, req, now, fresh)
}

/// The caller who may update such a user in such a way, or the refusal: a junior
/// administrator neither touches administrators nor makes any.
pub open spec fn may_update_user(
    sessions: Map<Seq<char>, SessionView>,
    d: StoreDataView,
    authorization: Option<Seq<char>>,
    now: i64,
    name: Seq<char>,
    level: Option<i32>,
) -> Result<AuthUserView, ApiErrorView> {
    match user_manager(sessions, authorization, now) {
        Ok(actor) => if !is_junior(actor.level) {
            Ok(actor)
        } else if user_named(d, name) is Some && is_administrative(user_named(d, name)->0.level) {
            Err(forbidden("junior admin cannot modify admin or junior admin accounts"@))
        } else if level is Some && is_administrative(level->0) {
            Err(forbidden("junior admin cannot assign admin or junior admin roles"@))
        } else {
            Ok(actor)
        },
        Err(e) => Err(e),
    }
}

/// What a request to update a user is answered, and what it changes.
pub open spec fn api_update_user_post(
    sessions: Map<Seq<char>, SessionView>,
    d: StoreDataView,
    authorization: Option<Seq<char>>,
    name: Seq<char>,
    req: UpdateUserRequestView,
    now: i64,
    fresh: FreshView,
    after: Map<Seq<char>, SessionView>,
    after_d: StoreDataView,
    r: Result<Staged<UserPublic>, ApiError>,
) -> bool {
    &&& after == after_request(sessions, authorization, now)
    &&& match may_update_user(sessions, d, authorization, now, name, req.level) {
        Err(e) => {
            &&& r matches Err(x) && x@ == e
            &&& after_d == d
        },
        Ok(_) => exists|s: Result<Option<Staged<UserPublic>>, StoreError>| #[trigger]
            update_user_post(d, name, req, fresh, after_d, s) && passes_on_or(
                s,
                not_found("user not found"@),
                r,
            ),
    }
}

/// Updates a user, at a given second, with a given salt and given times.
pub fn update_user_with(
    auth: &mut AuthManager,
    store: &mut JsonStore,
    authorization: Option<&str>,
    username: &str,
    req: UpdateUserRequest,
    now: i64,
    fresh: Fresh,
) -> (r: Result<Staged<UserPublic>, ApiError>)
    ensures
        api_update_user_post(
            old(auth).sessions(),
            old(store).data(),
            header_text(authorization),
            username@,
            req@,
            now,
            fresh@,
            final(auth).sessions(),
            final(store).data(),
            r,
        ),
        final(auth).ttl() == old(auth).ttl(),
        final(store).live() == old(store).live(),
        is_salt(fresh@.salt) ==> !is_failure(r),
        r is Ok && sets_passcode(old(store).data(), username@, req@) ==> login_error(
            final(store).data(),
            username@,
            req.passcode->0@,
        ) is None,
{
    let actor = require_user_manager(auth, authorization, now)?;
    if normalize_level(actor.level) == LEVEL_JUNIOR_ADMIN {
        if let Some(existing) = store.get_user_record(username) {
            if is_admin_or_junior(existing.level) {
                return Err(
                    ApiError::new(
                        FORBIDDEN,
                        "junior admin cannot modify admin or junior admin accounts",
                    ),
                );
            }
        }
        if let Some(level) = req.level {
            if is_admin_or_junior(level) {
                return Err(
                    ApiError::new(
                        FORBIDDEN,
                        "junior admin cannot assign admin or junior admin roles",
                    ),
                );
            }
        }
    }
    let s = store.update_user_with(username, req, fresh);
    match s {
        Ok(Some(staged)) => Ok(staged),
        Ok(None) => Err(ApiError::new(NOT_FOUND, "user not found")),
        Err(e) => Err(ApiError::from(e)),
    }
}

/// Updates a user, now.
pub fn update_user(
    auth: &mut AuthManager,
    store: &mut JsonStore,
    authorization: Option<&str>,
    username: &str,
    req: UpdateUserRequest,
) -> (r: Result<Staged<UserPublic>, ApiError>)
    ensures
        exists|now: i64, fresh: FreshView|
            is_moment(now) && fresh.is_drawn() && #[trigger] api_update_user_post(
                old(auth).sessions(),
                old(store).data(),
                header_text(authorization),
                username@,
                req@,
                now,
                fresh,
                final(auth).sessions(),
                final(store).data(),
                r,
            ),
        final(auth).ttl() == old(auth).ttl(),
        final(store).live() == old(store).live(),
        !is_failure(r),
        r is Ok && sets_passcode(old(store).data(), username@, req@) ==> login_error(
            final(store).data(),
            username@,
            req.passcode->0@,
        ) is None,
{
    let now = now_unix();
    let fresh = Fresh::draw();
    update_user_with(auth, store, authorization, username, req, now, fresh)
}

// Reports.

/// Whether a user may see a report: an advanced user sees none about themselves.
pub open spec fn may_see(user: AuthUserView, report: ReportRecordView) -> bool {
    !(is_advanced(user.level) && same_ignoring_case(report.person, user.username))
}

/// The reports that a user may see.
pub open spec fn visible(user: AuthUserView, reports: Seq<ReportRecordView>) -> Seq<
    ReportRecordView,
> {
    reports.filter(|r: ReportRecordView| may_see(user, r))
}

/// What a request for all reports is answered: those that the caller may see, the
/// highest number first.
pub open spec fn list_reports_post(
    sessions: Map<Seq<char>, SessionView>,
    d: StoreDataView,
    authorization: Option<Seq<char>>,
    now: i64,
    after: Map<Seq<char>, SessionView>,
    r: Result<Vec<ReportRecord>, ApiError>,
) -> bool {
    &&& after == after_request(sessions, authorization, now)
    &&& match app_caller(sessions, authorization, now) {
        Err(e) => r matches Err(x) && x@ == e,
        Ok(user) => r matches Ok(reports) && exists|sorted: Seq<ReportRecordView>|
            #[trigger] is_stable_sort(d.reports, sorted, by_num_descending()) && report_views(
                reports@,
            ) == visible(user, sorted),
    }
}

/// The reports that a user may see, in their order.
fn keep_visible(reports: Vec<ReportRecord>, username: &str, level: i32) -> (r: Vec<ReportRecord>)
    ensures
        report_views(r@) == visible(
            AuthUserView { username: username@, level },
            report_views(reports@),
        ),
{
    let ghost user = AuthUserView { username: username@, level };
    let ghost keep = |r: ReportRecordView| may_see(user, r);
    let ghost views = report_views(reports@);
    let advanced = is_advanced_user(level);
    let mut kept: Vec<ReportRecord> = Vec::new();
    let mut i: usize = 0;
    proof {
        reveal(Seq::filter);
        assert(views.take(0).filter(keep) =~= Seq::<ReportRecordView>::empty());
        assert(report_views(kept@) =~= Seq::<ReportRecordView>::empty());
    }
    while i < reports.len()
        invariant
            i <= reports@.len(),
            views == report_views(reports@),
            user == (AuthUserView { username: username@, level }),
            keep == (|r: ReportRecordView| may_see(user, r)),
            advanced == is_advanced(level),
            report_views(kept@) == views.take(i as int).filter(keep),
        decreases reports@.len() - i,
    {
        let ghost before = kept@;
        proof {
            reveal(Seq::filter);
            assert(views.take(i + 1).drop_last() =~= views.take(i as int));
            assert(views.take(i + 1).last() == reports@[i as int]@);
        }
        if !(advanced && reports[i].person.as_str().eq_ignore_ascii_case(username)) {
            let report = reports[i].clone();
            kept.push(report);
            assert(report_views(kept@) =~= report_views(before).push(reports@[i as int]@));
        }
        i += 1;
    }
    assert(views.take(i as int) =~= views);
    kept
}

/// Lists the reports that the caller may see, at a given second.
pub fn list_reports_at(
    auth: &mut AuthManager,
    store: &JsonStore,
    authorization: Option<&str>,
    now: i64,
) -> (r: Result<Vec<ReportRecord>, ApiError>)
    ensures
        list_reports_post(
            old(auth).sessions(),
            store.data(),
            header_text(authorization),
            now,
            final(auth).sessions(),
            r,
        ),
        final(auth).ttl() == old(auth).ttl(),
{
    let actor = require_app_user(auth, authorization, now)?;
    let reports = store.list_reports();
    Ok(keep_visible(reports, actor.username.as_str(), actor.level))
}

/// Lists the reports that the caller may see, now.
pub fn list_reports(auth: &mut AuthManager, store: &JsonStore, authorization: Option<&str>) -> (r:
    Result<Vec<ReportRecord>, ApiError>)
    ensures
        exists|now: i64|
            is_moment(now) && #[trigger] list_reports_post(
                old(auth).sessions(),
                store.data(),
                header_text(authorization),
                now,
                final(auth).sessions(),
                r,
            ),
        final(auth).ttl() == old(auth).ttl(),
{
    let now = now_unix();
    list_reports_at(auth, store, authorization, now)
}

/// What a request for a report is answered.
pub open spec fn get_report_post(
    sessions: Map<Seq<char>, SessionView>,
    d: StoreDataView,
    authorization: Option<Seq<char>>,
    num: u32,
    now: i64,
    after: Map<Seq<char>, SessionView>,
    r: Result<ReportRecord, ApiError>,
) -> bool {
    &&& after == after_request(sessions, authorization, now)
    &&& match app_caller(sessions, authorization, now) {
        Err(e) => r matches Err(x) && x@ == e,
        Ok(user) => match report_numbered(d, num) {
            None => r matches Err(x) && x@ == not_found("report not found"@),
            Some(report) => if may_see(user, report) {
                r matches Ok(x) && x@ == report
            } else {
                r matches Err(x) && x@ == forbidden(
                    "advanced users cannot view reports about themselves"@,
                )
            },
        },
    }
}

/// Hands out a report, at a given second.
pub fn get_report_at(
    auth: &mut AuthManager,
    store: &JsonStore,
    authorization: Option<&str>,
    num: u32,
    now: i64,
) -> (r: Result<ReportRecord, ApiError>)
    ensures
        get_report_post(
            old(auth).sessions(),
            store.data(),
            header_text(authorization),
            num,
            now,
            final(auth).sessions(),
            r,
        ),
        final(auth).ttl() == old(auth).ttl(),
{
    let actor = require_app_user(auth, authorization, now)?;
    match store.get_report(num) {
        Some(report) => {
            if is_advanced_user(actor.level) && report.person.as_str().eq_ignore_ascii_case(
                actor.username.as_str(),
            ) {
                return Err(
                    ApiError::new(FORBIDDEN, "advanced users cannot view reports about themselves"),
                );
            }
            Ok(report)
        },
        None => Err(ApiError::new(NOT_FOUND, "report not found")),
    }
}

/// Hands out a report, now.
pub fn get_report(
    auth: &mut AuthManager,
    store: &JsonStore,
    authorization: Option<&str>,
    num: u32,
) -> (r: Result<ReportRecord, ApiError>)
    ensures
        exists|now: i64|
            is_moment(now) && #[trigger] get_report_post(
                old(auth).sessions(),
                store.data(),
                header_text(authorization),
                num,
                now,
                final(auth).sessions(),
                r,
            ),
        final(auth).ttl() == old(auth).ttl(),
{
    let now = now_unix();
    get_report_at(auth, store, authorization, num, now)
}

/// What a request to open a report is answered, and what it changes.
pub open spec fn api_create_report_post(
    sessions: Map<Seq<char>, SessionView>,
    d: StoreDataView,
    authorization: Option<Seq<char>>,
    req: CreateReportRequestView,
    now: i64,
    fresh: FreshView,
    after: Map<Seq<char>, SessionView>,
    after_d: StoreDataView,
    r: Result<Staged<ReportRecord>, ApiError>,
) -> bool {
    &&& after == after_request(sessions, authorization, now)
    &&& match app_caller(sessions, authorization, now) {
        Err(e) => {
            &&& r matches Err(x) && x@ == e
            &&& after_d == d
        },
        Ok(user) => exists|s: Result<Staged<ReportRecord>, StoreError>| #[trigger]
            create_report_post(d, user.username, user.level, req, fresh, after_d, s) && passes_on(
                s,
                r,
            ),
    }
}

/// Opens a report, at a given second, with given times.
pub fn create_report_with(
    auth: &mut AuthManager,
    store: &mut JsonStore,
    authorization: Option<&str>,
    req: CreateReportRequest,
    now: i64,
    fresh: Fresh,
) -> (r: Result<Staged<ReportRecord>, ApiError>)
    ensures
        api_create_report_post(
            old(auth).sessions(),
            old(store).data(),
            header_text(authorization),
            req@,
            now,
            fresh@,
            final(auth).sessions(),
            final(store).data(),
            r,
        ),
        final(auth).ttl() == old(auth).ttl(),
        final(store).live() == old(store).live(),
{
    let actor = require_app_user(auth, authorization, now)?;
    let ghost user = actor@;
    let s = store.create_report_with(actor.username.as_str(), actor.level, req, fresh);
    assert(create_report_post(
        old(store).data(),
        user.username,
        user.level,
        req@,
        fresh@,
        store.data(),
        s,
    ));
    match s {
        Ok(staged) => Ok(staged),
        Err(e) => Err(ApiError::from(e)),
    }
}

/// Opens a report, now.
pub fn create_report(
    auth: &mut AuthManager,
    store: &mut JsonStore,
    authorization: Option<&str>,
    req: CreateReportRequest,
) -> (r: Result<Staged<ReportRecord>, ApiError>)
    ensures
        exists|now: i64, fresh: FreshView|
            is_moment(now) && fresh.is_drawn() && #[trigger] api_create_report_post(
                old(auth).sessions(),
                old(store).data(),
                header_text(authorization),
                req@,
                now,
                fresh,
                final(auth).sessions(),
                final(store).data(),
                r,
            ),
        final(auth).ttl() == old(auth).ttl(),
        final(store).live() == old(store).live(),
{
    let now = now_unix();
    let fresh = Fresh::draw();
    create_report_with(auth, store, authorization, req, now, fresh)
}

/// What a request to update a report is answered, and what it changes.
pub open spec fn api_update_report_post(
    sessions: Map<Seq<char>, SessionView>,
    d: StoreDataView,
    authorization: Option<Seq<char>>,
    num: u32,
    req: UpdateReportRequestView,
    now: i64,
    fresh: FreshView,
    after: Map<Seq<char>, SessionView>,
    after_d: StoreDataView,
    r: Result<Staged<ReportRecord>, ApiError>,
) -> bool {
    &&& after == after_request(sessions, authorization, now)
    &&& match report_manager(sessions, authorization, now) {
        Err(e) => {
            &&& r matches Err(x) && x@ == e
            &&& after_d == d
        },
        Ok(user) => exists|s: Result<Option<Staged<ReportRecord>>, StoreError>| #[trigger]
            update_report_post(d, num, req, user.username, fresh, after_d, s) && passes_on_or(
                s,
                not_found("report not found"@),
                r,
            ),
    }
}

/// Updates a report, at a given second, with given times.
pub fn update_report_with(
    auth: &mut AuthManager,
    store: &mut JsonStore,
    authorization: Option<&str>,
    num: u32,
    req: UpdateReportRequest,
    now: i64,
    fresh: Fresh,
) -> (r: Result<Staged<ReportRecord>, ApiError>)
    ensures
        api_update_report_post(
            old(auth).sessions(),
            old(store).data(),
            header_text(authorization),
            num,
            req@,
            now,
            fresh@,
            final(auth).sessions(),
            final(store).data(),
            r,
        ),
        final(auth).ttl() == old(auth).ttl(),
        final(store).live() == old(store).live(),
{
    let actor = require_report_manager(auth, authorization, now)?;
    let ghost user = actor@;
    let s = store.update_report_with(num, req, actor.username.as_str(), fresh);
    assert(update_report_post(
        old(store).data(),
        num,
        req@,
        user.username,
        fresh@,
        store.data(),
        s,
    ));
    match s {
        Ok(Some(staged)) => Ok(staged),
        Ok(None) => Err(ApiError::new(NOT_FOUND, "report not found")),
        Err(e) => Err(ApiError::from(e)),
    }
}

/// Updates a report, now.
pub fn update_report(
    auth: &mut AuthManager,
    store: &mut JsonStore,
    authorization: Option<&str>,
    num: u32,
    req: UpdateReportRequest,
) -> (r: Result<Staged<ReportRecord>, ApiError>)
    ensures
        exists|now: i64, fresh: FreshView|
            is_moment(now) && fresh.is_drawn() && #[trigger] api_update_report_post(
                old(auth).sessions(),
                old(store).data(),
                header_text(authorization),
                num,
                req@,
                now,
                fresh,
                final(auth).sessions(),
                final(store).data(),
                r,
            ),
        final(auth).ttl() == old(auth).ttl(),
        final(store).live() == old(store).live(),
{
    let now = now_unix();
    let fresh = Fresh::draw();
    update_report_with(auth, store, authorization, num, req, now, fresh)
}

/// What a request to delete a report is answered, and what it changes.
pub open spec fn api_delete_report_post(
    sessions: Map<Seq<char>, SessionView>,
    d: StoreDataView,
    authorization: Option<Seq<char>>,
    num: u32,
    now: i64,
    live_at: Seq<char>,
    after: Map<Seq<char>, SessionView>,
    after_d: StoreDataView,
    r: Result<Staged<u16>, ApiError>,
) -> bool {
    &&& after == after_request(sessions, authorization, now)
    &&& match report_manager(sessions, authorization, now) {
        Err(e) => {
            &&& r matches Err(x) && x@ == e
            &&& after_d == d
        },
        Ok(_) => exists|s: Option<Staged<bool>>| #[trigger]
            delete_report_post(d, num, live_at, after_d, s) && match s {
                Some(deleted) => r matches Ok(x) && x.value == NO_CONTENT && x.live
                    == deleted.live,
                None => r matches Err(x) && x@ == not_found("report not found"@),
            },
    }
}

/// Deletes a report, at a given second; the snapshot has a given time.
pub fn delete_report_with(
    auth: &mut AuthManager,
    store: &mut JsonStore,
    authorization: Option<&str>,
    num: u32,
    now: i64,
    live_at: String,
) -> (r: Result<Staged<u16>, ApiError>)
    ensures
        api_delete_report_post(
            old(auth).sessions(),
            old(store).data(),
            header_text(authorization),
            num,
            now,
            live_at@,
            final(auth).sessions(),
            final(store).data(),
            r,
        ),
        final(auth).ttl() == old(auth).ttl(),
        final(store).live() == old(store).live(),
{
    let _ = require_report_manager(auth, authorization, now)?;
    let s = store.delete_report_with(num, live_at);
    match s {
        Some(deleted) => Ok(Staged { value: NO_CONTENT, live: deleted.live }),
        None => Err(ApiError::new(NOT_FOUND, "report not found")),
    }
}

/// Deletes a report, now.
pub fn delete_report(
    auth: &mut AuthManager,
    store: &mut JsonStore,
    authorization: Option<&str>,
    num: u32,
) -> (r: Result<Staged<u16>, ApiError>)
    ensures
        exists|now: i64, live_at: Seq<char>|
            is_moment(now) && is_instant_text(live_at) && #[trigger] api_delete_report_post(
                old(auth).sessions(),
                old(store).data(),
                header_text(authorization),
                num,
                now,
                live_at,
                final(auth).sessions(),
                final(store).data(),
                r,
            ),
        final(auth).ttl() == old(auth).ttl(),
        final(store).live() == old(store).live(),
{
    let now = now_unix();
    let live_at = now_rfc3339();
    delete_report_with(auth, store, authorization, num, now, live_at)
}

// Pins.

/// What a request for the pin assignment is answered.
pub open spec fn get_gpio_config_post(
    sessions: Map<Seq<char>, SessionView>,
    d: StoreDataView,
    authorization: Option<Seq<char>>,
    now: i64,
    after: Map<Seq<char>, SessionView>,
    r: Result<GpioConfig, ApiError>,
) -> bool {
    &&& after == after_request(sessions, authorization, now)
    &&& match user_manager(sessions, authorization, now) {
        Err(e) => r matches Err(x) && x@ == e,
        Ok(_) => r == Ok::<GpioConfig, ApiError>(d.gpio_config),
    }
}

/// Hands out the pin assignment, at a given second.
pub fn get_gpio_config_at(
    auth: &mut AuthManager,
    store: &JsonStore,
    authorization: Option<&str>,
    now: i64,
) -> (r: Result<GpioConfig, ApiError>)
    ensures
        get_gpio_config_post(
            old(auth).sessions(),
            store.data(),
            header_text(authorization),
            now,
            final(auth).sessions(),
            r,
        ),
        final(auth).ttl() == old(auth).ttl(),
{
    let _ = require_user_manager(auth, authorization, now)?;
    Ok(store.get_gpio_config())
}

/// Hands out the pin assignment, now.
pub fn get_gpio_config(
    auth: &mut AuthManager,
    store: &JsonStore,
    authorization: Option<&str>,
) -> (r: Result<GpioConfig, ApiError>)
    ensures
        exists|now: i64|
            is_moment(now) && #[trigger] get_gpio_config_post(
                old(auth).sessions(),
                store.data(),
                header_text(authorization),
                now,
                final(auth).sessions(),
                r,
            ),
        final(auth).ttl() == old(auth).ttl(),
{
    let now = now_unix();
    get_gpio_config_at(auth, store, authorization, now)
}

/// What a request to replace the pin assignment is answered, and what it changes.
pub open spec fn api_set_gpio_post(
    sessions: Map<Seq<char>, SessionView>,
    d: StoreDataView,
    authorization: Option<Seq<char>>,
    cfg: GpioConfig,
    now: i64,
    live_at: Seq<char>,
    after: Map<Seq<char>, SessionView>,
    after_d: StoreDataView,
    r: Result<Staged<GpioConfig>, ApiError>,
) -> bool {
    &&& after == after_request(sessions, authorization, now)
    &&& match user_manager(sessions, authorization, now) {
        Err(e) => {
            &&& r matches Err(x) && x@ == e
            &&& after_d == d
        },
        Ok(_) => exists|s: Result<Staged<GpioConfig>, StoreError>| #[trigger]
            set_gpio_post(d, cfg, live_at, after_d, s) && passes_on(s, r),
    }
}

/// Replaces the pin assignment, at a given second; the snapshot has a given time.
pub fn set_gpio_config_with(
    auth: &mut AuthManager,
    store: &mut JsonStore,
    authorization: Option<&str>,
    cfg: GpioConfig,
    now: i64,
    live_at: String,
) -> (r: Result<Staged<GpioConfig>, ApiError>)
    ensures
        api_set_gpio_post(
            old(auth).sessions(),
            old(store).data(),
            header_text(authorization),
            cfg,
            now,
            live_at@,
            final(auth).sessions(),
            final(store).data(),
            r,
        ),
        final(auth).ttl() == old(auth).ttl(),
        final(store).live() == old(store).live(),
{
    let _ = require_user_manager(auth, authorization, now)?;
    let s = store.set_gpio_config_with(cfg, live_at);
    match s {
        Ok(staged) => Ok(staged),
        Err(e) => Err(ApiError::from(e)),
    }
}

/// Replaces the pin assignment, now.
pub fn set_gpio_config(
    auth: &mut AuthManager,
    store: &mut JsonStore,
    authorization: Option<&str>,
    cfg: GpioConfig,
) -> (r: Result<Staged<GpioConfig>, ApiError>)
    ensures
        exists|now: i64, live_at: Seq<char>|
            is_moment(now) && is_instant_text(live_at) && #[trigger] api_set_gpio_post(
                old(auth).sessions(),
                old(store).data(),
                header_text(authorization),
                cfg,
                now,
                live_at,
                final(auth).sessions(),
                final(store).data(),
                r,
            ),
        final(auth).ttl() == old(auth).ttl(),
        final(store).live() == old(store).live(),
{
    let now = now_unix();
    let live_at = now_rfc3339();
    set_gpio_config_with(auth, store, authorization, cfg, now, live_at)
}

// Updates.

/// Why a request to an update endpoint is refused: there is no admin token, none
/// was sent, or another one was.
pub open spec fn admin_error(
    admin_token: Option<Seq<char>>,
    header: Option<Seq<char>>,
) -> Option<ApiErrorView> {
    match admin_token {
        None => Some(
            ApiErrorView {
                status: SERVICE_UNAVAILABLE,
                message:
                    "admin token not configured; set CAP_CDTS_ADMIN_TOKEN to enable update endpoints"@,
            },
        ),
        Some(required) => if header_trimmed(header).len() == 0 {
            Some(ApiErrorView { status: UNAUTHORIZED, message: "missing X-Admin-Token header"@ })
        } else if header_trimmed(header) != required {
            Some(forbidden("invalid admin token"@))
        } else {
            None
        },
    }
}

/// Refuses a request to an update endpoint that does not carry the admin token.
pub fn require_admin(admin_token: &Option<String>, header: Option<&str>) -> (r: Result<
    (),
    ApiError,
>)
    ensures
        match admin_error(opt_text(*admin_token), header_text(header)) {
            Some(e) => r matches Err(x) && x@ == e,
            None => r is Ok,
        },
{
    match admin_token {
        None => Err(
            ApiError::new(
                SERVICE_UNAVAILABLE,
                "admin token not configured; set CAP_CDTS_ADMIN_TOKEN to enable update endpoints",
            ),
        ),
        Some(required) => {
            let provided = trim_header(header);
            if provided.is_empty() {
                return Err(ApiError::new(UNAUTHORIZED, "missing X-Admin-Token header"));
            }
            if !is_same_text(provided, required.as_str()) {
                return Err(ApiError::new(FORBIDDEN, "invalid admin token"));
            }
            Ok(())
        },
    }
}

/// Hands out the status of the updater, given the path of the current executable.
pub fn get_update_status(
    admin_token: &Option<String>,
    header: Option<&str>,
    updater: &Updater,
    executable: Option<String>,
) -> (r: Result<UpdateStatusResponse, ApiError>)
    ensures
        match admin_error(opt_text(*admin_token), header_text(header)) {
            Some(e) => r matches Err(x) && x@ == e,
            None => r matches Ok(x) && x@ == updater@.response(opt_text(executable)),
        },
{
    require_admin(admin_token, header)?;
    Ok(updater.status(executable))
}

/// What is sent where a run does not start.
pub open spec fn start_refusal(e: StartUpdateError) -> ApiErrorView {
    match e {
        StartUpdateError::Disabled => ApiErrorView {
            status: SERVICE_UNAVAILABLE,
            message:
                "update feature is disabled (check CAP_CDTS_UPDATE_ENABLED and CAP_CDTS_ADMIN_TOKEN)"@,
        },
        StartUpdateError::AlreadyRunning => ApiErrorView {
            status: CONFLICT,
            message: "an update is already running"@,
        },
    }
}

/// What a request to start a run is answered, and what it changes: a run that
/// starts is answered with the status, given the path of the current executable.
pub open spec fn start_update_post(
    admin_token: Option<Seq<char>>,
    header: Option<Seq<char>>,
    u: UpdaterView,
    executable: Option<Seq<char>>,
    now: Seq<char>,
    after: UpdaterView,
    r: Result<UpdateStatusResponse, ApiError>,
) -> bool {
    match admin_error(admin_token, header) {
        Some(e) => {
            &&& r matches Err(x) && x@ == e
            &&& after == u
        },
        None => match start_error(u) {
            Some(e) => {
                &&& r matches Err(x) && x@ == start_refusal(e)
                &&& after == u
            },
            None => {
                &&& r matches Ok(x) && x@ == after.response(executable)
                &&& after == started(u, now)
            },
        },
    }
}

/// Starts a run at a given time.
pub fn start_update_with(
    admin_token: &Option<String>,
    header: Option<&str>,
    updater: &mut Updater,
    executable: Option<String>,
    now: String,
) -> (r: Result<UpdateStatusResponse, ApiError>)
    ensures
        start_update_post(
            opt_text(*admin_token),
            header_text(header),
            old(updater)@,
            opt_text(executable),
            now@,
            final(updater)@,
            r,
        ),
{
    require_admin(admin_token, header)?;
    match updater.start_with(now) {
        Ok(_) => Ok(updater.status(executable)),
        Err(StartUpdateError::Disabled) => Err(
            ApiError::new(
                SERVICE_UNAVAILABLE,
                "update feature is disabled (check CAP_CDTS_UPDATE_ENABLED and CAP_CDTS_ADMIN_TOKEN)",
            ),
        ),
        Err(StartUpdateError::AlreadyRunning) => Err(
            ApiError::new(CONFLICT, "an update is already running"),
        ),
    }
}

/// Starts a run, now.
pub fn start_update(
    admin_token: &Option<String>,
    header: Option<&str>,
    updater: &mut Updater,
    executable: Option<String>,
) -> (r: Result<UpdateStatusResponse, ApiError>)
    ensures
        exists|now: Seq<char>|
            is_instant_text(now) && #[trigger] start_update_post(
                opt_text(*admin_token),
                header_text(header),
                old(updater)@,
                opt_text(executable),
                now,
                final(updater)@,
                r,
            ),
{
    start_update_with(admin_token, header, updater, executable, now_rfc3339())
}

} // verus!
