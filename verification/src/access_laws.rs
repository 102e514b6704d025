//! Laws of access: who gets a session, who makes a request, and what each request
//! is answered, in terms of the request.

use vstd::prelude::*;

use crate::api::{
    after_request, app_caller, bearer, caller, header_trimmed, is_moment, login_refusal,
    report_manager, require_user_post, store_refusal, user_manager, ApiError, ApiErrorView,
};
use crate::auth::{
    after_authenticate, after_logout, is_token, login_error, login_post, session_user, AuthError,
    AuthErrorKind, AuthErrorView, AuthUser, AuthUserView, SessionView,
};
use crate::clock::{rfc3339_at, FIRST_RFC3339_SECOND, FIRST_SECOND, LAST_SECOND};
use crate::endpoints::{
    admin_error, api_create_report_post, api_create_user_post, api_delete_report_post,
    api_set_gpio_post, api_update_report_post, api_update_user_post, auth_login_post,
    auth_logout_post, auth_me_post, finish_post, get_gpio_config_post, get_report_post,
    list_reports_post, list_users_post, may_see, start_update_post, visible,
};
use crate::fresh::FreshView;
use crate::models::{
    report_views, CreateReportRequestView, CreateUserRequestView, GpioConfig, LiveStateView,
    LoginRequestView, LoginResponse, LoginResponseView, MeResponse, ReportRecord,
    ReportRecordView, StoreDataView, UpdateReportRequestView, UpdateUserRequestView, UserPublic,
    UserRecordView,
};
use crate::order::is_stable_sort;
use crate::passcode::{argon2_accepts, has_long_lane_count, is_phc_string};
use crate::store::{
    by_name, by_num_descending, create_report_post, create_user_post, delete_report_post,
    public_views, report_numbered, set_gpio_post, update_report_post, update_user_post,
    user_named, Staged, StoreError, StoreErrorKind, StoreErrorView,
};
use crate::store_laws::{lemma_filter_keeps, lemma_how_reports_are_listed};
use crate::text::{hex, lemma_trimmed_twice, same_ignoring_case, trimmed};
use crate::update::{UpdateState, UpdateStatusResponse, UpdaterView};

verus! {

// Tokens.

/// Tokens are what thirty-two bytes look like in hexadecimal: sixty-four of the
/// digits `0` to `9` and `a` to `f`; different bytes have different tokens.
pub proof fn lemma_what_tokens_look_like(token: Seq<char>, a: Seq<u8>, b: Seq<u8>)
    ensures
        is_token(token) ==> token.len() == 64 && forall|i: int|
            0 <= i < 64 ==> ('0' <= #[trigger] token[i] <= '9' || 'a' <= token[i] <= 'f'),
        a.len() == 32 ==> is_token(hex(a)),
        a.len() == 32 && b.len() == 32 && hex(a) == hex(b) ==> a == b,
{
    crate::text::lemma_hex_injective(a, b);
    if is_token(token) {
        let bytes = choose|bytes: Seq<u8>| bytes.len() == 32 && token == #[trigger] hex(bytes);
        crate::basics_laws::lemma_hex_reads_back(bytes);
    }
}

// Logins.

/// A login succeeds exactly where a name and a passcode are given, a user has the
/// name and is not basic, and the hash of their passcode parses and takes the one
/// that is given.
pub proof fn lemma_when_a_login_succeeds(
    d: StoreDataView,
    username: Seq<char>,
    passcode: Seq<char>,
)
    ensures
        login_error(d, username, passcode) is None <==> {
            &&& trimmed(username).len() > 0
            &&& trimmed(passcode).len() > 0
            &&& user_named(d, username) is Some
            &&& 0 <= user_named(d, username)->0.level <= 4
            &&& user_named(d, username)->0.passcode_hash is Some
            &&& is_phc_string(user_named(d, username)->0.passcode_hash->0)
            &&& !has_long_lane_count(user_named(d, username)->0.passcode_hash->0)
            &&& argon2_accepts(user_named(d, username)->0.passcode_hash->0, trimmed(passcode))
        },
{
}

/// A login is refused in these words.
pub open spec fn refuses_login(
    e: Option<AuthErrorView>,
    kind: AuthErrorKind,
    message: Seq<char>,
) -> bool {
    e is Some && e->0.kind == kind && e->0.message == message
}

/// How a login is refused: a missing name, a missing passcode, an unknown name, a
/// basic user, a user without passcode, a hash that does not parse, and a wrong
/// passcode.
pub proof fn lemma_how_a_login_is_refused(
    d: StoreDataView,
    username: Seq<char>,
    passcode: Seq<char>,
)
    ensures
        ({
            let e = login_error(d, username, passcode);
            let asked = trimmed(username).len() > 0 && trimmed(passcode).len() > 0;
            let u = user_named(d, username)->0;
            let known = asked && user_named(d, username) is Some;
            &&& trimmed(username).len() == 0 ==> refuses_login(
                e,
                AuthErrorKind::BadRequest,
                "username is required"@,
            )
            &&& trimmed(username).len() > 0 && trimmed(passcode).len() == 0 ==> refuses_login(
                e,
                AuthErrorKind::BadRequest,
                "passcode is required"@,
            )
            &&& asked && user_named(d, username) is None ==> refuses_login(
                e,
                AuthErrorKind::Unauthorized,
                "invalid username or passcode"@,
            )
            &&& known && !(0 <= u.level <= 4) ==> refuses_login(
                e,
                AuthErrorKind::Forbidden,
                "basic users cannot log in"@,
            )
            &&& known && 0 <= u.level <= 4 && u.passcode_hash is None ==> refuses_login(
                e,
                AuthErrorKind::Unauthorized,
                "invalid username or passcode"@,
            )
            &&& known && 0 <= u.level <= 4 && u.passcode_hash is Some && !is_phc_string(
                u.passcode_hash->0,
            ) ==> refuses_login(
                e,
                AuthErrorKind::Internal,
                "failed to verify passcode: "@ + "parse passcode hash"@,
            )
            &&& known && 0 <= u.level <= 4 && u.passcode_hash is Some && is_phc_string(
                u.passcode_hash->0,
            ) && (has_long_lane_count(u.passcode_hash->0) || !argon2_accepts(
                u.passcode_hash->0,
                trimmed(passcode),
            )) ==> refuses_login(
                e,
                AuthErrorKind::Unauthorized,
                "invalid username or passcode"@,
            )
        }),
{
}

/// The sessions after a login of a user: one more, under the token, for the user
/// with their level, which ends when the lifetime is over; no other is touched.
pub open spec fn opens_session(
    sessions: Map<Seq<char>, SessionView>,
    u: UserRecordView,
    token: Seq<char>,
    end: int,
    after: Map<Seq<char>, SessionView>,
    answer: LoginResponseView,
) -> bool {
    let level = if u.level == 0 {
        3i32
    } else {
        u.level
    };
    let text = if FIRST_RFC3339_SECOND <= end <= LAST_SECOND {
        rfc3339_at(end * 1_000_000_000)
    } else {
        "1970-01-01T00:00:00Z"@
    };
    &&& after.contains_key(token)
    &&& after.remove(token) == sessions.remove(token)
    &&& after[token].user.username == u.username
    &&& after[token].user.level == level
    &&& after[token].expires_at_unix == end
    &&& after[token].expires_at_utc == text
    &&& answer.token == token
    &&& answer.user.username == u.username
    &&& answer.user.rfid_uid == u.rfid_uid
    &&& answer.user.level == level
    &&& answer.expires_at_utc == text
}

/// What a login opens, and what it is answered; a refusal opens nothing.
pub proof fn lemma_what_a_login_opens(
    sessions: Map<Seq<char>, SessionView>,
    ttl_secs: i64,
    d: StoreDataView,
    username: Seq<char>,
    passcode: Seq<char>,
    token: Seq<char>,
    now: i64,
    after: Map<Seq<char>, SessionView>,
    r: Result<LoginResponse, AuthError>,
)
    requires
        login_post(sessions, ttl_secs, d, username, passcode, token, now, after, r),
        login_error(d, username, passcode) is None ==> i64::MIN <= now + ttl_secs <= i64::MAX,
    ensures
        r is Ok <==> login_error(d, username, passcode) is None,
        r is Err ==> after == sessions && Some(r->Err_0@) == login_error(d, username, passcode),
        r is Ok ==> opens_session(
            sessions,
            user_named(d, username)->0,
            token,
            now + ttl_secs,
            after,
            r->Ok_0@,
        ),
{
    if r is Ok {
        assert(after.remove(token) =~= sessions.remove(token));
        lemma_when_a_login_succeeds(d, username, passcode);
    }
}

// Sessions.

/// A token stands for the user of its session, white space around it aside, before
/// the second at which the session ends, and for nobody else and at no other time.
pub proof fn lemma_whom_a_token_stands_for(
    sessions: Map<Seq<char>, SessionView>,
    token: Seq<char>,
    now: i64,
)
    ensures
        session_user(sessions, token, now) is Some <==> {
            &&& trimmed(token).len() > 0
            &&& sessions.contains_key(trimmed(token))
            &&& now < sessions[trimmed(token)].expires_at_unix
        },
        session_user(sessions, token, now) is Some ==> session_user(sessions, token, now)->0
            == sessions[trimmed(token)].user,
{
}

/// Showing a token drops its session where that has ended, and does nothing else;
/// logging it out drops its session, and does nothing else.
pub proof fn lemma_what_drops_a_session(
    sessions: Map<Seq<char>, SessionView>,
    token: Seq<char>,
    now: i64,
    other: Seq<char>,
)
    ensures
        other != trimmed(token) ==> {
            &&& after_authenticate(sessions, token, now).contains_key(other)
                == sessions.contains_key(other)
            &&& after_authenticate(sessions, token, now)[other] == sessions[other]
            &&& after_logout(sessions, token).contains_key(other) == sessions.contains_key(other)
            &&& after_logout(sessions, token)[other] == sessions[other]
        },
        trimmed(token).len() > 0 ==> {
            &&& !after_logout(sessions, token).contains_key(trimmed(token))
            &&& after_authenticate(sessions, token, now).contains_key(trimmed(token)) <==> (
            sessions.contains_key(trimmed(token)) && now
                < sessions[trimmed(token)].expires_at_unix)
            &&& after_authenticate(sessions, token, now).contains_key(trimmed(token))
                ==> after_authenticate(sessions, token, now)[trimmed(token)]
                == sessions[trimmed(token)]
        },
        trimmed(token).len() == 0 ==> after_authenticate(sessions, token, now) == sessions
            && after_logout(sessions, token) == sessions,
{
}

// Callers.

/// A refusal with this status and these words.
pub open spec fn says(e: ApiErrorView, status: int, message: Seq<char>) -> bool {
    e.status == status && e.message == message
}

/// A request is refused with this status and these words.
pub open spec fn answers<T>(r: Result<T, ApiError>, status: int, message: Seq<char>) -> bool {
    r is Err && r->Err_0@.status == status && r->Err_0@.message == message
}

/// Who makes a request: nobody without a token, nobody with a token that stands for
/// nobody, else the user of the session.
pub proof fn lemma_who_makes_a_request(
    sessions: Map<Seq<char>, SessionView>,
    authorization: Option<Seq<char>>,
    now: i64,
)
    ensures
        ({
            let c = caller(sessions, authorization, now);
            let token = bearer(authorization)->0;
            &&& bearer(authorization) is None ==> c is Err && says(
                c->Err_0,
                401,
                "missing Authorization: Bearer token"@,
            ) && after_request(sessions, authorization, now) == sessions
            &&& bearer(authorization) is Some ==> {
                let live = sessions.contains_key(token) && now < sessions[token].expires_at_unix;
                &&& live ==> c == Ok::<AuthUserView, ApiErrorView>(sessions[token].user)
                &&& !live ==> c is Err && says(c->Err_0, 401, "invalid or expired session"@)
                &&& live ==> after_request(sessions, authorization, now) == sessions
                &&& !live ==> after_request(sessions, authorization, now) =~= sessions.remove(token)
            }
        }),
{
    if bearer(authorization) is Some {
        let token = bearer(authorization)->0;
        assert(trimmed(token) == token && token.len() > 0) by {
            reveal_strlit("Bearer ");
            lemma_trimmed_twice(
                header_trimmed(authorization).skip("Bearer "@.len() as int),
            );
        }
    }
}

/// Asking who makes a request names the user of the session that the token stands
/// for, and refuses where there is none; a session that has ended is dropped. The
/// moments are the seconds that the clock can show.
pub proof fn lemma_what_asking_for_the_caller_does(
    sessions: Map<Seq<char>, SessionView>,
    authorization: Option<Seq<char>>,
    now: i64,
    after: Map<Seq<char>, SessionView>,
    r: Result<AuthUser, ApiError>,
)
    requires
        require_user_post(sessions, authorization, now, after, r),
    ensures
        bearer(authorization) is None ==> after == sessions && answers(
            r,
            401,
            "missing Authorization: Bearer token"@,
        ),
        bearer(authorization) matches Some(token) ==> {
            let live = sessions.contains_key(token) && now < sessions[token].expires_at_unix;
            &&& live ==> after == sessions && r is Ok && r->Ok_0@ == sessions[token].user
            &&& !live ==> after =~= sessions.remove(token) && answers(
                r,
                401,
                "invalid or expired session"@,
            )
        },
        is_moment(now) <==> FIRST_SECOND <= now <= LAST_SECOND,
{
    lemma_who_makes_a_request(sessions, authorization, now);
}

/// Who passes: users of the application are callers above basic; managers of users
/// and of reports are administrators, junior or not. All others are forbidden.
pub proof fn lemma_who_passes(
    sessions: Map<Seq<char>, SessionView>,
    authorization: Option<Seq<char>>,
    now: i64,
)
    ensures
        ({
            let c = caller(sessions, authorization, now);
            let app = app_caller(sessions, authorization, now);
            let users = user_manager(sessions, authorization, now);
            let reports = report_manager(sessions, authorization, now);
            &&& c is Err ==> app == c && users == c && reports == c
            &&& c is Ok && 0 <= c->Ok_0.level <= 4 ==> app == c
            &&& c is Ok && !(0 <= c->Ok_0.level <= 4) ==> app is Err && says(
                app->Err_0,
                403,
                "not permitted"@,
            )
            &&& c is Ok && (c->Ok_0.level == 1 || c->Ok_0.level == 2) ==> users == c && reports == c
            &&& c is Ok && c->Ok_0.level != 1 && c->Ok_0.level != 2 ==> users is Err && says(
                users->Err_0,
                403,
                "insufficient role"@,
            ) && reports is Err && says(reports->Err_0, 403, "insufficient role"@)
        }),
{
}

/// The status codes of refusals.
pub proof fn lemma_status_codes(e: StoreErrorView, a: AuthErrorView)
    ensures
        store_refusal(e).message == e.message,
        e.kind == StoreErrorKind::BadRequest ==> store_refusal(e).status == 400,
        e.kind == StoreErrorKind::Conflict ==> store_refusal(e).status == 409,
        e.kind == StoreErrorKind::Internal ==> store_refusal(e).status == 500,
        login_refusal(a).message == a.message,
        a.kind == AuthErrorKind::BadRequest ==> login_refusal(a).status == 400,
        a.kind == AuthErrorKind::Unauthorized ==> login_refusal(a).status == 401,
        a.kind == AuthErrorKind::Forbidden ==> login_refusal(a).status == 403,
        a.kind == AuthErrorKind::Internal ==> login_refusal(a).status == 500,
{
}

// Answers.

/// The status code of a refusal of the store.
pub open spec fn code_of(kind: StoreErrorKind) -> int {
    match kind {
        StoreErrorKind::BadRequest => 400,
        StoreErrorKind::Conflict => 409,
        StoreErrorKind::Internal => 500,
    }
}

/// The answer of the store is handed on: a value as it is, a refusal with its code
/// and its words.
pub open spec fn hands_on<T>(s: Result<T, StoreError>, r: Result<T, ApiError>) -> bool {
    &&& s is Ok ==> r is Ok && r->Ok_0 == s->Ok_0
    &&& s is Err ==> answers(r, code_of(s->Err_0@.kind), s->Err_0@.message)
}

/// The answer of the store is handed on, where the store may not find what was
/// asked for.
pub open spec fn hands_on_or<T>(
    s: Result<Option<T>, StoreError>,
    missing: Seq<char>,
    r: Result<T, ApiError>,
) -> bool {
    &&& s is Ok && s->Ok_0 is Some ==> r is Ok && r->Ok_0 == s->Ok_0->0
    &&& s is Ok && s->Ok_0 is None ==> answers(r, 404, missing)
    &&& s is Err ==> answers(r, code_of(s->Err_0@.kind), s->Err_0@.message)
}

/// A caller who is not known is answered so.
pub open spec fn turned_away<T>(
    sessions: Map<Seq<char>, SessionView>,
    authorization: Option<Seq<char>>,
    now: i64,
    r: Result<T, ApiError>,
) -> bool {
    caller(sessions, authorization, now) is Err ==> r is Err && r->Err_0@ == caller(
        sessions,
        authorization,
        now,
    )->Err_0
}

/// A login request is answered with the session that it opens, or with the refusal
/// and its status code.
pub proof fn lemma_how_a_login_request_is_answered(
    sessions: Map<Seq<char>, SessionView>,
    ttl_secs: i64,
    d: StoreDataView,
    req: LoginRequestView,
    token: Seq<char>,
    now: i64,
    after: Map<Seq<char>, SessionView>,
    r: Result<LoginResponse, ApiError>,
)
    requires
        auth_login_post(sessions, ttl_secs, d, req, token, now, after, r),
        login_error(d, req.username, req.passcode) is None ==> i64::MIN <= now + ttl_secs
            <= i64::MAX,
    ensures
        ({
            let e = login_error(d, req.username, req.passcode);
            &&& e is Some ==> after == sessions && r is Err && r->Err_0@.message == e->0.message
            &&& e is Some && e->0.kind == AuthErrorKind::BadRequest ==> r->Err_0@.status == 400
            &&& e is Some && e->0.kind == AuthErrorKind::Unauthorized ==> r->Err_0@.status == 401
            &&& e is Some && e->0.kind == AuthErrorKind::Forbidden ==> r->Err_0@.status == 403
            &&& e is Some && e->0.kind == AuthErrorKind::Internal ==> r->Err_0@.status == 500
            &&& e is None ==> r is Ok && opens_session(
                sessions,
                user_named(d, req.username)->0,
                token,
                now + ttl_secs,
                after,
                r->Ok_0@,
            )
        }),
{
    if login_error(d, req.username, req.passcode) is None {
        lemma_when_a_login_succeeds(d, req.username, req.passcode);
        assert(after.remove(token) =~= sessions.remove(token));
    }
}

/// Callers are told their stored name, identifier and level, or that they are gone.
pub proof fn lemma_who_callers_are_told_they_are(
    sessions: Map<Seq<char>, SessionView>,
    d: StoreDataView,
    authorization: Option<Seq<char>>,
    now: i64,
    after: Map<Seq<char>, SessionView>,
    r: Result<MeResponse, ApiError>,
)
    requires
        auth_me_post(sessions, d, authorization, now, after, r),
    ensures
        turned_away(sessions, authorization, now, r),
        caller(sessions, authorization, now) matches Ok(user) ==> {
            &&& user_named(d, user.username) matches Some(u) ==> r is Ok
                && r->Ok_0@.user.username == u.username && r->Ok_0@.user.rfid_uid == u.rfid_uid
                && r->Ok_0@.user.level == u.level
            &&& user_named(d, user.username) is None ==> answers(
                r,
                401,
                "session user no longer exists"@,
            )
        },
        after == after_request(sessions, authorization, now),
{
}

/// Everybody above basic gets the list of all users.
pub proof fn lemma_who_gets_the_users(
    sessions: Map<Seq<char>, SessionView>,
    d: StoreDataView,
    authorization: Option<Seq<char>>,
    now: i64,
    after: Map<Seq<char>, SessionView>,
    r: Result<Vec<UserPublic>, ApiError>,
)
    requires
        list_users_post(sessions, d, authorization, now, after, r),
    ensures
        turned_away(sessions, authorization, now, r),
        caller(sessions, authorization, now) matches Ok(user) ==> {
            &&& !(0 <= user.level <= 4) ==> answers(r, 403, "not permitted"@)
            &&& 0 <= user.level <= 4 ==> r is Ok && is_stable_sort(
                public_views(d.users),
                r->Ok_0@.map_values(|u: UserPublic| u@),
                by_name(),
            )
        },
        after == after_request(sessions, authorization, now),
{
}

/// Who may create which users: administrators all, junior administrators all but
/// administrators; everybody else is refused, and a refusal changes nothing.
pub proof fn lemma_who_may_create_users(
    sessions: Map<Seq<char>, SessionView>,
    d: StoreDataView,
    authorization: Option<Seq<char>>,
    req: CreateUserRequestView,
    now: i64,
    fresh: FreshView,
    after: Map<Seq<char>, SessionView>,
    after_d: StoreDataView,
    r: Result<Staged<UserPublic>, ApiError>,
)
    requires
        api_create_user_post(sessions, d, authorization, req, now, fresh, after, after_d, r),
    ensures
        turned_away(sessions, authorization, now, r),
        caller(sessions, authorization, now) is Err ==> after_d == d,
        caller(sessions, authorization, now) matches Ok(actor) ==> {
            let high = req.level == 1 || req.level == 2;
            &&& actor.level != 1 && actor.level != 2 ==> after_d == d && answers(
                r,
                403,
                "insufficient role"@,
            )
            &&& actor.level == 2 && high ==> after_d == d && answers(
                r,
                403,
                "junior admin cannot create admin or junior admin users"@,
            )
            &&& actor.level == 1 || (actor.level == 2 && !high) ==> exists|
                s: Result<Staged<UserPublic>, StoreError>,
            | #[trigger]
                create_user_post(d, req, fresh, after_d, s) && hands_on(s, r)
        },
        after == after_request(sessions, authorization, now),
{
}

/// Who may update which users in which way: administrators all, junior
/// administrators neither administrators nor to administrators; everybody else is
/// refused, and a refusal for want of a role changes nothing.
pub proof fn lemma_who_may_update_users(
    sessions: Map<Seq<char>, SessionView>,
    d: StoreDataView,
    authorization: Option<Seq<char>>,
    name: Seq<char>,
    req: UpdateUserRequestView,
    now: i64,
    fresh: FreshView,
    after: Map<Seq<char>, SessionView>,
    after_d: StoreDataView,
    r: Result<Staged<UserPublic>, ApiError>,
)
    requires
        api_update_user_post(
            sessions,
            d,
            authorization,
            name,
            req,
            now,
            fresh,
            after,
            after_d,
            r,
        ),
    ensures
        turned_away(sessions, authorization, now, r),
        caller(sessions, authorization, now) is Err ==> after_d == d,
        caller(sessions, authorization, now) matches Ok(actor) ==> {
            let target = user_named(d, name);
            let is_high = target is Some && (target->0.level == 1 || target->0.level == 2);
            let makes_high = req.level is Some && (req.level->0 == 1 || req.level->0 == 2);
            &&& actor.level != 1 && actor.level != 2 ==> after_d == d && answers(
                r,
                403,
                "insufficient role"@,
            )
            &&& actor.level == 2 && is_high ==> after_d == d && answers(
                r,
                403,
                "junior admin cannot modify admin or junior admin accounts"@,
            )
            &&& actor.level == 2 && !is_high && makes_high ==> after_d == d && answers(
                r,
                403,
                "junior admin cannot assign admin or junior admin roles"@,
            )
            &&& actor.level == 1 || (actor.level == 2 && !is_high && !makes_high) ==> exists|
                s: Result<Option<Staged<UserPublic>>, StoreError>,
            | #[trigger]
                update_user_post(d, name, req, fresh, after_d, s) && hands_on_or(
                    s,
                    "user not found"@,
                    r,
                )
        },
        after == after_request(sessions, authorization, now),
{
}

proof fn lemma_filter_of_multiset<T>(s: Seq<T>, keep: spec_fn(T) -> bool)
    ensures
        s.filter(keep).to_multiset() == s.to_multiset().filter(keep),
    decreases s.len(),
{
    reveal(Seq::filter);
    broadcast use vstd::seq_lib::group_to_multiset_ensures;

    if s.len() > 0 {
        let init = s.drop_last();
        lemma_filter_of_multiset(init, keep);
        assert(init.push(s.last()) =~= s);
        assert(s.to_multiset() == init.to_multiset().insert(s.last()));
        assert(s.filter(keep).to_multiset() =~= s.to_multiset().filter(keep));
    } else {
        assert(s.filter(keep).to_multiset() =~= s.to_multiset().filter(keep));
    }
}

proof fn lemma_filter_keeps_descent(
    s: Seq<ReportRecordView>,
    keep: spec_fn(ReportRecordView) -> bool,
)
    requires
        forall|i: int, j: int|
            0 <= i < j < s.len() ==> (#[trigger] s[i]).num >= (#[trigger] s[j]).num,
    ensures
        forall|i: int, j: int|
            0 <= i < j < s.filter(keep).len() ==> (#[trigger] s.filter(keep)[i]).num >= (
            #[trigger] s.filter(keep)[j]).num,
        forall|i: int|
            0 <= i < s.filter(keep).len() ==> s.contains(#[trigger] s.filter(keep)[i]),
    decreases s.len(),
{
    reveal(Seq::filter);
    if s.len() > 0 {
        let init = s.drop_last();
        assert forall|i: int, j: int| 0 <= i < j < init.len() implies (#[trigger] init[i]).num >= (
        #[trigger] init[j]).num by {
            assert(s[i].num >= s[j].num);
        }
        lemma_filter_keeps_descent(init, keep);
        let (a, b) = (init.filter(keep), s.filter(keep));
        assert(b == if keep(s.last()) {
            a.push(s.last())
        } else {
            a
        });
        assert forall|i: int| 0 <= i < b.len() implies s.contains(#[trigger] b[i]) by {
            if i < a.len() {
                assert(init.contains(a[i]));
                let k = choose|k: int| 0 <= k < init.len() && init[k] == a[i];
                assert(s[k] == b[i]);
            } else {
                assert(s[s.len() - 1] == b[i]);
            }
        }
        assert forall|i: int, j: int| 0 <= i < j < b.len() implies (#[trigger] b[i]).num >= (
        #[trigger] b[j]).num by {
            if j == a.len() {
                assert(init.contains(a[i]));
                let k = choose|k: int| 0 <= k < init.len() && init[k] == a[i];
                assert(s[k].num >= s[s.len() - 1].num);
            }
        }
    }
}

/// A report is about a user: it names them, up to ASCII case.
pub open spec fn is_about(report: ReportRecordView, user: AuthUserView) -> bool {
    same_ignoring_case(report.person, user.username)
}

/// Everybody above basic gets a list of reports. It holds every report of the
/// store as often as the store does, the highest number first; only an advanced
/// user's list leaves reports out, and those are exactly the ones about that user.
pub proof fn lemma_which_reports_are_listed(
    sessions: Map<Seq<char>, SessionView>,
    d: StoreDataView,
    authorization: Option<Seq<char>>,
    now: i64,
    after: Map<Seq<char>, SessionView>,
    r: Result<Vec<ReportRecord>, ApiError>,
)
    requires
        list_reports_post(sessions, d, authorization, now, after, r),
    ensures
        turned_away(sessions, authorization, now, r),
        caller(sessions, authorization, now) matches Ok(user) ==> {
            &&& !(0 <= user.level <= 4) ==> answers(r, 403, "not permitted"@)
            &&& 0 <= user.level <= 4 ==> {
                let out = report_views(r->Ok_0@);
                &&& r is Ok
                &&& user.level != 4 ==> out.to_multiset() == d.reports.to_multiset()
                &&& user.level == 4 ==> out.to_multiset() == d.reports.filter(
                    |x: ReportRecordView| !is_about(x, user),
                ).to_multiset()
                &&& forall|x: ReportRecordView|
                    #[trigger] out.contains(x) <==> d.reports.contains(x) && (user.level != 4
                        || !is_about(x, user))
                &&& forall|i: int, j: int|
                    0 <= i < j < out.len() ==> (#[trigger] out[i]).num >= (#[trigger] out[j]).num
            }
        },
        after == after_request(sessions, authorization, now),
{
    broadcast use vstd::seq_lib::group_to_multiset_ensures;

    let c = caller(sessions, authorization, now);
    if c is Ok && 0 <= c->Ok_0.level <= 4 {
        let user = c->Ok_0;
        let out = report_views(r->Ok_0@);
        let sorted = choose|sorted: Seq<ReportRecordView>|
            #[trigger] is_stable_sort(d.reports, sorted, by_num_descending()) && out == visible(
                user,
                sorted,
            );
        lemma_how_reports_are_listed(d.reports, sorted);
        let keep = |x: ReportRecordView| may_see(user, x);
        let direct = |x: ReportRecordView| !is_about(x, user);
        assert(out == sorted.filter(keep));
        lemma_filter_of_multiset(sorted, keep);
        lemma_filter_keeps_descent(sorted, keep);
        lemma_filter_keeps(sorted, keep);
        assert forall|x: ReportRecordView| #[trigger] out.contains(x) <==> d.reports.contains(x) && (
        user.level != 4 || !is_about(x, user)) by {
            assert(sorted.to_multiset().count(x) == d.reports.to_multiset().count(x));
            assert(sorted.contains(x) <==> d.reports.contains(x));
            if keep(x) {
                assert(out.contains(x) <==> sorted.contains(x));
            } else if out.contains(x) {
                let k = choose|k: int| 0 <= k < out.len() && out[k] == x;
                assert(keep(out[k]));
            }
        }
        if user.level == 4 {
            assert(keep =~= direct);
            lemma_filter_of_multiset(d.reports, direct);
        } else {
            lemma_filter_of_multiset(d.reports, keep);
            assert(d.reports.to_multiset().filter(keep) =~= d.reports.to_multiset());
        }
    }
}

/// A report is handed out by its number to everybody above basic, except to an
/// advanced user whom it is about.
pub proof fn lemma_who_gets_a_report(
    sessions: Map<Seq<char>, SessionView>,
    d: StoreDataView,
    authorization: Option<Seq<char>>,
    num: u32,
    now: i64,
    after: Map<Seq<char>, SessionView>,
    r: Result<ReportRecord, ApiError>,
)
    requires
        get_report_post(sessions, d, authorization, num, now, after, r),
    ensures
        turned_away(sessions, authorization, now, r),
        caller(sessions, authorization, now) matches Ok(user) ==> {
            let found = report_numbered(d, num);
            &&& !(0 <= user.level <= 4) ==> answers(r, 403, "not permitted"@)
            &&& 0 <= user.level <= 4 && found is None ==> answers(r, 404, "report not found"@)
            &&& 0 <= user.level <= 3 && found is Some ==> r is Ok && r->Ok_0@ == found->0
            &&& user.level == 4 && found is Some && !is_about(found->0, user) ==> r is Ok
                && r->Ok_0@ == found->0
            &&& user.level == 4 && found is Some && is_about(found->0, user) ==> answers(
                r,
                403,
                "advanced users cannot view reports about themselves"@,
            )
        },
        after == after_request(sessions, authorization, now),
{
}

/// Everybody above basic may open a report, in their own name and level.
pub proof fn lemma_who_may_open_reports(
    sessions: Map<Seq<char>, SessionView>,
    d: StoreDataView,
    authorization: Option<Seq<char>>,
    req: CreateReportRequestView,
    now: i64,
    fresh: FreshView,
    after: Map<Seq<char>, SessionView>,
    after_d: StoreDataView,
    r: Result<Staged<ReportRecord>, ApiError>,
)
    requires
        api_create_report_post(sessions, d, authorization, req, now, fresh, after, after_d, r),
    ensures
        turned_away(sessions, authorization, now, r),
        caller(sessions, authorization, now) is Err ==> after_d == d,
        caller(sessions, authorization, now) matches Ok(user) ==> {
            &&& !(0 <= user.level <= 4) ==> after_d == d && answers(r, 403, "not permitted"@)
            &&& 0 <= user.level <= 4 ==> exists|s: Result<Staged<ReportRecord>, StoreError>|
                #[trigger] create_report_post(
                    d,
                    user.username,
                    user.level,
                    req,
                    fresh,
                    after_d,
                    s,
                ) && hands_on(s, r)
        },
        after == after_request(sessions, authorization, now),
{
}

/// Administrators, junior or not, may edit, close and reopen reports, in their own
/// name.
pub proof fn lemma_who_may_update_reports(
    sessions: Map<Seq<char>, SessionView>,
    d: StoreDataView,
    authorization: Option<Seq<char>>,
    num: u32,
    req: UpdateReportRequestView,
    now: i64,
    fresh: FreshView,
    after: Map<Seq<char>, SessionView>,
    after_d: StoreDataView,
    r: Result<Staged<ReportRecord>, ApiError>,
)
    requires
        api_update_report_post(
            sessions,
            d,
            authorization,
            num,
            req,
            now,
            fresh,
            after,
            after_d,
            r,
        ),
    ensures
        turned_away(sessions, authorization, now, r),
        caller(sessions, authorization, now) is Err ==> after_d == d,
        caller(sessions, authorization, now) matches Ok(user) ==> {
            &&& user.level != 1 && user.level != 2 ==> after_d == d && answers(
                r,
                403,
                "insufficient role"@,
            )
            &&& user.level == 1 || user.level == 2 ==> exists|
                s: Result<Option<Staged<ReportRecord>>, StoreError>,
            |
                #[trigger] update_report_post(d, num, req, user.username, fresh, after_d, s)
                    && hands_on_or(s, "report not found"@, r)
        },
        after == after_request(sessions, authorization, now),
{
}

/// Administrators, junior or not, may delete reports; a success has no content.
pub proof fn lemma_who_may_delete_reports(
    sessions: Map<Seq<char>, SessionView>,
    d: StoreDataView,
    authorization: Option<Seq<char>>,
    num: u32,
    now: i64,
    at: Seq<char>,
    after: Map<Seq<char>, SessionView>,
    after_d: StoreDataView,
    r: Result<Staged<u16>, ApiError>,
)
    requires
        api_delete_report_post(sessions, d, authorization, num, now, at, after, after_d, r),
    ensures
        turned_away(sessions, authorization, now, r),
        caller(sessions, authorization, now) is Err ==> after_d == d,
        caller(sessions, authorization, now) matches Ok(user) ==> {
            &&& user.level != 1 && user.level != 2 ==> after_d == d && answers(
                r,
                403,
                "insufficient role"@,
            )
            &&& user.level == 1 || user.level == 2 ==> exists|s: Option<Staged<bool>>|
                #[trigger] delete_report_post(d, num, at, after_d, s) && (s is None ==> answers(
                    r,
                    404,
                    "report not found"@,
                )) && (s is Some ==> r is Ok && r->Ok_0.value == 204 && r->Ok_0.live == s->0.live)
        },
        after == after_request(sessions, authorization, now),
{
}

/// Administrators, junior or not, may read and replace the pin assignment.
pub proof fn lemma_who_may_handle_pins(
    sessions: Map<Seq<char>, SessionView>,
    d: StoreDataView,
    authorization: Option<Seq<char>>,
    cfg: GpioConfig,
    now: i64,
    at: Seq<char>,
    after: Map<Seq<char>, SessionView>,
    after_d: StoreDataView,
    read: Result<GpioConfig, ApiError>,
    r: Result<Staged<GpioConfig>, ApiError>,
)
    ensures
        get_gpio_config_post(sessions, d, authorization, now, after, read) ==> {
            &&& turned_away(sessions, authorization, now, read)
            &&& after == after_request(sessions, authorization, now)
            &&& caller(sessions, authorization, now) matches Ok(user) ==> {
                &&& user.level != 1 && user.level != 2 ==> answers(read, 403, "insufficient role"@)
                &&& user.level == 1 || user.level == 2 ==> read is Ok && read->Ok_0 == d.gpio_config
            }
        },
        api_set_gpio_post(sessions, d, authorization, cfg, now, at, after, after_d, r) ==> {
            &&& turned_away(sessions, authorization, now, r)
            &&& after == after_request(sessions, authorization, now)
            &&& caller(sessions, authorization, now) is Err ==> after_d == d
            &&& caller(sessions, authorization, now) matches Ok(user) ==> {
                &&& user.level != 1 && user.level != 2 ==> after_d == d && answers(
                    r,
                    403,
                    "insufficient role"@,
                )
                &&& user.level == 1 || user.level == 2 ==> exists|
                    s: Result<Staged<GpioConfig>, StoreError>,
                | #[trigger]
                    set_gpio_post(d, cfg, at, after_d, s) && hands_on(s, r)
            }
        },
{
}

/// A logout without a token is refused; any other ends the session of the token,
/// if there is one, touches no other, and has no content.
pub proof fn lemma_how_a_logout_is_answered(
    sessions: Map<Seq<char>, SessionView>,
    authorization: Option<Seq<char>>,
    after: Map<Seq<char>, SessionView>,
    r: Result<u16, ApiError>,
)
    requires
        auth_logout_post(sessions, authorization, after, r),
    ensures
        bearer(authorization) is None ==> after == sessions && answers(
            r,
            401,
            "missing Authorization: Bearer token"@,
        ),
        bearer(authorization) matches Some(token) ==> r is Ok && r->Ok_0 == 204 && after
            =~= sessions.remove(token),
{
    if bearer(authorization) is Some {
        let token = bearer(authorization)->0;
        assert(trimmed(token) == token && token.len() > 0) by {
            reveal_strlit("Bearer ");
            lemma_trimmed_twice(
                header_trimmed(authorization).skip("Bearer "@.len() as int),
            );
        }
    }
}

/// The caller is answered with the value of a change that was written, and with a
/// failure where it was not.
pub proof fn lemma_how_a_change_is_finished<T>(
    d: StoreDataView,
    live: LiveStateView,
    staged: Staged<T>,
    written: Result<(), String>,
    after_d: StoreDataView,
    after_live: LiveStateView,
    r: Result<T, ApiError>,
)
    requires
        finish_post(d, live, staged, written, after_d, after_live, r),
    ensures
        after_d == d,
        written is Ok ==> r is Ok && r->Ok_0 == staged.value && after_live == staged.live@,
        written matches Err(e) ==> after_live == live && answers(
            r,
            500,
            "failed to persist store: "@ + e@,
        ),
{
}

// Updates.

/// The update endpoints are closed without an admin token, ask for one where none
/// is sent, forbid all but the one that is set, and open for that.
pub proof fn lemma_whom_the_update_endpoints_serve(
    admin_token: Option<Seq<char>>,
    header: Option<Seq<char>>,
)
    ensures
        ({
            let e = admin_error(admin_token, header);
            let sent = header is Some && trimmed(header->0).len() > 0;
            &&& admin_token is None ==> e is Some && says(
                e->0,
                503,
                "admin token not configured; set CAP_CDTS_ADMIN_TOKEN to enable update endpoints"@,
            )
            &&& admin_token is Some && !sent ==> e is Some && says(
                e->0,
                401,
                "missing X-Admin-Token header"@,
            )
            &&& admin_token is Some && sent && trimmed(header->0) != admin_token->0 ==> e is Some
                && says(e->0, 403, "invalid admin token"@)
            &&& admin_token is Some && sent && trimmed(header->0) == admin_token->0 ==> e is None
        }),
{
}

/// A run starts for the admin where updates are enabled and none is under way; it
/// is answered with its status. Everything else changes nothing.
pub proof fn lemma_when_a_run_is_started(
    admin_token: Option<Seq<char>>,
    header: Option<Seq<char>>,
    u: UpdaterView,
    executable: Option<Seq<char>>,
    now: Seq<char>,
    after: UpdaterView,
    r: Result<UpdateStatusResponse, ApiError>,
)
    requires
        start_update_post(admin_token, header, u, executable, now, after, r),
    ensures
        r is Err ==> after == u,
        admin_error(admin_token, header) is Some ==> r is Err && r->Err_0@ == admin_error(
            admin_token,
            header,
        )->0,
        admin_error(admin_token, header) is None && !u.cfg.enabled ==> answers(
            r,
            503,
            "update feature is disabled (check CAP_CDTS_UPDATE_ENABLED and CAP_CDTS_ADMIN_TOKEN)"@,
        ),
        admin_error(admin_token, header) is None && u.cfg.enabled && u.running ==> answers(
            r,
            409,
            "an update is already running"@,
        ),
        admin_error(admin_token, header) is None && u.cfg.enabled && !u.running ==> {
            &&& r is Ok
            &&& after.running
            &&& after.cfg == u.cfg
            &&& after.platform == u.platform
            &&& after.logs.len() == 0
            &&& after.status.enabled
            &&& after.status.state == UpdateState::Running
            &&& after.status.step == Some("starting"@)
            &&& after.status.started_at_utc == Some(now)
            &&& after.status.finished_at_utc is None
            &&& after.status.error is None
            &&& r->Ok_0@.status == after.status
            &&& r->Ok_0@.log_tail.len() == 0
            &&& r->Ok_0@.repo_dir == u.cfg.repo_dir
            &&& r->Ok_0@.new_bin == u.cfg.new_bin
            &&& u.cfg.live_bin is Some ==> r->Ok_0@.live_bin == u.cfg.live_bin->0
            &&& u.cfg.live_bin is None && executable is Some ==> r->Ok_0@.live_bin == executable->0
            &&& u.cfg.live_bin is None && executable is None ==> r->Ok_0@.live_bin == "<unknown>"@
        },
{
}

} // verus!
