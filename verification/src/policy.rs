//! What the endpoints guarantee whatever is asked of them.

use vstd::prelude::*;

use crate::api::{
    app_caller, bearer, caller, header_trimmed, is_administrative, is_advanced, is_junior,
    manages_reports, manages_users, no_session, uses_app, ApiError, ApiErrorView, FORBIDDEN,
    SERVICE_UNAVAILABLE, UNAUTHORIZED,
};
use crate::auth::{is_token, lemma_token_is_trimmed, sessions_hold, AuthUserView, SessionView};
use crate::endpoints::{
    admin_error, api_create_report_post, api_create_user_post, api_delete_report_post,
    api_set_gpio_post, api_update_report_post, api_update_user_post, get_report_post,
    list_reports_post, may_create_user, may_see, may_update_user, start_update_post, visible,
};
use crate::fresh::FreshView;
use crate::history::{applied, lemma_operations_are_changes, Change};
use crate::models::{
    report_views, CreateReportRequestView, CreateUserRequestView, GpioConfig, ReportRecord,
    ReportRecordView, StoreDataView, UpdateReportRequestView, UpdateUserRequestView, UserPublic,
};
use crate::order::is_stable_sort;
use crate::store::{
    by_num_descending, create_user_post, lemma_user_place_from, update_user_post, Staged,
    StoreError,
};
use crate::text::{is_white_space, same_ignoring_case, trimmed, trimmed_end, trimmed_start};
use crate::update::{UpdateStatusResponse, UpdaterView};

verus! {

/// Who may manage may use the application.
pub proof fn lemma_managers_use_the_app(level: i32)
    ensures
        manages_users(level) ==> uses_app(level),
        manages_reports(level) ==> uses_app(level),
        is_advanced(level) ==> uses_app(level) && !manages_users(level) && !manages_reports(level),
{
}

/// A token sent as a bearer token arrives as it is.
pub proof fn lemma_token_travels(token: Seq<char>)
    requires
        is_token(token),
    ensures
        bearer(Some("Bearer "@ + token)) == Some(token),
{
    lemma_token_is_trimmed(token);
    reveal_strlit("Bearer ");
    let h = "Bearer "@ + token;
    assert(h.first() == 'B');
    assert(h.last() == token.last());
    assert(!is_white_space(h.last()));
    assert(trimmed_start(h) == h);
    assert(trimmed_end(h) == h);
    assert("Bearer "@.is_prefix_of(h));
    assert(h.skip("Bearer "@.len() as int) =~= token);
}

/// The token of a session identifies its user in a request, up to the second at
/// which the session ends.
pub proof fn lemma_token_identifies_the_caller(
    sessions: Map<Seq<char>, SessionView>,
    token: Seq<char>,
    now: i64,
)
    requires
        is_token(token),
        sessions.contains_key(token),
    ensures
        caller(sessions, Some("Bearer "@ + token), now) == (if now
            < sessions[token].expires_at_unix {
            Ok::<AuthUserView, ApiErrorView>(sessions[token].user)
        } else {
            Err::<AuthUserView, ApiErrorView>(no_session())
        }),
{
    lemma_token_travels(token);
    lemma_token_is_trimmed(token);
}

/// Every user with a session may use the application.
pub proof fn lemma_callers_use_the_app(
    sessions: Map<Seq<char>, SessionView>,
    authorization: Option<Seq<char>>,
    now: i64,
)
    requires
        sessions_hold(sessions),
    ensures
        app_caller(sessions, authorization, now) == caller(sessions, authorization, now),
{
}

/// Without a session no request changes the store, and each is answered that the
/// caller is not known.
pub proof fn lemma_strangers_change_nothing(
    sessions: Map<Seq<char>, SessionView>,
    d: StoreDataView,
    authorization: Option<Seq<char>>,
    now: i64,
    after: Map<Seq<char>, SessionView>,
    after_d: StoreDataView,
)
    requires
        caller(sessions, authorization, now) is Err,
    ensures
        caller(sessions, authorization, now)->Err_0.status == UNAUTHORIZED,
        forall|
            req: CreateUserRequestView,
            fresh: FreshView,
            r: Result<Staged<UserPublic>, ApiError>,
        | #[trigger]
            api_create_user_post(sessions, d, authorization, req, now, fresh, after, after_d, r)
                ==> after_d == d && r is Err && r->Err_0@.status == UNAUTHORIZED,
        forall|
            name: Seq<char>,
            req: UpdateUserRequestView,
            fresh: FreshView,
            r: Result<Staged<UserPublic>, ApiError>,
        | #[trigger]
            api_update_user_post(
                sessions,
                d,
                authorization,
                name,
                req,
                now,
                fresh,
                after,
                after_d,
                r,
            ) ==> after_d == d && r is Err && r->Err_0@.status == UNAUTHORIZED,
        forall|
            req: CreateReportRequestView,
            fresh: FreshView,
            r: Result<Staged<ReportRecord>, ApiError>,
        | #[trigger]
            api_create_report_post(sessions, d, authorization, req, now, fresh, after, after_d, r)
                ==> after_d == d && r is Err && r->Err_0@.status == UNAUTHORIZED,
        forall|
            num: u32,
            req: UpdateReportRequestView,
            fresh: FreshView,
            r: Result<Staged<ReportRecord>, ApiError>,
        | #[trigger]
            api_update_report_post(
                sessions,
                d,
                authorization,
                num,
                req,
                now,
                fresh,
                after,
                after_d,
                r,
            ) ==> after_d == d && r is Err && r->Err_0@.status == UNAUTHORIZED,
        forall|num: u32, at: Seq<char>, r: Result<Staged<u16>, ApiError>| #[trigger]
            api_delete_report_post(sessions, d, authorization, num, now, at, after, after_d, r)
                ==> after_d == d && r is Err && r->Err_0@.status == UNAUTHORIZED,
        forall|cfg: GpioConfig, at: Seq<char>, r: Result<Staged<GpioConfig>, ApiError>| #[trigger]
            api_set_gpio_post(sessions, d, authorization, cfg, now, at, after, after_d, r)
                ==> after_d == d && r is Err && r->Err_0@.status == UNAUTHORIZED,
{
}

/// Who may not manage users changes neither users nor pins; who may not manage
/// reports neither updates nor deletes one. Each such request is forbidden.
pub proof fn lemma_managing_needs_the_role(
    sessions: Map<Seq<char>, SessionView>,
    d: StoreDataView,
    authorization: Option<Seq<char>>,
    now: i64,
    after: Map<Seq<char>, SessionView>,
    after_d: StoreDataView,
)
    requires
        caller(sessions, authorization, now) is Ok,
    ensures
        !manages_users(caller(sessions, authorization, now)->Ok_0.level) ==> {
            &&& forall|
                req: CreateUserRequestView,
                fresh: FreshView,
                r: Result<Staged<UserPublic>, ApiError>,
            | #[trigger]
                api_create_user_post(sessions, d, authorization, req, now, fresh, after, after_d, r)
                    ==> after_d == d && r is Err && r->Err_0@.status == FORBIDDEN
            &&& forall|
                name: Seq<char>,
                req: UpdateUserRequestView,
                fresh: FreshView,
                r: Result<Staged<UserPublic>, ApiError>,
            | #[trigger]
                api_update_user_post(
                    sessions,
                    d,
                    authorization,
                    name,
                    req,
                    now,
                    fresh,
                    after,
                    after_d,
                    r,
                ) ==> after_d == d && r is Err && r->Err_0@.status == FORBIDDEN
            &&& forall|
                cfg: GpioConfig,
                at: Seq<char>,
                r: Result<Staged<GpioConfig>, ApiError>,
            | #[trigger]
                api_set_gpio_post(sessions, d, authorization, cfg, now, at, after, after_d, r)
                    ==> after_d == d && r is Err && r->Err_0@.status == FORBIDDEN
        },
        !manages_reports(caller(sessions, authorization, now)->Ok_0.level) ==> {
            &&& forall|
                num: u32,
                req: UpdateReportRequestView,
                fresh: FreshView,
                r: Result<Staged<ReportRecord>, ApiError>,
            | #[trigger]
                api_update_report_post(
                    sessions,
                    d,
                    authorization,
                    num,
                    req,
                    now,
                    fresh,
                    after,
                    after_d,
                    r,
                ) ==> after_d == d && r is Err && r->Err_0@.status == FORBIDDEN
            &&& forall|num: u32, at: Seq<char>, r: Result<Staged<u16>, ApiError>| #[trigger]
                api_delete_report_post(sessions, d, authorization, num, now, at, after, after_d, r)
                    ==> after_d == d && r is Err && r->Err_0@.status == FORBIDDEN
        },
{
}

/// The users with the level of an administrator, junior or not, are the same, at
/// the same places.
pub open spec fn same_administrators(d: StoreDataView, after: StoreDataView) -> bool {
    &&& d.users.len() <= after.users.len()
    &&& forall|i: int|
        0 <= i < d.users.len() && is_administrative((#[trigger] d.users[i]).level)
            ==> after.users[i] == d.users[i]
    &&& forall|i: int|
        0 <= i < after.users.len() && is_administrative((#[trigger] after.users[i]).level) ==> i
            < d.users.len() && after.users[i] == d.users[i]
}

/// A junior administrator neither creates nor changes an administrator, junior
/// or not, nor makes anybody one.
pub proof fn lemma_junior_admins_leave_administrators_alone(
    sessions: Map<Seq<char>, SessionView>,
    d: StoreDataView,
    authorization: Option<Seq<char>>,
    now: i64,
    after: Map<Seq<char>, SessionView>,
    after_d: StoreDataView,
    name: Seq<char>,
    create: CreateUserRequestView,
    update: UpdateUserRequestView,
    fresh: FreshView,
    r: Result<Staged<UserPublic>, ApiError>,
)
    requires
        caller(sessions, authorization, now) matches Ok(actor) && is_junior(actor.level),
    ensures
        api_create_user_post(sessions, d, authorization, create, now, fresh, after, after_d, r)
            ==> same_administrators(d, after_d),
        api_update_user_post(
            sessions,
            d,
            authorization,
            name,
            update,
            now,
            fresh,
            after,
            after_d,
            r,
        ) ==> same_administrators(d, after_d),
{
    lemma_operations_are_changes();
    if api_create_user_post(sessions, d, authorization, create, now, fresh, after, after_d, r) {
        if may_create_user(sessions, authorization, now, create.level) is Ok {
            let s = choose|s: Result<Staged<UserPublic>, StoreError>| #[trigger]
                create_user_post(d, create, fresh, after_d, s);
            assert(after_d == applied(d, Change::CreateUser { req: create, fresh }));
        }
    }
    if api_update_user_post(
        sessions,
        d,
        authorization,
        name,
        update,
        now,
        fresh,
        after,
        after_d,
        r,
    ) {
        if may_update_user(sessions, d, authorization, now, name, update.level) is Ok {
            let s = choose|s: Result<Option<Staged<UserPublic>>, StoreError>| #[trigger]
                update_user_post(d, name, update, fresh, after_d, s);
            assert(after_d == applied(d, Change::UpdateUser { name, req: update, fresh }));
            lemma_user_place_from(d.users, trimmed(name), 0);
        }
    }
}

proof fn lemma_visible(user: AuthUserView, reports: Seq<ReportRecordView>)
    ensures
        forall|i: int|
            0 <= i < visible(user, reports).len() ==> may_see(
                user,
                #[trigger] visible(user, reports)[i],
            ) && reports.contains(visible(user, reports)[i]),
        forall|r: ReportRecordView|
            reports.contains(r) && may_see(user, r) ==> #[trigger] visible(user, reports).contains(
                r,
            ),
        !is_advanced(user.level) ==> visible(user, reports) == reports,
    decreases reports.len(),
{
    reveal(Seq::filter);
    let seen = visible(user, reports);
    if reports.len() > 0 {
        let init = reports.drop_last();
        let last = reports.last();
        lemma_visible(user, init);
        assert(init.push(last) =~= reports);
        let before = visible(user, init);
        assert(seen == if may_see(user, last) {
            before.push(last)
        } else {
            before
        });
        assert forall|i: int| 0 <= i < seen.len() implies may_see(user, #[trigger] seen[i])
            && reports.contains(seen[i]) by {
            if i < before.len() {
                assert(init.contains(before[i]));
                let k = choose|k: int| 0 <= k < init.len() && init[k] == before[i];
                assert(reports[k] == seen[i]);
            } else {
                assert(reports[reports.len() - 1] == last);
            }
        }
        assert forall|r: ReportRecordView| reports.contains(r) && may_see(user, r) implies
            #[trigger] seen.contains(r) by {
            let k = choose|k: int| 0 <= k < reports.len() && reports[k] == r;
            if k < init.len() {
                assert(init[k] == r);
                assert(init.contains(r));
                assert(before.contains(r));
                let m = choose|m: int| 0 <= m < before.len() && before[m] == r;
                assert(seen[m] == r);
            } else {
                assert(seen[seen.len() - 1] == r);
            }
        }
    }
}

/// An advanced user sees no report about themselves, neither in the list nor by
/// its number.
pub proof fn lemma_advanced_users_do_not_see_themselves(
    sessions: Map<Seq<char>, SessionView>,
    d: StoreDataView,
    authorization: Option<Seq<char>>,
    num: u32,
    now: i64,
    after: Map<Seq<char>, SessionView>,
    listed: Result<Vec<ReportRecord>, ApiError>,
    got: Result<ReportRecord, ApiError>,
)
    requires
        caller(sessions, authorization, now) matches Ok(user) && is_advanced(user.level),
    ensures
        list_reports_post(sessions, d, authorization, now, after, listed) ==> listed is Ok
            && forall|i: int|
            0 <= i < report_views(listed->Ok_0@).len() ==> !same_ignoring_case(
                (#[trigger] report_views(listed->Ok_0@)[i]).person,
                caller(sessions, authorization, now)->Ok_0.username,
            ),
        get_report_post(sessions, d, authorization, num, now, after, got) && got is Ok
            ==> !same_ignoring_case(
            got->Ok_0@.person,
            caller(sessions, authorization, now)->Ok_0.username,
        ),
{
    let user = caller(sessions, authorization, now)->Ok_0;
    assert forall|s: Seq<ReportRecordView>, i: int|
        0 <= i < visible(user, s).len() implies !same_ignoring_case(
        (#[trigger] visible(user, s)[i]).person,
        user.username,
    ) by {
        lemma_visible(user, s);
    }
}

/// All other users see all reports, the highest number first.
pub proof fn lemma_others_see_all_reports(
    sessions: Map<Seq<char>, SessionView>,
    d: StoreDataView,
    authorization: Option<Seq<char>>,
    now: i64,
    after: Map<Seq<char>, SessionView>,
    listed: Result<Vec<ReportRecord>, ApiError>,
)
    requires
        app_caller(sessions, authorization, now) matches Ok(user) && !is_advanced(user.level),
        list_reports_post(sessions, d, authorization, now, after, listed),
    ensures
        listed is Ok,
        is_stable_sort(d.reports, report_views(listed->Ok_0@), by_num_descending()),
{
    let user = app_caller(sessions, authorization, now)->Ok_0;
    assert forall|s: Seq<ReportRecordView>| #[trigger] visible(user, s) == s by {
        lemma_visible(user, s);
    }
}

/// Where no admin token is set, the update endpoints are not available, whatever
/// is sent, and no run starts.
pub proof fn lemma_updates_are_closed_without_a_token(
    header: Option<Seq<char>>,
    u: UpdaterView,
    executable: Option<Seq<char>>,
    now: Seq<char>,
    after: UpdaterView,
    r: Result<UpdateStatusResponse, ApiError>,
)
    ensures
        admin_error(None, header) matches Some(e) && e.status == SERVICE_UNAVAILABLE,
        start_update_post(None, header, u, executable, now, after, r) ==> after == u && r is Err
            && r->Err_0@.status == SERVICE_UNAVAILABLE,
{
}

/// A run starts only for the admin token that is set.
pub proof fn lemma_a_run_needs_the_token(
    admin_token: Option<Seq<char>>,
    header: Option<Seq<char>>,
    u: UpdaterView,
    executable: Option<Seq<char>>,
    now: Seq<char>,
    after: UpdaterView,
    r: Result<UpdateStatusResponse, ApiError>,
)
    requires
        start_update_post(admin_token, header, u, executable, now, after, r),
        after != u || r is Ok,
    ensures
        admin_token == Some(header_trimmed(header)),
        header_trimmed(header).len() > 0,
        u.cfg.enabled && !u.running,
{
}

} // verus!
