//! Laws of the store: what each operation does to the records, and what it is
//! answered, in terms of the request.

use vstd::prelude::*;

use crate::auth::login_error;
use crate::fresh::FreshView;
use crate::gpio::gpio_sound;
use crate::history::{applied, lemma_operations_are_changes, lemma_update_touches_one_user, Change};
use crate::models::{
    normal_level, CreateReportRequestView, CreateUserRequestView, GpioConfig, LiveStateView,
    ReportRecord, ReportRecordView, StoreDataView, UpdateReportRequestView, UpdateUserRequestView,
    UserPublic, UserPublicView, UserRecordView,
};
use crate::numbering::{next_num, normalized};
use crate::order::{is_stable_sort, lemma_stable_sort_keeps_items, sorts_stably_by};
use crate::passcode::{argon2_hash, five_digits};
use crate::store::{
    by_name, by_num_descending, create_report_post, create_user_post, delete_report_post,
    lemma_by_name_is_order, lemma_by_num_is_order, lemma_report_place_from,
    lemma_updated_user_is_found, lemma_user_place_from, live_of, open_count, open_post,
    opened_data, public_views, report_numbered, report_place, set_gpio_post, settle_post,
    update_report_post, update_user_post, user_named, user_place, Loaded, Opened, Staged,
    StoreError, StoreErrorKind,
};
use crate::text::{same_ignoring_case, text_before, trimmed, unicode_lower};

verus! {

// Finding.

/// The first user with a name, up to ASCII case, stands at a place.
pub open spec fn is_first_user(users: Seq<UserRecordView>, name: Seq<char>, i: int) -> bool {
    &&& 0 <= i < users.len()
    &&& same_ignoring_case(users[i].username, name)
    &&& forall|k: int| 0 <= k < i ==> !same_ignoring_case((#[trigger] users[k]).username, name)
}

/// No user has the name, up to ASCII case.
pub open spec fn nobody_has(users: Seq<UserRecordView>, name: Seq<char>) -> bool {
    forall|k: int| 0 <= k < users.len() ==> !same_ignoring_case((#[trigger] users[k]).username, name)
}

/// The first report with a number stands at a place.
pub open spec fn is_first_report(reports: Seq<ReportRecordView>, num: u32, i: int) -> bool {
    &&& 0 <= i < reports.len()
    &&& reports[i].num == num
    &&& forall|k: int| 0 <= k < i ==> (#[trigger] reports[k]).num != num
}

/// No report has the number.
pub open spec fn no_report_has(reports: Seq<ReportRecordView>, num: u32) -> bool {
    forall|k: int| 0 <= k < reports.len() ==> (#[trigger] reports[k]).num != num
}

/// Looking a user up finds the first one who has the name without the white space
/// around it, up to ASCII case, and nobody where nobody has it.
pub proof fn lemma_looking_up_a_user(d: StoreDataView, name: Seq<char>, i: int)
    ensures
        is_first_user(d.users, trimmed(name), i) ==> user_named(d, name) == Some(d.users[i])
            && user_place(d.users, trimmed(name)) == Some(i),
        nobody_has(d.users, trimmed(name)) ==> user_named(d, name) is None && user_place(
            d.users,
            trimmed(name),
        ) is None,
        user_named(d, name) is None ==> nobody_has(d.users, trimmed(name)),
{
    let n = trimmed(name);
    lemma_user_place_from(d.users, n, 0);
    match user_place(d.users, n) {
        Some(j) => {
            if is_first_user(d.users, n, i) {
                if j < i {
                    assert(same_ignoring_case(d.users[j].username, n));
                }
                if i < j {
                    assert(same_ignoring_case(d.users[i].username, n));
                }
            }
            assert(same_ignoring_case(d.users[j].username, n));
        },
        None => {
            if is_first_user(d.users, n, i) {
                assert(same_ignoring_case(d.users[i].username, n));
            }
        },
    }
}

/// Looking a report up finds the first one that has the number, and none where
/// none has it.
pub proof fn lemma_looking_up_a_report(d: StoreDataView, num: u32, i: int)
    ensures
        is_first_report(d.reports, num, i) ==> report_numbered(d, num) == Some(d.reports[i])
            && report_place(d.reports, num) == Some(i),
        no_report_has(d.reports, num) ==> report_numbered(d, num) is None && report_place(
            d.reports,
            num,
        ) is None,
        report_numbered(d, num) is None ==> no_report_has(d.reports, num),
        report_place(d.reports, num) is None ==> no_report_has(d.reports, num),
{
    lemma_report_place_from(d.reports, num, 0);
    match report_place(d.reports, num) {
        Some(j) => {
            if is_first_report(d.reports, num, i) {
                if j < i {
                    assert(d.reports[j].num == num);
                }
                if i < j {
                    assert(d.reports[i].num == num);
                }
            }
            assert(d.reports[j].num == num);
        },
        None => {
            if is_first_report(d.reports, num, i) {
                assert(d.reports[i].num == num);
            }
        },
    }
}

// Snapshots and opening.

/// A snapshot counts the users, the reports, and the reports without a closing
/// time; it has the time that it was taken at, the pin assignment, and nobody
/// signed in.
pub proof fn lemma_what_a_snapshot_shows(d: StoreDataView, now: Seq<char>)
    requires
        d.users.len() <= usize::MAX,
        d.reports.len() <= usize::MAX,
    ensures
        live_of(d, now).last_update_utc == now,
        live_of(d, now).counts.users == d.users.len(),
        live_of(d, now).counts.reports == d.reports.len(),
        live_of(d, now).counts.open_reports == d.reports.filter(
            |r: ReportRecordView| r.closed_at_utc is None,
        ).len(),
        live_of(d, now).auth.stage == "None"@,
        live_of(d, now).auth.user is None,
        live_of(d, now).gpio_config == d.gpio_config,
{
    lemma_open_reports(d.reports);
}

proof fn lemma_open_reports(reports: Seq<ReportRecordView>)
    ensures
        open_count(reports) == reports.filter(
            |r: ReportRecordView| r.closed_at_utc is None,
        ).len(),
        open_count(reports) <= reports.len(),
    decreases reports.len(),
{
    reveal(Seq::filter);
    if reports.len() > 0 {
        lemma_open_reports(reports.drop_last());
    }
}

/// A store opened on no file, or on a file without data, is empty, unassigned, and
/// starts numbering at the first number; one opened on data holds the data,
/// repaired.
pub proof fn lemma_what_an_opened_store_holds(loaded: Loaded)
    ensures
        loaded matches Loaded::Data(data) ==> opened_data(loaded) == normalized(data@),
        !(loaded is Data) ==> {
            let d = opened_data(loaded);
            &&& d.schema_version == 1
            &&& d.next_report_num == 100_000
            &&& d.users.len() == 0
            &&& d.reports.len() == 0
            &&& d.gpio_config.rfid_spi_bus is None
            &&& d.gpio_config.rfid_spi_cs is None
            &&& forall|k: int|
                0 <= k < 12 ==> #[trigger] crate::basics_laws::pin_of(d.gpio_config, k) is None
        },
{
}

/// Opening tells what is left to do: a store that was not read from data is to be
/// written, and a file that held none is to be kept. The snapshot is of the data.
pub proof fn lemma_what_opening_leaves_to_do(loaded: Loaded, now: Seq<char>, r: Opened)
    requires
        open_post(loaded, now, r),
    ensures
        loaded is Data ==> !r.should_persist && !r.keep_backup,
        loaded is Invalid ==> r.should_persist && r.keep_backup,
        loaded is Missing ==> r.should_persist && !r.keep_backup,
        r.store.data() == opened_data(loaded),
        r.store.live() == live_of(r.store.data(), now),
{
}

/// A change that was written is published, and answered with its value. One that
/// was not stays in memory, is not published, and is answered with a failure.
pub proof fn lemma_what_settling_does<T>(
    d: StoreDataView,
    live: LiveStateView,
    staged: Staged<T>,
    written: Result<(), String>,
    after_d: StoreDataView,
    after_live: LiveStateView,
    r: Result<T, StoreError>,
)
    requires
        settle_post(d, live, staged, written, after_d, after_live, r),
    ensures
        after_d == d,
        written is Ok ==> r is Ok && r->Ok_0 == staged.value && after_live == staged.live@,
        written matches Err(e) ==> after_live == live && refuses(
            r,
            StoreErrorKind::Internal,
            "failed to persist store: "@ + e@,
        ),
{
}

/// What is handed out of a user is the name, the identifier and the level.
pub proof fn lemma_what_is_handed_out(u: UserRecordView)
    ensures
        u.public().username == u.username,
        u.public().rfid_uid == u.rfid_uid,
        u.public().level == u.level,
{
}

// Refusals.

/// A request that breaks a rule is refused in these words.
pub open spec fn refuses<T>(
    r: Result<T, StoreError>,
    kind: StoreErrorKind,
    message: Seq<char>,
) -> bool {
    r matches Err(e) && e@.kind == kind && e@.message == message
}

/// Nothing but the users is changed.
pub open spec fn only_users_change(d: StoreDataView, after: StoreDataView) -> bool {
    &&& after.schema_version == d.schema_version
    &&& after.next_report_num == d.next_report_num
    &&& after.gpio_config == d.gpio_config
    &&& after.reports == d.reports
}

/// Nothing but the reports is changed.
pub open spec fn only_reports_change(d: StoreDataView, after: StoreDataView) -> bool {
    &&& after.schema_version == d.schema_version
    &&& after.next_report_num == d.next_report_num
    &&& after.gpio_config == d.gpio_config
    &&& after.users == d.users
}

/// A passcode of five digits was given, white space around it aside.
pub open spec fn gives_five_digits(passcode: Option<Seq<char>>) -> bool {
    passcode matches Some(pc) && five_digits(trimmed(pc))
}

/// A passcode was given that is blank.
pub open spec fn gives_blank(passcode: Option<Seq<char>>) -> bool {
    passcode matches Some(pc) && trimmed(pc).len() == 0
}

// Users.

/// Creating a user is refused for a blank name, a level that is not zero to five,
/// a missing or malformed passcode above basic, and a name that is taken; a
/// refusal changes nothing.
pub proof fn lemma_when_a_user_is_created(
    d: StoreDataView,
    req: CreateUserRequestView,
    fresh: FreshView,
    after: StoreDataView,
    r: Result<Staged<UserPublic>, StoreError>,
)
    requires
        create_user_post(d, req, fresh, after, r),
    ensures
        ({
            let named = trimmed(req.username).len() > 0;
            let leveled = 0 <= req.level <= 5;
            let hash = argon2_hash(trimmed(req.passcode->0), fresh.salt);
            let ready = req.level == 5 || (gives_five_digits(req.passcode) && hash is Ok);
            &&& r is Err ==> after == d
            &&& !named ==> refuses(r, StoreErrorKind::BadRequest, "username is required"@)
            &&& named && !leveled ==> refuses(
                r,
                StoreErrorKind::BadRequest,
                "level must be 1 (admin), 2 (junior admin), 3 (moderator), 4 (advanced user), or 5 (basic)"@,
            )
            &&& named && 0 <= req.level <= 4 && (req.passcode is None || gives_blank(req.passcode))
                ==> refuses(
                r,
                StoreErrorKind::BadRequest,
                "passcode is required for non-basic users (exactly 5 digits)"@,
            )
            &&& named && 0 <= req.level <= 4 && req.passcode is Some && !gives_blank(req.passcode)
                && !gives_five_digits(req.passcode) ==> refuses(
                r,
                StoreErrorKind::BadRequest,
                "passcode must be exactly 5 digits"@,
            )
            &&& named && 0 <= req.level <= 4 && gives_five_digits(req.passcode) && hash is Err
                ==> refuses(
                r,
                StoreErrorKind::Internal,
                "failed to hash passcode: "@ + hash->Err_0,
            )
            &&& named && leveled && ready && !nobody_has(d.users, trimmed(req.username))
                ==> refuses(r, StoreErrorKind::Conflict, "username already exists"@)
            &&& named && leveled && ready && nobody_has(d.users, trimmed(req.username)) ==> r is Ok
        }),
{
    let name = trimmed(req.username);
    lemma_user_place_from(d.users, name, 0);
    match user_place(d.users, name) {
        Some(j) => {
            assert(same_ignoring_case(d.users[j].username, name));
        },
        None => {},
    }
    if five_digits(trimmed(req.passcode->0)) {
        assert(trimmed(req.passcode->0).len() > 0);
    }
}

/// A user who is created stands behind all others, with the name and identifier
/// that were asked for, white space around them aside, and the level that was
/// asked for, the old zero being a moderator. Basic users have no passcode; for
/// all others the hash of theirs is kept. Nothing else changes, and the answer is
/// what was stored.
pub proof fn lemma_who_is_created(
    d: StoreDataView,
    req: CreateUserRequestView,
    fresh: FreshView,
    after: StoreDataView,
    r: Result<Staged<UserPublic>, StoreError>,
)
    requires
        create_user_post(d, req, fresh, after, r),
        r is Ok,
    ensures
        only_users_change(d, after),
        after.users.len() == d.users.len() + 1,
        forall|k: int| 0 <= k < d.users.len() ==> #[trigger] after.users[k] == d.users[k],
        ({
            let u = after.users.last();
            &&& u.username == trimmed(req.username)
            &&& u.rfid_uid == trimmed(req.rfid_uid)
            &&& u.level == (if req.level == 0 {
                3
            } else {
                req.level
            })
            &&& req.level == 5 ==> u.passcode_hash is None
            &&& req.level != 5 ==> u.passcode_hash is Some && argon2_hash(
                trimmed(req.passcode->0),
                fresh.salt,
            ) == Ok::<Seq<char>, Seq<char>>(u.passcode_hash->0)
            &&& u.created_at_utc == fresh.record_at
            &&& r->Ok_0.value@.username == u.username
            &&& r->Ok_0.value@.rfid_uid == u.rfid_uid
            &&& r->Ok_0.value@.level == u.level
        }),
        r->Ok_0.live@ == live_of(after, fresh.live_at),
{
}

/// An update of a user is refused for a blank name or an unknown level, and finds
/// nobody where nobody has the name; none of this changes anything.
pub proof fn lemma_when_a_user_is_not_updated(
    d: StoreDataView,
    name: Seq<char>,
    req: UpdateUserRequestView,
    fresh: FreshView,
    after: StoreDataView,
    r: Result<Option<Staged<UserPublic>>, StoreError>,
)
    requires
        update_user_post(d, name, req, fresh, after, r),
    ensures
        trimmed(name).len() == 0 ==> after == d && refuses(
            r,
            StoreErrorKind::BadRequest,
            "username is required"@,
        ),
        trimmed(name).len() > 0 && req.level is Some && !(0 <= req.level->0 <= 5) ==> after == d
            && refuses(
            r,
            StoreErrorKind::BadRequest,
            "level must be 1 (admin), 2 (junior admin), 3 (moderator), 4 (advanced user), or 5 (basic)"@,
        ),
        trimmed(name).len() > 0 && (req.level is None || 0 <= req.level->0 <= 5) && nobody_has(
            d.users,
            trimmed(name),
        ) ==> after == d && r is Ok && r->Ok_0 is None,
{
    lemma_looking_up_a_user(d, name, 0);
}

/// An update that is not refused from the start edits the first user who has the
/// name, and nobody else: identifier and level become what the request gives and
/// stay where it gives none, and name and creation stay. The passcode goes where
/// the user becomes basic or a blank one is given, stays where none is given, and
/// becomes the one that is given; a malformed one is refused and leaves the old.
pub proof fn lemma_how_a_user_is_updated(
    d: StoreDataView,
    name: Seq<char>,
    req: UpdateUserRequestView,
    fresh: FreshView,
    after: StoreDataView,
    r: Result<Option<Staged<UserPublic>>, StoreError>,
    i: int,
)
    requires
        update_user_post(d, name, req, fresh, after, r),
        trimmed(name).len() > 0,
        req.level is None || 0 <= req.level->0 <= 5,
        is_first_user(d.users, trimmed(name), i),
    ensures
        only_users_change(d, after),
        after.users.len() == d.users.len(),
        forall|k: int|
            0 <= k < d.users.len() && k != i ==> #[trigger] after.users[k] == d.users[k],
        ({
            let (u, v) = (d.users[i], after.users[i]);
            let hash = argon2_hash(trimmed(req.passcode->0), fresh.salt);
            &&& v.username == u.username
            &&& v.created_at_utc == u.created_at_utc
            &&& req.rfid_uid is Some ==> v.rfid_uid == trimmed(req.rfid_uid->0)
            &&& req.rfid_uid is None ==> v.rfid_uid == u.rfid_uid
            &&& req.level is None ==> v.level == u.level
            &&& req.level is Some && req.level->0 == 0 ==> v.level == 3
            &&& req.level is Some && req.level->0 != 0 ==> v.level == req.level->0
            &&& v.level == 5 ==> v.passcode_hash is None && r is Ok
            &&& v.level != 5 && req.passcode is None ==> v.passcode_hash == u.passcode_hash
                && r is Ok
            &&& v.level != 5 && gives_blank(req.passcode) ==> v.passcode_hash is None && r is Ok
            &&& v.level != 5 && req.passcode is Some && !gives_blank(req.passcode)
                && !gives_five_digits(req.passcode) ==> v.passcode_hash == u.passcode_hash
                && refuses(r, StoreErrorKind::BadRequest, "passcode must be exactly 5 digits"@)
            &&& v.level != 5 && gives_five_digits(req.passcode) && hash is Ok
                ==> v.passcode_hash == Some(hash->Ok_0) && r is Ok
            &&& v.level != 5 && gives_five_digits(req.passcode) && hash is Err ==> v.passcode_hash
                == u.passcode_hash && refuses(
                r,
                StoreErrorKind::Internal,
                "failed to hash passcode: "@ + hash->Err_0,
            )
            &&& r is Ok ==> {
                &&& r->Ok_0 is Some
                &&& r->Ok_0->0.value@.username == v.username
                &&& r->Ok_0->0.value@.rfid_uid == v.rfid_uid
                &&& r->Ok_0->0.value@.level == v.level
                &&& r->Ok_0->0.live@ == live_of(after, fresh.live_at)
            }
        }),
{
    lemma_looking_up_a_user(d, name, i);
    if req.passcode is Some && five_digits(trimmed(req.passcode->0)) {
        assert(trimmed(req.passcode->0).len() > 0);
    }
}

/// Whoever could log in still can, with the same passcode, after an update that
/// gives no passcode and leaves them above basic.
pub proof fn lemma_an_update_without_passcode_keeps_the_login(
    d: StoreDataView,
    name: Seq<char>,
    req: UpdateUserRequestView,
    fresh: FreshView,
    after: StoreDataView,
    r: Result<Option<Staged<UserPublic>>, StoreError>,
    passcode: Seq<char>,
)
    requires
        update_user_post(d, name, req, fresh, after, r),
        req.passcode is None,
        req.level is None || 0 <= req.level->0 <= 4,
        login_error(d, name, passcode) is None,
    ensures
        login_error(after, name, passcode) is None,
        r is Ok && r->Ok_0 is Some,
{
    lemma_user_place_from(d.users, trimmed(name), 0);
    let i = user_place(d.users, trimmed(name))->0;
    assert(is_first_user(d.users, trimmed(name), i)) by {
        assert forall|k: int| 0 <= k < i implies !same_ignoring_case(
            (#[trigger] d.users[k]).username,
            trimmed(name),
        ) by {}
    }
    lemma_how_a_user_is_updated(d, name, req, fresh, after, r, i);
    assert(after.users =~= d.users.update(i, after.users[i]));
    lemma_updated_user_is_found(d.users, trimmed(name), i, after.users[i]);
}

/// An update of one user leaves the logins of all other names as they were.
pub proof fn lemma_an_update_leaves_other_logins(
    d: StoreDataView,
    name: Seq<char>,
    req: UpdateUserRequestView,
    fresh: FreshView,
    after: StoreDataView,
    r: Result<Option<Staged<UserPublic>>, StoreError>,
    other: Seq<char>,
    passcode: Seq<char>,
)
    requires
        update_user_post(d, name, req, fresh, after, r),
        !same_ignoring_case(trimmed(name), trimmed(other)),
    ensures
        login_error(after, other, passcode) == login_error(d, other, passcode),
{
    lemma_operations_are_changes();
    lemma_update_touches_one_user(d, name, req, fresh, other);
}

/// Changes of reports and pins leave every login as it was.
pub proof fn lemma_other_changes_leave_logins(
    d: StoreDataView,
    change: Change,
    name: Seq<char>,
    passcode: Seq<char>,
)
    requires
        !(change is CreateUser) && !(change is UpdateUser),
    ensures
        login_error(applied(d, change), name, passcode) == login_error(d, name, passcode),
{
    let after = applied(d, change);
    let n = trimmed(name);
    assert(after.users.len() == d.users.len());
    assert forall|k: int| 0 <= k < d.users.len() implies (#[trigger] after.users[k]).username
        == d.users[k].username && after.users[k].passcode_hash == d.users[k].passcode_hash
        && normal_level(after.users[k].level) == normal_level(d.users[k].level) by {}
    lemma_user_place_from(d.users, n, 0);
    lemma_user_place_from(after.users, n, 0);
    match user_place(d.users, n) {
        Some(i) => {
            assert(same_ignoring_case(after.users[i].username, n));
            match user_place(after.users, n) {
                Some(j) => {
                    assert(same_ignoring_case(d.users[j].username, n));
                    assert(i == j);
                },
                None => {},
            }
        },
        None => {
            match user_place(after.users, n) {
                Some(j) => {
                    assert(same_ignoring_case(d.users[j].username, n));
                },
                None => {},
            }
        },
    }
}

// Reports.

/// A report is opened exactly where person, title and description are not blank;
/// the first that is blank is named, and nothing changes.
pub proof fn lemma_when_a_report_is_opened(
    d: StoreDataView,
    actor: Seq<char>,
    level: i32,
    req: CreateReportRequestView,
    fresh: FreshView,
    after: StoreDataView,
    r: Result<Staged<ReportRecord>, StoreError>,
)
    requires
        create_report_post(d, actor, level, req, fresh, after, r),
    ensures
        ({
            let person = trimmed(req.person).len() > 0;
            let title = trimmed(req.title).len() > 0;
            let description = trimmed(req.description).len() > 0;
            &&& r is Ok <==> person && title && description
            &&& r is Err ==> after == d
            &&& !person ==> refuses(r, StoreErrorKind::BadRequest, "person is required"@)
            &&& person && !title ==> refuses(r, StoreErrorKind::BadRequest, "title is required"@)
            &&& person && title && !description ==> refuses(
                r,
                StoreErrorKind::BadRequest,
                "description is required"@,
            )
        }),
{
}

/// A report that is opened stands behind all others, open, under the number that
/// was next, with the texts of the request, white space around them aside, and
/// with who opened it, their level and the time. The answer is what was stored.
pub proof fn lemma_which_report_is_opened(
    d: StoreDataView,
    actor: Seq<char>,
    level: i32,
    req: CreateReportRequestView,
    fresh: FreshView,
    after: StoreDataView,
    r: Result<Staged<ReportRecord>, StoreError>,
)
    requires
        create_report_post(d, actor, level, req, fresh, after, r),
        r is Ok,
    ensures
        after.reports.len() == d.reports.len() + 1,
        forall|k: int| 0 <= k < d.reports.len() ==> #[trigger] after.reports[k] == d.reports[k],
        ({
            let x = after.reports.last();
            &&& x.num == next_num(d)
            &&& x.person == trimmed(req.person)
            &&& x.title == trimmed(req.title)
            &&& x.category == trimmed(req.category)
            &&& x.priority == trimmed(req.priority)
            &&& x.description == trimmed(req.description)
            &&& x.opened_by == trimmed(actor)
            &&& x.opened_by_level == Some(level)
            &&& x.created_at_utc == fresh.record_at
            &&& x.closed_by is None
            &&& x.closed_at_utc is None
            &&& x.closing_comments is None
            &&& r->Ok_0.value@ == x
        }),
        after.gpio_config == d.gpio_config,
        after.schema_version == normalized(d).schema_version,
        after.users == normalized(d).users,
        after.next_report_num == crate::numbering::after_allocation(d).next_report_num,
        r->Ok_0.live@ == live_of(after, fresh.live_at),
{
}

/// A text that is given, but blank.
pub open spec fn gives_blank_text(field: Option<Seq<char>>) -> bool {
    field is Some && trimmed(field->0).len() == 0
}

/// A field follows a request: it is the text given, white space around it aside,
/// or what it was.
pub open spec fn follows(after: Seq<char>, given: Option<Seq<char>>, before: Seq<char>) -> bool {
    &&& given is Some ==> after == trimmed(given->0)
    &&& given is None ==> after == before
}

/// The status fields are as they were.
pub open spec fn same_status(a: ReportRecordView, b: ReportRecordView) -> bool {
    &&& a.closed_by == b.closed_by
    &&& a.closed_at_utc == b.closed_at_utc
    &&& a.closing_comments == b.closing_comments
}

/// An update of a report that no report has the number of changes nothing. Any
/// other edits the first report with the number, and no other one, and that keeps
/// its number and its opening.
pub proof fn lemma_which_report_is_updated(
    d: StoreDataView,
    num: u32,
    req: UpdateReportRequestView,
    actor: Seq<char>,
    fresh: FreshView,
    after: StoreDataView,
    r: Result<Option<Staged<ReportRecord>>, StoreError>,
    i: int,
)
    requires
        update_report_post(d, num, req, actor, fresh, after, r),
    ensures
        no_report_has(d.reports, num) ==> after == d && r is Ok && r->Ok_0 is None,
        is_first_report(d.reports, num, i) ==> {
            &&& only_reports_change(d, after)
            &&& after.reports.len() == d.reports.len()
            &&& forall|k: int|
                0 <= k < d.reports.len() && k != i ==> #[trigger] after.reports[k] == d.reports[k]
            &&& after.reports[i].num == num
            &&& after.reports[i].created_at_utc == d.reports[i].created_at_utc
            &&& after.reports[i].opened_by == d.reports[i].opened_by
            &&& after.reports[i].opened_by_level == d.reports[i].opened_by_level
        },
{
    lemma_looking_up_a_report(d, num, i);
}

/// An update without a blank person, title or description is not refused. Each
/// text that it gives is taken, white space around it aside, and each that it does
/// not give stays. The report is closed by the caller at the time, with the
/// comments unless they are blank, or is reopened, or keeps its status. The answer
/// is what was stored.
pub proof fn lemma_how_a_report_is_updated(
    d: StoreDataView,
    num: u32,
    req: UpdateReportRequestView,
    actor: Seq<char>,
    fresh: FreshView,
    after: StoreDataView,
    r: Result<Option<Staged<ReportRecord>>, StoreError>,
    i: int,
)
    requires
        update_report_post(d, num, req, actor, fresh, after, r),
        is_first_report(d.reports, num, i),
        !gives_blank_text(req.person),
        !gives_blank_text(req.title),
        !gives_blank_text(req.description),
    ensures
        r is Ok && r->Ok_0 is Some,
        r->Ok_0->0.value@ == after.reports[i],
        r->Ok_0->0.live@ == live_of(after, fresh.live_at),
        ({
            let (x, y) = (d.reports[i], after.reports[i]);
            &&& follows(y.person, req.person, x.person)
            &&& follows(y.title, req.title, x.title)
            &&& follows(y.category, req.category, x.category)
            &&& follows(y.priority, req.priority, x.priority)
            &&& follows(y.description, req.description, x.description)
            &&& req.closed is None ==> same_status(x, y)
            &&& req.closed == Some(true) ==> {
                &&& y.closed_by == Some(trimmed(actor))
                &&& y.closed_at_utc == Some(fresh.record_at)
                &&& req.closing_comments is None || gives_blank_text(req.closing_comments)
                    ==> y.closing_comments is None
                &&& req.closing_comments is Some && !gives_blank_text(req.closing_comments)
                    ==> y.closing_comments == Some(trimmed(req.closing_comments->0))
            }
            &&& req.closed == Some(false) ==> y.closed_by is None && y.closed_at_utc is None
                && y.closing_comments is None
        }),
{
    lemma_looking_up_a_report(d, num, i);
}

/// An update with a blank person, title or description is refused for the first of
/// them. The texts before it, in the order person, title, category, priority,
/// description, were taken; the rest and the status stay.
pub proof fn lemma_how_an_update_of_a_report_is_refused(
    d: StoreDataView,
    num: u32,
    req: UpdateReportRequestView,
    actor: Seq<char>,
    fresh: FreshView,
    after: StoreDataView,
    r: Result<Option<Staged<ReportRecord>>, StoreError>,
    i: int,
)
    requires
        update_report_post(d, num, req, actor, fresh, after, r),
        is_first_report(d.reports, num, i),
        gives_blank_text(req.person) || gives_blank_text(req.title) || gives_blank_text(
            req.description,
        ),
    ensures
        ({
            let (x, y) = (d.reports[i], after.reports[i]);
            &&& same_status(x, y)
            &&& y.description == x.description
            &&& gives_blank_text(req.person) ==> y == x && refuses(
                r,
                StoreErrorKind::BadRequest,
                "person is required"@,
            )
            &&& !gives_blank_text(req.person) ==> follows(y.person, req.person, x.person)
            &&& !gives_blank_text(req.person) && gives_blank_text(req.title) ==> y.title == x.title
                && y.category == x.category && y.priority == x.priority && refuses(
                r,
                StoreErrorKind::BadRequest,
                "title is required"@,
            )
            &&& !gives_blank_text(req.person) && !gives_blank_text(req.title) ==> follows(
                y.title,
                req.title,
                x.title,
            ) && follows(y.category, req.category, x.category) && follows(
                y.priority,
                req.priority,
                x.priority,
            ) && refuses(r, StoreErrorKind::BadRequest, "description is required"@)
        }),
{
    lemma_looking_up_a_report(d, num, i);
}

/// Deleting takes away the reports with the number and no other, keeps the order of
/// the rest, and says so exactly where there was one.
pub proof fn lemma_what_is_deleted(
    d: StoreDataView,
    num: u32,
    at: Seq<char>,
    after: StoreDataView,
    r: Option<Staged<bool>>,
)
    requires
        delete_report_post(d, num, at, after, r),
    ensures
        r is None <==> no_report_has(d.reports, num),
        r is None ==> after == d,
        r is Some ==> {
            &&& r->0.value
            &&& r->0.live@ == live_of(after, at)
            &&& only_reports_change(d, after)
            &&& after.reports == d.reports.filter(|x: ReportRecordView| x.num != num)
            &&& no_report_has(after.reports, num)
        },
        forall|x: ReportRecordView|
            x.num != num ==> (#[trigger] d.reports.contains(x) <==> after.reports.contains(x)),
{
    lemma_looking_up_a_report(d, num, 0);
    lemma_report_place_from(d.reports, num, 0);
    if r is Some {
        let keep = |x: ReportRecordView| x.num != num;
        lemma_filter_keeps(d.reports, keep);
        assert(after.reports == d.reports.filter(keep));
        assert forall|k: int| 0 <= k < after.reports.len() implies (#[trigger] after.reports[k]).num
            != num by {
            assert(keep(d.reports.filter(keep)[k]));
        }
        assert forall|x: ReportRecordView| x.num != num implies (#[trigger] d.reports.contains(x)
            <==> after.reports.contains(x)) by {
            assert(keep(x));
            assert(d.reports.filter(keep).contains(x) <==> d.reports.contains(x));
        }
    }
}

/// Filtering keeps exactly the items that pass.
pub(crate) proof fn lemma_filter_keeps<T>(s: Seq<T>, keep: spec_fn(T) -> bool)
    ensures
        forall|k: int| 0 <= k < s.filter(keep).len() ==> keep(#[trigger] s.filter(keep)[k]),
        forall|x: T|
            keep(x) ==> (#[trigger] s.filter(keep).contains(x) <==> s.contains(x)),
        s.filter(keep).len() <= s.len(),
    decreases s.len(),
{
    reveal(Seq::filter);
    if s.len() > 0 {
        let init = s.drop_last();
        let last = s.last();
        lemma_filter_keeps(init, keep);
        let (a, b) = (init.filter(keep), s.filter(keep));
        assert(b == if keep(last) {
            a.push(last)
        } else {
            a
        });
        assert forall|k: int| 0 <= k < b.len() implies keep(#[trigger] b[k]) by {
            if k < a.len() {
                assert(keep(a[k]));
            }
        }
        assert forall|x: T| keep(x) implies (#[trigger] b.contains(x) <==> s.contains(x)) by {
            assert(a.contains(x) <==> init.contains(x));
            if b.contains(x) {
                let k = choose|k: int| 0 <= k < b.len() && b[k] == x;
                if k < a.len() {
                    assert(a[k] == x);
                    assert(a.contains(x));
                    let m = choose|m: int| 0 <= m < init.len() && init[m] == x;
                    assert(s[m] == x);
                } else {
                    assert(s[s.len() - 1] == x);
                }
            }
            if s.contains(x) {
                let k = choose|k: int| 0 <= k < s.len() && s[k] == x;
                if k < init.len() {
                    assert(init[k] == x);
                    assert(init.contains(x));
                    let m = choose|m: int| 0 <= m < a.len() && a[m] == x;
                    assert(b[m] == x);
                } else {
                    assert(b[b.len() - 1] == x);
                }
            }
        }
    }
}

// Pins.

/// A pin assignment is stored, as it was given, exactly where it is sound; nothing
/// else changes, and a refusal changes nothing.
pub proof fn lemma_which_pins_are_stored(
    d: StoreDataView,
    cfg: GpioConfig,
    at: Seq<char>,
    after: StoreDataView,
    r: Result<Staged<GpioConfig>, StoreError>,
)
    requires
        set_gpio_post(d, cfg, at, after, r),
    ensures
        r is Ok <==> gpio_sound(cfg),
        r is Err ==> after == d && r->Err_0@.kind == StoreErrorKind::BadRequest,
        r is Ok ==> {
            &&& after.gpio_config == cfg
            &&& after.users == d.users
            &&& after.reports == d.reports
            &&& after.schema_version == d.schema_version
            &&& after.next_report_num == d.next_report_num
            &&& r->Ok_0.value == cfg
            &&& r->Ok_0.live@ == live_of(after, at)
        },
{
    crate::gpio::lemma_gpio_fault_iff_unsound(cfg);
}

// Lists.

/// A list of all users shows every user once, by name in lower case, and users
/// whose names are the same in lower case in the order in which they were stored.
pub proof fn lemma_how_users_are_listed(users: Seq<UserRecordView>, out: Seq<UserPublicView>)
    requires
        is_stable_sort(public_views(users), out, by_name()),
    ensures
        out.to_multiset() == users.map_values(
            |u: UserRecordView|
                UserPublicView { username: u.username, rfid_uid: u.rfid_uid, level: u.level },
        ).to_multiset(),
        forall|i: int, j: int|
            0 <= i < j < out.len() ==> !text_before(
                unicode_lower((#[trigger] out[j]).username),
                unicode_lower((#[trigger] out[i]).username),
            ),
        exists|p: Seq<int>| #[trigger] lists_stably(users, out, p),
{
    let shown = users.map_values(
        |u: UserRecordView|
            UserPublicView { username: u.username, rfid_uid: u.rfid_uid, level: u.level },
    );
    assert(shown =~= public_views(users));
    lemma_by_name_is_order();
    lemma_stable_sort_keeps_items(public_views(users), out, by_name());
    let before = by_name();
    assert forall|i: int, j: int| 0 <= i < j < out.len() implies !text_before(
        unicode_lower((#[trigger] out[j]).username),
        unicode_lower((#[trigger] out[i]).username),
    ) by {
        assert(!before(out[j], out[i]));
    }
    let p = choose|p: Seq<int>| sorts_stably_by(public_views(users), out, before, p);
    assert forall|i: int| 0 <= i < p.len() implies 0 <= #[trigger] p[i] < users.len()
        && out[i].username == users[p[i]].username && out[i].rfid_uid == users[p[i]].rfid_uid
        && out[i].level == users[p[i]].level by {
        assert(out[i] == public_views(users)[p[i]]);
    }
    assert forall|i: int, j: int|
        0 <= i < j < p.len() && unicode_lower(users[#[trigger] p[i]].username) == unicode_lower(
            users[#[trigger] p[j]].username,
        ) implies p[i] < p[j] by {
        let (a, b) = (public_views(users)[p[i]], public_views(users)[p[j]]);
        crate::text::lemma_text_before_order(
            unicode_lower(a.username),
            unicode_lower(a.username),
            unicode_lower(a.username),
        );
        assert(crate::order::stands_before(public_views(users), before, p[i], p[j]));
    }
    assert(lists_stably(users, out, p));
}

/// The places at which the listed users were stored: users whose names are the
/// same in lower case keep their order.
pub open spec fn lists_stably(
    users: Seq<UserRecordView>,
    out: Seq<UserPublicView>,
    p: Seq<int>,
) -> bool {
    &&& p.len() == users.len()
    &&& out.len() == users.len()
    &&& forall|i: int|
        0 <= i < p.len() ==> 0 <= #[trigger] p[i] < users.len() && out[i].username
            == users[p[i]].username && out[i].rfid_uid == users[p[i]].rfid_uid && out[i].level
            == users[p[i]].level
    &&& forall|i: int, j: int|
        0 <= i < j < p.len() && unicode_lower(users[#[trigger] p[i]].username) == unicode_lower(
            users[#[trigger] p[j]].username,
        ) ==> p[i] < p[j]
}

/// A list of all reports shows every report once, the highest number first.
pub proof fn lemma_how_reports_are_listed(
    reports: Seq<ReportRecordView>,
    out: Seq<ReportRecordView>,
)
    requires
        is_stable_sort(reports, out, by_num_descending()),
    ensures
        out.to_multiset() == reports.to_multiset(),
        forall|i: int, j: int|
            0 <= i < j < out.len() ==> (#[trigger] out[i]).num >= (#[trigger] out[j]).num,
{
    lemma_by_num_is_order();
    lemma_stable_sort_keeps_items(reports, out, by_num_descending());
    let before = by_num_descending();
    assert forall|i: int, j: int| 0 <= i < j < out.len() implies (#[trigger] out[i]).num >= (
    #[trigger] out[j]).num by {
        assert(!before(out[j], out[i]));
    }
}

/// Reports with the same number are listed in the order in which they were stored.
pub proof fn lemma_reports_are_listed_stably(
    reports: Seq<ReportRecordView>,
    out: Seq<ReportRecordView>,
)
    requires
        is_stable_sort(reports, out, by_num_descending()),
    ensures
        exists|p: Seq<int>| #[trigger] lists_reports_stably(reports, out, p),
{
    let before = by_num_descending();
    let p = choose|p: Seq<int>| sorts_stably_by(reports, out, before, p);
    assert forall|i: int, j: int|
        0 <= i < j < p.len() && reports[#[trigger] p[i]].num
            == reports[#[trigger] p[j]].num implies p[i] < p[j] by {
        assert(crate::order::stands_before(reports, before, p[i], p[j]));
    }
    assert(lists_reports_stably(reports, out, p));
}

/// The places at which the listed reports were stored: reports with the same number
/// keep their order.
pub open spec fn lists_reports_stably(
    reports: Seq<ReportRecordView>,
    out: Seq<ReportRecordView>,
    p: Seq<int>,
) -> bool {
    &&& p.len() == reports.len()
    &&& out.len() == reports.len()
    &&& forall|i: int|
        0 <= i < p.len() ==> 0 <= #[trigger] p[i] < reports.len() && out[i] == reports[p[i]]
    &&& forall|i: int, j: int|
        0 <= i < j < p.len() && reports[#[trigger] p[i]].num == reports[#[trigger] p[j]].num
            ==> p[i] < p[j]
}

} // verus!
