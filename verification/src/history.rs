//! The store over time: what each change makes of the data, and what holds of
//! the data whatever changes are made.

use vstd::prelude::*;

use crate::fresh::FreshView;
use crate::gpio::{gpio_fault, gpio_sound, lemma_gpio_fault_iff_unsound, pin_slots};
use crate::models::{
    normal_level, CreateReportRequestView, CreateUserRequestView, GpioConfig, ReportRecord,
    ReportRecordView, StoreData, StoreDataView, UpdateReportRequestView, UpdateUserRequestView,
    UserPublic, UserRecordView, LEVEL_BASIC,
};
use crate::numbering::{
    is_report_num, lemma_next_num, lemma_normalized_twice, next_num, normalized, with_normal_level,
    REPORT_NUM_COUNT,
};
use crate::store::{
    create_report_error, create_report_post, create_user_error, create_user_post,
    delete_report_post, lemma_report_place_from, lemma_user_place_from, live_of, new_report,
    new_user, open_count, opened_data, report_numbered, report_place, set_gpio_post,
    update_report_post, update_user_error, update_user_post, updated_passcode_hash, updated_report,
    user_named, user_place, with_new_basics, with_new_report, with_new_status, with_new_user,
    with_report, with_user, without_num, without_report, Loaded, Staged, StoreError,
};
use crate::text::{lemma_same_ignoring_case_equivalence, same_ignoring_case, trimmed};

verus! {

/// A change that was asked for, with what it takes from outside.
#[allow(inconsistent_fields)]
pub enum Change {
    SetGpio { cfg: GpioConfig },
    CreateUser { req: CreateUserRequestView, fresh: FreshView },
    UpdateUser { name: Seq<char>, req: UpdateUserRequestView, fresh: FreshView },
    CreateReport {
        actor: Seq<char>,
        level: i32,
        req: CreateReportRequestView,
        fresh: FreshView,
    },
    UpdateReport {
        num: u32,
        req: UpdateReportRequestView,
        actor: Seq<char>,
        fresh: FreshView,
    },
    DeleteReport { num: u32 },
}

/// The data after a change was asked for, whether it was refused or not.
pub open spec fn applied(d: StoreDataView, change: Change) -> StoreDataView {
    match change {
        Change::SetGpio { cfg } => if gpio_fault(cfg) is None {
            StoreDataView { gpio_config: cfg, ..d }
        } else {
            d
        },
        Change::CreateUser { req, fresh } => if create_user_error(d, req, fresh.salt) is None {
            with_new_user(d, req, fresh)
        } else {
            d
        },
        Change::UpdateUser { name, req, fresh } => if update_user_error(name, req) is Some {
            d
        } else {
            match user_place(d.users, trimmed(name)) {
                None => d,
                Some(i) => {
                    let u = with_new_basics(d.users[i], req);
                    match updated_passcode_hash(u, req, fresh.salt) {
                        Err(_) => with_user(d, i, u),
                        Ok(h) => with_user(d, i, UserRecordView { passcode_hash: h, ..u }),
                    }
                },
            }
        },
        Change::CreateReport { actor, level, req, fresh } => if create_report_error(req) is None {
            with_new_report(d, actor, level, req, fresh)
        } else {
            d
        },
        Change::UpdateReport { num, req, actor, fresh } => match report_place(d.reports, num) {
            None => d,
            Some(i) => with_report(
                d,
                i,
                updated_report(d.reports[i], req, actor, fresh.record_at).0,
            ),
        },
        Change::DeleteReport { num } => if report_place(d.reports, num) is None {
            d
        } else {
            without_report(d, num)
        },
    }
}

/// Every operation of the store makes the change that its name tells.
pub proof fn lemma_operations_are_changes()
    ensures
        forall|
            d: StoreDataView,
            cfg: GpioConfig,
            at: Seq<char>,
            after: StoreDataView,
            r: Result<Staged<GpioConfig>, StoreError>,
        | #[trigger]
            set_gpio_post(d, cfg, at, after, r) ==> after == applied(d, Change::SetGpio { cfg }),
        forall|
            d: StoreDataView,
            req: CreateUserRequestView,
            fresh: FreshView,
            after: StoreDataView,
            r: Result<Staged<UserPublic>, StoreError>,
        | #[trigger]
            create_user_post(d, req, fresh, after, r) ==> after == applied(
                d,
                Change::CreateUser { req, fresh },
            ),
        forall|
            d: StoreDataView,
            name: Seq<char>,
            req: UpdateUserRequestView,
            fresh: FreshView,
            after: StoreDataView,
            r: Result<Option<Staged<UserPublic>>, StoreError>,
        | #[trigger]
            update_user_post(d, name, req, fresh, after, r) ==> after == applied(
                d,
                Change::UpdateUser { name, req, fresh },
            ),
        forall|
            d: StoreDataView,
            actor: Seq<char>,
            level: i32,
            req: CreateReportRequestView,
            fresh: FreshView,
            after: StoreDataView,
            r: Result<Staged<ReportRecord>, StoreError>,
        | #[trigger]
            create_report_post(d, actor, level, req, fresh, after, r) ==> after == applied(
                d,
                Change::CreateReport { actor, level, req, fresh },
            ),
        forall|
            d: StoreDataView,
            num: u32,
            req: UpdateReportRequestView,
            actor: Seq<char>,
            fresh: FreshView,
            after: StoreDataView,
            r: Result<Option<Staged<ReportRecord>>, StoreError>,
        | #[trigger]
            update_report_post(d, num, req, actor, fresh, after, r) ==> after == applied(
                d,
                Change::UpdateReport { num, req, actor, fresh },
            ),
        forall|
            d: StoreDataView,
            num: u32,
            at: Seq<char>,
            after: StoreDataView,
            r: Option<Staged<bool>>,
        | #[trigger]
            delete_report_post(d, num, at, after, r) ==> after == applied(
                d,
                Change::DeleteReport { num },
            ),
{
}

/// The snapshot that a change leads to, and that is published once the change is
/// written, is that of the data after the change.
pub proof fn lemma_published_snapshot_is_current()
    ensures
        forall|
            d: StoreDataView,
            cfg: GpioConfig,
            at: Seq<char>,
            after: StoreDataView,
            r: Result<Staged<GpioConfig>, StoreError>,
        | #[trigger]
            set_gpio_post(d, cfg, at, after, r) && r is Ok ==> r->Ok_0.live@ == live_of(after, at),
        forall|
            d: StoreDataView,
            req: CreateUserRequestView,
            fresh: FreshView,
            after: StoreDataView,
            r: Result<Staged<UserPublic>, StoreError>,
        | #[trigger]
            create_user_post(d, req, fresh, after, r) && r is Ok ==> r->Ok_0.live@ == live_of(
                after,
                fresh.live_at,
            ),
        forall|
            d: StoreDataView,
            name: Seq<char>,
            req: UpdateUserRequestView,
            fresh: FreshView,
            after: StoreDataView,
            r: Result<Option<Staged<UserPublic>>, StoreError>,
        | #[trigger]
            update_user_post(d, name, req, fresh, after, r) && r is Ok && r->Ok_0 is Some
                ==> r->Ok_0->0.live@ == live_of(after, fresh.live_at),
        forall|
            d: StoreDataView,
            actor: Seq<char>,
            level: i32,
            req: CreateReportRequestView,
            fresh: FreshView,
            after: StoreDataView,
            r: Result<Staged<ReportRecord>, StoreError>,
        | #[trigger]
            create_report_post(d, actor, level, req, fresh, after, r) && r is Ok
                ==> r->Ok_0.live@ == live_of(after, fresh.live_at),
        forall|
            d: StoreDataView,
            num: u32,
            req: UpdateReportRequestView,
            actor: Seq<char>,
            fresh: FreshView,
            after: StoreDataView,
            r: Result<Option<Staged<ReportRecord>>, StoreError>,
        | #[trigger]
            update_report_post(d, num, req, actor, fresh, after, r) && r is Ok && r->Ok_0 is Some
                ==> r->Ok_0->0.live@ == live_of(after, fresh.live_at),
        forall|
            d: StoreDataView,
            num: u32,
            at: Seq<char>,
            after: StoreDataView,
            r: Option<Staged<bool>>,
        | #[trigger]
            delete_report_post(d, num, at, after, r) && r is Some ==> r->0.live@ == live_of(
                after,
                at,
            ),
{
}

// What holds at all times.

/// Data that repair leaves as it is.
pub open spec fn is_repaired(d: StoreDataView) -> bool {
    normalized(d) == d
}

/// No two users have the same name up to ASCII case.
pub open spec fn unique_names(users: Seq<UserRecordView>) -> bool {
    forall|i: int, j: int|
        0 <= i < j < users.len() ==> !same_ignoring_case(
            (#[trigger] users[i]).username,
            (#[trigger] users[j]).username,
        )
}

/// Basic users have no passcode.
pub open spec fn basic_without_passcode(users: Seq<UserRecordView>) -> bool {
    forall|i: int|
        0 <= i < users.len() && (#[trigger] users[i]).level == LEVEL_BASIC
            ==> users[i].passcode_hash is None
}

/// Every report has a number of six digits.
pub open spec fn six_digit_nums(reports: Seq<ReportRecordView>) -> bool {
    forall|i: int| 0 <= i < reports.len() ==> is_report_num((#[trigger] reports[i]).num)
}

/// No two reports have the same number.
pub open spec fn unique_nums(reports: Seq<ReportRecordView>) -> bool {
    forall|i: int, j: int|
        0 <= i < j < reports.len() ==> (#[trigger] reports[i]).num != (#[trigger] reports[j]).num
}

/// What holds of the data at all times: it is repaired, names are unique, basic
/// users have no passcode, report numbers have six digits, and the pin
/// assignment is sound.
pub open spec fn store_holds(d: StoreDataView) -> bool {
    &&& is_repaired(d)
    &&& unique_names(d.users)
    &&& basic_without_passcode(d.users)
    &&& six_digit_nums(d.reports)
    &&& gpio_sound(d.gpio_config)
}

/// A store that was opened is repaired, and an empty one is in order.
pub proof fn lemma_opened_store(loaded: Loaded)
    ensures
        is_repaired(opened_data(loaded)),
        !(loaded is Data) ==> store_holds(opened_data(loaded)) && unique_nums(
            opened_data(loaded).reports,
        ),
{
    match loaded {
        Loaded::Data(d) => lemma_normalized_twice(d@),
        _ => {
            let e = StoreDataView::empty();
            assert(normalized(e).users =~= e.users);
            assert forall|i: int| 0 <= i < pin_slots(e.gpio_config).len() implies (
            #[trigger] pin_slots(e.gpio_config)[i]).1 is None by {}
        },
    }
}

proof fn lemma_repaired_users(d: StoreDataView, i: int)
    requires
        is_repaired(d),
        0 <= i < d.users.len(),
    ensures
        normal_level(d.users[i].level) == d.users[i].level,
{
    assert(normalized(d).users[i] == with_normal_level(d.users[i]));
}

proof fn lemma_repaired_by_level(d: StoreDataView)
    requires
        d.schema_version != 0,
        is_report_num(d.next_report_num),
        forall|i: int|
            0 <= i < d.users.len() ==> normal_level((#[trigger] d.users[i]).level)
                == d.users[i].level,
    ensures
        is_repaired(d),
{
    assert(normalized(d).users =~= d.users);
}

/// Whatever change is asked for, repaired data stays repaired, unique names stay
/// unique, basic users stay without passcode, report numbers keep six digits,
/// and a sound pin assignment stays sound.
pub proof fn lemma_change_keeps_order(d: StoreDataView, change: Change)
    ensures
        is_repaired(d) ==> is_repaired(applied(d, change)),
        unique_names(d.users) ==> unique_names(applied(d, change).users),
        is_repaired(d) && basic_without_passcode(d.users) ==> basic_without_passcode(
            applied(d, change).users,
        ),
        six_digit_nums(d.reports) ==> six_digit_nums(applied(d, change).reports),
        gpio_sound(d.gpio_config) ==> gpio_sound(applied(d, change).gpio_config),
        store_holds(d) ==> store_holds(applied(d, change)),
{
    let after = applied(d, change);
    if is_repaired(d) {
        assert forall|i: int| 0 <= i < d.users.len() implies normal_level(
            (#[trigger] d.users[i]).level,
        ) == d.users[i].level by {
            lemma_repaired_users(d, i);
        }
    }
    match change {
        Change::SetGpio { cfg } => {
            lemma_gpio_fault_iff_unsound(cfg);
            assert(is_repaired(d) ==> normalized(after).users =~= after.users);
        },
        Change::CreateUser { req, fresh } => {
            if create_user_error(d, req, fresh.salt) is None {
                let u = new_user(req, fresh);
                lemma_user_place_from(d.users, u.username, 0);
                if is_repaired(d) {
                    lemma_repaired_by_level(after);
                }
                if unique_names(d.users) {
                    assert forall|i: int, j: int|
                        0 <= i < j < after.users.len() implies !same_ignoring_case(
                        (#[trigger] after.users[i]).username,
                        (#[trigger] after.users[j]).username,
                    ) by {
                        if j == d.users.len() {
                            assert(!same_ignoring_case(d.users[i].username, u.username));
                        }
                    }
                }
            }
        },
        Change::UpdateUser { name, req, fresh } => {
            lemma_user_place_from(d.users, trimmed(name), 0);
            if update_user_error(name, req) is None && user_place(d.users, trimmed(name)) is Some {
                if is_repaired(d) {
                    lemma_repaired_by_level(after);
                }
                assert forall|i: int| 0 <= i < d.users.len() implies (
                #[trigger] after.users[i]).username == d.users[i].username by {}
            }
        },
        Change::CreateReport { actor, level, req, fresh } => {
            if create_report_error(req) is None {
                lemma_next_num(d);
                assert forall|i: int| 0 <= i < d.users.len() implies (
                #[trigger] after.users[i]).username == d.users[i].username by {}
                if is_repaired(d) {
                    assert(after.users == d.users);
                    lemma_repaired_by_level(after);
                }
            }
        },
        Change::UpdateReport { num, req, actor, fresh } => {
            lemma_report_place_from(d.reports, num, 0);
            assert(is_repaired(d) ==> normalized(after).users =~= after.users);
        },
        Change::DeleteReport { num } => {
            assert(is_repaired(d) ==> normalized(after).users =~= after.users);
            lemma_without_num(d.reports, num);
        },
    }
}

/// Reports keep their numbers apart, whatever change is asked for, while there
/// are numbers left.
pub proof fn lemma_change_keeps_numbers_apart(d: StoreDataView, change: Change)
    requires
        unique_nums(d.reports),
        d.reports.len() < REPORT_NUM_COUNT,
    ensures
        unique_nums(applied(d, change).reports),
        applied(d, change).reports.len() <= d.reports.len() + 1,
{
    match change {
        Change::CreateReport { actor, level, req, fresh } => {
            lemma_next_num(d);
        },
        Change::UpdateReport { num, req, actor, fresh } => {
            lemma_report_place_from(d.reports, num, 0);
        },
        Change::DeleteReport { num } => {
            lemma_without_num(d.reports, num);
        },
        _ => {},
    }
}

/// What deleting by number leaves: reports that were there, in their order, and
/// all that have another number.
proof fn lemma_without_num(reports: Seq<ReportRecordView>, num: u32)
    ensures
        without_num(reports, num).len() <= reports.len(),
        forall|i: int|
            0 <= i < without_num(reports, num).len() ==> (#[trigger] without_num(
                reports,
                num,
            )[i]).num != num && reports.contains(without_num(reports, num)[i]),
        unique_nums(reports) ==> unique_nums(without_num(reports, num)),
        forall|m: u32| m != num ==> #[trigger] first_with(without_num(reports, num), m)
            == first_with(reports, m),
        first_with(without_num(reports, num), num) is None,
        six_digit_nums(reports) ==> six_digit_nums(without_num(reports, num)),
    decreases reports.len(),
{
    let keep = |r: ReportRecordView| r.num != num;
    let rest = without_num(reports, num);
    reveal(Seq::filter);
    if reports.len() > 0 {
        let init = reports.drop_last();
        let last = reports.last();
        lemma_without_num(init, num);
        assert(init.push(last) =~= reports);
        assert forall|r: ReportRecordView| init.contains(r) implies reports.contains(r) by {
            let k = choose|k: int| 0 <= k < init.len() && init[k] == r;
            assert(reports[k] == r);
        }
        assert(reports.contains(last)) by {
            assert(reports[reports.len() - 1] == last);
        }
        assert forall|m: u32| #[trigger] first_with(reports, m) == (match first_with(init, m) {
            Some(r) => Some(r),
            None => if last.num == m {
                Some(last)
            } else {
                None
            },
        }) by {
            lemma_first_with_push(init, last, m);
        }
        if last.num != num {
            assert(rest == without_num(init, num).push(last));
            assert forall|m: u32| #[trigger] first_with(rest, m) == (match first_with(
                without_num(init, num),
                m,
            ) {
                Some(r) => Some(r),
                None => if last.num == m {
                    Some(last)
                } else {
                    None
                },
            }) by {
                lemma_first_with_push(without_num(init, num), last, m);
            }
            if unique_nums(reports) {
                assert(unique_nums(init)) by {
                    assert forall|i: int, j: int| 0 <= i < j < init.len() implies (
                    #[trigger] init[i]).num != (#[trigger] init[j]).num by {
                        assert(reports[i].num != reports[j].num);
                    }
                }
                assert forall|i: int, j: int| 0 <= i < j < rest.len() implies (
                #[trigger] rest[i]).num != (#[trigger] rest[j]).num by {
                    if j == rest.len() - 1 {
                        assert(init.contains(rest[i]));
                        let k = choose|k: int| 0 <= k < init.len() && init[k] == rest[i];
                        assert(reports[k].num != reports[reports.len() - 1].num);
                    }
                }
            }
        } else {
            assert(rest == without_num(init, num));
            if unique_nums(reports) {
                assert forall|i: int, j: int| 0 <= i < j < init.len() implies (
                #[trigger] init[i]).num != (#[trigger] init[j]).num by {
                    assert(reports[i].num != reports[j].num);
                }
            }
        }
        if six_digit_nums(reports) {
            assert forall|i: int| 0 <= i < init.len() implies is_report_num(
                (#[trigger] init[i]).num,
            ) by {
                assert(is_report_num(reports[i].num));
            }
            assert(is_report_num(reports[reports.len() - 1].num));
        }
    }
}

/// The first report that has the number.
pub open spec fn first_with(reports: Seq<ReportRecordView>, num: u32) -> Option<ReportRecordView> {
    match report_place(reports, num) {
        Some(i) => Some(reports[i]),
        None => None,
    }
}

proof fn lemma_first_with_push(reports: Seq<ReportRecordView>, r: ReportRecordView, num: u32)
    ensures
        first_with(reports.push(r), num) == (match first_with(reports, num) {
            Some(x) => Some(x),
            None => if r.num == num {
                Some(r)
            } else {
                None
            },
        }),
{
    let after = reports.push(r);
    lemma_report_place_from(reports, num, 0);
    lemma_report_place_from(after, num, 0);
    assert(after[reports.len() as int] == r);
    assert forall|k: int| 0 <= k < reports.len() implies #[trigger] after[k] == reports[k] by {}
    match report_place(after, num) {
        Some(i) => {
            match report_place(reports, num) {
                Some(j) => {
                    assert(after[j].num == num);
                    assert(i < reports.len() ==> reports[i].num == num);
                },
                None => {
                    assert(i < reports.len() ==> reports[i].num == num);
                },
            }
        },
        None => {
            match report_place(reports, num) {
                Some(j) => {
                    assert(after[j].num == num);
                },
                None => {},
            }
        },
    }
}

/// The data after a sequence of changes.
pub open spec fn after_all(d: StoreDataView, changes: Seq<Change>) -> StoreDataView
    decreases changes.len(),
{
    if changes.len() == 0 {
        d
    } else {
        applied(after_all(d, changes.drop_last()), changes.last())
    }
}

/// Whatever changes are asked for, one after the other, data that was repaired
/// stays so; what holds of the data holds at the end; and reports have different
/// numbers as long as the numbers suffice.
pub proof fn lemma_history_keeps_order(d: StoreDataView, changes: Seq<Change>)
    ensures
        is_repaired(d) ==> is_repaired(after_all(d, changes)),
        store_holds(d) ==> store_holds(after_all(d, changes)),
        unique_nums(d.reports) && d.reports.len() + changes.len() <= REPORT_NUM_COUNT
            ==> unique_nums(after_all(d, changes).reports) && after_all(d, changes).reports.len()
            <= d.reports.len() + changes.len(),
    decreases changes.len(),
{
    if changes.len() > 0 {
        let before = after_all(d, changes.drop_last());
        lemma_history_keeps_order(d, changes.drop_last());
        lemma_change_keeps_order(before, changes.last());
        if unique_nums(d.reports) && d.reports.len() + changes.len() <= REPORT_NUM_COUNT {
            lemma_change_keeps_numbers_apart(before, changes.last());
        }
    }
}

/// A store that is opened on data that a store held, however it was opened and
/// whatever changes it saw, holds the same data.
pub proof fn lemma_reopening_keeps_the_data(
    loaded: Loaded,
    changes: Seq<Change>,
    data: StoreData,
)
    requires
        data@ == after_all(opened_data(loaded), changes),
    ensures
        opened_data(Loaded::Data(data)) == data@,
{
    lemma_opened_store(loaded);
    lemma_history_keeps_order(opened_data(loaded), changes);
}

// Reading what was written.

/// A user who was created is found under the name that was asked for, in any
/// ASCII case; users with other names are found as before.
pub proof fn lemma_created_user_is_found(
    d: StoreDataView,
    req: CreateUserRequestView,
    fresh: FreshView,
    name: Seq<char>,
)
    requires
        create_user_error(d, req, fresh.salt) is None,
    ensures
        same_ignoring_case(trimmed(name), trimmed(req.username)) ==> user_named(
            with_new_user(d, req, fresh),
            name,
        ) == Some(new_user(req, fresh)),
        !same_ignoring_case(trimmed(name), trimmed(req.username)) ==> user_named(
            with_new_user(d, req, fresh),
            name,
        ) == user_named(d, name),
{
    let u = new_user(req, fresh);
    let after = with_new_user(d, req, fresh).users;
    let n = trimmed(name);
    lemma_user_place_from(d.users, u.username, 0);
    lemma_user_place_from(d.users, n, 0);
    lemma_user_place_from(after, n, 0);
    lemma_same_ignoring_case_equivalence(n, u.username, n);
    assert(after[d.users.len() as int] == u);
    assert forall|k: int| 0 <= k < d.users.len() implies #[trigger] after[k] == d.users[k] by {}
    if same_ignoring_case(n, u.username) {
        assert forall|k: int| 0 <= k < d.users.len() implies !same_ignoring_case(
            (#[trigger] d.users[k]).username,
            n,
        ) by {
            lemma_same_ignoring_case_equivalence(d.users[k].username, n, u.username);
        }
        match user_place(after, n) {
            Some(i) => {
                assert(i < d.users.len() ==> after[i].username == d.users[i].username);
            },
            None => {
                assert(same_ignoring_case(after[d.users.len() as int].username, n));
            },
        }
    } else {
        lemma_same_ignoring_case_equivalence(u.username, n, n);
        match user_place(after, n) {
            Some(i) => {
                assert(i < d.users.len());
                match user_place(d.users, n) {
                    Some(j) => {
                        assert(same_ignoring_case(after[j].username, n));
                        assert(same_ignoring_case(d.users[i].username, n));
                    },
                    None => {
                        assert(same_ignoring_case(d.users[i].username, n));
                    },
                }
            },
            None => {
                match user_place(d.users, n) {
                    Some(j) => {
                        assert(same_ignoring_case(after[j].username, n));
                    },
                    None => {},
                }
            },
        }
    }
}

/// An update of a user leaves users with other names as they were, and nobody's
/// name changes.
pub proof fn lemma_update_touches_one_user(
    d: StoreDataView,
    name: Seq<char>,
    req: UpdateUserRequestView,
    fresh: FreshView,
    other: Seq<char>,
)
    ensures
        !same_ignoring_case(trimmed(name), trimmed(other)) ==> user_named(
            applied(d, Change::UpdateUser { name, req, fresh }),
            other,
        ) == user_named(d, other),
        applied(d, Change::UpdateUser { name, req, fresh }).users.len() == d.users.len(),
        forall|i: int|
            0 <= i < d.users.len() ==> (#[trigger] applied(
                d,
                Change::UpdateUser { name, req, fresh },
            ).users[i]).username == d.users[i].username,
        applied(d, Change::UpdateUser { name, req, fresh }).reports == d.reports,
{
    let after = applied(d, Change::UpdateUser { name, req, fresh });
    let (n, o) = (trimmed(name), trimmed(other));
    lemma_user_place_from(d.users, n, 0);
    lemma_user_place_from(d.users, o, 0);
    lemma_user_place_from(after.users, o, 0);
    if !same_ignoring_case(n, o) && user_place(d.users, n) is Some {
        let i = user_place(d.users, n)->0;
        lemma_same_ignoring_case_equivalence(n, d.users[i].username, o);
        assert(!same_ignoring_case(d.users[i].username, o));
        assert forall|k: int| 0 <= k < d.users.len() implies (#[trigger] after.users[k]).username
            == d.users[k].username by {}
        assert forall|k: int| 0 <= k < d.users.len() && k != i implies #[trigger] after.users[k]
            == d.users[k] by {}
        match user_place(after.users, o) {
            Some(j) => {
                assert(same_ignoring_case(d.users[j].username, o));
                match user_place(d.users, o) {
                    Some(k) => {
                        assert(same_ignoring_case(after.users[k].username, o));
                    },
                    None => {},
                }
            },
            None => {
                match user_place(d.users, o) {
                    Some(k) => {
                        assert(same_ignoring_case(after.users[k].username, o));
                    },
                    None => {},
                }
            },
        }
    }
}

/// A report that was opened is found under its number as long as the numbers
/// suffice; reports with other numbers are found as before.
pub proof fn lemma_opened_report_is_found(
    d: StoreDataView,
    actor: Seq<char>,
    level: i32,
    req: CreateReportRequestView,
    fresh: FreshView,
    num: u32,
)
    ensures
        d.reports.len() < REPORT_NUM_COUNT ==> report_numbered(
            with_new_report(d, actor, level, req, fresh),
            next_num(d),
        ) == Some(new_report(d, actor, level, req, fresh)) && report_numbered(d, next_num(d)) is None,
        num != next_num(d) ==> report_numbered(with_new_report(d, actor, level, req, fresh), num)
            == report_numbered(d, num),
{
    let r = new_report(d, actor, level, req, fresh);
    lemma_next_num(d);
    lemma_first_with_push(d.reports, r, next_num(d));
    lemma_first_with_push(d.reports, r, num);
    lemma_report_place_from(d.reports, next_num(d), 0);
    assert(with_new_report(d, actor, level, req, fresh).reports == d.reports.push(r));
}

/// A report that was deleted is not found; reports with other numbers are found
/// as before.
pub proof fn lemma_deleted_report_is_gone(d: StoreDataView, num: u32, other: u32)
    ensures
        report_numbered(applied(d, Change::DeleteReport { num }), num) is None,
        num != other ==> report_numbered(applied(d, Change::DeleteReport { num }), other)
            == report_numbered(d, other),
{
    lemma_without_num(d.reports, num);
    let after = without_num(d.reports, num);
    assert(first_with(after, num) is None);
    assert(num != other ==> first_with(after, other) == first_with(d.reports, other));
}

/// An update of a report leaves reports with other numbers as they were, and the
/// report keeps its number, when it was opened, and by whom.
pub proof fn lemma_update_touches_one_report(
    d: StoreDataView,
    num: u32,
    req: UpdateReportRequestView,
    actor: Seq<char>,
    fresh: FreshView,
    other: u32,
)
    ensures
        num != other ==> report_numbered(
            applied(d, Change::UpdateReport { num, req, actor, fresh }),
            other,
        ) == report_numbered(d, other),
        report_numbered(d, num) matches Some(r) ==> {
            &&& report_numbered(applied(d, Change::UpdateReport { num, req, actor, fresh }), num)
                == Some(updated_report(r, req, actor, fresh.record_at).0)
            &&& updated_report(r, req, actor, fresh.record_at).0.num == r.num
            &&& updated_report(r, req, actor, fresh.record_at).0.created_at_utc == r.created_at_utc
            &&& updated_report(r, req, actor, fresh.record_at).0.opened_by == r.opened_by
            &&& updated_report(r, req, actor, fresh.record_at).0.opened_by_level
                == r.opened_by_level
        },
{
    let after = applied(d, Change::UpdateReport { num, req, actor, fresh });
    lemma_report_place_from(d.reports, num, 0);
    lemma_report_place_from(d.reports, other, 0);
    lemma_report_place_from(after.reports, num, 0);
    lemma_report_place_from(after.reports, other, 0);
    if report_place(d.reports, num) is Some {
        let i = report_place(d.reports, num)->0;
        assert forall|k: int| 0 <= k < d.reports.len() implies (#[trigger] after.reports[k]).num
            == d.reports[k].num by {}
        assert(after.reports[i].num == num);
        assert forall|k: int| 0 <= k < d.reports.len() && k != i implies #[trigger] after.reports[k]
            == d.reports[k] by {}
        match report_place(after.reports, num) {
            Some(j) => {
                assert(d.reports[j].num == num);
            },
            None => {},
        }
        match report_place(after.reports, other) {
            Some(j) => {
                assert(d.reports[j].num == other);
                match report_place(d.reports, other) {
                    Some(k) => {
                        assert(after.reports[k].num == other);
                    },
                    None => {},
                }
            },
            None => {
                match report_place(d.reports, other) {
                    Some(k) => {
                        assert(after.reports[k].num == other);
                    },
                    None => {},
                }
            },
        }
    }
}

// Closing and reopening.

/// Reopening undoes closing: a report that was open is as it was before.
pub proof fn lemma_reopening_undoes_closing(
    r: ReportRecordView,
    close: UpdateReportRequestView,
    reopen: UpdateReportRequestView,
    actor: Seq<char>,
    again: Seq<char>,
    now: Seq<char>,
    later: Seq<char>,
)
    requires
        close.closed == Some(true),
        reopen.closed == Some(false),
    ensures
        ({
            let closed = with_new_status(r, close, actor, now);
            let reopened = with_new_status(closed, reopen, again, later);
            &&& closed.closed_by == Some(trimmed(actor))
            &&& closed.closed_at_utc == Some(now)
            &&& reopened.closed_by is None
            &&& reopened.closed_at_utc is None
            &&& reopened.closing_comments is None
            &&& r.closed_by is None && r.closed_at_utc is None && r.closing_comments is None
                ==> reopened == r
        }),
{
}

/// The count of open reports is at most the count of reports; a new report
/// raises it by one, and replacing a report changes it as its status changed.
pub proof fn lemma_open_count(reports: Seq<ReportRecordView>, r: ReportRecordView, i: int)
    ensures
        open_count(reports) <= reports.len(),
        open_count(reports.push(r)) == open_count(reports) + open_count(seq![r]),
        0 <= i < reports.len() ==> open_count(reports.update(i, r)) == open_count(reports)
            + open_count(seq![r]) - open_count(seq![reports[i]]),
    decreases reports.len(),
{
    reveal_with_fuel(open_count, 2);
    let init = reports.drop_last();
    assert(reports.push(r).drop_last() =~= reports);
    assert(seq![r].drop_last() =~= Seq::<ReportRecordView>::empty());
    if reports.len() > 0 {
        lemma_open_count(init, r, i);
        if 0 <= i < reports.len() {
            assert(seq![reports[i]].drop_last() =~= Seq::<ReportRecordView>::empty());
        }
        if 0 <= i < init.len() {
            assert(reports.update(i, r).drop_last() =~= init.update(i, r));
        } else if i == init.len() {
            assert(reports.update(i, r).drop_last() =~= init);
        }
    }
}

} // verus!
