//! The store: users, reports and the pin assignment, with the rules on their
//! changes.
//!
//! A change happens in memory first and hands back a [`Staged`] answer; the
//! caller writes the data to disk and settles the change with the outcome.

use vstd::prelude::*;

use crate::clock::{is_instant_text, now_rfc3339};
use crate::fresh::{Fresh, FreshView};
use crate::gpio::{gpio_fault, validate_gpio_config};
use crate::models::{
    normal_level, normalize_level, opt_text, report_views, user_views, AuthLive, AuthLiveView,
    CreateReportRequest, CreateReportRequestView, CreateUserRequest, CreateUserRequestView,
    GpioConfig, LiveCounts, LiveState, LiveStateView, ReportRecord, ReportRecordView, StoreData,
    StoreDataView, UpdateReportRequest, UpdateReportRequestView, UpdateUserRequest,
    UpdateUserRequestView, UserPublic, UserPublicView, UserRecord, UserRecordView, LEVEL_BASIC,
};
use crate::numbering::{
    after_allocation, allocate_report_num, next_num, normalize_store, normalized,
};
use crate::order::{at_places, is_stable_sort, is_strict_weak_order, sorted_places, Ranked};
use crate::auth::login_error;
use crate::passcode::{
    argon2_hash, five_digits, hash_passcode_with, is_five_digit_passcode, is_salt,
    passcode_matches,
};
use crate::text::{
    char_vec, lemma_same_ignoring_case_equivalence, lemma_text_before_order, lemma_trimmed_twice,
    same_ignoring_case, sorts_before, text_before, trimmed, unicode_lower,
};

verus! {

/// What kind of refusal an error is.
#[derive(Clone, Copy, Debug, PartialEq, Eq, Structural)]
pub enum StoreErrorKind {
    /// The request breaks a rule.
    BadRequest,
    /// The request clashes with what is stored.
    Conflict,
    /// The store failed.
    Internal,
}

/// A refusal of the store.
#[derive(Debug)]
pub struct StoreError {
    /// The kind.
    pub kind: StoreErrorKind,
    /// What to tell the caller.
    pub message: String,
}

/// What a [`StoreError`] stands for.
pub struct StoreErrorView {
    pub kind: StoreErrorKind,
    pub message: Seq<char>,
}

impl View for StoreError {
    type V = StoreErrorView;

    open spec fn view(&self) -> StoreErrorView {
        StoreErrorView { kind: self.kind, message: self.message@ }
    }
}

/// A request that breaks a rule.
pub open spec fn bad_request(message: Seq<char>) -> StoreErrorView {
    StoreErrorView { kind: StoreErrorKind::BadRequest, message }
}

/// A request that clashes with what is stored.
pub open spec fn conflict(message: Seq<char>) -> StoreErrorView {
    StoreErrorView { kind: StoreErrorKind::Conflict, message }
}

/// A failure of the store.
pub open spec fn internal(message: Seq<char>) -> StoreErrorView {
    StoreErrorView { kind: StoreErrorKind::Internal, message }
}

impl StoreError {
    /// A request that breaks a rule.
    pub fn bad_request(msg: &str) -> (r: Self)
        ensures
            r@ == bad_request(msg@),
    {
        StoreError { kind: StoreErrorKind::BadRequest, message: msg.to_owned() }
    }

    /// A request that clashes with what is stored.
    pub fn conflict(msg: &str) -> (r: Self)
        ensures
            r@ == conflict(msg@),
    {
        StoreError { kind: StoreErrorKind::Conflict, message: msg.to_owned() }
    }

    /// A failure of the store.
    pub fn internal(msg: &str) -> (r: Self)
        ensures
            r@ == internal(msg@),
    {
        StoreError { kind: StoreErrorKind::Internal, message: msg.to_owned() }
    }

    /// The text of the error: its message.
    pub fn text(&self) -> (r: &str)
        ensures
            r@ == self@.message,
    {
        self.message.as_str()
    }
}

/// What is wrong with a level that is not one to five, nor the old zero.
pub open spec fn level_message() -> Seq<char> {
    "level must be 1 (admin), 2 (junior admin), 3 (moderator), 4 (advanced user), or 5 (basic)"@
}

/// A level that a request may name.
pub open spec fn is_accepted_level(level: i32) -> bool {
    0 <= level <= 5
}

/// Refuses a level that a request may not name.
fn check_level(level: i32) -> (r: Result<(), StoreError>)
    ensures
        is_accepted_level(level) ==> r is Ok,
        !is_accepted_level(level) ==> (r matches Err(e) && e@ == bad_request(level_message())),
{
    if 0 <= level && level <= 5 {
        Ok(())
    } else {
        Err(
            StoreError::bad_request(
                "level must be 1 (admin), 2 (junior admin), 3 (moderator), 4 (advanced user), or 5 (basic)",
            ),
        )
    }
}

/// The place of the first user, from `from` on, who has the name up to ASCII
/// case.
pub open spec fn user_place_from(
    users: Seq<UserRecordView>,
    name: Seq<char>,
    from: int,
) -> Option<int>
    decreases users.len() - from,
{
    if from >= users.len() {
        None
    } else if same_ignoring_case(users[from].username, name) {
        Some(from)
    } else {
        user_place_from(users, name, from + 1)
    }
}

/// The place of the first user who has the name up to ASCII case.
pub open spec fn user_place(users: Seq<UserRecordView>, name: Seq<char>) -> Option<int> {
    user_place_from(users, name, 0)
}

/// The place of the first report, from `from` on, that has the number.
pub open spec fn report_place_from(
    reports: Seq<ReportRecordView>,
    num: u32,
    from: int,
) -> Option<int>
    decreases reports.len() - from,
{
    if from >= reports.len() {
        None
    } else if reports[from].num == num {
        Some(from)
    } else {
        report_place_from(reports, num, from + 1)
    }
}

/// The place of the first report that has the number.
pub open spec fn report_place(reports: Seq<ReportRecordView>, num: u32) -> Option<int> {
    report_place_from(reports, num, 0)
}

pub(crate) proof fn lemma_user_place_from(users: Seq<UserRecordView>, name: Seq<char>, from: int)
    requires
        0 <= from <= users.len(),
    ensures
        match user_place_from(users, name, from) {
            Some(i) => {
                &&& from <= i < users.len()
                &&& same_ignoring_case(users[i].username, name)
                &&& forall|k: int|
                    from <= k < i ==> !same_ignoring_case(#[trigger] users[k].username, name)
            },
            None => forall|k: int|
                from <= k < users.len() ==> !same_ignoring_case(
                    #[trigger] users[k].username,
                    name,
                ),
        },
    decreases users.len() - from,
{
    if from < users.len() {
        lemma_user_place_from(users, name, from + 1);
    }
}

pub(crate) proof fn lemma_report_place_from(reports: Seq<ReportRecordView>, num: u32, from: int)
    requires
        0 <= from <= reports.len(),
    ensures
        match report_place_from(reports, num, from) {
            Some(i) => {
                &&& from <= i < reports.len()
                &&& reports[i].num == num
                &&& forall|k: int| from <= k < i ==> #[trigger] reports[k].num != num
            },
            None => forall|k: int| from <= k < reports.len() ==> #[trigger] reports[k].num != num,
        },
    decreases reports.len() - from,
{
    if from < reports.len() {
        lemma_report_place_from(reports, num, from + 1);
    }
}

/// The place of the first user who has the name up to ASCII case.
fn find_user(users: &Vec<UserRecord>, name: &str) -> (r: Option<usize>)
    ensures
        match r {
            Some(i) => user_place(user_views(users@), name@) == Some(i as int) && i < users@.len(),
            None => user_place(user_views(users@), name@) is None,
        },
{
    let mut i: usize = 0;
    while i < users.len()
        invariant
            i <= users@.len(),
            user_place(user_views(users@), name@) == user_place_from(
                user_views(users@),
                name@,
                i as int,
            ),
        decreases users@.len() - i,
    {
        if users[i].username.as_str().eq_ignore_ascii_case(name) {
            return Some(i);
        }
        i += 1;
    }
    None
}

/// The place of the first report that has the number.
fn find_report(reports: &Vec<ReportRecord>, num: u32) -> (r: Option<usize>)
    ensures
        match r {
            Some(i) => report_place(report_views(reports@), num) == Some(i as int)
                && i < reports@.len(),
            None => report_place(report_views(reports@), num) is None,
        },
{
    let mut i: usize = 0;
    while i < reports.len()
        invariant
            i <= reports@.len(),
            report_place(report_views(reports@), num) == report_place_from(
                report_views(reports@),
                num,
                i as int,
            ),
        decreases reports@.len() - i,
    {
        if reports[i].num == num {
            return Some(i);
        }
        i += 1;
    }
    None
}

/// How many reports are not closed.
pub open spec fn open_count(reports: Seq<ReportRecordView>) -> nat
    decreases reports.len(),
{
    if reports.len() == 0 {
        0
    } else {
        open_count(reports.drop_last()) + if reports.last().closed_at_utc is None {
            1nat
        } else {
            0nat
        }
    }
}

/// The snapshot of a store at a time.
pub open spec fn live_of(d: StoreDataView, now: Seq<char>) -> LiveStateView {
    LiveStateView {
        last_update_utc: now,
        counts: LiveCounts {
            users: d.users.len() as usize,
            reports: d.reports.len() as usize,
            open_reports: open_count(d.reports) as usize,
        },
        auth: AuthLiveView { stage: "None"@, user: None },
        gpio_config: d.gpio_config,
    }
}

/// Takes a snapshot of the store, stamped with a time.
pub fn compute_live_state(d: &StoreData, now: String) -> (r: LiveState)
    ensures
        r@ == live_of(d@, now@),
{
    let mut open: usize = 0;
    let mut i: usize = 0;
    let ghost views = report_views(d.reports@);
    while i < d.reports.len()
        invariant
            views == report_views(d.reports@),
            i <= d.reports@.len(),
            open <= i,
            open == open_count(views.take(i as int)),
        decreases d.reports@.len() - i,
    {
        proof {
            assert(views.take(i + 1).drop_last() =~= views.take(i as int));
            assert(views.take(i + 1).last() == d.reports@[i as int]@);
        }
        if d.reports[i].closed_at_utc.is_none() {
            open += 1;
        }
        i += 1;
    }
    assert(views.take(i as int) =~= views);
    LiveState {
        last_update_utc: now,
        counts: LiveCounts { users: d.users.len(), reports: d.reports.len(), open_reports: open },
        auth: AuthLive { stage: "None".to_owned(), user: None },
        gpio_config: d.gpio_config,
    }
}

/// A change that was made in memory and is still to be written.
#[derive(Debug)]
pub struct Staged<T> {
    /// The answer to give once it is written.
    pub value: T,
    /// The snapshot to publish once it is written.
    pub live: LiveState,
}

/// How reading the stored data went.
#[derive(Debug)]
pub enum Loaded {
    /// It was read.
    Data(StoreData),
    /// There is a file, but it does not hold stored data.
    Invalid,
    /// There is no file.
    Missing,
}

/// The store: what it holds, and the snapshot that was last published.
#[derive(Debug)]
pub struct JsonStore {
    data: StoreData,
    live: LiveState,
}

/// A store that was opened, and what is left to do.
#[derive(Debug)]
pub struct Opened {
    /// The store.
    pub store: JsonStore,
    /// The data must be written.
    pub should_persist: bool,
    /// The file that was read must be kept under another name.
    pub keep_backup: bool,
}

impl JsonStore {
    /// What the store holds.
    pub closed spec fn data(&self) -> StoreDataView {
        self.data@
    }

    /// The snapshot that was last published.
    pub closed spec fn live(&self) -> LiveStateView {
        self.live@
    }

    /// Opens a store on what was read: data is repaired, anything else gives an
    /// empty store, which is to be written.
    pub fn open_with(loaded: Loaded, now: String) -> (r: Opened)
        ensures
            open_post(loaded, now@, r),
            r.store.data() == opened_data(loaded),
            r.store.live() == live_of(opened_data(loaded), now@),
            r.should_persist == !(loaded is Data),
            r.keep_backup == loaded is Invalid,
    {
        let (data, should_persist, keep_backup) = match loaded {
            Loaded::Data(d) => {
                let mut d = d;
                normalize_store(&mut d);
                (d, false, false)
            },
            Loaded::Invalid => (StoreData::default(), true, true),
            Loaded::Missing => (StoreData::default(), true, false),
        };
        let live = compute_live_state(&data, now);
        Opened { store: JsonStore { data, live }, should_persist, keep_backup }
    }

    /// Opens a store on what was read, now.
    pub fn open(loaded: Loaded) -> (r: Opened)
        ensures
            exists|now: Seq<char>| is_instant_text(now) && #[trigger] open_post(loaded, now, r),
            r.store.data() == opened_data(loaded),
            exists|now: Seq<char>|
                is_instant_text(now) && r.store.live() == #[trigger] live_of(
                    opened_data(loaded),
                    now,
                ),
            r.should_persist == !(loaded is Data),
            r.keep_backup == loaded is Invalid,
    {
        JsonStore::open_with(loaded, now_rfc3339())
    }

    /// What the store holds, to be written.
    pub fn store_data(&self) -> (r: &StoreData)
        ensures
            r@ == self.data(),
    {
        &self.data
    }

    /// The snapshot that was last published.
    pub fn subscribe_live(&self) -> (r: LiveState)
        ensures
            r@ == self.live(),
    {
        self.live.clone()
    }

    /// Settles a change with the outcome of writing it: once it is written, its
    /// snapshot is published and its answer given; if not, the change stays in
    /// memory and the caller is told.
    pub fn settle<T>(&mut self, staged: Staged<T>, written: Result<(), String>) -> (r: Result<
        T,
        StoreError,
    >)
        ensures
            settle_post(
                old(self).data(),
                old(self).live(),
                staged,
                written,
                final(self).data(),
                final(self).live(),
                r,
            ),
            final(self).data() == old(self).data(),
            match written {
                Ok(_) => r == Ok::<T, StoreError>(staged.value) && final(self).live()
                    == staged.live@,
                Err(e) => {
                    &&& r matches Err(x) && x@ == internal("failed to persist store: "@ + e@)
                    &&& final(self).live() == old(self).live()
                },
            },
    {
        match written {
            Ok(_) => {
                self.live = staged.live;
                Ok(staged.value)
            },
            Err(e) => {
                let message = "failed to persist store: ".to_owned().concat(e.as_str());
                Err(StoreError::internal(message.as_str()))
            },
        }
    }

    /// The pin assignment.
    pub fn get_gpio_config(&self) -> (r: GpioConfig)
        ensures
            r == self.data().gpio_config,
    {
        self.data.gpio_config
    }

    /// Replaces the pin assignment by a sound one.
    pub fn set_gpio_config_with(&mut self, cfg: GpioConfig, live_at: String) -> (r: Result<
        Staged<GpioConfig>,
        StoreError,
    >)
        ensures
            set_gpio_post(old(self).data(), cfg, live_at@, final(self).data(), r),
            final(self).live() == old(self).live(),
    {
        validate_gpio_config(&cfg)?;
        self.data.gpio_config = cfg;
        let live = compute_live_state(&self.data, live_at);
        Ok(Staged { value: cfg, live })
    }

    /// Replaces the pin assignment by a sound one, now.
    pub fn set_gpio_config(&mut self, cfg: GpioConfig) -> (r: Result<
        Staged<GpioConfig>,
        StoreError,
    >)
        ensures
            exists|live_at: Seq<char>|
                is_instant_text(live_at) && #[trigger] set_gpio_post(
                    old(self).data(),
                    cfg,
                    live_at,
                    final(self).data(),
                    r,
                ),
            final(self).live() == old(self).live(),
    {
        self.set_gpio_config_with(cfg, now_rfc3339())
    }
}

/// What settling a change does.
pub open spec fn settle_post<T>(
    d: StoreDataView,
    live: LiveStateView,
    staged: Staged<T>,
    written: Result<(), String>,
    after_d: StoreDataView,
    after_live: LiveStateView,
    r: Result<T, StoreError>,
) -> bool {
    &&& after_d == d
    &&& match written {
        Ok(_) => r == Ok::<T, StoreError>(staged.value) && after_live == staged.live@,
        Err(e) => {
            &&& r matches Err(x) && x@ == internal("failed to persist store: "@ + e@)
            &&& after_live == live
        },
    }
}

/// What opening a store at a time gives.
pub open spec fn open_post(loaded: Loaded, now: Seq<char>, r: Opened) -> bool {
    &&& r.store.data() == opened_data(loaded)
    &&& r.store.live() == live_of(opened_data(loaded), now)
    &&& r.should_persist == !(loaded is Data)
    &&& r.keep_backup == loaded is Invalid
}

/// What a store holds that was opened on what was read.
pub open spec fn opened_data(loaded: Loaded) -> StoreDataView {
    match loaded {
        Loaded::Data(d) => normalized(d@),
        _ => StoreDataView::empty(),
    }
}

/// What replacing the pin assignment does: a fault is refused and changes
/// nothing.
pub open spec fn set_gpio_post(
    d: StoreDataView,
    cfg: GpioConfig,
    live_at: Seq<char>,
    after: StoreDataView,
    r: Result<Staged<GpioConfig>, StoreError>,
) -> bool {
    match gpio_fault(cfg) {
        Some(message) => {
            &&& r matches Err(e) && e@ == bad_request(message)
            &&& after == d
        },
        None => {
            &&& after == StoreDataView { gpio_config: cfg, ..d }
            &&& r matches Ok(s) && s.value == cfg && s.live@ == live_of(after, live_at)
        },
    }
}

// Users.

/// Users as handed out.
pub open spec fn public_views(users: Seq<UserRecordView>) -> Seq<UserPublicView> {
    users.map_values(|u: UserRecordView| u.public())
}

/// Users go by their names in lower case.
pub open spec fn by_name() -> spec_fn(UserPublicView, UserPublicView) -> bool {
    |a: UserPublicView, b: UserPublicView|
        text_before(unicode_lower(a.username), unicode_lower(b.username))
}

/// Users with their names in lower case.
struct UsersByName<'a> {
    users: &'a Vec<UserRecord>,
    names: Vec<Vec<char>>,
}

impl<'a> Ranked for UsersByName<'a> {
    type Item = UserPublicView;

    closed spec fn items(&self) -> Seq<UserPublicView> {
        public_views(user_views(self.users@))
    }

    closed spec fn before(&self) -> spec_fn(UserPublicView, UserPublicView) -> bool {
        by_name()
    }

    closed spec fn is_ready(&self) -> bool {
        &&& self.names@.len() == self.users@.len()
        &&& forall|i: int|
            0 <= i < self.users@.len() ==> (#[trigger] self.names@[i])@ == unicode_lower(
                self.users@[i].username@,
            )
    }

    proof fn lemma_order(&self) {
        lemma_by_name_is_order();
    }

    fn goes_before(&self, i: usize, j: usize) -> (r: bool) {
        sorts_before(&self.names[i], &self.names[j])
    }
}

/// The order of users by name is a strict weak order.
pub proof fn lemma_by_name_is_order()
    ensures
        is_strict_weak_order(by_name()),
{
    let before = by_name();
    assert forall|a: UserPublicView| !#[trigger] before(a, a) by {
        let n = unicode_lower(a.username);
        lemma_text_before_order(n, n, n);
    }
    assert forall|a: UserPublicView, b: UserPublicView, c: UserPublicView|
        #![trigger before(a, b), before(b, c)]
        (before(a, b) && before(b, c) ==> before(a, c)) && (!before(a, b) && !before(b, c)
            ==> !before(a, c)) by {
        let (x, y, z) = (
            unicode_lower(a.username),
            unicode_lower(b.username),
            unicode_lower(c.username),
        );
        lemma_text_before_order(x, y, z);
        lemma_text_before_order(x, z, y);
        lemma_text_before_order(z, y, x);
        lemma_text_before_order(y, z, x);
        lemma_text_before_order(y, x, z);
    }
}

/// The user with a name, as stored.
pub open spec fn user_named(d: StoreDataView, name: Seq<char>) -> Option<UserRecordView> {
    match user_place(d.users, trimmed(name)) {
        Some(i) => Some(d.users[i]),
        None => None,
    }
}

/// A user who gets a name that nobody had is found under it.
pub(crate) proof fn lemma_new_user_is_found(users: Seq<UserRecordView>, u: UserRecordView)
    requires
        user_place(users, u.username) is None,
    ensures
        user_place(users.push(u), u.username) == Some(users.len() as int),
{
    let after = users.push(u);
    lemma_user_place_from(users, u.username, 0);
    lemma_user_place_from(after, u.username, 0);
    lemma_same_ignoring_case_equivalence(u.username, u.username, u.username);
    match user_place(after, u.username) {
        Some(i) => {
            if i < users.len() {
                assert(after[i].username == users[i].username);
            }
        },
        None => {
            assert(after[users.len() as int].username == u.username);
        },
    }
}

/// A user who keeps the name stays where the name is found.
pub(crate) proof fn lemma_updated_user_is_found(
    users: Seq<UserRecordView>,
    name: Seq<char>,
    i: int,
    u: UserRecordView,
)
    requires
        user_place(users, name) == Some(i),
        u.username == users[i].username,
    ensures
        user_place(users.update(i, u), name) == Some(i),
{
    let after = users.update(i, u);
    lemma_user_place_from(users, name, 0);
    lemma_user_place_from(after, name, 0);
    assert forall|k: int| 0 <= k < users.len() implies (#[trigger] after[k]).username
        == users[k].username by {}
    match user_place(after, name) {
        Some(j) => {
            assert(after[j].username == users[j].username);
            assert(after[i].username == users[i].username);
        },
        None => {
            assert(after[i].username == users[i].username);
        },
    }
}

/// A failure of the store, not of the request.
pub open spec fn is_internal<T>(r: Result<T, StoreError>) -> bool {
    r matches Err(e) && e@.kind == StoreErrorKind::Internal
}

/// What hashing a passcode gives the caller: the hash, or a failure.
pub open spec fn hashed(passcode: Seq<char>, salt: Seq<char>) -> Result<
    Seq<char>,
    StoreErrorView,
> {
    match argon2_hash(passcode, salt) {
        Ok(h) => Ok(h),
        Err(e) => Err(internal("failed to hash passcode: "@ + e)),
    }
}

/// Hashes a passcode for the store.
fn hash_for_store(passcode: &str, salt: &str) -> (r: Result<String, StoreError>)
    ensures
        match hashed(passcode@, salt@) {
            Ok(h) => r matches Ok(x) && x@ == h,
            Err(e) => r matches Err(x) && x@ == e,
        },
        is_salt(salt@) && passcode@.len() <= 0x3FFF_FFFF ==> r is Ok,
        r matches Ok(x) ==> passcode_matches(x@, passcode@) == Some(true),
{
    match hash_passcode_with(passcode, salt) {
        Ok(h) => Ok(h),
        Err(e) => {
            let message = "failed to hash passcode: ".to_owned().concat(e.as_str());
            Err(StoreError::internal(message.as_str()))
        },
    }
}

/// The hash that a new user gets, or why there is none: basic users have no
/// passcode, all others need one of five digits.
pub open spec fn new_passcode_hash(req: CreateUserRequestView, salt: Seq<char>) -> Result<
    Option<Seq<char>>,
    StoreErrorView,
> {
    if normal_level(req.level) == LEVEL_BASIC {
        Ok(None)
    } else if req.passcode is None || trimmed(req.passcode->0).len() == 0 {
        Err(bad_request("passcode is required for non-basic users (exactly 5 digits)"@))
    } else if !five_digits(trimmed(req.passcode->0)) {
        Err(bad_request("passcode must be exactly 5 digits"@))
    } else {
        match hashed(trimmed(req.passcode->0), salt) {
            Ok(h) => Ok(Some(h)),
            Err(e) => Err(e),
        }
    }
}

/// Why a user cannot be created: the name is blank, the level unknown, the
/// passcode missing or malformed, or the name taken, in this order.
pub open spec fn create_user_error(
    d: StoreDataView,
    req: CreateUserRequestView,
    salt: Seq<char>,
) -> Option<StoreErrorView> {
    if trimmed(req.username).len() == 0 {
        Some(bad_request("username is required"@))
    } else if !is_accepted_level(req.level) {
        Some(bad_request(level_message()))
    } else if new_passcode_hash(req, salt) is Err {
        Some(new_passcode_hash(req, salt)->Err_0)
    } else if user_place(d.users, trimmed(req.username)) is Some {
        Some(conflict("username already exists"@))
    } else {
        None
    }
}

/// The user that a request creates.
pub open spec fn new_user(req: CreateUserRequestView, fresh: FreshView) -> UserRecordView {
    UserRecordView {
        username: trimmed(req.username),
        rfid_uid: trimmed(req.rfid_uid),
        level: normal_level(req.level),
        passcode_hash: new_passcode_hash(req, fresh.salt)->Ok_0,
        created_at_utc: fresh.record_at,
    }
}

/// The store with a new user.
pub open spec fn with_new_user(
    d: StoreDataView,
    req: CreateUserRequestView,
    fresh: FreshView,
) -> StoreDataView {
    StoreDataView { users: d.users.push(new_user(req, fresh)), ..d }
}

/// What creating a user does: a refusal changes nothing.
pub open spec fn create_user_post(
    d: StoreDataView,
    req: CreateUserRequestView,
    fresh: FreshView,
    after: StoreDataView,
    r: Result<Staged<UserPublic>, StoreError>,
) -> bool {
    match create_user_error(d, req, fresh.salt) {
        Some(e) => {
            &&& r matches Err(x) && x@ == e
            &&& after == d
        },
        None => {
            &&& after == with_new_user(d, req, fresh)
            &&& r matches Ok(s) && s.value@ == new_user(req, fresh).public() && s.live@ == live_of(
                after,
                fresh.live_at,
            )
        },
    }
}

/// A user with the identifier and the level that a request gives.
pub open spec fn with_new_basics(u: UserRecordView, req: UpdateUserRequestView) -> UserRecordView {
    UserRecordView {
        rfid_uid: match req.rfid_uid {
            Some(t) => trimmed(t),
            None => u.rfid_uid,
        },
        level: match req.level {
            Some(l) => normal_level(l),
            None => u.level,
        },
        ..u
    }
}

/// The hash that a user has after an update: none for a basic user and after an
/// empty passcode, that of a new passcode, or the one before.
pub open spec fn updated_passcode_hash(
    u: UserRecordView,
    req: UpdateUserRequestView,
    salt: Seq<char>,
) -> Result<Option<Seq<char>>, StoreErrorView> {
    if u.level == LEVEL_BASIC {
        Ok(None)
    } else {
        match req.passcode {
            None => Ok(u.passcode_hash),
            Some(pc) => if trimmed(pc).len() == 0 {
                Ok(None)
            } else if !five_digits(trimmed(pc)) {
                Err(bad_request("passcode must be exactly 5 digits"@))
            } else {
                match hashed(trimmed(pc), salt) {
                    Ok(h) => Ok(Some(h)),
                    Err(e) => Err(e),
                }
            },
        }
    }
}

/// Why an update of a user is refused before the user is looked up.
pub open spec fn update_user_error(
    name: Seq<char>,
    req: UpdateUserRequestView,
) -> Option<StoreErrorView> {
    if trimmed(name).len() == 0 {
        Some(bad_request("username is required"@))
    } else if req.level is Some && !is_accepted_level(req.level->0) {
        Some(bad_request(level_message()))
    } else {
        None
    }
}

/// The store with another record for one user.
pub open spec fn with_user(d: StoreDataView, i: int, u: UserRecordView) -> StoreDataView {
    StoreDataView { users: d.users.update(i, u), ..d }
}

/// An update that gives a user who may log in a passcode.
pub open spec fn sets_passcode(
    d: StoreDataView,
    name: Seq<char>,
    req: UpdateUserRequestView,
) -> bool {
    &&& req.passcode matches Some(pc) && trimmed(pc).len() > 0
    &&& user_named(d, name) matches Some(u) && normal_level(with_new_basics(u, req).level)
        != LEVEL_BASIC
}

/// What updating a user does. An early refusal, or an unknown name, changes
/// nothing. A passcode that is refused leaves the new identifier and level in
/// memory.
pub open spec fn update_user_post(
    d: StoreDataView,
    name: Seq<char>,
    req: UpdateUserRequestView,
    fresh: FreshView,
    after: StoreDataView,
    r: Result<Option<Staged<UserPublic>>, StoreError>,
) -> bool {
    match update_user_error(name, req) {
        Some(e) => {
            &&& r matches Err(x) && x@ == e
            &&& after == d
        },
        None => match user_place(d.users, trimmed(name)) {
            None => r matches Ok(None) && after == d,
            Some(i) => {
                let u = with_new_basics(d.users[i], req);
                match updated_passcode_hash(u, req, fresh.salt) {
                    Err(e) => {
                        &&& r matches Err(x) && x@ == e
                        &&& after == with_user(d, i, u)
                    },
                    Ok(h) => {
                        let v = UserRecordView { passcode_hash: h, ..u };
                        &&& after == with_user(d, i, v)
                        &&& r matches Ok(Some(s)) && s.value@ == v.public() && s.live@ == live_of(
                            after,
                            fresh.live_at,
                        )
                    },
                }
            },
        },
    }
}

impl JsonStore {
    /// All users, by name in lower case.
    pub fn list_users(&self) -> (r: Vec<UserPublic>)
        ensures
            is_stable_sort(
                public_views(self.data().users),
                r@.map_values(|u: UserPublic| u@),
                by_name(),
            ),
    {
        let users = &self.data.users;
        let mut names: Vec<Vec<char>> = Vec::new();
        let mut i: usize = 0;
        while i < users.len()
            invariant
                i <= users@.len(),
                names@.len() == i,
                forall|k: int|
                    0 <= k < i ==> (#[trigger] names@[k])@ == unicode_lower(users@[k].username@),
            decreases users@.len() - i,
        {
            let name = users[i].username.as_str().to_lowercase();
            names.push(char_vec(name.as_str()));
            i += 1;
        }
        let ranked = UsersByName { users, names };
        let places = sorted_places(&ranked, users.len());
        let mut out: Vec<UserPublic> = Vec::new();
        let mut k: usize = 0;
        while k < places.len()
            invariant
                k <= places@.len(),
                places@.len() == users@.len(),
                forall|j: int| 0 <= j < places@.len() ==> #[trigger] places@[j] < users@.len(),
                out@.len() == k,
                forall|j: int|
                    0 <= j < k ==> (#[trigger] out@[j])@
                        == users@[places@[j] as int]@.public(),
            decreases places@.len() - k,
        {
            out.push(UserPublic::from(&users[places[k]]));
            k += 1;
        }
        assert(out@.map_values(|u: UserPublic| u@) =~= at_places(ranked.items(), places@));
        out
    }

    /// The user with a name, as stored.
    pub fn get_user_record(&self, username: &str) -> (r: Option<UserRecord>)
        ensures
            match r {
                Some(u) => user_named(self.data(), username@) == Some(u@),
                None => user_named(self.data(), username@) is None,
            },
    {
        match find_user(&self.data.users, username.trim()) {
            Some(i) => Some(self.data.users[i].clone()),
            None => None,
        }
    }

    /// Creates a user with a given salt and given times.
    pub fn create_user_with(&mut self, req: CreateUserRequest, fresh: Fresh) -> (r: Result<
        Staged<UserPublic>,
        StoreError,
    >)
        ensures
            create_user_post(old(self).data(), req@, fresh@, final(self).data(), r),
            final(self).live() == old(self).live(),
            is_salt(fresh@.salt) ==> !is_internal(r),
            r is Ok && normal_level(req.level) != LEVEL_BASIC ==> login_error(
                final(self).data(),
                req.username@,
                req.passcode->0@,
            ) is None,
    {
        let username = req.username.as_str().trim();
        if username.is_empty() {
            return Err(StoreError::bad_request("username is required"));
        }
        check_level(req.level)?;
        let level = normalize_level(req.level);

        let passcode_hash: Option<String> = if level == LEVEL_BASIC {
            None
        } else {
            match &req.passcode {
                None => {
                    return Err(
                        StoreError::bad_request(
                            "passcode is required for non-basic users (exactly 5 digits)",
                        ),
                    );
                },
                Some(pc) => {
                    let pc = pc.as_str().trim();
                    if pc.is_empty() {
                        return Err(
                            StoreError::bad_request(
                                "passcode is required for non-basic users (exactly 5 digits)",
                            ),
                        );
                    }
                    if !is_five_digit_passcode(pc) {
                        return Err(StoreError::bad_request("passcode must be exactly 5 digits"));
                    }
                    Some(hash_for_store(pc, fresh.salt.as_str())?)
                },
            }
        };

        if find_user(&self.data.users, username).is_some() {
            return Err(StoreError::conflict("username already exists"));
        }
        let user = UserRecord {
            username: username.to_owned(),
            rfid_uid: req.rfid_uid.as_str().trim().to_owned(),
            level,
            passcode_hash,
            created_at_utc: fresh.record_at,
        };
        let value = UserPublic::from(&user);
        self.data.users.push(user);
        assert(self.data@.users =~= with_new_user(old(self).data@, req@, fresh@).users);
        proof {
            lemma_new_user_is_found(old(self).data@.users, new_user(req@, fresh@));
            lemma_trimmed_twice(req.username@);
        }
        let live = compute_live_state(&self.data, fresh.live_at);
        Ok(Staged { value, live })
    }

    /// Creates a user, now.
    pub fn create_user(&mut self, req: CreateUserRequest) -> (r: Result<
        Staged<UserPublic>,
        StoreError,
    >)
        ensures
            exists|fresh: FreshView|
                fresh.is_drawn() && #[trigger] create_user_post(
                    old(self).data(),
                    req@,
                    fresh,
                    final(self).data(),
                    r,
                ),
            final(self).live() == old(self).live(),
            !is_internal(r),
            r is Ok && normal_level(req.level) != LEVEL_BASIC ==> login_error(
                final(self).data(),
                req.username@,
                req.passcode->0@,
            ) is None,
    {
        let fresh = Fresh::draw();
        self.create_user_with(req, fresh)
    }

    /// Updates a user with a given salt and given times.
    pub fn update_user_with(
        &mut self,
        username: &str,
        req: UpdateUserRequest,
        fresh: Fresh,
    ) -> (r: Result<Option<Staged<UserPublic>>, StoreError>)
        ensures
            update_user_post(old(self).data(), username@, req@, fresh@, final(self).data(), r),
            final(self).live() == old(self).live(),
            is_salt(fresh@.salt) ==> !is_internal(r),
            r matches Ok(Some(_)) && sets_passcode(old(self).data(), username@, req@)
                ==> login_error(final(self).data(), username@, req.passcode->0@) is None,
    {
        let ghost name = username@;
        let username = username.trim();
        if username.is_empty() {
            return Err(StoreError::bad_request("username is required"));
        }
        if let Some(level) = req.level {
            check_level(level)?;
        }
        let i = match find_user(&self.data.users, username) {
            Some(i) => i,
            None => {
                return Ok(None);
            },
        };
        let ghost before = self.data@;
        let mut u = self.data.users[i].clone();
        if let Some(rfid) = &req.rfid_uid {
            u.rfid_uid = rfid.as_str().trim().to_owned();
        }
        if let Some(level) = req.level {
            u.level = normalize_level(level);
        }
        let ghost basics = with_new_basics(before.users[i as int], req@);
        assert(u@ == basics);

        let updated: Result<Option<String>, StoreError> = if u.level == LEVEL_BASIC {
            Ok(None)
        } else {
            match &req.passcode {
                None => Ok(crate::models::copy_text(&u.passcode_hash)),
                Some(pc) => {
                    let pc = pc.as_str().trim();
                    if pc.is_empty() {
                        Ok(None)
                    } else if !is_five_digit_passcode(pc) {
                        Err(StoreError::bad_request("passcode must be exactly 5 digits"))
                    } else {
                        match hash_for_store(pc, fresh.salt.as_str()) {
                            Ok(h) => Ok(Some(h)),
                            Err(e) => Err(e),
                        }
                    }
                },
            }
        };
        match updated {
            Err(e) => {
                self.data.users[i] = u;
                assert(self.data@.users =~= before.users.update(i as int, basics));
                Err(e)
            },
            Ok(passcode_hash) => {
                u.passcode_hash = passcode_hash;
                let value = UserPublic::from(&u);
                let ghost v = u@;
                self.data.users[i] = u;
                assert(self.data@.users =~= before.users.update(i as int, v));
                proof {
                    lemma_updated_user_is_found(before.users, trimmed(name), i as int, v);
                }
                let live = compute_live_state(&self.data, fresh.live_at);
                Ok(Some(Staged { value, live }))
            },
        }
    }

    /// Updates a user, now.
    pub fn update_user(&mut self, username: &str, req: UpdateUserRequest) -> (r: Result<
        Option<Staged<UserPublic>>,
        StoreError,
    >)
        ensures
            exists|fresh: FreshView|
                fresh.is_drawn() && #[trigger] update_user_post(
                    old(self).data(),
                    username@,
                    req@,
                    fresh,
                    final(self).data(),
                    r,
                ),
            final(self).live() == old(self).live(),
            !is_internal(r),
            r matches Ok(Some(_)) && sets_passcode(old(self).data(), username@, req@)
                ==> login_error(final(self).data(), username@, req.passcode->0@) is None,
    {
        let fresh = Fresh::draw();
        self.update_user_with(username, req, fresh)
    }
}

// Reports.

/// Reports go by their numbers, the highest first.
pub open spec fn by_num_descending() -> spec_fn(ReportRecordView, ReportRecordView) -> bool {
    |a: ReportRecordView, b: ReportRecordView| a.num > b.num
}

/// The order of reports by number is a strict weak order.
pub proof fn lemma_by_num_is_order()
    ensures
        is_strict_weak_order(by_num_descending()),
{
}

/// Reports, to be ranked by their numbers.
struct ReportsByNum<'a> {
    reports: &'a Vec<ReportRecord>,
}

impl<'a> Ranked for ReportsByNum<'a> {
    type Item = ReportRecordView;

    closed spec fn items(&self) -> Seq<ReportRecordView> {
        report_views(self.reports@)
    }

    closed spec fn before(&self) -> spec_fn(ReportRecordView, ReportRecordView) -> bool {
        by_num_descending()
    }

    closed spec fn is_ready(&self) -> bool {
        true
    }

    proof fn lemma_order(&self) {
        lemma_by_num_is_order();
    }

    fn goes_before(&self, i: usize, j: usize) -> (r: bool) {
        self.reports[i].num > self.reports[j].num
    }
}

/// The report with a number.
pub open spec fn report_numbered(d: StoreDataView, num: u32) -> Option<ReportRecordView> {
    match report_place(d.reports, num) {
        Some(i) => Some(d.reports[i]),
        None => None,
    }
}

/// Why a report cannot be opened: person, title or description is blank.
pub open spec fn create_report_error(req: CreateReportRequestView) -> Option<StoreErrorView> {
    if trimmed(req.person).len() == 0 {
        Some(bad_request("person is required"@))
    } else if trimmed(req.title).len() == 0 {
        Some(bad_request("title is required"@))
    } else if trimmed(req.description).len() == 0 {
        Some(bad_request("description is required"@))
    } else {
        None
    }
}

/// The report that a request opens.
pub open spec fn new_report(
    d: StoreDataView,
    actor: Seq<char>,
    actor_level: i32,
    req: CreateReportRequestView,
    fresh: FreshView,
) -> ReportRecordView {
    ReportRecordView {
        num: next_num(d),
        created_at_utc: fresh.record_at,
        opened_by: trimmed(actor),
        opened_by_level: Some(actor_level),
        closed_by: None,
        closed_at_utc: None,
        closing_comments: None,
        person: trimmed(req.person),
        title: trimmed(req.title),
        category: trimmed(req.category),
        priority: trimmed(req.priority),
        description: trimmed(req.description),
    }
}

/// The store with a new report: its number handed out, the report at the end.
pub open spec fn with_new_report(
    d: StoreDataView,
    actor: Seq<char>,
    actor_level: i32,
    req: CreateReportRequestView,
    fresh: FreshView,
) -> StoreDataView {
    let n = after_allocation(d);
    StoreDataView { reports: n.reports.push(new_report(d, actor, actor_level, req, fresh)), ..n }
}

/// What opening a report does: a refusal changes nothing.
pub open spec fn create_report_post(
    d: StoreDataView,
    actor: Seq<char>,
    actor_level: i32,
    req: CreateReportRequestView,
    fresh: FreshView,
    after: StoreDataView,
    r: Result<Staged<ReportRecord>, StoreError>,
) -> bool {
    match create_report_error(req) {
        Some(e) => {
            &&& r matches Err(x) && x@ == e
            &&& after == d
        },
        None => {
            &&& after == with_new_report(d, actor, actor_level, req, fresh)
            &&& r matches Ok(s) && s.value@ == new_report(d, actor, actor_level, req, fresh)
                && s.live@ == live_of(after, fresh.live_at)
        },
    }
}

/// A field that is given, but blank.
pub open spec fn is_blank(field: Option<Seq<char>>) -> bool {
    field matches Some(t) && trimmed(t).len() == 0
}

/// A field after an edit: the new text where one is given.
pub open spec fn edited(field: Option<Seq<char>>, before: Seq<char>) -> Seq<char> {
    match field {
        Some(t) => trimmed(t),
        None => before,
    }
}

/// A text without white space around it, or none where that leaves nothing.
pub open spec fn trimmed_or_none(t: Option<Seq<char>>) -> Option<Seq<char>> {
    match t {
        Some(s) => if trimmed(s).len() == 0 {
            None
        } else {
            Some(trimmed(s))
        },
        None => None,
    }
}

/// A report after its status was changed as asked: closed by the actor,
/// reopened, or left.
pub open spec fn with_new_status(
    r: ReportRecordView,
    req: UpdateReportRequestView,
    actor: Seq<char>,
    now: Seq<char>,
) -> ReportRecordView {
    match req.closed {
        Some(true) => ReportRecordView {
            closed_by: Some(trimmed(actor)),
            closed_at_utc: Some(now),
            closing_comments: trimmed_or_none(req.closing_comments),
            ..r
        },
        Some(false) => ReportRecordView {
            closed_by: None,
            closed_at_utc: None,
            closing_comments: None,
            ..r
        },
        None => r,
    }
}

/// A report after an update, and the refusal that cut the update short. Fields
/// are edited in order, and the edits before a blank one stay.
pub open spec fn updated_report(
    r: ReportRecordView,
    req: UpdateReportRequestView,
    actor: Seq<char>,
    now: Seq<char>,
) -> (ReportRecordView, Option<StoreErrorView>) {
    let r1 = ReportRecordView { person: edited(req.person, r.person), ..r };
    let r2 = ReportRecordView { title: edited(req.title, r.title), ..r1 };
    let r3 = ReportRecordView {
        category: edited(req.category, r.category),
        priority: edited(req.priority, r.priority),
        ..r2
    };
    let r4 = ReportRecordView { description: edited(req.description, r.description), ..r3 };
    if is_blank(req.person) {
        (r, Some(bad_request("person is required"@)))
    } else if is_blank(req.title) {
        (r1, Some(bad_request("title is required"@)))
    } else if is_blank(req.description) {
        (r3, Some(bad_request("description is required"@)))
    } else {
        (with_new_status(r4, req, actor, now), None)
    }
}

/// The store with another record for one report.
pub open spec fn with_report(d: StoreDataView, i: int, r: ReportRecordView) -> StoreDataView {
    StoreDataView { reports: d.reports.update(i, r), ..d }
}

/// What updating a report does. An unknown number changes nothing.
pub open spec fn update_report_post(
    d: StoreDataView,
    num: u32,
    req: UpdateReportRequestView,
    actor: Seq<char>,
    fresh: FreshView,
    after: StoreDataView,
    r: Result<Option<Staged<ReportRecord>>, StoreError>,
) -> bool {
    match report_place(d.reports, num) {
        None => r matches Ok(None) && after == d,
        Some(i) => {
            let (record, error) = updated_report(d.reports[i], req, actor, fresh.record_at);
            &&& after == with_report(d, i, record)
            &&& match error {
                Some(e) => r matches Err(x) && x@ == e,
                None => r matches Ok(Some(s)) && s.value@ == record && s.live@ == live_of(
                    after,
                    fresh.live_at,
                ),
            }
        },
    }
}

/// The reports that do not have the number.
pub open spec fn without_num(reports: Seq<ReportRecordView>, num: u32) -> Seq<ReportRecordView> {
    reports.filter(|r: ReportRecordView| r.num != num)
}

/// The store without the reports that have the number.
pub open spec fn without_report(d: StoreDataView, num: u32) -> StoreDataView {
    StoreDataView { reports: without_num(d.reports, num), ..d }
}

/// What deleting a report does: every report with the number goes, and there is
/// nothing to write where none had it.
pub open spec fn delete_report_post(
    d: StoreDataView,
    num: u32,
    live_at: Seq<char>,
    after: StoreDataView,
    r: Option<Staged<bool>>,
) -> bool {
    if report_place(d.reports, num) is None {
        r is None && after == d
    } else {
        &&& after == without_report(d, num)
        &&& r matches Some(s) && s.value && s.live@ == live_of(after, live_at)
    }
}

/// A text trimmed, or none where that leaves nothing.
fn trim_or_none(t: &Option<String>) -> (r: Option<String>)
    ensures
        opt_text(r) == trimmed_or_none(opt_text(*t)),
{
    match t {
        Some(s) => {
            let s = s.as_str().trim();
            if s.is_empty() {
                None
            } else {
                Some(s.to_owned())
            }
        },
        None => None,
    }
}

/// Applies an update to a report, as far as it goes.
fn apply_update(
    r: &mut ReportRecord,
    req: &UpdateReportRequest,
    actor_username: &str,
    now: String,
) -> (res: Result<(), StoreError>)
    ensures
        final(r)@ == updated_report(old(r)@, req@, actor_username@, now@).0,
        match updated_report(old(r)@, req@, actor_username@, now@).1 {
            Some(e) => res matches Err(x) && x@ == e,
            None => res is Ok,
        },
{
    if let Some(v) = &req.person {
        let v = v.as_str().trim();
        if v.is_empty() {
            return Err(StoreError::bad_request("person is required"));
        }
        r.person = v.to_owned();
    }
    if let Some(v) = &req.title {
        let v = v.as_str().trim();
        if v.is_empty() {
            return Err(StoreError::bad_request("title is required"));
        }
        r.title = v.to_owned();
    }
    if let Some(v) = &req.category {
        r.category = v.as_str().trim().to_owned();
    }
    if let Some(v) = &req.priority {
        r.priority = v.as_str().trim().to_owned();
    }
    if let Some(v) = &req.description {
        let v = v.as_str().trim();
        if v.is_empty() {
            return Err(StoreError::bad_request("description is required"));
        }
        r.description = v.to_owned();
    }
    if let Some(closed) = req.closed {
        if closed {
            r.closed_by = Some(actor_username.trim().to_owned());
            r.closed_at_utc = Some(now);
            r.closing_comments = trim_or_none(&req.closing_comments);
        } else {
            r.closed_by = None;
            r.closed_at_utc = None;
            r.closing_comments = None;
        }
    }
    Ok(())
}

impl JsonStore {
    /// All reports, the highest number first.
    pub fn list_reports(&self) -> (r: Vec<ReportRecord>)
        ensures
            is_stable_sort(self.data().reports, report_views(r@), by_num_descending()),
    {
        let reports = &self.data.reports;
        let ranked = ReportsByNum { reports };
        let places = sorted_places(&ranked, reports.len());
        let mut out: Vec<ReportRecord> = Vec::new();
        let mut k: usize = 0;
        while k < places.len()
            invariant
                k <= places@.len(),
                places@.len() == reports@.len(),
                forall|j: int| 0 <= j < places@.len() ==> #[trigger] places@[j] < reports@.len(),
                out@.len() == k,
                forall|j: int|
                    0 <= j < k ==> (#[trigger] out@[j])@ == reports@[places@[j] as int]@,
            decreases places@.len() - k,
        {
            out.push(reports[places[k]].clone());
            k += 1;
        }
        assert(report_views(out@) =~= at_places(ranked.items(), places@));
        out
    }

    /// The report with a number.
    pub fn get_report(&self, num: u32) -> (r: Option<ReportRecord>)
        ensures
            match r {
                Some(x) => report_numbered(self.data(), num) == Some(x@),
                None => report_numbered(self.data(), num) is None,
            },
    {
        match find_report(&self.data.reports, num) {
            Some(i) => Some(self.data.reports[i].clone()),
            None => None,
        }
    }

    /// Opens a report with given times.
    pub fn create_report_with(
        &mut self,
        actor_username: &str,
        actor_level: i32,
        req: CreateReportRequest,
        fresh: Fresh,
    ) -> (r: Result<Staged<ReportRecord>, StoreError>)
        ensures
            create_report_post(
                old(self).data(),
                actor_username@,
                actor_level,
                req@,
                fresh@,
                final(self).data(),
                r,
            ),
            final(self).live() == old(self).live(),
    {
        let person = req.person.as_str().trim();
        if person.is_empty() {
            return Err(StoreError::bad_request("person is required"));
        }
        let title = req.title.as_str().trim();
        if title.is_empty() {
            return Err(StoreError::bad_request("title is required"));
        }
        let description = req.description.as_str().trim();
        if description.is_empty() {
            return Err(StoreError::bad_request("description is required"));
        }
        let num = allocate_report_num(&mut self.data);
        let ghost allocated = self.data@;
        let report = ReportRecord {
            num,
            created_at_utc: fresh.record_at,
            opened_by: actor_username.trim().to_owned(),
            opened_by_level: Some(actor_level),
            closed_by: None,
            closed_at_utc: None,
            closing_comments: None,
            person: person.to_owned(),
            title: title.to_owned(),
            category: req.category.as_str().trim().to_owned(),
            priority: req.priority.as_str().trim().to_owned(),
            description: description.to_owned(),
        };
        let value = report.clone();
        self.data.reports.push(report);
        assert(self.data@.reports =~= allocated.reports.push(value@));
        let live = compute_live_state(&self.data, fresh.live_at);
        Ok(Staged { value, live })
    }

    /// Opens a report, now.
    pub fn create_report(
        &mut self,
        actor_username: &str,
        actor_level: i32,
        req: CreateReportRequest,
    ) -> (r: Result<Staged<ReportRecord>, StoreError>)
        ensures
            exists|fresh: FreshView|
                fresh.is_drawn() && #[trigger] create_report_post(
                    old(self).data(),
                    actor_username@,
                    actor_level,
                    req@,
                    fresh,
                    final(self).data(),
                    r,
                ),
            final(self).live() == old(self).live(),
    {
        let fresh = Fresh::draw();
        self.create_report_with(actor_username, actor_level, req, fresh)
    }

    /// Updates a report with given times.
    pub fn update_report_with(
        &mut self,
        num: u32,
        req: UpdateReportRequest,
        actor_username: &str,
        fresh: Fresh,
    ) -> (r: Result<Option<Staged<ReportRecord>>, StoreError>)
        ensures
            update_report_post(
                old(self).data(),
                num,
                req@,
                actor_username@,
                fresh@,
                final(self).data(),
                r,
            ),
            final(self).live() == old(self).live(),
    {
        let i = match find_report(&self.data.reports, num) {
            Some(i) => i,
            None => {
                return Ok(None);
            },
        };
        let ghost before = self.data@;
        let mut report = self.data.reports[i].clone();
        let applied = apply_update(&mut report, &req, actor_username, fresh.record_at);
        let value = report.clone();
        self.data.reports[i] = report;
        assert(self.data@.reports =~= before.reports.update(i as int, value@));
        match applied {
            Err(e) => Err(e),
            Ok(_) => {
                let live = compute_live_state(&self.data, fresh.live_at);
                Ok(Some(Staged { value, live }))
            },
        }
    }

    /// Updates a report, now.
    pub fn update_report(
        &mut self,
        num: u32,
        req: UpdateReportRequest,
        actor_username: &str,
    ) -> (r: Result<Option<Staged<ReportRecord>>, StoreError>)
        ensures
            exists|fresh: FreshView|
                fresh.is_drawn() && #[trigger] update_report_post(
                    old(self).data(),
                    num,
                    req@,
                    actor_username@,
                    fresh,
                    final(self).data(),
                    r,
                ),
            final(self).live() == old(self).live(),
    {
        let fresh = Fresh::draw();
        self.update_report_with(num, req, actor_username, fresh)
    }

    /// Deletes every report with a number; the snapshot has a given time.
    pub fn delete_report_with(&mut self, num: u32, live_at: String) -> (r: Option<Staged<bool>>)
        ensures
            delete_report_post(old(self).data(), num, live_at@, final(self).data(), r),
            final(self).live() == old(self).live(),
    {
        let ghost before = self.data@;
        let ghost keep = |r: ReportRecordView| r.num != num;
        let mut deleted = false;
        let mut i: usize = 0;
        let ghost mut seen: int = 0;
        proof {
            reveal(Seq::filter);
            assert(before.reports.skip(0) =~= before.reports);
            assert(before.reports.take(0).filter(keep) =~= Seq::<ReportRecordView>::empty());
            lemma_report_place_from(before.reports, num, 0);
        }
        while i < self.data.reports.len()
            invariant
                self.live@ == old(self).live@,
                self.data.schema_version == before.schema_version,
                self.data.next_report_num == before.next_report_num,
                self.data.gpio_config == before.gpio_config,
                user_views(self.data.users@) == before.users,
                keep == (|r: ReportRecordView| r.num != num),
                0 <= seen <= before.reports.len(),
                i <= self.data.reports@.len(),
                self.data.reports@.len() - i == before.reports.len() - seen,
                i == before.reports.take(seen).filter(keep).len(),
                report_views(self.data.reports@) == before.reports.take(seen).filter(keep)
                    + before.reports.skip(seen),
                deleted == exists|k: int|
                    0 <= k < seen && #[trigger] before.reports[k].num == num,
            decreases self.data.reports@.len() - i,
        {
            let ghost views = report_views(self.data.reports@);
            let ghost kept = before.reports.take(seen).filter(keep);
            proof {
                reveal(Seq::filter);
                assert(before.reports.take(seen + 1).drop_last() =~= before.reports.take(seen));
                assert(before.reports.take(seen + 1).last() == before.reports[seen]);
                assert(views[i as int] == before.reports.skip(seen)[0]);
                assert(views[i as int] == before.reports[seen]);
            }
            if self.data.reports[i].num == num {
                let _ = self.data.reports.remove(i);
                deleted = true;
                proof {
                    assert(before.reports[seen].num == num);
                    assert(report_views(self.data.reports@) =~= views.remove(i as int));
                    assert(report_views(self.data.reports@) =~= kept + before.reports.skip(
                        seen + 1,
                    ));
                }
            } else {
                proof {
                    assert(report_views(self.data.reports@) =~= kept.push(before.reports[seen])
                        + before.reports.skip(seen + 1));
                }
                i += 1;
            }
            proof {
                seen = seen + 1;
            }
        }
        proof {
            assert(seen == before.reports.len());
            assert(before.reports.take(seen) =~= before.reports);
            assert(report_views(self.data.reports@) =~= without_num(before.reports, num));
        }
        if !deleted {
            proof {
                assert forall|k: int| 0 <= k < before.reports.len() implies keep(
                    #[trigger] before.reports[k],
                ) by {}
                lemma_filter_all(before.reports, keep);
            }
            return None;
        }
        let live = compute_live_state(&self.data, live_at);
        Some(Staged { value: true, live })
    }

    /// Deletes every report with a number, now.
    pub fn delete_report(&mut self, num: u32) -> (r: Option<Staged<bool>>)
        ensures
            exists|live_at: Seq<char>|
                is_instant_text(live_at) && #[trigger] delete_report_post(
                    old(self).data(),
                    num,
                    live_at,
                    final(self).data(),
                    r,
                ),
            final(self).live() == old(self).live(),
    {
        self.delete_report_with(num, now_rfc3339())
    }
}

/// Filtering by what all items have keeps the sequence.
proof fn lemma_filter_all<T>(s: Seq<T>, keep: spec_fn(T) -> bool)
    requires
        forall|k: int| 0 <= k < s.len() ==> keep(#[trigger] s[k]),
    ensures
        s.filter(keep) == s,
    decreases s.len(),
{
    reveal(Seq::filter);
    if s.len() > 0 {
        lemma_filter_all(s.drop_last(), keep);
        assert(s.drop_last().push(s.last()) =~= s);
    }
}

} // verus!
