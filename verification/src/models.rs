//! The records that the backend keeps, the requests that it takes and the
//! answers that it gives, each with the mathematical value that it stands for.

use vstd::prelude::*;

verus! {

// Permission levels: the lower the number, the more privilege.

/// Administrator.
pub const LEVEL_ADMIN: i32 = 1;

/// Junior administrator.
pub const LEVEL_JUNIOR_ADMIN: i32 = 2;

/// Moderator.
pub const LEVEL_MODERATOR: i32 = 3;

/// Advanced user.
pub const LEVEL_ADVANCED_USER: i32 = 4;

/// Basic user: a name only, without login.
pub const LEVEL_BASIC: i32 = 5;

/// The level that a stored or requested number means: one to five mean
/// themselves, zero is an old number for a moderator, all else is basic.
pub open spec fn normal_level(level: i32) -> i32 {
    if LEVEL_ADMIN <= level <= LEVEL_BASIC {
        level
    } else if level == 0 {
        LEVEL_MODERATOR
    } else {
        LEVEL_BASIC
    }
}

/// The level that a stored or requested number means.
pub fn normalize_level(level: i32) -> (r: i32)
    ensures
        r == normal_level(level),
{
    match level {
        1 => LEVEL_ADMIN,
        2 => LEVEL_JUNIOR_ADMIN,
        3 => LEVEL_MODERATOR,
        4 => LEVEL_ADVANCED_USER,
        5 => LEVEL_BASIC,
        0 => LEVEL_MODERATOR,
        _ => LEVEL_BASIC,
    }
}

/// The name of the role that a level gives.
pub open spec fn role_of(level: i32) -> Seq<char> {
    let n = normal_level(level);
    if n == LEVEL_ADMIN {
        "Admin"@
    } else if n == LEVEL_JUNIOR_ADMIN {
        "Junior admin"@
    } else if n == LEVEL_MODERATOR {
        "Moderator"@
    } else if n == LEVEL_ADVANCED_USER {
        "Advanced user"@
    } else {
        "Basic"@
    }
}

/// The name of the role that a level gives.
pub fn level_name(level: i32) -> (r: &'static str)
    ensures
        r@ == role_of(level),
{
    match normalize_level(level) {
        1 => "Admin",
        2 => "Junior admin",
        3 => "Moderator",
        4 => "Advanced user",
        _ => "Basic",
    }
}

/// Normal levels are one to five, and normalizing twice is normalizing once.
pub proof fn lemma_normal_level(level: i32)
    ensures
        LEVEL_ADMIN <= normal_level(level) <= LEVEL_BASIC,
        normal_level(normal_level(level)) == normal_level(level),
        role_of(normal_level(level)) == role_of(level),
{
}

/// An optional text by its characters.
pub open spec fn opt_text(t: Option<String>) -> Option<Seq<char>> {
    match t {
        Some(s) => Some(s@),
        None => None,
    }
}

/// A copy of an optional text.
pub(crate) fn copy_text(t: &Option<String>) -> (r: Option<String>)
    ensures
        r == *t,
{
    match t {
        Some(s) => Some(s.clone()),
        None => None,
    }
}

/// Texts by their characters.
pub open spec fn texts(s: Seq<String>) -> Seq<Seq<char>> {
    s.map_values(|t: String| t@)
}

/// The answer to a status query.
#[derive(Clone, Copy, Debug)]
pub struct ApiStatus {
    /// How the service is.
    pub status: &'static str,
}

/// A user as stored.
#[derive(Debug)]
pub struct UserRecord {
    /// The name, which identifies the user up to ASCII case.
    pub username: String,
    /// The identifier of the user's RFID tag.
    pub rfid_uid: String,
    /// The permission level.
    pub level: i32,
    /// The hash of the passcode; it is stored and never handed out.
    pub passcode_hash: Option<String>,
    /// When the user was created.
    pub created_at_utc: String,
}

/// What a [`UserRecord`] stands for.
pub struct UserRecordView {
    pub username: Seq<char>,
    pub rfid_uid: Seq<char>,
    pub level: i32,
    pub passcode_hash: Option<Seq<char>>,
    pub created_at_utc: Seq<char>,
}

impl View for UserRecord {
    type V = UserRecordView;

    open spec fn view(&self) -> UserRecordView {
        UserRecordView {
            username: self.username@,
            rfid_uid: self.rfid_uid@,
            level: self.level,
            passcode_hash: opt_text(self.passcode_hash),
            created_at_utc: self.created_at_utc@,
        }
    }
}

impl Clone for UserRecord {
    fn clone(&self) -> (r: Self)
        ensures
            r == *self,
    {
        UserRecord {
            username: self.username.clone(),
            rfid_uid: self.rfid_uid.clone(),
            level: self.level,
            passcode_hash: copy_text(&self.passcode_hash),
            created_at_utc: self.created_at_utc.clone(),
        }
    }
}

/// A user as handed out.
#[derive(Debug)]
pub struct UserPublic {
    /// The name.
    pub username: String,
    /// The identifier of the user's RFID tag.
    pub rfid_uid: String,
    /// The permission level.
    pub level: i32,
}

/// What a [`UserPublic`] stands for.
pub struct UserPublicView {
    pub username: Seq<char>,
    pub rfid_uid: Seq<char>,
    pub level: i32,
}

impl View for UserPublic {
    type V = UserPublicView;

    open spec fn view(&self) -> UserPublicView {
        UserPublicView {
            username: self.username@,
            rfid_uid: self.rfid_uid@,
            level: self.level,
        }
    }
}

impl Clone for UserPublic {
    fn clone(&self) -> (r: Self)
        ensures
            r == *self,
    {
        UserPublic {
            username: self.username.clone(),
            rfid_uid: self.rfid_uid.clone(),
            level: self.level,
        }
    }
}

impl UserRecordView {
    /// The user as handed out.
    pub open spec fn public(self) -> UserPublicView {
        UserPublicView { username: self.username, rfid_uid: self.rfid_uid, level: self.level }
    }
}

impl vstd::std_specs::convert::FromSpecImpl<&UserRecord> for UserPublic {
    open spec fn obeys_from_spec() -> bool {
        true
    }

    open spec fn from_spec(value: &UserRecord) -> Self {
        UserPublic { username: value.username, rfid_uid: value.rfid_uid, level: value.level }
    }
}

impl From<&UserRecord> for UserPublic {
    fn from(value: &UserRecord) -> (r: Self) {
        UserPublic {
            username: value.username.clone(),
            rfid_uid: value.rfid_uid.clone(),
            level: value.level,
        }
    }
}

/// A request to create a user.
#[derive(Debug)]
pub struct CreateUserRequest {
    /// The name.
    pub username: String,
    /// The identifier of the user's RFID tag.
    pub rfid_uid: String,
    /// The permission level.
    pub level: i32,
    /// The passcode, which basic users do without.
    pub passcode: Option<String>,
}

/// What a [`CreateUserRequest`] stands for.
pub struct CreateUserRequestView {
    pub username: Seq<char>,
    pub rfid_uid: Seq<char>,
    pub level: i32,
    pub passcode: Option<Seq<char>>,
}

impl View for CreateUserRequest {
    type V = CreateUserRequestView;

    open spec fn view(&self) -> CreateUserRequestView {
        CreateUserRequestView {
            username: self.username@,
            rfid_uid: self.rfid_uid@,
            level: self.level,
            passcode: opt_text(self.passcode),
        }
    }
}

impl Clone for CreateUserRequest {
    fn clone(&self) -> (r: Self)
        ensures
            r == *self,
    {
        CreateUserRequest {
            username: self.username.clone(),
            rfid_uid: self.rfid_uid.clone(),
            level: self.level,
            passcode: copy_text(&self.passcode),
        }
    }
}

/// A request to change a user; what is absent stays.
#[derive(Debug)]
pub struct UpdateUserRequest {
    /// The new identifier of the RFID tag.
    pub rfid_uid: Option<String>,
    /// The new permission level.
    pub level: Option<i32>,
    /// The new passcode; an empty one clears it.
    pub passcode: Option<String>,
}

/// What a [`UpdateUserRequest`] stands for.
pub struct UpdateUserRequestView {
    pub rfid_uid: Option<Seq<char>>,
    pub level: Option<i32>,
    pub passcode: Option<Seq<char>>,
}

impl View for UpdateUserRequest {
    type V = UpdateUserRequestView;

    open spec fn view(&self) -> UpdateUserRequestView {
        UpdateUserRequestView {
            rfid_uid: opt_text(self.rfid_uid),
            level: self.level,
            passcode: opt_text(self.passcode),
        }
    }
}

impl Clone for UpdateUserRequest {
    fn clone(&self) -> (r: Self)
        ensures
            r == *self,
    {
        UpdateUserRequest {
            rfid_uid: copy_text(&self.rfid_uid),
            level: self.level,
            passcode: copy_text(&self.passcode),
        }
    }
}

/// A request to log in.
#[derive(Debug)]
pub struct LoginRequest {
    /// The name.
    pub username: String,
    /// The passcode.
    pub passcode: String,
}

/// What a [`LoginRequest`] stands for.
pub struct LoginRequestView {
    pub username: Seq<char>,
    pub passcode: Seq<char>,
}

impl View for LoginRequest {
    type V = LoginRequestView;

    open spec fn view(&self) -> LoginRequestView {
        LoginRequestView {
            username: self.username@,
            passcode: self.passcode@,
        }
    }
}

impl Clone for LoginRequest {
    fn clone(&self) -> (r: Self)
        ensures
            r == *self,
    {
        LoginRequest {
            username: self.username.clone(),
            passcode: self.passcode.clone(),
        }
    }
}

/// The answer to a successful login.
#[derive(Debug)]
pub struct LoginResponse {
    /// The session token.
    pub token: String,
    /// The user.
    pub user: UserPublic,
    /// When the session ends.
    pub expires_at_utc: String,
}

/// What a [`LoginResponse`] stands for.
pub struct LoginResponseView {
    pub token: Seq<char>,
    pub user: UserPublicView,
    pub expires_at_utc: Seq<char>,
}

impl View for LoginResponse {
    type V = LoginResponseView;

    open spec fn view(&self) -> LoginResponseView {
        LoginResponseView {
            token: self.token@,
            user: self.user@,
            expires_at_utc: self.expires_at_utc@,
        }
    }
}

impl Clone for LoginResponse {
    fn clone(&self) -> (r: Self)
        ensures
            r == *self,
    {
        LoginResponse {
            token: self.token.clone(),
            user: self.user.clone(),
            expires_at_utc: self.expires_at_utc.clone(),
        }
    }
}

/// The answer to "who am I".
#[derive(Debug)]
pub struct MeResponse {
    /// The user.
    pub user: UserPublic,
}

/// What a [`MeResponse`] stands for.
pub struct MeResponseView {
    pub user: UserPublicView,
}

impl View for MeResponse {
    type V = MeResponseView;

    open spec fn view(&self) -> MeResponseView {
        MeResponseView {
            user: self.user@,
        }
    }
}

impl Clone for MeResponse {
    fn clone(&self) -> (r: Self)
        ensures
            r == *self,
    {
        MeResponse {
            user: self.user.clone(),
        }
    }
}

/// A report as stored and handed out.
#[derive(Debug)]
pub struct ReportRecord {
    /// The number.
    pub num: u32,
    /// When the report was opened.
    pub created_at_utc: String,
    /// Who opened it.
    pub opened_by: String,
    /// The level of who opened it.
    pub opened_by_level: Option<i32>,
    /// Who closed it.
    pub closed_by: Option<String>,
    /// When it was closed; absent while it is open.
    pub closed_at_utc: Option<String>,
    /// What was said on closing.
    pub closing_comments: Option<String>,
    /// Whom it is about.
    pub person: String,
    /// The title.
    pub title: String,
    /// The category.
    pub category: String,
    /// The priority.
    pub priority: String,
    /// The description.
    pub description: String,
}

/// What a [`ReportRecord`] stands for.
pub struct ReportRecordView {
    pub num: u32,
    pub created_at_utc: Seq<char>,
    pub opened_by: Seq<char>,
    pub opened_by_level: Option<i32>,
    pub closed_by: Option<Seq<char>>,
    pub closed_at_utc: Option<Seq<char>>,
    pub closing_comments: Option<Seq<char>>,
    pub person: Seq<char>,
    pub title: Seq<char>,
    pub category: Seq<char>,
    pub priority: Seq<char>,
    pub description: Seq<char>,
}

impl View for ReportRecord {
    type V = ReportRecordView;

    open spec fn view(&self) -> ReportRecordView {
        ReportRecordView {
            num: self.num,
            created_at_utc: self.created_at_utc@,
            opened_by: self.opened_by@,
            opened_by_level: self.opened_by_level,
            closed_by: opt_text(self.closed_by),
            closed_at_utc: opt_text(self.closed_at_utc),
            closing_comments: opt_text(self.closing_comments),
            person: self.person@,
            title: self.title@,
            category: self.category@,
            priority: self.priority@,
            description: self.description@,
        }
    }
}

impl Clone for ReportRecord {
    fn clone(&self) -> (r: Self)
        ensures
            r == *self,
    {
        ReportRecord {
            num: self.num,
            created_at_utc: self.created_at_utc.clone(),
            opened_by: self.opened_by.clone(),
            opened_by_level: self.opened_by_level,
            closed_by: copy_text(&self.closed_by),
            closed_at_utc: copy_text(&self.closed_at_utc),
            closing_comments: copy_text(&self.closing_comments),
            person: self.person.clone(),
            title: self.title.clone(),
            category: self.category.clone(),
            priority: self.priority.clone(),
            description: self.description.clone(),
        }
    }
}

/// A request to open a report.
#[derive(Debug)]
pub struct CreateReportRequest {
    /// Whom it is about.
    pub person: String,
    /// The title.
    pub title: String,
    /// The category.
    pub category: String,
    /// The priority.
    pub priority: String,
    /// The description.
    pub description: String,
    /// Who says to open it; the session decides instead.
    pub opened_by: Option<String>,
}

/// What a [`CreateReportRequest`] stands for.
pub struct CreateReportRequestView {
    pub person: Seq<char>,
    pub title: Seq<char>,
    pub category: Seq<char>,
    pub priority: Seq<char>,
    pub description: Seq<char>,
    pub opened_by: Option<Seq<char>>,
}

impl View for CreateReportRequest {
    type V = CreateReportRequestView;

    open spec fn view(&self) -> CreateReportRequestView {
        CreateReportRequestView {
            person: self.person@,
            title: self.title@,
            category: self.category@,
            priority: self.priority@,
            description: self.description@,
            opened_by: opt_text(self.opened_by),
        }
    }
}

impl Clone for CreateReportRequest {
    fn clone(&self) -> (r: Self)
        ensures
            r == *self,
    {
        CreateReportRequest {
            person: self.person.clone(),
            title: self.title.clone(),
            category: self.category.clone(),
            priority: self.priority.clone(),
            description: self.description.clone(),
            opened_by: copy_text(&self.opened_by),
        }
    }
}

/// A request to change a report; what is absent stays.
#[derive(Debug)]
pub struct UpdateReportRequest {
    /// Whom it is about.
    pub person: Option<String>,
    /// The title.
    pub title: Option<String>,
    /// The category.
    pub category: Option<String>,
    /// The priority.
    pub priority: Option<String>,
    /// The description.
    pub description: Option<String>,
    /// Whether to close (`true`) or reopen (`false`) the report.
    pub closed: Option<bool>,
    /// What is said on closing.
    pub closing_comments: Option<String>,
}

/// What a [`UpdateReportRequest`] stands for.
pub struct UpdateReportRequestView {
    pub person: Option<Seq<char>>,
    pub title: Option<Seq<char>>,
    pub category: Option<Seq<char>>,
    pub priority: Option<Seq<char>>,
    pub description: Option<Seq<char>>,
    pub closed: Option<bool>,
    pub closing_comments: Option<Seq<char>>,
}

impl View for UpdateReportRequest {
    type V = UpdateReportRequestView;

    open spec fn view(&self) -> UpdateReportRequestView {
        UpdateReportRequestView {
            person: opt_text(self.person),
            title: opt_text(self.title),
            category: opt_text(self.category),
            priority: opt_text(self.priority),
            description: opt_text(self.description),
            closed: self.closed,
            closing_comments: opt_text(self.closing_comments),
        }
    }
}

impl Clone for UpdateReportRequest {
    fn clone(&self) -> (r: Self)
        ensures
            r == *self,
    {
        UpdateReportRequest {
            person: copy_text(&self.person),
            title: copy_text(&self.title),
            category: copy_text(&self.category),
            priority: copy_text(&self.priority),
            description: copy_text(&self.description),
            closed: self.closed,
            closing_comments: copy_text(&self.closing_comments),
        }
    }
}

/// Which pins the peripherals use, by BCM numbers.
#[derive(Clone, Copy, Debug, PartialEq, Eq)]
pub struct GpioConfig {
    /// The SPI bus of the RFID reader.
    pub rfid_spi_bus: Option<u8>,
    /// The SPI chip select of the RFID reader.
    pub rfid_spi_cs: Option<u8>,
    /// The reset pin of the RFID reader.
    pub rfid_rst_gpio: Option<u8>,
    /// Switch 1, first pin.
    pub spdt1_a: Option<u8>,
    /// Switch 1, second pin.
    pub spdt1_b: Option<u8>,
    /// Switch 2, first pin.
    pub spdt2_a: Option<u8>,
    /// Switch 2, second pin.
    pub spdt2_b: Option<u8>,
    /// Switch 3, first pin.
    pub spdt3_a: Option<u8>,
    /// Switch 3, second pin.
    pub spdt3_b: Option<u8>,
    /// Rotary encoder, first pin.
    pub rotary_a: Option<u8>,
    /// Rotary encoder, second pin.
    pub rotary_b: Option<u8>,
    /// Rotary encoder, button.
    pub rotary_btn: Option<u8>,
    /// Capacitive touch input.
    pub cap_touch: Option<u8>,
    /// Additional push button.
    pub push_btn: Option<u8>,
}

impl GpioConfig {
    /// The configuration that assigns nothing.
    pub open spec fn unassigned() -> GpioConfig {
        GpioConfig {
            rfid_spi_bus: None,
            rfid_spi_cs: None,
            rfid_rst_gpio: None,
            spdt1_a: None,
            spdt1_b: None,
            spdt2_a: None,
            spdt2_b: None,
            spdt3_a: None,
            spdt3_b: None,
            rotary_a: None,
            rotary_b: None,
            rotary_btn: None,
            cap_touch: None,
            push_btn: None,
        }
    }
}

impl Default for GpioConfig {
    fn default() -> (r: Self)
        ensures
            r == GpioConfig::unassigned(),
    {
        GpioConfig {
            rfid_spi_bus: None,
            rfid_spi_cs: None,
            rfid_rst_gpio: None,
            spdt1_a: None,
            spdt1_b: None,
            spdt2_a: None,
            spdt2_b: None,
            spdt3_a: None,
            spdt3_b: None,
            rotary_a: None,
            rotary_b: None,
            rotary_btn: None,
            cap_touch: None,
            push_btn: None,
        }
    }
}

/// All that the store holds.
#[derive(Clone, Debug)]
pub struct StoreData {
    /// The version of the layout.
    pub schema_version: u32,
    /// Where the search for the next report number starts.
    pub next_report_num: u32,
    /// The pin assignment.
    pub gpio_config: GpioConfig,
    /// The users, in order of creation.
    pub users: Vec<UserRecord>,
    /// The reports, in order of creation.
    pub reports: Vec<ReportRecord>,
}

/// What a [`StoreData`] stands for.
pub struct StoreDataView {
    pub schema_version: u32,
    pub next_report_num: u32,
    pub gpio_config: GpioConfig,
    pub users: Seq<UserRecordView>,
    pub reports: Seq<ReportRecordView>,
}

/// Users by what they stand for.
pub open spec fn user_views(s: Seq<UserRecord>) -> Seq<UserRecordView> {
    s.map_values(|u: UserRecord| u@)
}

/// Reports by what they stand for.
pub open spec fn report_views(s: Seq<ReportRecord>) -> Seq<ReportRecordView> {
    s.map_values(|r: ReportRecord| r@)
}

impl View for StoreData {
    type V = StoreDataView;

    open spec fn view(&self) -> StoreDataView {
        StoreDataView {
            schema_version: self.schema_version,
            next_report_num: self.next_report_num,
            gpio_config: self.gpio_config,
            users: user_views(self.users@),
            reports: report_views(self.reports@),
        }
    }
}

impl StoreDataView {
    /// The empty store.
    pub open spec fn empty() -> StoreDataView {
        StoreDataView {
            schema_version: 1,
            next_report_num: 100_000,
            gpio_config: GpioConfig::unassigned(),
            users: Seq::empty(),
            reports: Seq::empty(),
        }
    }
}

impl Default for StoreData {
    fn default() -> (r: Self)
        ensures
            r@ == StoreDataView::empty(),
    {
        let r = StoreData {
            schema_version: 1,
            next_report_num: 100_000,
            gpio_config: GpioConfig::default(),
            users: Vec::new(),
            reports: Vec::new(),
        };
        assert(r@.users =~= Seq::empty());
        assert(r@.reports =~= Seq::empty());
        r
    }
}

/// How many records there are.
#[derive(Clone, Copy, Debug, PartialEq, Eq)]
pub struct LiveCounts {
    /// Users.
    pub users: usize,
    /// Reports.
    pub reports: usize,
    /// Reports that are not closed.
    pub open_reports: usize,
}

/// The user in a live snapshot.
#[derive(Debug)]
pub struct LiveUser {
    /// The name.
    pub username: String,
    /// The permission level.
    pub level: i32,
}

/// What a [`LiveUser`] stands for.
pub struct LiveUserView {
    pub username: Seq<char>,
    pub level: i32,
}

impl View for LiveUser {
    type V = LiveUserView;

    open spec fn view(&self) -> LiveUserView {
        LiveUserView {
            username: self.username@,
            level: self.level,
        }
    }
}

impl Clone for LiveUser {
    fn clone(&self) -> (r: Self)
        ensures
            r == *self,
    {
        LiveUser {
            username: self.username.clone(),
            level: self.level,
        }
    }
}

/// The state of authentication in a live snapshot.
#[derive(Debug)]
pub struct AuthLive {
    /// The stage.
    pub stage: String,
    /// The user, if any.
    pub user: Option<LiveUser>,
}

/// What an [`AuthLive`] stands for.
pub struct AuthLiveView {
    pub stage: Seq<char>,
    pub user: Option<LiveUserView>,
}

impl View for AuthLive {
    type V = AuthLiveView;

    open spec fn view(&self) -> AuthLiveView {
        AuthLiveView {
            stage: self.stage@,
            user: match self.user {
                Some(u) => Some(u@),
                None => None,
            },
        }
    }
}

impl Clone for AuthLive {
    fn clone(&self) -> (r: Self)
        ensures
            r == *self,
    {
        AuthLive {
            stage: self.stage.clone(),
            user: match &self.user {
                Some(u) => Some(u.clone()),
                None => None,
            },
        }
    }
}

/// A snapshot for live subscribers.
#[derive(Debug)]
pub struct LiveState {
    /// When it was taken.
    pub last_update_utc: String,
    /// The counts.
    pub counts: LiveCounts,
    /// The state of authentication.
    pub auth: AuthLive,
    /// The pin assignment.
    pub gpio_config: GpioConfig,
}

/// What a [`LiveState`] stands for.
pub struct LiveStateView {
    pub last_update_utc: Seq<char>,
    pub counts: LiveCounts,
    pub auth: AuthLiveView,
    pub gpio_config: GpioConfig,
}

impl View for LiveState {
    type V = LiveStateView;

    open spec fn view(&self) -> LiveStateView {
        LiveStateView {
            last_update_utc: self.last_update_utc@,
            counts: self.counts,
            auth: self.auth@,
            gpio_config: self.gpio_config,
        }
    }
}

impl Clone for LiveState {
    fn clone(&self) -> (r: Self)
        ensures
            r == *self,
    {
        LiveState {
            last_update_utc: self.last_update_utc.clone(),
            counts: self.counts,
            auth: self.auth.clone(),
            gpio_config: self.gpio_config,
        }
    }
}

} // verus!
