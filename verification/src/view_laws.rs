//! What stands for a value shows all of it: each record, request and answer is
//! known by its fields, and no field is left out.

use vstd::prelude::*;

use crate::api::{header_text, ApiError};
use crate::auth::{AuthError, AuthUser, SessionInfo};
use crate::fresh::Fresh;
use crate::models::{
    opt_text, report_views, user_views, AuthLive, CreateReportRequest, CreateUserRequest,
    LiveState, LiveUser, LoginRequest, LoginResponse, MeResponse, ReportRecord, StoreData,
    UpdateReportRequest, UpdateUserRequest, UserPublic, UserRecord, UserRecordView,
};
use crate::store::{public_views, StoreError};
use crate::update::{ActionView, Platform, PlatformView, StageView, UpdateAction, UpdateStage};
use crate::update::{kept_view, UpdateConfig, UpdateRecord, UpdateStatus, UpdateStatusResponse};

verus! {

/// What stands for a [`UserRecord`] shows every field of it.
pub proof fn lemma_view_of_user_record(x: UserRecord)
    ensures
        x@.username == x.username@,
        x@.rfid_uid == x.rfid_uid@,
        x@.level == x.level,
        x.passcode_hash matches Some(t) ==> x@.passcode_hash == Some(t@),
        x.passcode_hash is None ==> x@.passcode_hash is None,
        x@.created_at_utc == x.created_at_utc@,
{
}

/// What stands for a [`UserPublic`] shows every field of it.
pub proof fn lemma_view_of_user_public(x: UserPublic)
    ensures
        x@.username == x.username@,
        x@.rfid_uid == x.rfid_uid@,
        x@.level == x.level,
{
}

/// What stands for a [`CreateUserRequest`] shows every field of it.
pub proof fn lemma_view_of_create_user_request(x: CreateUserRequest)
    ensures
        x@.username == x.username@,
        x@.rfid_uid == x.rfid_uid@,
        x@.level == x.level,
        x.passcode matches Some(t) ==> x@.passcode == Some(t@),
        x.passcode is None ==> x@.passcode is None,
{
}

/// What stands for a [`UpdateUserRequest`] shows every field of it.
pub proof fn lemma_view_of_update_user_request(x: UpdateUserRequest)
    ensures
        x.rfid_uid matches Some(t) ==> x@.rfid_uid == Some(t@),
        x.rfid_uid is None ==> x@.rfid_uid is None,
        x@.level == x.level,
        x.passcode matches Some(t) ==> x@.passcode == Some(t@),
        x.passcode is None ==> x@.passcode is None,
{
}

/// What stands for a [`LoginRequest`] shows every field of it.
pub proof fn lemma_view_of_login_request(x: LoginRequest)
    ensures
        x@.username == x.username@,
        x@.passcode == x.passcode@,
{
}

/// What stands for a [`LoginResponse`] shows every field of it.
pub proof fn lemma_view_of_login_response(x: LoginResponse)
    ensures
        x@.token == x.token@,
        x@.user == x.user@,
        x@.expires_at_utc == x.expires_at_utc@,
{
}

/// What stands for a [`MeResponse`] shows every field of it.
pub proof fn lemma_view_of_me_response(x: MeResponse)
    ensures
        x@.user == x.user@,
{
}

/// What stands for a [`ReportRecord`] shows every field of it.
pub proof fn lemma_view_of_report_record(x: ReportRecord)
    ensures
        x@.num == x.num,
        x@.created_at_utc == x.created_at_utc@,
        x@.opened_by == x.opened_by@,
        x@.opened_by_level == x.opened_by_level,
        x.closed_by matches Some(t) ==> x@.closed_by == Some(t@),
        x.closed_by is None ==> x@.closed_by is None,
        x.closed_at_utc matches Some(t) ==> x@.closed_at_utc == Some(t@),
        x.closed_at_utc is None ==> x@.closed_at_utc is None,
        x.closing_comments matches Some(t) ==> x@.closing_comments == Some(t@),
        x.closing_comments is None ==> x@.closing_comments is None,
        x@.person == x.person@,
        x@.title == x.title@,
        x@.category == x.category@,
        x@.priority == x.priority@,
        x@.description == x.description@,
{
}

/// What stands for a [`CreateReportRequest`] shows every field of it.
pub proof fn lemma_view_of_create_report_request(x: CreateReportRequest)
    ensures
        x@.person == x.person@,
        x@.title == x.title@,
        x@.category == x.category@,
        x@.priority == x.priority@,
        x@.description == x.description@,
        x.opened_by matches Some(t) ==> x@.opened_by == Some(t@),
        x.opened_by is None ==> x@.opened_by is None,
{
}

/// What stands for a [`UpdateReportRequest`] shows every field of it.
pub proof fn lemma_view_of_update_report_request(x: UpdateReportRequest)
    ensures
        x.person matches Some(t) ==> x@.person == Some(t@),
        x.person is None ==> x@.person is None,
        x.title matches Some(t) ==> x@.title == Some(t@),
        x.title is None ==> x@.title is None,
        x.category matches Some(t) ==> x@.category == Some(t@),
        x.category is None ==> x@.category is None,
        x.priority matches Some(t) ==> x@.priority == Some(t@),
        x.priority is None ==> x@.priority is None,
        x.description matches Some(t) ==> x@.description == Some(t@),
        x.description is None ==> x@.description is None,
        x@.closed == x.closed,
        x.closing_comments matches Some(t) ==> x@.closing_comments == Some(t@),
        x.closing_comments is None ==> x@.closing_comments is None,
{
}

/// What stands for a [`StoreData`] shows every field of it.
pub proof fn lemma_view_of_store_data(x: StoreData)
    ensures
        x@.schema_version == x.schema_version,
        x@.next_report_num == x.next_report_num,
        x@.gpio_config == x.gpio_config,
        x@.users.len() == x.users@.len(),
        forall|i: int| 0 <= i < x.users@.len() ==> #[trigger] x@.users[i] == x.users@[i]@,
        x@.reports.len() == x.reports@.len(),
        forall|i: int| 0 <= i < x.reports@.len() ==> #[trigger] x@.reports[i] == x.reports@[i]@,
{
}

/// What stands for a [`LiveUser`] shows every field of it.
pub proof fn lemma_view_of_live_user(x: LiveUser)
    ensures
        x@.username == x.username@,
        x@.level == x.level,
{
}

/// What stands for a [`AuthLive`] shows every field of it.
pub proof fn lemma_view_of_auth_live(x: AuthLive)
    ensures
        x@.stage == x.stage@,
        x.user matches Some(t) ==> x@.user == Some(t@),
        x.user is None ==> x@.user is None,
{
}

/// What stands for a [`LiveState`] shows every field of it.
pub proof fn lemma_view_of_live_state(x: LiveState)
    ensures
        x@.last_update_utc == x.last_update_utc@,
        x@.counts == x.counts,
        x@.auth == x.auth@,
        x@.gpio_config == x.gpio_config,
{
}

/// What stands for a [`AuthUser`] shows every field of it.
pub proof fn lemma_view_of_auth_user(x: AuthUser)
    ensures
        x@.username == x.username@,
        x@.level == x.level,
{
}

/// What stands for a [`SessionInfo`] shows every field of it.
pub proof fn lemma_view_of_session_info(x: SessionInfo)
    ensures
        x@.user == x.user@,
        x@.expires_at_unix == x.expires_at_unix,
        x@.expires_at_utc == x.expires_at_utc@,
{
}

/// What stands for a [`AuthError`] shows every field of it.
pub proof fn lemma_view_of_auth_error(x: AuthError)
    ensures
        x@.kind == x.kind,
        x@.message == x.message@,
{
}

/// What stands for a [`StoreError`] shows every field of it.
pub proof fn lemma_view_of_store_error(x: StoreError)
    ensures
        x@.kind == x.kind,
        x@.message == x.message@,
{
}

/// What stands for a [`UpdateConfig`] shows every field of it.
pub proof fn lemma_view_of_update_config(x: UpdateConfig)
    ensures
        x@.enabled == x.enabled,
        x@.repo_dir == x.repo_dir@,
        x@.state_path == x.state_path@,
        x@.new_bin == x.new_bin@,
        x.live_bin matches Some(t) ==> x@.live_bin == Some(t@),
        x.live_bin is None ==> x@.live_bin is None,
        x@.auto_restart == x.auto_restart,
        x@.max_log_lines == x.max_log_lines,
{
}

/// What stands for a [`UpdateStatus`] shows every field of it.
pub proof fn lemma_view_of_update_status(x: UpdateStatus)
    ensures
        x@.enabled == x.enabled,
        x@.state == x.state,
        x.step matches Some(t) ==> x@.step == Some(t@),
        x.step is None ==> x@.step is None,
        x.started_at_utc matches Some(t) ==> x@.started_at_utc == Some(t@),
        x.started_at_utc is None ==> x@.started_at_utc is None,
        x.finished_at_utc matches Some(t) ==> x@.finished_at_utc == Some(t@),
        x.finished_at_utc is None ==> x@.finished_at_utc is None,
        x.error matches Some(t) ==> x@.error == Some(t@),
        x.error is None ==> x@.error is None,
{
}

/// What stands for a [`UpdateStatusResponse`] shows every field of it.
pub proof fn lemma_view_of_update_status_response(x: UpdateStatusResponse)
    ensures
        x@.status == x.status@,
        x@.log_tail.len() == x.log_tail@.len(),
        forall|i: int| 0 <= i < x.log_tail@.len() ==> #[trigger] x@.log_tail[i] == x.log_tail@[i]@,
        x@.repo_dir == x.repo_dir@,
        x@.live_bin == x.live_bin@,
        x@.new_bin == x.new_bin@,
{
}

/// What stands for a [`UpdateRecord`] shows every field of it.
pub proof fn lemma_view_of_update_record(x: UpdateRecord)
    ensures
        x@.status == x.status@,
        x@.log_tail.len() == x.log_tail@.len(),
        forall|i: int| 0 <= i < x.log_tail@.len() ==> #[trigger] x@.log_tail[i] == x.log_tail@[i]@,
{
}

/// What stands for a [`Fresh`] shows every field of it.
pub proof fn lemma_view_of_fresh(x: Fresh)
    ensures
        x@.salt == x.salt@,
        x@.record_at == x.record_at@,
        x@.live_at == x.live_at@,
{
}

/// What stands for a [`ApiError`] shows every field of it.
pub proof fn lemma_view_of_api_error(x: ApiError)
    ensures
        x@.status == x.status,
        x@.message == x.message@,
{
}

/// What stands for a stage shows which it is, and its paths.
pub proof fn lemma_view_of_update_stage(x: UpdateStage)
    ensures
        x is PullNoted <==> x@ is PullNoted,
        x is Pulling <==> x@ is Pulling,
        x is BuildNoted <==> x@ is BuildNoted,
        x is Building <==> x@ is Building,
        x is SwapNoted <==> x@ is SwapNoted,
        x is StagedSought <==> x@ is StagedSought,
        x is ExecutableSought <==> x@ is ExecutableSought,
        x is LiveSought <==> x@ is LiveSought,
        x is Retiring <==> x@ is Retiring,
        x is Promoting <==> x@ is Promoting,
        x is SuccessNoted <==> x@ is SuccessNoted,
        x is RestartNoted <==> x@ is RestartNoted,
        x is Pausing <==> x@ is Pausing,
        x is ErrorNoted <==> x@ is ErrorNoted,
        x is Exiting <==> x@ is Exiting,
        x is Finished <==> x@ is Finished,
        x matches UpdateStage::LiveSought { live_bin, backup } ==> x@ == (StageView::LiveSought {
            live_bin: live_bin@,
            backup: backup@,
        }),
        x matches UpdateStage::Retiring { live_bin, backup } ==> x@ == (StageView::Retiring {
            live_bin: live_bin@,
            backup: backup@,
        }),
        x matches UpdateStage::Promoting { live_bin, backup } ==> x@ == (StageView::Promoting {
            live_bin: live_bin@,
            backup: backup@,
        }),
{
}

/// What stands for an action shows which it is, and what it is to act on.
pub proof fn lemma_view_of_update_action(x: UpdateAction)
    ensures
        x is WriteStatus <==> x@ is WriteStatus,
        x is FindExecutable <==> x@ is FindExecutable,
        x is Exit <==> x@ is Exit,
        x is Nothing <==> x@ is Nothing,
        x matches UpdateAction::Run { command } ==> x@ == (ActionView::Run { command }),
        x matches UpdateAction::LookFor { path } ==> x@ == (ActionView::LookFor { path: path@ }),
        x matches UpdateAction::Rename { from, to } ==> x@ == (ActionView::Rename {
            from: from@,
            to: to@,
        }),
        x matches UpdateAction::Pause { millis } ==> x@ == (ActionView::Pause { millis }),
{
}

/// What stands for a platform shows which it is, and its path.
pub proof fn lemma_view_of_platform(x: Platform)
    ensures
        x is Unix <==> x@ is Unix,
        x matches Platform::Windows { staged_bin } ==> x@ == (PlatformView::Windows {
            staged_bin: staged_bin@,
        }),
{
}

/// An optional text stands for its characters, where there is one.
pub proof fn lemma_view_of_optional_texts(t: Option<String>, h: Option<&str>)
    ensures
        t is Some ==> opt_text(t) is Some && opt_text(t)->0 == t->0@,
        t is None ==> opt_text(t) is None,
        h is Some ==> header_text(h) is Some && header_text(h)->0 == h->0@,
        h is None ==> header_text(h) is None,
{
}

/// A status that was kept stands for itself, where there is one.
pub proof fn lemma_view_of_kept_status(prev: Option<UpdateStatus>)
    ensures
        prev is Some ==> kept_view(prev) is Some && kept_view(prev)->0 == prev->0@,
        prev is None ==> kept_view(prev) is None,
{
}

/// Lists stand for their items, one for one.
pub proof fn lemma_view_of_lists(
    users: Seq<UserRecord>,
    reports: Seq<ReportRecord>,
    records: Seq<UserRecordView>,
    i: int,
)
    ensures
        user_views(users).len() == users.len(),
        0 <= i < users.len() ==> user_views(users)[i] == users[i]@,
        report_views(reports).len() == reports.len(),
        0 <= i < reports.len() ==> report_views(reports)[i] == reports[i]@,
        public_views(records).len() == records.len(),
        0 <= i < records.len() ==> public_views(records)[i].username == records[i].username
            && public_views(records)[i].level == records[i].level,
{
}

} // verus!
