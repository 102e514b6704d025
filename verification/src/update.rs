//! The updater: what it reports, when a run may start, and what a run does,
//! step by step.
//!
//! A run is a sequence of stages. Each stage waits for the outcome of one
//! [`UpdateAction`], which the caller performs and hands back as an
//! [`UpdateEvent`].

use vstd::prelude::*;

use std::collections::VecDeque;

use crate::clock::{is_instant_text, now_rfc3339, now_unix, FIRST_SECOND, LAST_SECOND};
use crate::models::{copy_text, opt_text, texts};
use crate::paths::{absolutize, joined, suffixed, with_suffix};
use crate::text::{signed_decimal, signed_decimal_text};

verus! {

/// How the updater is set up.
#[derive(Debug)]
pub struct UpdateConfig {
    /// Whether updates may be started.
    pub enabled: bool,
    /// The directory in which the commands run.
    pub repo_dir: String,
    /// The state file, which keeps the last status and its log.
    pub state_path: String,
    /// The binary that a build leaves.
    pub new_bin: String,
    /// The binary that runs; where it is not set, the current executable.
    pub live_bin: Option<String>,
    /// Whether the process ends after the binaries were swapped.
    pub auto_restart: bool,
    /// How many log lines are kept, in memory and in the state file.
    pub max_log_lines: usize,
}

/// What an [`UpdateConfig`] stands for.
pub struct UpdateConfigView {
    pub enabled: bool,
    pub repo_dir: Seq<char>,
    pub state_path: Seq<char>,
    pub new_bin: Seq<char>,
    pub live_bin: Option<Seq<char>>,
    pub auto_restart: bool,
    pub max_log_lines: usize,
}

impl View for UpdateConfig {
    type V = UpdateConfigView;

    open spec fn view(&self) -> UpdateConfigView {
        UpdateConfigView {
            enabled: self.enabled,
            repo_dir: self.repo_dir@,
            state_path: self.state_path@,
            new_bin: self.new_bin@,
            live_bin: opt_text(self.live_bin),
            auto_restart: self.auto_restart,
            max_log_lines: self.max_log_lines,
        }
    }
}

impl Clone for UpdateConfig {
    fn clone(&self) -> (r: Self)
        ensures
            r == *self,
    {
        UpdateConfig {
            enabled: self.enabled,
            repo_dir: self.repo_dir.clone(),
            state_path: self.state_path.clone(),
            new_bin: self.new_bin.clone(),
            live_bin: copy_text(&self.live_bin),
            auto_restart: self.auto_restart,
            max_log_lines: self.max_log_lines,
        }
    }
}

/// Where the updater runs.
#[derive(Debug)]
pub enum Platform {
    /// A running binary can be replaced, and paths are Unix paths.
    Unix,
    /// A running binary cannot be replaced, and paths follow rules of their own,
    /// which the caller applies.
    Windows {
        /// The path of the built binary, taken relative to the repository.
        staged_bin: String,
    },
}

/// What a [`Platform`] stands for.
pub enum PlatformView {
    Unix,
    Windows { staged_bin: Seq<char> },
}

impl View for Platform {
    type V = PlatformView;

    open spec fn view(&self) -> PlatformView {
        match self {
            Platform::Unix => PlatformView::Unix,
            Platform::Windows { staged_bin } => PlatformView::Windows { staged_bin: staged_bin@ },
        }
    }
}

/// How the last run stands.
#[derive(Clone, Copy, Debug, PartialEq, Eq, Structural)]
pub enum UpdateState {
    /// There was none.
    Idle,
    /// It is under way.
    Running,
    /// It succeeded.
    Success,
    /// It failed.
    Error,
    /// It succeeded, and the process is about to end.
    Restarting,
}

/// The status that the updater reports and keeps on disk.
#[derive(Debug)]
pub struct UpdateStatus {
    /// Whether updates may be started.
    pub enabled: bool,
    /// How the last run stands.
    pub state: UpdateState,
    /// What it is at.
    pub step: Option<String>,
    /// When it started.
    pub started_at_utc: Option<String>,
    /// When it ended.
    pub finished_at_utc: Option<String>,
    /// Why it failed.
    pub error: Option<String>,
}

/// What an [`UpdateStatus`] stands for.
pub struct UpdateStatusView {
    pub enabled: bool,
    pub state: UpdateState,
    pub step: Option<Seq<char>>,
    pub started_at_utc: Option<Seq<char>>,
    pub finished_at_utc: Option<Seq<char>>,
    pub error: Option<Seq<char>>,
}

impl View for UpdateStatus {
    type V = UpdateStatusView;

    open spec fn view(&self) -> UpdateStatusView {
        UpdateStatusView {
            enabled: self.enabled,
            state: self.state,
            step: opt_text(self.step),
            started_at_utc: opt_text(self.started_at_utc),
            finished_at_utc: opt_text(self.finished_at_utc),
            error: opt_text(self.error),
        }
    }
}

impl Clone for UpdateStatus {
    fn clone(&self) -> (r: Self)
        ensures
            r == *self,
    {
        UpdateStatus {
            enabled: self.enabled,
            state: self.state,
            step: copy_text(&self.step),
            started_at_utc: copy_text(&self.started_at_utc),
            finished_at_utc: copy_text(&self.finished_at_utc),
            error: copy_text(&self.error),
        }
    }
}

/// The answer to a query of the updater.
#[derive(Debug)]
pub struct UpdateStatusResponse {
    /// The status.
    pub status: UpdateStatus,
    /// The log lines that are kept, the oldest first.
    pub log_tail: Vec<String>,
    /// The directory in which the commands run.
    pub repo_dir: String,
    /// The binary that runs.
    pub live_bin: String,
    /// The binary that a build leaves.
    pub new_bin: String,
}

/// What an [`UpdateStatusResponse`] stands for.
pub struct UpdateStatusResponseView {
    pub status: UpdateStatusView,
    pub log_tail: Seq<Seq<char>>,
    pub repo_dir: Seq<char>,
    pub live_bin: Seq<char>,
    pub new_bin: Seq<char>,
}

impl View for UpdateStatusResponse {
    type V = UpdateStatusResponseView;

    open spec fn view(&self) -> UpdateStatusResponseView {
        UpdateStatusResponseView {
            status: self.status@,
            log_tail: texts(self.log_tail@),
            repo_dir: self.repo_dir@,
            live_bin: self.live_bin@,
            new_bin: self.new_bin@,
        }
    }
}

/// What the state file holds.
#[derive(Debug)]
pub struct UpdateRecord {
    /// The status.
    pub status: UpdateStatus,
    /// The newest log lines, the oldest first.
    pub log_tail: Vec<String>,
}

/// What an [`UpdateRecord`] stands for.
pub struct UpdateRecordView {
    pub status: UpdateStatusView,
    pub log_tail: Seq<Seq<char>>,
}

impl View for UpdateRecord {
    type V = UpdateRecordView;

    open spec fn view(&self) -> UpdateRecordView {
        UpdateRecordView { status: self.status@, log_tail: texts(self.log_tail@) }
    }
}

/// Why a run does not start.
#[derive(Clone, Copy, Debug, PartialEq, Eq, Structural)]
pub enum StartUpdateError {
    /// Updates are switched off.
    Disabled,
    /// A run is under way.
    AlreadyRunning,
}

impl StartUpdateError {
    /// The text of the error.
    pub fn text(&self) -> (r: &'static str)
        ensures
            r@ == match self {
                StartUpdateError::Disabled => "update feature is disabled"@,
                StartUpdateError::AlreadyRunning => "an update is already running"@,
            },
    {
        match self {
            StartUpdateError::Disabled => "update feature is disabled",
            StartUpdateError::AlreadyRunning => "an update is already running",
        }
    }
}

/// A command that a run executes.
#[derive(Clone, Copy, Debug, PartialEq, Eq, Structural)]
pub enum UpdateCommand {
    /// Fetches the sources.
    GitPull,
    /// Builds the binary.
    MakeBuild,
}

/// Words with a space between each two.
pub open spec fn spaced(words: Seq<Seq<char>>) -> Seq<char>
    decreases words.len(),
{
    if words.len() == 0 {
        Seq::empty()
    } else if words.len() == 1 {
        words[0]
    } else {
        spaced(words.drop_last()) + " "@ + words.last()
    }
}

impl UpdateCommand {
    /// The name of the program.
    pub open spec fn program_name(self) -> Seq<char> {
        match self {
            UpdateCommand::GitPull => "git"@,
            UpdateCommand::MakeBuild => "make"@,
        }
    }

    /// The arguments of the program.
    pub open spec fn arguments(self) -> Seq<Seq<char>> {
        match self {
            UpdateCommand::GitPull => seq!["pull"@, "--ff-only"@],
            UpdateCommand::MakeBuild => seq!["build"@],
        }
    }

    /// The log line that announces the command.
    pub open spec fn line(self) -> Seq<char> {
        "$ "@ + self.program_name() + " "@ + spaced(self.arguments())
    }

    /// The name of the program.
    pub fn program(&self) -> (r: &'static str)
        ensures
            r@ == self.program_name(),
    {
        match self {
            UpdateCommand::GitPull => "git",
            UpdateCommand::MakeBuild => "make",
        }
    }

    /// The arguments of the program.
    pub fn args(&self) -> (r: Vec<&'static str>)
        ensures
            r@.map_values(|s: &'static str| s@) == self.arguments(),
    {
        let mut r: Vec<&'static str> = Vec::new();
        match self {
            UpdateCommand::GitPull => {
                r.push("pull");
                r.push("--ff-only");
            },
            UpdateCommand::MakeBuild => {
                r.push("build");
            },
        }
        assert(r@.map_values(|s: &'static str| s@) =~= self.arguments());
        r
    }

    /// The log line that announces the command.
    fn command_line(&self) -> (r: String)
        ensures
            r@ == self.line(),
    {
        let args = self.args();
        let mut r = "$ ".to_owned();
        r.append(self.program());
        r.append(" ");
        let ghost head = r@;
        let ghost words = self.arguments();
        let mut i: usize = 0;
        assert(words.take(0) =~= Seq::<Seq<char>>::empty());
        while i < args.len()
            invariant
                i <= args@.len(),
                words == args@.map_values(|s: &'static str| s@),
                r@ == head + spaced(words.take(i as int)),
            decreases args@.len() - i,
        {
            proof {
                assert(words.take(i + 1).drop_last() =~= words.take(i as int));
                assert(words.take(i + 1).last() == args@[i as int]@);
            }
            let ghost before = spaced(words.take(i as int));
            if i > 0 {
                r.append(" ");
            }
            r.append(args[i]);
            proof {
                if i > 0 {
                    assert(head + before + " "@ + args@[i as int]@ =~= head + (before + " "@
                        + args@[i as int]@));
                } else {
                    assert(before =~= Seq::<char>::empty());
                    assert(head + before + args@[i as int]@ =~= head + args@[i as int]@);
                }
            }
            i += 1;
        }
        assert(words.take(i as int) =~= words);
        r
    }
}

/// How a command went.
#[derive(Debug)]
pub enum CommandEnd {
    /// It could not be started.
    SpawnFailed(String),
    /// Waiting for it failed.
    WaitFailed(String),
    /// It ended.
    Exited {
        /// Whether it reports success.
        success: bool,
        /// Its exit code; none where a signal ended it.
        code: Option<i32>,
    },
}

/// An exit code as the log shows it.
pub open spec fn code_text(code: Option<i32>) -> Seq<char> {
    match code {
        Some(c) => "Some("@ + signed_decimal(c as int) + ")"@,
        None => "None"@,
    }
}

/// What is wrong with how a command went.
pub open spec fn command_error(command: UpdateCommand, end: CommandEnd) -> Option<Seq<char>> {
    match end {
        CommandEnd::SpawnFailed(e) => Some("spawn "@ + command.program_name() + ": "@ + e@),
        CommandEnd::WaitFailed(e) => Some("wait on child process: "@ + e@),
        CommandEnd::Exited { success, code } => if success {
            None
        } else {
            Some(command.program_name() + " failed with exit code "@ + code_text(code))
        },
    }
}

/// An exit code as the log shows it.
fn show_code(code: Option<i32>) -> (r: String)
    ensures
        r@ == code_text(code),
{
    match code {
        Some(c) => {
            let mut r = "Some(".to_owned();
            r.append(signed_decimal_text(c as i64).as_str());
            r.append(")");
            r
        },
        None => "None".to_owned(),
    }
}

/// What is wrong with how a command went.
pub fn judge_command(command: UpdateCommand, end: &CommandEnd) -> (r: Option<String>)
    ensures
        opt_text(r) == command_error(command, *end),
{
    match end {
        CommandEnd::SpawnFailed(e) => {
            let mut r = "spawn ".to_owned();
            r.append(command.program());
            r.append(": ");
            r.append(e.as_str());
            Some(r)
        },
        CommandEnd::WaitFailed(e) => {
            let mut r = "wait on child process: ".to_owned();
            r.append(e.as_str());
            Some(r)
        },
        CommandEnd::Exited { success, code } => if *success {
            None
        } else {
            let mut r = command.program().to_owned();
            r.append(" failed with exit code ");
            r.append(show_code(*code).as_str());
            Some(r)
        },
    }
}

/// Where a run is: each stage waits for the outcome of its action.
#[derive(Debug)]
pub enum UpdateStage {
    /// The step "git pull" is being written.
    PullNoted,
    /// The sources are being fetched.
    Pulling,
    /// The step "make build" is being written.
    BuildNoted,
    /// The binary is being built.
    Building,
    /// The step "swap binaries" is being written.
    SwapNoted,
    /// The built binary is being looked for.
    StagedSought,
    /// The path of the current executable is being asked for.
    ExecutableSought,
    /// The binary that runs is being looked for.
    LiveSought {
        /// The binary that runs.
        live_bin: String,
        /// The name under which it is kept.
        backup: String,
    },
    /// The binary that runs is being moved away.
    Retiring {
        /// The binary that runs.
        live_bin: String,
        /// The name under which it is kept.
        backup: String,
    },
    /// The built binary is being moved into place.
    Promoting {
        /// The binary that runs.
        live_bin: String,
        /// The name under which it is kept.
        backup: String,
    },
    /// The success is being written.
    SuccessNoted,
    /// The restart is being written.
    RestartNoted,
    /// A moment passes, in which the status can be read.
    Pausing,
    /// The failure is being written.
    ErrorNoted,
    /// The process is to end.
    Exiting,
    /// The run is over.
    Finished,
}

/// What an [`UpdateStage`] stands for.
pub enum StageView {
    PullNoted,
    Pulling,
    BuildNoted,
    Building,
    SwapNoted,
    StagedSought,
    ExecutableSought,
    LiveSought { live_bin: Seq<char>, backup: Seq<char> },
    Retiring { live_bin: Seq<char>, backup: Seq<char> },
    Promoting { live_bin: Seq<char>, backup: Seq<char> },
    SuccessNoted,
    RestartNoted,
    Pausing,
    ErrorNoted,
    Exiting,
    Finished,
}

impl View for UpdateStage {
    type V = StageView;

    open spec fn view(&self) -> StageView {
        match self {
            UpdateStage::PullNoted => StageView::PullNoted,
            UpdateStage::Pulling => StageView::Pulling,
            UpdateStage::BuildNoted => StageView::BuildNoted,
            UpdateStage::Building => StageView::Building,
            UpdateStage::SwapNoted => StageView::SwapNoted,
            UpdateStage::StagedSought => StageView::StagedSought,
            UpdateStage::ExecutableSought => StageView::ExecutableSought,
            UpdateStage::LiveSought { live_bin, backup } => StageView::LiveSought {
                live_bin: live_bin@,
                backup: backup@,
            },
            UpdateStage::Retiring { live_bin, backup } => StageView::Retiring {
                live_bin: live_bin@,
                backup: backup@,
            },
            UpdateStage::Promoting { live_bin, backup } => StageView::Promoting {
                live_bin: live_bin@,
                backup: backup@,
            },
            UpdateStage::SuccessNoted => StageView::SuccessNoted,
            UpdateStage::RestartNoted => StageView::RestartNoted,
            UpdateStage::Pausing => StageView::Pausing,
            UpdateStage::ErrorNoted => StageView::ErrorNoted,
            UpdateStage::Exiting => StageView::Exiting,
            UpdateStage::Finished => StageView::Finished,
        }
    }
}

/// What the caller of a run is to do next.
#[derive(Debug)]
pub enum UpdateAction {
    /// Write the state file.
    WriteStatus,
    /// Run a command in the repository, logging each line that it prints.
    Run {
        /// The command.
        command: UpdateCommand,
    },
    /// See whether there is a file.
    LookFor {
        /// Its path.
        path: String,
    },
    /// Ask for the path of the current executable.
    FindExecutable,
    /// Rename a file.
    Rename {
        /// Its path.
        from: String,
        /// Its new path.
        to: String,
    },
    /// Let time pass.
    Pause {
        /// How much, in milliseconds.
        millis: u64,
    },
    /// End the process, reporting success.
    Exit,
    /// Nothing: the run is over.
    Nothing,
}

/// What an [`UpdateAction`] stands for.
pub enum ActionView {
    WriteStatus,
    Run { command: UpdateCommand },
    LookFor { path: Seq<char> },
    FindExecutable,
    Rename { from: Seq<char>, to: Seq<char> },
    Pause { millis: u64 },
    Exit,
    Nothing,
}

impl View for UpdateAction {
    type V = ActionView;

    open spec fn view(&self) -> ActionView {
        match self {
            UpdateAction::WriteStatus => ActionView::WriteStatus,
            UpdateAction::Run { command } => ActionView::Run { command: *command },
            UpdateAction::LookFor { path } => ActionView::LookFor { path: path@ },
            UpdateAction::FindExecutable => ActionView::FindExecutable,
            UpdateAction::Rename { from, to } => ActionView::Rename { from: from@, to: to@ },
            UpdateAction::Pause { millis } => ActionView::Pause { millis: *millis },
            UpdateAction::Exit => ActionView::Exit,
            UpdateAction::Nothing => ActionView::Nothing,
        }
    }
}

/// How an action went.
#[derive(Debug)]
pub enum UpdateEvent {
    /// The status was written, or why not.
    Written(Result<(), String>),
    /// The command ran.
    Ran(CommandEnd),
    /// Whether there is a file.
    Found(bool),
    /// The path of the current executable, or why there is none.
    Executable(Result<String, String>),
    /// The file was renamed, or why not.
    Renamed(Result<(), String>),
    /// The time has passed.
    Paused,
}

/// The event tells how the action of the stage went.
pub open spec fn fits(stage: StageView, event: UpdateEvent) -> bool {
    match stage {
        StageView::Pulling | StageView::Building => event is Ran,
        StageView::StagedSought | StageView::LiveSought { .. } => event is Found,
        StageView::ExecutableSought => event is Executable,
        StageView::Retiring { .. } | StageView::Promoting { .. } => event is Renamed,
        StageView::Pausing => event is Paused,
        StageView::Exiting | StageView::Finished => false,
        _ => event is Written,
    }
}

/// What an [`Updater`] holds.
pub struct UpdaterView {
    pub cfg: UpdateConfigView,
    pub platform: PlatformView,
    pub status: UpdateStatusView,
    pub logs: Seq<Seq<char>>,
    pub running: bool,
}

impl UpdaterView {
    /// What the state file is to hold.
    pub open spec fn record(self) -> UpdateRecordView {
        UpdateRecordView {
            status: self.status,
            log_tail: last_lines(self.logs, self.cfg.max_log_lines as int),
        }
    }

    /// What a query is answered, given the path of the current executable.
    pub open spec fn response(self, executable: Option<Seq<char>>) -> UpdateStatusResponseView {
        UpdateStatusResponseView {
            status: self.status,
            log_tail: self.logs,
            repo_dir: self.cfg.repo_dir,
            live_bin: match self.cfg.live_bin {
                Some(p) => p,
                None => match executable {
                    Some(p) => p,
                    None => "<unknown>"@,
                },
            },
            new_bin: self.cfg.new_bin,
        }
    }
}

/// The status before any run.
pub open spec fn idle_status(enabled: bool) -> UpdateStatusView {
    UpdateStatusView {
        enabled,
        state: UpdateState::Idle,
        step: None,
        started_at_utc: None,
        finished_at_utc: None,
        error: None,
    }
}

/// The status after the process started again: a run that was under way was
/// interrupted, one that asked for the restart has succeeded.
pub open spec fn restored(s: UpdateStatusView, now: Seq<char>) -> UpdateStatusView {
    match s.state {
        UpdateState::Running => UpdateStatusView {
            state: UpdateState::Error,
            step: None,
            finished_at_utc: Some(now),
            error: Some(
                "previous update was interrupted by a restart; current process is running"@,
            ),
            ..s
        },
        UpdateState::Restarting => if s.finished_at_utc is Some {
            UpdateStatusView {
                state: UpdateState::Success,
                step: Some("restarted"@),
                error: None,
                ..s
            }
        } else {
            UpdateStatusView {
                state: UpdateState::Error,
                step: None,
                finished_at_utc: Some(now),
                error: Some("previous update restarted before recording completion"@),
                ..s
            }
        },
        _ => s,
    }
}

/// A status that was kept, if any, by what it stands for.
pub open spec fn kept_view(prev: Option<UpdateStatus>) -> Option<UpdateStatusView> {
    match prev {
        Some(s) => Some(s@),
        None => None,
    }
}

/// The updater when the process starts.
pub open spec fn opened(
    cfg: UpdateConfigView,
    platform: PlatformView,
    prev: Option<UpdateStatusView>,
    now: Seq<char>,
) -> UpdaterView {
    UpdaterView {
        cfg,
        platform,
        status: match prev {
            Some(s) => restored(s, now),
            None => idle_status(cfg.enabled),
        },
        logs: Seq::empty(),
        running: false,
    }
}

/// Why a run does not start.
pub open spec fn start_error(u: UpdaterView) -> Option<StartUpdateError> {
    if !u.cfg.enabled {
        Some(StartUpdateError::Disabled)
    } else if u.running {
        Some(StartUpdateError::AlreadyRunning)
    } else {
        None
    }
}

/// The updater when a run starts.
pub open spec fn started(u: UpdaterView, now: Seq<char>) -> UpdaterView {
    UpdaterView {
        status: UpdateStatusView {
            enabled: u.cfg.enabled,
            state: UpdateState::Running,
            step: Some("starting"@),
            started_at_utc: Some(now),
            finished_at_utc: None,
            error: None,
        },
        logs: Seq::empty(),
        running: true,
        ..u
    }
}

/// What starting a run does: a refusal changes nothing.
pub open spec fn start_post(
    u: UpdaterView,
    now: Seq<char>,
    after: UpdaterView,
    r: Result<(), StartUpdateError>,
) -> bool {
    match start_error(u) {
        Some(e) => r == Err::<(), StartUpdateError>(e) && after == u,
        None => r is Ok && after == started(u, now),
    }
}

/// The last lines, at most so many.
pub open spec fn last_lines(lines: Seq<Seq<char>>, max: int) -> Seq<Seq<char>> {
    if lines.len() > max {
        lines.skip(lines.len() - max)
    } else {
        lines
    }
}

/// The updater with one more log line.
pub open spec fn logged(u: UpdaterView, line: Seq<char>) -> UpdaterView {
    UpdaterView { logs: last_lines(u.logs.push(line), u.cfg.max_log_lines as int), ..u }
}

/// The updater at another step.
pub open spec fn at_step(u: UpdaterView, step: Seq<char>) -> UpdaterView {
    UpdaterView { status: UpdateStatusView { step: Some(step), ..u.status }, ..u }
}

/// The updater after a run failed.
pub open spec fn failed(u: UpdaterView, message: Seq<char>, now: Seq<char>) -> UpdaterView {
    UpdaterView {
        status: UpdateStatusView {
            state: UpdateState::Error,
            step: Some("error"@),
            finished_at_utc: Some(now),
            error: Some(message),
            ..u.status
        },
        ..u
    }
}

/// The updater after a run succeeded.
pub open spec fn succeeded(u: UpdaterView, now: Seq<char>) -> UpdaterView {
    UpdaterView {
        status: UpdateStatusView {
            state: UpdateState::Success,
            step: Some("completed"@),
            finished_at_utc: Some(now),
            error: None,
            ..u.status
        },
        ..u
    }
}

/// The updater before the process ends.
pub open spec fn restarting(u: UpdaterView) -> UpdaterView {
    UpdaterView {
        status: UpdateStatusView {
            state: UpdateState::Restarting,
            step: Some("restarting"@),
            ..u.status
        },
        ..u
    }
}

/// The updater after a run.
pub open spec fn ended(u: UpdaterView) -> UpdaterView {
    UpdaterView { running: false, ..u }
}

/// The path of the built binary.
pub open spec fn staged_bin(u: UpdaterView) -> Seq<char> {
    match u.platform {
        PlatformView::Unix => joined(u.cfg.repo_dir, u.cfg.new_bin),
        PlatformView::Windows { staged_bin } => staged_bin,
    }
}

/// The name under which a binary is kept that is replaced at a second.
pub open spec fn backup_of(live_bin: Seq<char>, second: int) -> Seq<char> {
    suffixed(live_bin, ".old-"@ + signed_decimal(second))
}

/// The action that a stage waits for.
pub open spec fn pending(u: UpdaterView, stage: StageView) -> ActionView {
    match stage {
        StageView::Pulling => ActionView::Run { command: UpdateCommand::GitPull },
        StageView::Building => ActionView::Run { command: UpdateCommand::MakeBuild },
        StageView::StagedSought => ActionView::LookFor { path: staged_bin(u) },
        StageView::ExecutableSought => ActionView::FindExecutable,
        StageView::LiveSought { live_bin, backup } => ActionView::LookFor { path: live_bin },
        StageView::Retiring { live_bin, backup } => ActionView::Rename {
            from: live_bin,
            to: backup,
        },
        StageView::Promoting { live_bin, backup } => ActionView::Rename {
            from: staged_bin(u),
            to: live_bin,
        },
        StageView::Pausing => ActionView::Pause { millis: 500 },
        StageView::Exiting => ActionView::Exit,
        StageView::Finished => ActionView::Nothing,
        _ => ActionView::WriteStatus,
    }
}

/// What is told when the built binary is missing.
pub open spec fn missing_message(new_bin: Seq<char>) -> Seq<char> {
    "staged binary does not exist: "@ + new_bin
}

/// What is told where a running binary cannot be replaced.
pub open spec fn windows_message(new_bin: Seq<char>) -> Seq<char> {
    "binary swap is not supported on Windows; staged build is at "@ + new_bin
}

/// What is told when a rename failed.
pub open spec fn rename_message(
    which: Seq<char>,
    from: Seq<char>,
    to: Seq<char>,
    e: Seq<char>,
) -> Seq<char> {
    "rename "@ + which + " binary "@ + from + " -> "@ + to + ": "@ + e
}

/// The log line on swapped binaries.
pub open spec fn swapped_line(live_bin: Seq<char>, backup: Seq<char>) -> Seq<char> {
    "swapped binaries: "@ + live_bin + " is now live (backup: "@ + backup + ")"@
}

/// The log line where the process does not restart by itself.
pub open spec fn manual_restart_line() -> Seq<char> {
    "auto-restart is enabled, but Windows cannot swap the running .exe; restart manually"@
}

/// What becomes of a run once the status of its stage was written, or could not
/// be: it goes on, or it fails.
pub open spec fn after_write(
    u: UpdaterView,
    stage: StageView,
    written: Result<(), String>,
    now: Seq<char>,
) -> (UpdaterView, StageView) {
    match written {
        Err(e) => (failed(u, e@, now), StageView::ErrorNoted),
        Ok(_) => match stage {
            StageView::PullNoted => (
                logged(u, UpdateCommand::GitPull.line()),
                StageView::Pulling,
            ),
            StageView::BuildNoted => (
                logged(u, UpdateCommand::MakeBuild.line()),
                StageView::Building,
            ),
            StageView::SwapNoted => (u, StageView::StagedSought),
            StageView::SuccessNoted => if !u.cfg.auto_restart {
                (ended(u), StageView::Finished)
            } else if u.platform is Windows {
                (ended(logged(u, manual_restart_line())), StageView::Finished)
            } else {
                (restarting(u), StageView::RestartNoted)
            },
            _ => (u, StageView::Pausing),
        },
    }
}

/// What becomes of a run when its action went in some way, at some time: the
/// updater and the next stage. An event that does not belong to the stage
/// changes nothing.
pub open spec fn advanced(
    u: UpdaterView,
    stage: StageView,
    event: UpdateEvent,
    now: Seq<char>,
    second: int,
) -> (UpdaterView, StageView) {
    if !fits(stage, event) {
        (u, stage)
    } else {
        match stage {
            StageView::Pulling => match command_error(UpdateCommand::GitPull, event->Ran_0) {
                None => (at_step(u, "make build"@), StageView::BuildNoted),
                Some(e) => (failed(u, e, now), StageView::ErrorNoted),
            },
            StageView::Building => match command_error(UpdateCommand::MakeBuild, event->Ran_0) {
                None => (at_step(u, "swap binaries"@), StageView::SwapNoted),
                Some(e) => (failed(u, e, now), StageView::ErrorNoted),
            },
            StageView::StagedSought => if !event->Found_0 {
                (failed(u, missing_message(staged_bin(u)), now), StageView::ErrorNoted)
            } else if u.platform is Windows {
                (failed(u, windows_message(staged_bin(u)), now), StageView::ErrorNoted)
            } else {
                match u.cfg.live_bin {
                    Some(p) => {
                        let live_bin = joined(u.cfg.repo_dir, p);
                        (u, StageView::LiveSought { live_bin, backup: backup_of(live_bin, second) })
                    },
                    None => (u, StageView::ExecutableSought),
                }
            },
            StageView::ExecutableSought => match event->Executable_0 {
                Ok(p) => (
                    u,
                    StageView::LiveSought { live_bin: p@, backup: backup_of(p@, second) },
                ),
                Err(e) => (
                    failed(u, "determine current exe path: "@ + e@, now),
                    StageView::ErrorNoted,
                ),
            },
            StageView::LiveSought { live_bin, backup } => if event->Found_0 {
                (u, StageView::Retiring { live_bin, backup })
            } else {
                (u, StageView::Promoting { live_bin, backup })
            },
            StageView::Retiring { live_bin, backup } => match event->Renamed_0 {
                Ok(_) => (u, StageView::Promoting { live_bin, backup }),
                Err(e) => (
                    failed(u, rename_message("live"@, live_bin, backup, e@), now),
                    StageView::ErrorNoted,
                ),
            },
            StageView::Promoting { live_bin, backup } => match event->Renamed_0 {
                Ok(_) => (
                    succeeded(logged(u, swapped_line(live_bin, backup)), now),
                    StageView::SuccessNoted,
                ),
                Err(e) => (
                    failed(u, rename_message("staged"@, staged_bin(u), live_bin, e@), now),
                    StageView::ErrorNoted,
                ),
            },
            StageView::Pausing => (u, StageView::Exiting),
            StageView::ErrorNoted => (ended(u), StageView::Finished),
            _ => after_write(u, stage, event->Written_0, now),
        }
    }
}

/// The updater: how it is set up, its status, and the log of the last run.
#[derive(Debug)]
pub struct Updater {
    cfg: UpdateConfig,
    platform: Platform,
    status: UpdateStatus,
    logs: VecDeque<String>,
    running: bool,
}

impl View for Updater {
    type V = UpdaterView;

    closed spec fn view(&self) -> UpdaterView {
        UpdaterView {
            cfg: self.cfg@,
            platform: self.platform@,
            status: self.status@,
            logs: texts(self.logs@),
            running: self.running,
        }
    }
}

/// What is told when a rename failed.
fn rename_text(which: &str, from: &str, to: &str, e: &str) -> (r: String)
    ensures
        r@ == rename_message(which@, from@, to@, e@),
{
    let mut r = "rename ".to_owned();
    r.append(which);
    r.append(" binary ");
    r.append(from);
    r.append(" -> ");
    r.append(to);
    r.append(": ");
    r.append(e);
    r
}

/// The name under which a binary is kept that is replaced at a second.
fn backup_name(live_bin: &str, second: i64) -> (r: String)
    ensures
        r@ == backup_of(live_bin@, second as int),
{
    let suffix = ".old-".to_owned().concat(signed_decimal_text(second).as_str());
    with_suffix(live_bin, suffix.as_str())
}

impl Updater {
    /// The updater when the process starts, at a given time, with the status
    /// that was kept, if any.
    pub fn open_with(
        cfg: UpdateConfig,
        platform: Platform,
        prev: Option<UpdateStatus>,
        now: String,
    ) -> (r: Self)
        ensures
            r@ == opened(cfg@, platform@, kept_view(prev), now@),
    {
        let status = match prev {
            None => UpdateStatus {
                enabled: cfg.enabled,
                state: UpdateState::Idle,
                step: None,
                started_at_utc: None,
                finished_at_utc: None,
                error: None,
            },
            Some(s) => {
                let mut status = s;
                match status.state {
                    UpdateState::Running => {
                        status.state = UpdateState::Error;
                        status.step = None;
                        status.finished_at_utc = Some(now);
                        status.error = Some(
                            "previous update was interrupted by a restart; current process is running".to_owned(),
                        );
                    },
                    UpdateState::Restarting => {
                        if status.finished_at_utc.is_some() {
                            status.state = UpdateState::Success;
                            status.step = Some("restarted".to_owned());
                            status.error = None;
                        } else {
                            status.state = UpdateState::Error;
                            status.step = None;
                            status.finished_at_utc = Some(now);
                            status.error = Some(
                                "previous update restarted before recording completion".to_owned(),
                            );
                        }
                    },
                    _ => {},
                }
                status
            },
        };
        let r = Updater { cfg, platform, status, logs: VecDeque::new(), running: false };
        assert(r@.logs =~= Seq::<Seq<char>>::empty());
        r
    }

    /// The updater when the process starts, now.
    pub fn open(cfg: UpdateConfig, platform: Platform, prev: Option<UpdateStatus>) -> (r: Self)
        ensures
            exists|now: Seq<char>|
                is_instant_text(now) && r@ == #[trigger] opened(
                    cfg@,
                    platform@,
                    kept_view(prev),
                    now,
                ),
    {
        Updater::open_with(cfg, platform, prev, now_rfc3339())
    }

    /// How the updater is set up.
    pub fn config(&self) -> (r: &UpdateConfig)
        ensures
            r@ == self@.cfg,
    {
        &self.cfg
    }

    /// The status.
    pub fn current_status(&self) -> (r: &UpdateStatus)
        ensures
            r@ == self@.status,
    {
        &self.status
    }

    /// The log lines from a place on.
    fn log_from(&self, from: usize) -> (r: Vec<String>)
        requires
            from <= self.logs@.len(),
        ensures
            r@ == self.logs@.skip(from as int),
    {
        let mut lines: Vec<String> = Vec::new();
        let mut i: usize = from;
        while i < self.logs.len()
            invariant
                from <= i <= self.logs@.len(),
                lines@ == self.logs@.subrange(from as int, i as int),
            decreases self.logs@.len() - i,
        {
            lines.push(self.logs[i].clone());
            i += 1;
            assert(lines@ =~= self.logs@.subrange(from as int, i as int));
        }
        assert(lines@ =~= self.logs@.skip(from as int));
        lines
    }

    /// What the state file is to hold: the status, and the newest log lines, as
    /// many as are kept.
    pub fn record(&self) -> (r: UpdateRecord)
        ensures
            r@ == self@.record(),
    {
        let n = self.logs.len();
        let max = self.cfg.max_log_lines;
        let from: usize = if n > max {
            n - max
        } else {
            0
        };
        let log_tail = self.log_from(from);
        assert(texts(log_tail@) =~= self@.record().log_tail);
        UpdateRecord { status: self.status.clone(), log_tail }
    }

    /// The status with the log, given the path of the current executable.
    pub fn status(&self, executable: Option<String>) -> (r: UpdateStatusResponse)
        ensures
            r@ == self@.response(opt_text(executable)),
    {
        let log_tail = self.log_from(0);
        assert(self.logs@.skip(0) =~= self.logs@);
        let live_bin = match &self.cfg.live_bin {
            Some(p) => p.clone(),
            None => match executable {
                Some(p) => p,
                None => "<unknown>".to_owned(),
            },
        };
        UpdateStatusResponse {
            status: self.status.clone(),
            log_tail,
            repo_dir: self.cfg.repo_dir.clone(),
            live_bin,
            new_bin: self.cfg.new_bin.clone(),
        }
    }

    /// Starts a run at a given time.
    pub fn start_with(&mut self, now: String) -> (r: Result<(), StartUpdateError>)
        ensures
            start_post(old(self)@, now@, final(self)@, r),
    {
        if !self.cfg.enabled {
            return Err(StartUpdateError::Disabled);
        }
        if self.running {
            return Err(StartUpdateError::AlreadyRunning);
        }
        self.running = true;
        self.logs.clear();
        assert(texts(self.logs@) =~= Seq::<Seq<char>>::empty());
        self.status.enabled = self.cfg.enabled;
        self.status.state = UpdateState::Running;
        self.status.step = Some("starting".to_owned());
        self.status.started_at_utc = Some(now);
        self.status.finished_at_utc = None;
        self.status.error = None;
        Ok(())
    }

    /// Starts a run, now.
    pub fn start(&mut self) -> (r: Result<(), StartUpdateError>)
        ensures
            exists|now: Seq<char>|
                is_instant_text(now) && #[trigger] start_post(old(self)@, now, final(self)@, r),
    {
        self.start_with(now_rfc3339())
    }

    /// Adds a log line, and drops the oldest where there are too many.
    pub fn log_line(&mut self, line: String)
        ensures
            final(self)@ == logged(old(self)@, line@),
    {
        self.logs.push_back(line);
        let ghost all = self.logs@;
        let ghost mut dropped: int = 0;
        assert(all.skip(0) =~= all);
        while self.logs.len() > self.cfg.max_log_lines
            invariant
                self.cfg == old(self).cfg,
                self.platform == old(self).platform,
                self.status == old(self).status,
                self.running == old(self).running,
                0 <= dropped <= all.len(),
                self.logs@ == all.skip(dropped),
                dropped > 0 ==> self.logs@.len() >= self.cfg.max_log_lines,
            decreases self.logs@.len(),
        {
            let ghost before = self.logs@;
            let _ = self.logs.pop_front();
            proof {
                dropped = dropped + 1;
                assert(self.logs@ =~= all.skip(dropped));
            }
        }
        assert(texts(all) =~= old(self)@.logs.push(line@));
        assert(texts(self.logs@) =~= last_lines(texts(all), self.cfg.max_log_lines as int));
    }

    /// Notes what the run is at.
    fn set_step(&mut self, step: &str)
        ensures
            final(self)@ == at_step(old(self)@, step@),
    {
        self.status.step = Some(step.to_owned());
    }

    /// Notes that the run failed at a given time.
    fn set_error(&mut self, message: String, now: String)
        ensures
            final(self)@ == failed(old(self)@, message@, now@),
    {
        self.status.state = UpdateState::Error;
        self.status.step = Some("error".to_owned());
        self.status.finished_at_utc = Some(now);
        self.status.error = Some(message);
    }

    /// The first stage of a run that was started.
    pub fn begin(&mut self) -> (r: UpdateStage)
        ensures
            final(self)@ == at_step(old(self)@, "git pull"@),
            r@ == StageView::PullNoted,
    {
        self.set_step("git pull");
        UpdateStage::PullNoted
    }

    /// The path of the built binary.
    fn staged_path(&self) -> (r: String)
        ensures
            r@ == staged_bin(self@),
    {
        match &self.platform {
            Platform::Unix => absolutize(self.cfg.repo_dir.as_str(), self.cfg.new_bin.as_str()),
            Platform::Windows { staged_bin } => staged_bin.clone(),
        }
    }

    /// Whether a running binary cannot be replaced.
    fn is_windows(&self) -> (r: bool)
        ensures
            r == self@.platform is Windows,
    {
        match &self.platform {
            Platform::Unix => false,
            Platform::Windows { staged_bin } => true,
        }
    }

    /// The action that a stage waits for.
    pub fn action(&self, stage: &UpdateStage) -> (r: UpdateAction)
        ensures
            r@ == pending(self@, stage@),
    {
        match stage {
            UpdateStage::Pulling => UpdateAction::Run { command: UpdateCommand::GitPull },
            UpdateStage::Building => UpdateAction::Run { command: UpdateCommand::MakeBuild },
            UpdateStage::StagedSought => UpdateAction::LookFor { path: self.staged_path() },
            UpdateStage::ExecutableSought => UpdateAction::FindExecutable,
            UpdateStage::LiveSought { live_bin, backup } => UpdateAction::LookFor {
                path: live_bin.clone(),
            },
            UpdateStage::Retiring { live_bin, backup } => UpdateAction::Rename {
                from: live_bin.clone(),
                to: backup.clone(),
            },
            UpdateStage::Promoting { live_bin, backup } => UpdateAction::Rename {
                from: self.staged_path(),
                to: live_bin.clone(),
            },
            UpdateStage::Pausing => UpdateAction::Pause { millis: 500 },
            UpdateStage::Exiting => UpdateAction::Exit,
            UpdateStage::Finished => UpdateAction::Nothing,
            _ => UpdateAction::WriteStatus,
        }
    }

    /// Ends the run with a failure.
    fn fail(&mut self, message: String, now: String) -> (r: UpdateStage)
        ensures
            final(self)@ == failed(old(self)@, message@, now@),
            r@ == StageView::ErrorNoted,
    {
        self.set_error(message, now);
        UpdateStage::ErrorNoted
    }

    /// Goes on after the status of a successful stage was written, or not.
    fn write_done(&mut self, stage: UpdateStage, written: Result<(), String>, now: String) -> (r:
        UpdateStage)
        ensures
            (final(self)@, r@) == after_write(old(self)@, stage@, written, now@),
    {
        if let Err(e) = written {
            return self.fail(e, now);
        }
        match stage {
            UpdateStage::PullNoted => {
                self.log_line(UpdateCommand::GitPull.command_line());
                UpdateStage::Pulling
            },
            UpdateStage::BuildNoted => {
                self.log_line(UpdateCommand::MakeBuild.command_line());
                UpdateStage::Building
            },
            UpdateStage::SwapNoted => UpdateStage::StagedSought,
            UpdateStage::SuccessNoted => {
                if !self.cfg.auto_restart {
                    self.running = false;
                    UpdateStage::Finished
                } else if self.is_windows() {
                    self.log_line(
                        "auto-restart is enabled, but Windows cannot swap the running .exe; restart manually".to_owned(),
                    );
                    self.running = false;
                    UpdateStage::Finished
                } else {
                    self.status.state = UpdateState::Restarting;
                    self.status.step = Some("restarting".to_owned());
                    UpdateStage::RestartNoted
                }
            },
            _ => UpdateStage::Pausing,
        }
    }

    /// Goes on after a command, to another step.
    fn command_done(
        &mut self,
        command: UpdateCommand,
        end: &CommandEnd,
        step: &str,
        next: UpdateStage,
        now: String,
    ) -> (r: UpdateStage)
        ensures
            match command_error(command, *end) {
                None => final(self)@ == at_step(old(self)@, step@) && r == next,
                Some(e) => final(self)@ == failed(old(self)@, e, now@) && r@
                    == StageView::ErrorNoted,
            },
    {
        match judge_command(command, end) {
            None => {
                self.set_step(step);
                next
            },
            Some(e) => self.fail(e, now),
        }
    }

    /// Goes on after the built binary was looked for.
    fn staged_sought(&mut self, found: bool, now: String, second: i64) -> (r: UpdateStage)
        ensures
            (final(self)@, r@) == advanced(
                old(self)@,
                StageView::StagedSought,
                UpdateEvent::Found(found),
                now@,
                second as int,
            ),
    {
        let new_bin = self.staged_path();
        if !found {
            let message = "staged binary does not exist: ".to_owned().concat(new_bin.as_str());
            return self.fail(message, now);
        }
        if self.is_windows() {
            let message =
                "binary swap is not supported on Windows; staged build is at ".to_owned().concat(
                new_bin.as_str(),
            );
            return self.fail(message, now);
        }
        match &self.cfg.live_bin {
            Some(p) => {
                let live_bin = absolutize(self.cfg.repo_dir.as_str(), p.as_str());
                let backup = backup_name(live_bin.as_str(), second);
                UpdateStage::LiveSought { live_bin, backup }
            },
            None => UpdateStage::ExecutableSought,
        }
    }

    /// Goes on after the built binary was moved into place, or not.
    fn promoted(
        &mut self,
        live_bin: String,
        backup: String,
        renamed: Result<(), String>,
        now: String,
    ) -> (r: UpdateStage)
        ensures
            (final(self)@, r@) == advanced(
                old(self)@,
                StageView::Promoting { live_bin: live_bin@, backup: backup@ },
                UpdateEvent::Renamed(renamed),
                now@,
                0,
            ),
    {
        match renamed {
            Err(e) => {
                let new_bin = self.staged_path();
                let message = rename_text(
                    "staged",
                    new_bin.as_str(),
                    live_bin.as_str(),
                    e.as_str(),
                );
                self.fail(message, now)
            },
            Ok(_) => {
                let mut line = "swapped binaries: ".to_owned();
                line.append(live_bin.as_str());
                line.append(" is now live (backup: ");
                line.append(backup.as_str());
                line.append(")");
                self.log_line(line);
                self.status.state = UpdateState::Success;
                self.status.step = Some("completed".to_owned());
                self.status.finished_at_utc = Some(now);
                self.status.error = None;
                UpdateStage::SuccessNoted
            },
        }
    }

    /// Goes on with a run once the action of its stage went in some way, at a
    /// given time.
    pub fn advance_with(
        &mut self,
        stage: UpdateStage,
        event: UpdateEvent,
        now: String,
        second: i64,
    ) -> (r: UpdateStage)
        ensures
            (final(self)@, r@) == advanced(old(self)@, stage@, event, now@, second as int),
    {
        match event {
            UpdateEvent::Written(written) => match stage {
                UpdateStage::PullNoted
                | UpdateStage::BuildNoted
                | UpdateStage::SwapNoted
                | UpdateStage::SuccessNoted
                | UpdateStage::RestartNoted => self.write_done(stage, written, now),
                UpdateStage::ErrorNoted => {
                    self.running = false;
                    UpdateStage::Finished
                },
                s => s,
            },
            UpdateEvent::Ran(end) => match stage {
                UpdateStage::Pulling => self.command_done(
                    UpdateCommand::GitPull,
                    &end,
                    "make build",
                    UpdateStage::BuildNoted,
                    now,
                ),
                UpdateStage::Building => self.command_done(
                    UpdateCommand::MakeBuild,
                    &end,
                    "swap binaries",
                    UpdateStage::SwapNoted,
                    now,
                ),
                s => s,
            },
            UpdateEvent::Found(found) => match stage {
                UpdateStage::StagedSought => self.staged_sought(found, now, second),
                UpdateStage::LiveSought { live_bin, backup } => if found {
                    UpdateStage::Retiring { live_bin, backup }
                } else {
                    UpdateStage::Promoting { live_bin, backup }
                },
                s => s,
            },
            UpdateEvent::Executable(path) => match stage {
                UpdateStage::ExecutableSought => match path {
                    Ok(live_bin) => {
                        let backup = backup_name(live_bin.as_str(), second);
                        UpdateStage::LiveSought { live_bin, backup }
                    },
                    Err(e) => {
                        let message = "determine current exe path: ".to_owned().concat(e.as_str());
                        self.fail(message, now)
                    },
                },
                s => s,
            },
            UpdateEvent::Renamed(renamed) => match stage {
                UpdateStage::Retiring { live_bin, backup } => match renamed {
                    Ok(_) => UpdateStage::Promoting { live_bin, backup },
                    Err(e) => {
                        let message = rename_text(
                            "live",
                            live_bin.as_str(),
                            backup.as_str(),
                            e.as_str(),
                        );
                        self.fail(message, now)
                    },
                },
                UpdateStage::Promoting { live_bin, backup } => self.promoted(
                    live_bin,
                    backup,
                    renamed,
                    now,
                ),
                s => s,
            },
            UpdateEvent::Paused => match stage {
                UpdateStage::Pausing => UpdateStage::Exiting,
                s => s,
            },
        }
    }

    /// Goes on with a run once the action of its stage went in some way, now.
    pub fn advance(&mut self, stage: UpdateStage, event: UpdateEvent) -> (r: UpdateStage)
        ensures
            exists|now: Seq<char>, second: int|
                is_instant_text(now) && FIRST_SECOND <= second <= LAST_SECOND && (
                final(self)@, r@) == #[trigger] advanced(old(self)@, stage@, event, now, second),
    {
        let now = now_rfc3339();
        let second = now_unix();
        self.advance_with(stage, event, now, second)
    }
}

// Laws.

/// How many stages a run can still go through.
pub open spec fn stages_left(stage: StageView) -> nat {
    match stage {
        StageView::PullNoted => 14,
        StageView::Pulling => 13,
        StageView::BuildNoted => 12,
        StageView::Building => 11,
        StageView::SwapNoted => 10,
        StageView::StagedSought => 9,
        StageView::ExecutableSought => 8,
        StageView::LiveSought { .. } => 7,
        StageView::Retiring { .. } => 6,
        StageView::Promoting { .. } => 5,
        StageView::SuccessNoted => 4,
        StageView::RestartNoted => 3,
        StageView::Pausing => 2,
        StageView::ErrorNoted => 1,
        StageView::Exiting => 0,
        StageView::Finished => 0,
    }
}

/// A run ends: each outcome of an action leaves fewer stages, and only the end
/// of the run, or of the process, has no action whose outcome it waits for.
pub proof fn lemma_run_ends(
    u: UpdaterView,
    stage: StageView,
    event: UpdateEvent,
    now: Seq<char>,
    second: int,
)
    ensures
        fits(stage, event) ==> stages_left(advanced(u, stage, event, now, second).1) < stages_left(
            stage,
        ),
        stages_left(stage) == 0 <==> (pending(u, stage) is Nothing || pending(u, stage) is Exit),
{
}

/// What holds of the updater while a run is at a stage: the status tells how
/// the run stands, a second run cannot start before it is over, and the log is
/// no longer than allowed.
pub open spec fn run_holds(u: UpdaterView, stage: StageView) -> bool {
    &&& u.running == !(stage is Finished)
    &&& u.logs.len() <= u.cfg.max_log_lines
    &&& u.status.started_at_utc is Some
    &&& (u.status.state == UpdateState::Running <==> u.status.finished_at_utc is None)
    &&& (u.status.state == UpdateState::Error <==> u.status.error is Some)
    &&& match stage {
        StageView::SuccessNoted => u.status.state == UpdateState::Success,
        StageView::RestartNoted | StageView::Pausing | StageView::Exiting => u.status.state
            == UpdateState::Restarting,
        StageView::ErrorNoted => u.status.state == UpdateState::Error,
        StageView::Finished => u.status.state == UpdateState::Success || u.status.state
            == UpdateState::Error,
        _ => u.status.state == UpdateState::Running,
    }
}

/// A run that starts is in order from its first stage on.
pub proof fn lemma_run_starts(u: UpdaterView, now: Seq<char>)
    ensures
        run_holds(at_step(started(u, now), "git pull"@), StageView::PullNoted),
{
}

/// Every outcome of an action, and every line that is logged, keeps a run in
/// order, and the way in which the updater is set up.
pub proof fn lemma_run_stays_in_order(
    u: UpdaterView,
    stage: StageView,
    event: UpdateEvent,
    line: Seq<char>,
    now: Seq<char>,
    second: int,
)
    requires
        run_holds(u, stage),
    ensures
        run_holds(
            advanced(u, stage, event, now, second).0,
            advanced(u, stage, event, now, second).1,
        ),
        run_holds(logged(u, line), stage),
        advanced(u, stage, event, now, second).0.cfg == u.cfg,
        advanced(u, stage, event, now, second).0.status.started_at_utc == u.status.started_at_utc,
{
}

/// While a run is not over, no other starts, and nothing changes when one is
/// asked for; once it is over, one can start.
pub proof fn lemma_one_run_at_a_time(u: UpdaterView, stage: StageView)
    requires
        run_holds(u, stage),
        u.cfg.enabled,
    ensures
        start_error(u) == Some(StartUpdateError::AlreadyRunning) <==> !(stage is Finished),
        start_error(u) is None <==> stage is Finished,
{
}

/// The order of a run: the build follows a pull that succeeded, the swap a build
/// that succeeded; nothing is renamed unless the built binary was found; the
/// binary that runs is moved away only where there is one; and a success is
/// noted only once the built binary was moved into place.
pub proof fn lemma_order_of_a_run(
    u: UpdaterView,
    stage: StageView,
    event: UpdateEvent,
    now: Seq<char>,
    second: int,
)
    ensures
        ({
            let next = advanced(u, stage, event, now, second).1;
            fits(stage, event) ==> {
                &&& next is Pulling ==> stage is PullNoted
                &&& next is BuildNoted ==> stage is Pulling && command_error(
                    UpdateCommand::GitPull,
                    event->Ran_0,
                ) is None
                &&& next is Building ==> stage is BuildNoted
                &&& next is SwapNoted ==> stage is Building && command_error(
                    UpdateCommand::MakeBuild,
                    event->Ran_0,
                ) is None
                &&& next is StagedSought ==> stage is SwapNoted
                &&& next is ExecutableSought ==> stage is StagedSought && event
                    == UpdateEvent::Found(true) && u.platform is Unix
                &&& next is LiveSought ==> stage is ExecutableSought || (stage is StagedSought
                    && event == UpdateEvent::Found(true) && u.platform is Unix)
                &&& next is Retiring ==> stage is LiveSought && event == UpdateEvent::Found(true)
                &&& next is Promoting ==> stage is Retiring || (stage is LiveSought && event
                    == UpdateEvent::Found(false))
                &&& next is SuccessNoted ==> stage is Promoting && event->Renamed_0 is Ok
                &&& next is RestartNoted ==> stage is SuccessNoted && u.cfg.auto_restart
                &&& next is Exiting ==> stage is Pausing
            }
        }),
{
}

/// Files are renamed in two stages only: the binary that runs goes under the
/// name of its backup, and the built binary takes its place.
pub proof fn lemma_what_a_run_renames(u: UpdaterView, stage: StageView)
    ensures
        pending(u, stage) is Rename <==> stage is Retiring || stage is Promoting,
        stage is Promoting ==> pending(u, stage)->Rename_from == staged_bin(u),
{
}

/// A failure ends a run: whatever the outcome of writing it, the run is over,
/// and the status keeps the message.
pub proof fn lemma_failure_is_kept(
    u: UpdaterView,
    message: Seq<char>,
    written: Result<(), String>,
    now: Seq<char>,
    later: Seq<char>,
    second: int,
)
    ensures
        ({
            let (after, stage) = advanced(
                failed(u, message, now),
                StageView::ErrorNoted,
                UpdateEvent::Written(written),
                later,
                second,
            );
            &&& stage is Finished
            &&& !after.running
            &&& after.status.state == UpdateState::Error
            &&& after.status.error == Some(message)
        }),
{
}

/// After a restart no run is under way. A run that asked for the restart has
/// succeeded; one that was interrupted before has failed; what was kept of a run
/// that was over stays.
pub proof fn lemma_restart(u: UpdaterView, stage: StageView, now: Seq<char>)
    requires
        run_holds(u, stage),
    ensures
        ({
            let after = opened(u.cfg, u.platform, Some(u.status), now);
            &&& !after.running
            &&& after.status.state != UpdateState::Running
            &&& after.status.state != UpdateState::Restarting
            &&& stage is Exiting ==> after.status.state == UpdateState::Success
                && after.status.finished_at_utc == u.status.finished_at_utc
            &&& u.status.state == UpdateState::Running ==> after.status.state == UpdateState::Error
            &&& stage is Finished ==> after.status == u.status
        }),
{
}

/// Opening on a status that was just restored changes nothing more.
pub proof fn lemma_restored_twice(s: UpdateStatusView, now: Seq<char>, later: Seq<char>)
    ensures
        restored(restored(s, now), later) == restored(s, now),
{
}

/// The log keeps the newest lines: it is never longer than allowed, the new line
/// is its last where any may be kept, and the lines before it keep their order.
pub proof fn lemma_log_keeps_newest(u: UpdaterView, line: Seq<char>)
    ensures
        logged(u, line).logs.len() <= u.cfg.max_log_lines,
        u.cfg.max_log_lines > 0 ==> logged(u, line).logs.last() == line,
        u.logs.push(line).len() <= u.cfg.max_log_lines ==> logged(u, line).logs == u.logs.push(
            line,
        ),
        logged(u, line).logs == u.logs.push(line).skip(
            u.logs.len() + 1 - logged(u, line).logs.len(),
        ),
{
    assert(u.logs.push(line).skip(0) =~= u.logs.push(line));
}

/// The state file holds the status, and no more log lines than are kept; while a
/// run is in order it holds all that are in memory.
pub proof fn lemma_record_keeps_the_log(u: UpdaterView, stage: StageView)
    ensures
        u.record().status == u.status,
        u.record().log_tail.len() <= u.cfg.max_log_lines,
        run_holds(u, stage) ==> u.record().log_tail == u.logs,
{
}

} // verus!
