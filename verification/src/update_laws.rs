//! Laws of the updater: what each outcome of an action makes of a run, in terms of
//! the outcome.

use vstd::prelude::*;

use crate::paths::{joined, suffixed};
use crate::text::signed_decimal;
use crate::update::{
    advanced, command_error, fits, logged, opened, pending, spaced, staged_bin, start_post,
    ActionView, CommandEnd, PlatformView, StageView, StartUpdateError, UpdateCommand,
    UpdateConfigView, UpdateEvent, UpdateState, UpdateStatusView, UpdaterView,
};

verus! {

// Commands.

/// The name of the program of a command.
pub open spec fn program_of(command: UpdateCommand) -> Seq<char> {
    if command == UpdateCommand::GitPull {
        "git"@
    } else {
        "make"@
    }
}

/// The words that tell an exit code.
pub open spec fn code_words(code: Option<i32>) -> Seq<char> {
    if code is Some {
        "Some("@ + signed_decimal(code->0 as int) + ")"@
    } else {
        "None"@
    }
}

/// A command is in order exactly where it ended and reports success, whatever its
/// exit code; everything else is an error, which is told with what went wrong.
pub proof fn lemma_when_a_command_fails(command: UpdateCommand, end: CommandEnd)
    ensures
        command_error(command, end) is None <==> (end matches CommandEnd::Exited { success, code }
            && success),
        end matches CommandEnd::Exited { success, code } ==> (!success ==> command_error(
            command,
            end,
        ) == Some(program_of(command) + " failed with exit code "@ + code_words(code))),
        end matches CommandEnd::SpawnFailed(e) ==> command_error(command, end) == Some(
            "spawn "@ + program_of(command) + ": "@ + e@,
        ),
        end matches CommandEnd::WaitFailed(e) ==> command_error(command, end) == Some(
            "wait on child process: "@ + e@,
        ),
{
}

/// The two commands, and how the log announces them.
pub proof fn lemma_what_the_commands_are()
    ensures
        UpdateCommand::GitPull.program_name() == "git"@,
        UpdateCommand::GitPull.arguments().len() == 2,
        UpdateCommand::GitPull.arguments()[0] == "pull"@,
        UpdateCommand::GitPull.arguments()[1] == "--ff-only"@,
        UpdateCommand::GitPull.line() == "$ git pull --ff-only"@,
        UpdateCommand::MakeBuild.program_name() == "make"@,
        UpdateCommand::MakeBuild.arguments().len() == 1,
        UpdateCommand::MakeBuild.arguments()[0] == "build"@,
        UpdateCommand::MakeBuild.line() == "$ make build"@,
{
    reveal_strlit("$ ");
    reveal_strlit(" ");
    reveal_strlit("git");
    reveal_strlit("pull");
    reveal_strlit("--ff-only");
    reveal_strlit("$ git pull --ff-only");
    reveal_strlit("make");
    reveal_strlit("build");
    reveal_strlit("$ make build");
    let words = UpdateCommand::GitPull.arguments();
    assert(words.drop_last().len() == 1);
    assert(spaced(words.drop_last()) == words[0]);
    assert(spaced(words) == words[0] + " "@ + words[1]);
    assert(UpdateCommand::GitPull.line() =~= "$ git pull --ff-only"@);
    assert(UpdateCommand::MakeBuild.line() =~= "$ make build"@);
}

// Runs.

/// A run failed with a message at a time: the status tells so, and nothing else has
/// changed.
pub open spec fn fails(
    u: UpdaterView,
    message: Seq<char>,
    now: Seq<char>,
    next: (UpdaterView, StageView),
) -> bool {
    &&& next.1 is ErrorNoted
    &&& next.0.status.state == UpdateState::Error
    &&& next.0.status.step == Some("error"@)
    &&& next.0.status.finished_at_utc == Some(now)
    &&& next.0.status.error == Some(message)
    &&& next.0.status.started_at_utc == u.status.started_at_utc
    &&& next.0.status.enabled == u.status.enabled
    &&& next.0.logs == u.logs
    &&& next.0.running == u.running
    &&& next.0.cfg == u.cfg
    &&& next.0.platform == u.platform
}

/// Of the status, the step changed, and nothing else.
pub open spec fn only_step_changes(u: UpdaterView, step: Seq<char>, v: UpdaterView) -> bool {
    &&& v.status.step == Some(step)
    &&& v.status.state == u.status.state
    &&& v.status.started_at_utc == u.status.started_at_utc
    &&& v.status.finished_at_utc == u.status.finished_at_utc
    &&& v.status.error == u.status.error
    &&& v.status.enabled == u.status.enabled
    &&& v.logs == u.logs
    &&& v.running == u.running
    &&& v.cfg == u.cfg
    &&& v.platform == u.platform
}

/// A line was added to the log, and nothing else changed.
pub open spec fn only_logs(u: UpdaterView, line: Seq<char>, v: UpdaterView) -> bool {
    &&& v.logs.len() <= u.cfg.max_log_lines
    &&& u.logs.len() < u.cfg.max_log_lines ==> v.logs == u.logs.push(line)
    &&& v.logs == u.logs.push(line).skip(u.logs.len() + 1 - v.logs.len())
    &&& u.cfg.max_log_lines <= u.logs.len() ==> v.logs.len() == u.cfg.max_log_lines
    &&& v.status == u.status
    &&& v.running == u.running
    &&& v.cfg == u.cfg
    &&& v.platform == u.platform
}

/// A line that is logged is added, and the oldest go where there are too many.
pub proof fn lemma_how_a_line_is_logged(u: UpdaterView, line: Seq<char>)
    ensures
        only_logs(u, line, logged(u, line)),
{
    assert(u.logs.push(line).skip(0) =~= u.logs.push(line));
}

/// The pull: it is run once the step is written, and announced in the log. Where it
/// reports success the build is next; else the run fails.
pub proof fn lemma_how_the_pull_goes(
    u: UpdaterView,
    event: UpdateEvent,
    now: Seq<char>,
    second: int,
)
    ensures
        ({
            let next = advanced(u, StageView::PullNoted, event, now, second);
            &&& event matches UpdateEvent::Written(w) ==> {
                &&& w is Ok ==> next.1 is Pulling && only_logs(u, "$ git pull --ff-only"@, next.0)
                &&& w matches Err(e) ==> fails(u, e@, now, next)
            }
            &&& !(event is Written) ==> next == (u, StageView::PullNoted)
        }),
        ({
            let next = advanced(u, StageView::Pulling, event, now, second);
            &&& event matches UpdateEvent::Ran(end) ==> {
                &&& end matches CommandEnd::Exited { success, code } ==> {
                    &&& success ==> next.1 is BuildNoted && only_step_changes(
                        u,
                        "make build"@,
                        next.0,
                    )
                    &&& !success ==> fails(
                        u,
                        "git"@ + " failed with exit code "@ + code_words(code),
                        now,
                        next,
                    )
                }
                &&& end matches CommandEnd::SpawnFailed(e) ==> fails(
                    u,
                    "spawn "@ + "git"@ + ": "@ + e@,
                    now,
                    next,
                )
                &&& end matches CommandEnd::WaitFailed(e) ==> fails(
                    u,
                    "wait on child process: "@ + e@,
                    now,
                    next,
                )
            }
            &&& !(event is Ran) ==> next == (u, StageView::Pulling)
        }),
{
    lemma_what_the_commands_are();
    lemma_how_a_line_is_logged(u, "$ git pull --ff-only"@);
}

/// The build: it is run once the step is written, and announced in the log. Where
/// it reports success the swap is next; else the run fails.
pub proof fn lemma_how_the_build_goes(
    u: UpdaterView,
    event: UpdateEvent,
    now: Seq<char>,
    second: int,
)
    ensures
        ({
            let next = advanced(u, StageView::BuildNoted, event, now, second);
            &&& event matches UpdateEvent::Written(w) ==> {
                &&& w is Ok ==> next.1 is Building && only_logs(u, "$ make build"@, next.0)
                &&& w matches Err(e) ==> fails(u, e@, now, next)
            }
            &&& !(event is Written) ==> next == (u, StageView::BuildNoted)
        }),
        ({
            let next = advanced(u, StageView::Building, event, now, second);
            &&& event matches UpdateEvent::Ran(end) ==> {
                &&& end matches CommandEnd::Exited { success, code } ==> {
                    &&& success ==> next.1 is SwapNoted && only_step_changes(
                        u,
                        "swap binaries"@,
                        next.0,
                    )
                    &&& !success ==> fails(
                        u,
                        "make"@ + " failed with exit code "@ + code_words(code),
                        now,
                        next,
                    )
                }
                &&& end matches CommandEnd::SpawnFailed(e) ==> fails(
                    u,
                    "spawn "@ + "make"@ + ": "@ + e@,
                    now,
                    next,
                )
                &&& end matches CommandEnd::WaitFailed(e) ==> fails(
                    u,
                    "wait on child process: "@ + e@,
                    now,
                    next,
                )
            }
            &&& !(event is Ran) ==> next == (u, StageView::Building)
        }),
{
    lemma_what_the_commands_are();
    lemma_how_a_line_is_logged(u, "$ make build"@);
}

/// The path of the built binary, taken relative to the repository.
pub open spec fn built_bin(u: UpdaterView) -> Seq<char> {
    if u.platform is Windows {
        u.platform->staged_bin
    } else {
        joined(u.cfg.repo_dir, u.cfg.new_bin)
    }
}

/// The binary that runs, and where it is kept.
pub open spec fn swaps(stage: StageView, live: Seq<char>, backup: Seq<char>) -> bool {
    stage matches StageView::LiveSought { live_bin, backup: b } && live_bin == live && b == backup
}

/// Looking for the built binary: the run fails where it is missing and where a
/// running binary cannot be replaced; else the binary that runs is the one that is
/// set, taken relative to the repository, or the current executable. Its backup is
/// named after it and the second.
pub proof fn lemma_how_the_binaries_are_found(
    u: UpdaterView,
    event: UpdateEvent,
    now: Seq<char>,
    second: int,
)
    ensures
        ({
            let next = advanced(u, StageView::SwapNoted, event, now, second);
            &&& event matches UpdateEvent::Written(w) ==> {
                &&& w is Ok ==> next == (u, StageView::StagedSought)
                &&& w matches Err(e) ==> fails(u, e@, now, next)
            }
            &&& !(event is Written) ==> next == (u, StageView::SwapNoted)
        }),
        ({
            let next = advanced(u, StageView::StagedSought, event, now, second);
            let live = joined(u.cfg.repo_dir, u.cfg.live_bin->0);
            &&& event == UpdateEvent::Found(false) ==> fails(
                u,
                "staged binary does not exist: "@ + built_bin(u),
                now,
                next,
            )
            &&& event == UpdateEvent::Found(true) && u.platform is Windows ==> fails(
                u,
                "binary swap is not supported on Windows; staged build is at "@ + built_bin(u),
                now,
                next,
            )
            &&& event == UpdateEvent::Found(true) && u.platform is Unix && u.cfg.live_bin is Some
                ==> next.0 == u && swaps(
                next.1,
                live,
                suffixed(live, ".old-"@ + signed_decimal(second)),
            )
            &&& event == UpdateEvent::Found(true) && u.platform is Unix && u.cfg.live_bin is None
                ==> next == (u, StageView::ExecutableSought)
            &&& !(event is Found) ==> next == (u, StageView::StagedSought)
        }),
        ({
            let next = advanced(u, StageView::ExecutableSought, event, now, second);
            &&& event matches UpdateEvent::Executable(p) ==> {
                &&& p matches Ok(live) ==> next.0 == u && swaps(
                    next.1,
                    live@,
                    suffixed(live@, ".old-"@ + signed_decimal(second)),
                )
                &&& p matches Err(e) ==> fails(
                    u,
                    "determine current exe path: "@ + e@,
                    now,
                    next,
                )
            }
            &&& !(event is Executable) ==> next == (u, StageView::ExecutableSought)
        }),
{
}

/// The swap: the binary that runs is moved to its backup where there is one, then
/// the built binary is moved to its place. A rename that fails ends the run; the
/// second one that does not is its success.
pub proof fn lemma_how_the_binaries_are_swapped(
    u: UpdaterView,
    live: Seq<char>,
    backup: Seq<char>,
    event: UpdateEvent,
    now: Seq<char>,
    second: int,
)
    ensures
        ({
            let stage = StageView::LiveSought { live_bin: live, backup };
            let next = advanced(u, stage, event, now, second);
            &&& event == UpdateEvent::Found(true) ==> next == (
                u,
                StageView::Retiring { live_bin: live, backup },
            )
            &&& event == UpdateEvent::Found(false) ==> next == (
                u,
                StageView::Promoting { live_bin: live, backup },
            )
            &&& !(event is Found) ==> next == (u, stage)
        }),
        ({
            let stage = StageView::Retiring { live_bin: live, backup };
            let next = advanced(u, stage, event, now, second);
            &&& pending(u, stage) == (ActionView::Rename { from: live, to: backup })
            &&& event matches UpdateEvent::Renamed(w) ==> {
                &&& w is Ok ==> next == (u, StageView::Promoting { live_bin: live, backup })
                &&& w matches Err(e) ==> fails(
                    u,
                    "rename "@ + "live"@ + " binary "@ + live + " -> "@ + backup + ": "@ + e@,
                    now,
                    next,
                )
            }
            &&& !(event is Renamed) ==> next == (u, stage)
        }),
        ({
            let stage = StageView::Promoting { live_bin: live, backup };
            let next = advanced(u, stage, event, now, second);
            &&& pending(u, stage) == (ActionView::Rename { from: built_bin(u), to: live })
            &&& event matches UpdateEvent::Renamed(w) ==> {
                &&& w is Ok ==> {
                    &&& next.1 is SuccessNoted
                    &&& next.0.status.state == UpdateState::Success
                    &&& next.0.status.step == Some("completed"@)
                    &&& next.0.status.finished_at_utc == Some(now)
                    &&& next.0.status.error is None
                    &&& next.0.status.started_at_utc == u.status.started_at_utc
                    &&& next.0.status.enabled == u.status.enabled
                    &&& next.0.running == u.running
                    &&& next.0.cfg == u.cfg
                    &&& next.0.platform == u.platform
                    &&& only_logs(
                        u,
                        "swapped binaries: "@ + live + " is now live (backup: "@ + backup + ")"@,
                        UpdaterView { status: u.status, ..next.0 },
                    )
                }
                &&& w matches Err(e) ==> fails(
                    u,
                    "rename "@ + "staged"@ + " binary "@ + built_bin(u) + " -> "@ + live + ": "@
                        + e@,
                    now,
                    next,
                )
            }
            &&& !(event is Renamed) ==> next == (u, stage)
        }),
{
    lemma_how_a_line_is_logged(
        u,
        "swapped binaries: "@ + live + " is now live (backup: "@ + backup + ")"@,
    );
}

/// The end: a success that is written ends the run, or leads to the restart where
/// that is set and possible; the restart is written, a moment passes, and the
/// process ends. A failure ends the run whether it is written or not.
pub proof fn lemma_how_a_run_ends(
    u: UpdaterView,
    event: UpdateEvent,
    now: Seq<char>,
    second: int,
)
    ensures
        ({
            let next = advanced(u, StageView::SuccessNoted, event, now, second);
            &&& event matches UpdateEvent::Written(w) ==> {
                &&& w is Ok && !u.cfg.auto_restart ==> next.1 is Finished && !next.0.running
                    && next.0.status == u.status && next.0.logs == u.logs && next.0.cfg == u.cfg
                &&& w is Ok && u.cfg.auto_restart && u.platform is Windows ==> next.1 is Finished
                    && !next.0.running && only_logs(
                    u,
                    "auto-restart is enabled, but Windows cannot swap the running .exe; restart manually"@,
                    UpdaterView { running: u.running, ..next.0 },
                )
                &&& w is Ok && u.cfg.auto_restart && u.platform is Unix ==> {
                    &&& next.1 is RestartNoted
                    &&& next.0.status.state == UpdateState::Restarting
                    &&& next.0.status.step == Some("restarting"@)
                    &&& next.0.status.started_at_utc == u.status.started_at_utc
                    &&& next.0.status.finished_at_utc == u.status.finished_at_utc
                    &&& next.0.status.error == u.status.error
                    &&& next.0.status.enabled == u.status.enabled
                    &&& next.0.logs == u.logs
                    &&& next.0.running == u.running
                    &&& next.0.cfg == u.cfg
                    &&& next.0.platform == u.platform
                }
                &&& w matches Err(e) ==> fails(u, e@, now, next)
            }
            &&& !(event is Written) ==> next == (u, StageView::SuccessNoted)
        }),
        ({
            let next = advanced(u, StageView::RestartNoted, event, now, second);
            &&& event matches UpdateEvent::Written(w) ==> {
                &&& w is Ok ==> next == (u, StageView::Pausing)
                &&& w matches Err(e) ==> fails(u, e@, now, next)
            }
            &&& !(event is Written) ==> next == (u, StageView::RestartNoted)
        }),
        advanced(u, StageView::Pausing, event, now, second) == (u, if event is Paused {
            StageView::Exiting
        } else {
            StageView::Pausing
        }),
        ({
            let next = advanced(u, StageView::ErrorNoted, event, now, second);
            &&& event is Written ==> next.1 is Finished && !next.0.running && next.0.status
                == u.status && next.0.logs == u.logs && next.0.cfg == u.cfg && next.0.platform
                == u.platform
            &&& !(event is Written) ==> next == (u, StageView::ErrorNoted)
        }),
        advanced(u, StageView::Exiting, event, now, second) == (u, StageView::Exiting),
        advanced(u, StageView::Finished, event, now, second) == (u, StageView::Finished),
{
    lemma_how_a_line_is_logged(
        u,
        "auto-restart is enabled, but Windows cannot swap the running .exe; restart manually"@,
    );
}

/// What each stage waits for.
pub proof fn lemma_what_stages_wait_for(u: UpdaterView, live: Seq<char>, backup: Seq<char>)
    ensures
        pending(u, StageView::PullNoted) is WriteStatus,
        pending(u, StageView::Pulling) == (ActionView::Run { command: UpdateCommand::GitPull }),
        pending(u, StageView::BuildNoted) is WriteStatus,
        pending(u, StageView::Building) == (ActionView::Run { command: UpdateCommand::MakeBuild }),
        pending(u, StageView::SwapNoted) is WriteStatus,
        pending(u, StageView::StagedSought) == (ActionView::LookFor { path: built_bin(u) }),
        pending(u, StageView::ExecutableSought) is FindExecutable,
        pending(u, StageView::LiveSought { live_bin: live, backup }) == (ActionView::LookFor {
            path: live,
        }),
        pending(u, StageView::Retiring { live_bin: live, backup }) == (ActionView::Rename {
            from: live,
            to: backup,
        }),
        pending(u, StageView::Promoting { live_bin: live, backup }) == (ActionView::Rename {
            from: built_bin(u),
            to: live,
        }),
        pending(u, StageView::SuccessNoted) is WriteStatus,
        pending(u, StageView::RestartNoted) is WriteStatus,
        pending(u, StageView::Pausing) == (ActionView::Pause { millis: 500 }),
        pending(u, StageView::ErrorNoted) is WriteStatus,
        pending(u, StageView::Exiting) is Exit,
        pending(u, StageView::Finished) is Nothing,
        staged_bin(u) == built_bin(u),
{
}

/// Each action has its outcome: the stage that waits for it takes no other.
pub proof fn lemma_which_outcome_fits_an_action(
    u: UpdaterView,
    stage: StageView,
    event: UpdateEvent,
)
    ensures
        fits(stage, event) <==> match pending(u, stage) {
            ActionView::WriteStatus => event is Written,
            ActionView::Run { .. } => event is Ran,
            ActionView::LookFor { .. } => event is Found,
            ActionView::FindExecutable => event is Executable,
            ActionView::Rename { .. } => event is Renamed,
            ActionView::Pause { .. } => event is Paused,
            ActionView::Exit => false,
            ActionView::Nothing => false,
        },
{
}

// Starting and restarting.

/// When a run starts, and what it makes of the updater.
pub proof fn lemma_when_a_run_starts(
    u: UpdaterView,
    now: Seq<char>,
    after: UpdaterView,
    r: Result<(), StartUpdateError>,
)
    requires
        start_post(u, now, after, r),
    ensures
        r is Err ==> after == u,
        !u.cfg.enabled ==> r is Err && r->Err_0 == StartUpdateError::Disabled,
        u.cfg.enabled && u.running ==> r is Err && r->Err_0 == StartUpdateError::AlreadyRunning,
        u.cfg.enabled && !u.running ==> {
            &&& r is Ok
            &&& after.running
            &&& after.cfg == u.cfg
            &&& after.platform == u.platform
            &&& after.logs.len() == 0
            &&& after.status.enabled
            &&& after.status.state == UpdateState::Running
            &&& after.status.step == Some("starting"@)
            &&& after.status.started_at_utc == Some(now)
            &&& after.status.finished_at_utc is None
            &&& after.status.error is None
        },
{
}

/// What the process finds when it starts again: without a kept status the updater
/// is idle; a run that was under way was interrupted; a restart that was recorded
/// is a success, one that was not an error; everything else is as it was kept.
pub proof fn lemma_what_a_restart_makes_of_the_status(
    cfg: UpdateConfigView,
    platform: PlatformView,
    prev: Option<UpdateStatusView>,
    now: Seq<char>,
)
    ensures
        ({
            let u = opened(cfg, platform, prev, now);
            let s = u.status;
            &&& u.cfg == cfg
            &&& u.platform == platform
            &&& !u.running
            &&& u.logs.len() == 0
            &&& prev is None ==> s.state == UpdateState::Idle && s.enabled == cfg.enabled
                && s.step is None && s.started_at_utc is None && s.finished_at_utc is None
                && s.error is None
            &&& prev matches Some(p) ==> {
                &&& s.enabled == p.enabled
                &&& s.started_at_utc == p.started_at_utc
                &&& p.state == UpdateState::Running ==> s.state == UpdateState::Error
                    && s.step is None && s.finished_at_utc == Some(now) && s.error == Some(
                    "previous update was interrupted by a restart; current process is running"@,
                )
                &&& p.state == UpdateState::Restarting && p.finished_at_utc is Some ==> s.state
                    == UpdateState::Success && s.step == Some("restarted"@) && s.finished_at_utc
                    == p.finished_at_utc && s.error is None
                &&& p.state == UpdateState::Restarting && p.finished_at_utc is None ==> s.state
                    == UpdateState::Error && s.step is None && s.finished_at_utc == Some(now)
                    && s.error == Some("previous update restarted before recording completion"@)
                &&& p.state != UpdateState::Running && p.state != UpdateState::Restarting ==> s == p
            }
        }),
{
}

/// What a query is answered, and what the state file holds.
pub proof fn lemma_what_the_updater_reports(u: UpdaterView, executable: Option<Seq<char>>)
    ensures
        u.response(executable).status == u.status,
        u.response(executable).log_tail == u.logs,
        u.response(executable).repo_dir == u.cfg.repo_dir,
        u.response(executable).new_bin == u.cfg.new_bin,
        u.cfg.live_bin is Some ==> u.response(executable).live_bin == u.cfg.live_bin->0,
        u.cfg.live_bin is None && executable is Some ==> u.response(executable).live_bin
            == executable->0,
        u.cfg.live_bin is None && executable is None ==> u.response(executable).live_bin
            == "<unknown>"@,
        u.record().status == u.status,
        u.logs.len() <= u.cfg.max_log_lines ==> u.record().log_tail == u.logs,
        u.logs.len() > u.cfg.max_log_lines ==> u.record().log_tail == u.logs.skip(
            u.logs.len() - u.cfg.max_log_lines,
        ),
{
}

} // verus!
