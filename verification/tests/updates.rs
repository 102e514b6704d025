use cap_cdts::update::{
    judge_command, CommandEnd, Platform, StartUpdateError, UpdateAction, UpdateCommand, UpdateConfig,
    UpdateEvent, UpdateStage, UpdateState, UpdateStatus, Updater,
};

fn config() -> UpdateConfig {
    UpdateConfig {
        enabled: true,
        repo_dir: "/repo".to_string(),
        state_path: "state.json".to_string(),
        new_bin: "bin/app.new".to_string(),
        live_bin: Some("bin/app".to_string()),
        auto_restart: true,
        max_log_lines: 10,
    }
}

fn windows() -> Platform {
    Platform::Windows { staged_bin: "C:\\new.exe".to_string() }
}

fn started(cfg: UpdateConfig, platform: Platform) -> (Updater, UpdateStage) {
    let mut u = Updater::open_with(cfg, platform, None, "t0".to_string());
    u.start_with("t1".to_string()).unwrap();
    let stage = u.begin();
    (u, stage)
}

fn exited(success: bool, code: Option<i32>) -> UpdateEvent {
    UpdateEvent::Ran(CommandEnd::Exited { success, code })
}

fn written() -> UpdateEvent {
    UpdateEvent::Written(Ok(()))
}

/// Plays events one after the other and returns where they lead.
fn play(u: &mut Updater, stage: UpdateStage, events: Vec<UpdateEvent>) -> UpdateStage {
    let mut stage = stage;
    for event in events {
        stage = u.advance_with(stage, event, "t2".to_string(), 1_700_000_000);
    }
    stage
}

/// The events up to the stage in which the built binary is looked for.
fn built() -> Vec<UpdateEvent> {
    vec![written(), exited(true, Some(0)), written(), exited(true, Some(0)), written()]
}

fn log(u: &Updater) -> Vec<String> {
    u.status(None).log_tail
}

fn error(u: &Updater) -> Option<String> {
    u.current_status().error.clone()
}

fn kept(state: UpdateState, finished: bool) -> UpdateStatus {
    UpdateStatus {
        enabled: true,
        state,
        step: Some("step".to_string()),
        started_at_utc: Some("t1".to_string()),
        finished_at_utc: if finished { Some("t2".to_string()) } else { None },
        error: Some("old".to_string()),
    }
}

#[test]
fn reasons_not_to_start_have_texts() {
    assert_eq!(StartUpdateError::Disabled.text(), "update feature is disabled");
    assert_eq!(StartUpdateError::AlreadyRunning.text(), "an update is already running");
}

#[test]
fn a_new_updater_is_idle() {
    let u = Updater::open(config(), Platform::Unix, None);
    let r = u.status(None);
    assert_eq!(r.status.state, UpdateState::Idle);
    assert!(r.status.enabled);
    assert!(r.status.step.is_none() && r.status.started_at_utc.is_none());
    assert!(r.status.finished_at_utc.is_none() && r.status.error.is_none());
    assert!(r.log_tail.is_empty());
    assert_eq!(r.live_bin, "bin/app");
    assert_eq!(u.config().state_path, "state.json");
}

#[test]
fn the_kept_status_is_restored() {
    let open = |s: UpdateStatus| {
        let u = Updater::open_with(config(), Platform::Unix, Some(s), "t9".to_string());
        u.current_status().clone()
    };
    let s = open(kept(UpdateState::Running, false));
    assert_eq!(s.state, UpdateState::Error);
    assert_eq!(s.step, None);
    assert_eq!(s.finished_at_utc.as_deref(), Some("t9"));
    assert_eq!(
        s.error.as_deref(),
        Some("previous update was interrupted by a restart; current process is running")
    );
    let s = open(kept(UpdateState::Restarting, true));
    assert_eq!(s.state, UpdateState::Success);
    assert_eq!(s.step.as_deref(), Some("restarted"));
    assert_eq!(s.finished_at_utc.as_deref(), Some("t2"));
    assert_eq!(s.error, None);
    let s = open(kept(UpdateState::Restarting, false));
    assert_eq!(s.state, UpdateState::Error);
    assert_eq!(s.error.as_deref(), Some("previous update restarted before recording completion"));
    for state in [UpdateState::Idle, UpdateState::Success, UpdateState::Error] {
        let s = open(kept(state, true));
        assert_eq!(s.state, state);
        assert_eq!(s.step.as_deref(), Some("step"));
        assert_eq!(s.error.as_deref(), Some("old"));
    }
}

#[test]
fn a_run_starts_once() {
    let (mut u, stage) = started(config(), Platform::Unix);
    assert_eq!(u.current_status().state, UpdateState::Running);
    assert_eq!(u.current_status().started_at_utc.as_deref(), Some("t1"));
    assert_eq!(u.current_status().step.as_deref(), Some("git pull"));
    assert!(matches!(stage, UpdateStage::PullNoted));
    assert_eq!(u.start(), Err(StartUpdateError::AlreadyRunning));
    let mut off = Updater::open(UpdateConfig { enabled: false, ..config() }, Platform::Unix, None);
    assert_eq!(off.start(), Err(StartUpdateError::Disabled));
    assert_eq!(off.current_status().state, UpdateState::Idle);
}

#[test]
fn commands_are_named() {
    assert_eq!(UpdateCommand::GitPull.program(), "git");
    assert_eq!(UpdateCommand::GitPull.args(), vec!["pull", "--ff-only"]);
    assert_eq!(UpdateCommand::MakeBuild.program(), "make");
    assert_eq!(UpdateCommand::MakeBuild.args(), vec!["build"]);
}

#[test]
fn commands_are_judged() {
    let judge = |end: CommandEnd| judge_command(UpdateCommand::GitPull, &end);
    assert_eq!(judge(CommandEnd::Exited { success: true, code: Some(0) }), None);
    assert_eq!(
        judge(CommandEnd::Exited { success: false, code: Some(-1) }).as_deref(),
        Some("git failed with exit code Some(-1)")
    );
    assert_eq!(
        judge(CommandEnd::Exited { success: false, code: None }).as_deref(),
        Some("git failed with exit code None")
    );
    assert_eq!(
        judge(CommandEnd::SpawnFailed("no such file".to_string())).as_deref(),
        Some("spawn git: no such file")
    );
    assert_eq!(
        judge(CommandEnd::WaitFailed("gone".to_string())).as_deref(),
        Some("wait on child process: gone")
    );
}

#[test]
fn a_run_goes_through_to_the_restart() {
    let (mut u, stage) = started(config(), Platform::Unix);
    assert!(matches!(u.action(&stage), UpdateAction::WriteStatus));
    let stage = play(&mut u, stage, vec![written()]);
    assert_eq!(log(&u), vec!["$ git pull --ff-only"]);
    match u.action(&stage) {
        UpdateAction::Run { command } => assert_eq!(command, UpdateCommand::GitPull),
        other => panic!("{other:?}"),
    }
    u.log_line("Already up to date.".to_string());
    let stage = play(&mut u, stage, vec![exited(true, Some(0))]);
    assert_eq!(u.current_status().step.as_deref(), Some("make build"));
    let stage = play(&mut u, stage, vec![written()]);
    match u.action(&stage) {
        UpdateAction::Run { command } => assert_eq!(command, UpdateCommand::MakeBuild),
        other => panic!("{other:?}"),
    }
    let stage = play(&mut u, stage, vec![exited(true, Some(0))]);
    assert_eq!(u.current_status().step.as_deref(), Some("swap binaries"));
    let stage = play(&mut u, stage, vec![written()]);
    match u.action(&stage) {
        UpdateAction::LookFor { path } => assert_eq!(path, "/repo/bin/app.new"),
        other => panic!("{other:?}"),
    }
    let stage = play(&mut u, stage, vec![UpdateEvent::Found(true)]);
    match u.action(&stage) {
        UpdateAction::LookFor { path } => assert_eq!(path, "/repo/bin/app"),
        other => panic!("{other:?}"),
    }
    let stage = play(&mut u, stage, vec![UpdateEvent::Found(true)]);
    match u.action(&stage) {
        UpdateAction::Rename { from, to } => {
            assert_eq!(from, "/repo/bin/app");
            assert_eq!(to, "/repo/bin/app.old-1700000000");
        }
        other => panic!("{other:?}"),
    }
    let stage = play(&mut u, stage, vec![UpdateEvent::Renamed(Ok(()))]);
    match u.action(&stage) {
        UpdateAction::Rename { from, to } => {
            assert_eq!(from, "/repo/bin/app.new");
            assert_eq!(to, "/repo/bin/app");
        }
        other => panic!("{other:?}"),
    }
    let stage = play(&mut u, stage, vec![UpdateEvent::Renamed(Ok(()))]);
    assert_eq!(u.current_status().state, UpdateState::Success);
    assert_eq!(u.current_status().step.as_deref(), Some("completed"));
    assert_eq!(u.current_status().finished_at_utc.as_deref(), Some("t2"));
    assert_eq!(
        log(&u),
        vec![
            "$ git pull --ff-only",
            "Already up to date.",
            "$ make build",
            "swapped binaries: /repo/bin/app is now live (backup: /repo/bin/app.old-1700000000)",
        ]
    );
    let stage = play(&mut u, stage, vec![written()]);
    assert_eq!(u.current_status().state, UpdateState::Restarting);
    assert_eq!(u.current_status().step.as_deref(), Some("restarting"));
    let stage = play(&mut u, stage, vec![written()]);
    match u.action(&stage) {
        UpdateAction::Pause { millis } => assert_eq!(millis, 500),
        other => panic!("{other:?}"),
    }
    let stage = play(&mut u, stage, vec![UpdateEvent::Paused]);
    assert!(matches!(u.action(&stage), UpdateAction::Exit));
    let after = Updater::open(config(), Platform::Unix, Some(u.current_status().clone()));
    assert_eq!(after.current_status().state, UpdateState::Success);
    assert_eq!(after.current_status().step.as_deref(), Some("restarted"));
}

#[test]
fn a_run_without_restart_ends() {
    let (mut u, stage) = started(UpdateConfig { auto_restart: false, ..config() }, Platform::Unix);
    let stage = play(&mut u, stage, built());
    let stage = play(
        &mut u,
        stage,
        vec![
            UpdateEvent::Found(true),
            UpdateEvent::Found(false),
            UpdateEvent::Renamed(Ok(())),
            written(),
        ],
    );
    assert!(matches!(stage, UpdateStage::Finished));
    assert!(matches!(u.action(&stage), UpdateAction::Nothing));
    assert_eq!(u.current_status().state, UpdateState::Success);
    assert_eq!(u.start(), Ok(()));
    assert!(log(&u).is_empty());
}

#[test]
fn failures_end_a_run() {
    let refuse = || Err("denied".to_string());
    let cases: Vec<(Vec<UpdateEvent>, &str)> = vec![
        (vec![UpdateEvent::Written(refuse())], "denied"),
        (vec![written(), exited(false, Some(128))], "git failed with exit code Some(128)"),
        (
            vec![written(), exited(true, Some(0)), written(), exited(false, None)],
            "make failed with exit code None",
        ),
        (
            vec![written(), exited(true, Some(0)), UpdateEvent::Written(refuse())],
            "denied",
        ),
    ];
    for (events, message) in cases {
        let (mut u, stage) = started(config(), Platform::Unix);
        let stage = play(&mut u, stage, events);
        assert!(matches!(stage, UpdateStage::ErrorNoted));
        assert_eq!(u.current_status().state, UpdateState::Error);
        assert_eq!(u.current_status().step.as_deref(), Some("error"));
        assert_eq!(u.current_status().finished_at_utc.as_deref(), Some("t2"));
        assert_eq!(error(&u).as_deref(), Some(message));
        assert_eq!(u.start(), Err(StartUpdateError::AlreadyRunning));
        let stage = play(&mut u, stage, vec![UpdateEvent::Written(refuse())]);
        assert!(matches!(stage, UpdateStage::Finished));
        assert_eq!(error(&u).as_deref(), Some(message));
        assert_eq!(u.start(), Ok(()));
    }
}

#[test]
fn failures_of_the_swap_are_told() {
    let found = || UpdateEvent::Found(true);
    let refuse = || UpdateEvent::Renamed(Err("denied".to_string()));
    let cases: Vec<(Vec<UpdateEvent>, &str)> = vec![
        (
            vec![UpdateEvent::Found(false)],
            "staged binary does not exist: /repo/bin/app.new",
        ),
        (
            vec![found(), found(), refuse()],
            "rename live binary /repo/bin/app -> /repo/bin/app.old-1700000000: denied",
        ),
        (
            vec![found(), UpdateEvent::Found(false), refuse()],
            "rename staged binary /repo/bin/app.new -> /repo/bin/app: denied",
        ),
    ];
    for (events, message) in cases {
        let (mut u, stage) = started(config(), Platform::Unix);
        let stage = play(&mut u, stage, built());
        play(&mut u, stage, events);
        assert_eq!(error(&u).as_deref(), Some(message));
    }
}

#[test]
fn the_current_executable_stands_in_for_the_live_binary() {
    let cfg = || UpdateConfig { live_bin: None, ..config() };
    let (mut u, stage) = started(cfg(), Platform::Unix);
    let stage = play(&mut u, stage, built());
    let stage = play(&mut u, stage, vec![UpdateEvent::Found(true)]);
    assert!(matches!(u.action(&stage), UpdateAction::FindExecutable));
    let stage = play(&mut u, stage, vec![UpdateEvent::Executable(Ok("/opt/app".to_string()))]);
    let stage = play(&mut u, stage, vec![UpdateEvent::Found(true)]);
    match u.action(&stage) {
        UpdateAction::Rename { from, to } => {
            assert_eq!(from, "/opt/app");
            assert_eq!(to, "/opt/app.old-1700000000");
        }
        other => panic!("{other:?}"),
    }
    let (mut u, stage) = started(cfg(), Platform::Unix);
    let stage = play(&mut u, stage, built());
    play(
        &mut u,
        stage,
        vec![UpdateEvent::Found(true), UpdateEvent::Executable(Err("lost".to_string()))],
    );
    assert_eq!(error(&u).as_deref(), Some("determine current exe path: lost"));
}

#[test]
fn on_windows_nothing_is_swapped() {
    let (mut u, stage) = started(config(), windows());
    let stage = play(&mut u, stage, built());
    match u.action(&stage) {
        UpdateAction::LookFor { path } => assert_eq!(path, "C:\\new.exe"),
        other => panic!("{other:?}"),
    }
    play(&mut u, stage, vec![UpdateEvent::Found(true)]);
    assert_eq!(
        error(&u).as_deref(),
        Some("binary swap is not supported on Windows; staged build is at C:\\new.exe")
    );
}

#[test]
fn on_windows_the_restart_is_manual() {
    let (mut u, _) = started(config(), windows());
    let stage = play(&mut u, UpdateStage::SuccessNoted, vec![written()]);
    assert!(matches!(stage, UpdateStage::Finished));
    assert_eq!(
        log(&u),
        vec!["auto-restart is enabled, but Windows cannot swap the running .exe; restart manually"]
    );
}

#[test]
fn events_of_another_stage_change_nothing() {
    let (mut u, stage) = started(config(), Platform::Unix);
    let stage = play(&mut u, stage, vec![UpdateEvent::Paused, UpdateEvent::Found(true)]);
    assert!(matches!(stage, UpdateStage::PullNoted));
    assert_eq!(u.current_status().state, UpdateState::Running);
    assert!(log(&u).is_empty());
    let stage = u.advance(stage, written());
    assert!(matches!(stage, UpdateStage::Pulling));
}

#[test]
fn the_log_keeps_the_newest_lines() {
    let mut u = Updater::open(UpdateConfig { max_log_lines: 2, ..config() }, Platform::Unix, None);
    for line in ["a", "b", "c"] {
        u.log_line(line.to_string());
    }
    assert_eq!(log(&u), vec!["b", "c"]);
    let mut none = Updater::open(UpdateConfig { max_log_lines: 0, ..config() }, Platform::Unix, None);
    none.log_line("a".to_string());
    assert!(log(&none).is_empty());
}

#[test]
fn the_state_file_holds_the_status_and_the_log() {
    let (mut u, stage) = started(UpdateConfig { max_log_lines: 2, ..config() }, Platform::Unix);
    play(&mut u, stage, vec![written()]);
    for line in ["a", "b"] {
        u.log_line(line.to_string());
    }
    let kept = u.record();
    assert_eq!(kept.status.state, UpdateState::Running);
    assert_eq!(kept.status.step.as_deref(), Some("git pull"));
    assert_eq!(kept.log_tail, vec!["a", "b"]);
}

#[test]
fn times_are_read_from_the_clock() {
    let mut u = Updater::open(config(), Platform::Unix, Some(kept(UpdateState::Running, false)));
    assert!(u.current_status().finished_at_utc.as_deref().unwrap().starts_with("20"));
    u.start().unwrap();
    assert!(u.current_status().started_at_utc.as_deref().unwrap().ends_with('Z'));
}
