use tauri_dev::events::{ChangeEvent, ChangeKind, Notification};
use tauri_dev::supervisor::{
    Action, DevSupervisor, ExitReason, ExitStatus, Failure, Mode, Phase, Process, Signal,
    SupervisorState,
};

fn killed() -> ExitStatus {
    ExitStatus { code: None, reason: ExitReason::TriggeredKill }
}

fn modified(path: &str) -> ChangeEvent {
    ChangeEvent { path: path.to_string(), kind: ChangeKind::Modified }
}

fn running(strategy: Vec<String>) -> DevSupervisor<Vec<String>> {
    let mut supervisor = DevSupervisor::new(strategy, None, false);
    assert_eq!(supervisor.step(Signal::Spawned), Action::AwaitChange);
    supervisor
}

#[test]
fn a_session_begins_with_a_spawn() {
    let supervisor = DevSupervisor::new(7u32, Some("conf.json".to_string()), false);
    assert_eq!(
        supervisor.state(),
        SupervisorState {
            mode: Mode::Watch,
            phase: Phase::Starting,
            pending: Action::Spawn,
            process: Process::Absent,
            failure: None,
        }
    );
    assert_eq!(supervisor.pending(), Action::Spawn);
    assert!(!supervisor.is_stopped());
    assert_eq!(supervisor.failure(), None);
    assert_eq!(*supervisor.strategy(), 7);
    assert_eq!(*supervisor.config(), Some("conf.json".to_string()));
}

#[test]
fn a_source_change_restarts_the_application() {
    let run_args = vec!["--port".to_string(), "1420".to_string()];
    let mut supervisor = running(run_args.clone());
    let before = supervisor.state();

    assert_eq!(supervisor.observe(&modified("/project/src/main.rs")), Action::Kill);
    assert_eq!(supervisor.state().phase, Phase::Restarting);
    assert_eq!(supervisor.state().process, Process::Running);

    assert_eq!(supervisor.step(Signal::KillSent), Action::AwaitExit);
    assert_eq!(supervisor.state().process, Process::Killing);

    assert_eq!(supervisor.step(Signal::Exited(killed())), Action::Spawn);
    assert_eq!(supervisor.state().process, Process::Exited(killed()));
    assert_eq!(*supervisor.strategy(), run_args);

    assert_eq!(supervisor.step(Signal::Spawned), Action::AwaitChange);
    assert_eq!(supervisor.state(), before);
    assert_eq!(*supervisor.strategy(), run_args);
}

#[test]
fn a_configuration_change_reloads_and_does_not_restart() {
    let mut supervisor = running(Vec::new());
    let before = supervisor.state();

    assert_eq!(supervisor.observe(&modified("/project/tauri.conf.json")), Action::LoadConfig);
    assert_eq!(supervisor.state().phase, Phase::ReloadingConfig);
    assert_eq!(supervisor.state().process, Process::Running);

    assert_eq!(supervisor.step(Signal::ConfigLoaded), Action::RewriteManifest);
    assert_eq!(supervisor.state().phase, Phase::ReloadingConfig);
    assert_eq!(supervisor.state().process, Process::Running);

    assert_eq!(supervisor.step(Signal::ManifestWritten), Action::AwaitChange);
    assert_eq!(supervisor.state(), before);
}

#[test]
fn the_rewritten_manifest_restarts_by_its_own_event() {
    let mut supervisor = running(Vec::new());
    supervisor.observe(&modified("/project/tauri.conf.json"));
    supervisor.step(Signal::ConfigLoaded);
    assert_eq!(supervisor.step(Signal::ManifestWritten), Action::AwaitChange);
    assert_eq!(supervisor.observe(&modified("/project/Cargo.toml")), Action::Kill);
}

#[test]
fn the_configuration_file_counts_under_any_root() {
    let mut supervisor = running(Vec::new());
    assert_eq!(
        supervisor.observe(&modified("/workspace/member/deep/tauri.conf.json")),
        Action::LoadConfig
    );
    let mut supervisor = running(Vec::new());
    assert_eq!(supervisor.observe(&modified("tauri.conf.json")), Action::LoadConfig);
    let mut supervisor = running(Vec::new());
    assert_eq!(supervisor.observe(&modified("/project/tauri.conf.json.bak")), Action::Kill);
    let mut supervisor = running(Vec::new());
    assert_eq!(supervisor.observe(&modified("/project/tauri.conf.json/inner")), Action::Kill);
}

#[test]
fn a_failed_first_spawn_ends_the_session() {
    let mut supervisor = DevSupervisor::new((), None, false);
    assert_eq!(supervisor.step(Signal::SpawnFailed), Action::Halt);
    assert!(supervisor.is_stopped());
    assert_eq!(supervisor.failure(), Some(Failure::Spawn));
    assert_eq!(supervisor.state().process, Process::Absent);
}

#[test]
fn a_failed_respawn_ends_the_session() {
    let mut supervisor = running(Vec::new());
    supervisor.step(Signal::SourceChanged);
    supervisor.step(Signal::KillSent);
    supervisor.step(Signal::Exited(killed()));
    assert_eq!(supervisor.step(Signal::SpawnFailed), Action::Halt);
    assert_eq!(supervisor.failure(), Some(Failure::Spawn));
    assert_eq!(supervisor.state().process, Process::Exited(killed()));
}

#[test]
fn a_failed_kill_ends_the_session_without_a_spawn() {
    let mut supervisor = running(Vec::new());
    assert_eq!(supervisor.step(Signal::SourceChanged), Action::Kill);
    assert_eq!(supervisor.step(Signal::KillFailed), Action::Halt);
    assert!(supervisor.is_stopped());
    assert_eq!(supervisor.failure(), Some(Failure::Kill));
    assert_eq!(supervisor.state().process, Process::Running);
    for signal in [Signal::Spawned, Signal::SourceChanged, Signal::Exited(killed())] {
        assert_eq!(supervisor.step(signal), Action::Halt);
    }
    assert_eq!(supervisor.failure(), Some(Failure::Kill));
}

#[test]
fn a_failed_reload_ends_the_session() {
    let mut supervisor = running(Vec::new());
    supervisor.step(Signal::ConfigChanged);
    assert_eq!(supervisor.step(Signal::ConfigLoadFailed), Action::Halt);
    assert_eq!(supervisor.failure(), Some(Failure::ConfigLoad));
    assert_eq!(supervisor.state().process, Process::Running);
}

#[test]
fn a_failed_manifest_ends_the_session() {
    let mut supervisor = running(Vec::new());
    supervisor.step(Signal::ConfigChanged);
    supervisor.step(Signal::ConfigLoaded);
    assert_eq!(supervisor.step(Signal::ManifestFailed), Action::Halt);
    assert_eq!(supervisor.failure(), Some(Failure::Manifest));
}

#[test]
fn a_signal_that_answers_nothing_changes_nothing() {
    let mut supervisor = running(Vec::new());
    let before = supervisor.state();
    for signal in [
        Signal::Spawned,
        Signal::SpawnFailed,
        Signal::ConfigLoaded,
        Signal::ConfigLoadFailed,
        Signal::ManifestWritten,
        Signal::ManifestFailed,
        Signal::KillSent,
        Signal::KillFailed,
        Signal::Exited(killed()),
    ] {
        assert_eq!(supervisor.step(signal), Action::AwaitChange);
        assert_eq!(supervisor.state(), before);
    }
    supervisor.step(Signal::SourceChanged);
    assert_eq!(supervisor.step(Signal::SourceChanged), Action::Kill);
    assert_eq!(supervisor.step(Signal::Exited(killed())), Action::Kill);
    supervisor.step(Signal::KillSent);
    assert_eq!(supervisor.step(Signal::Spawned), Action::AwaitExit);
    assert_eq!(supervisor.state().process, Process::Killing);
}

#[test]
fn no_second_process_before_the_first_has_exited() {
    let mut supervisor = DevSupervisor::new((), None, false);
    let signals = [
        Signal::Spawned,
        Signal::SourceChanged,
        Signal::Spawned,
        Signal::KillSent,
        Signal::Spawned,
        Signal::SourceChanged,
        Signal::Exited(killed()),
        Signal::Spawned,
        Signal::Spawned,
        Signal::SourceChanged,
        Signal::KillSent,
        Signal::Exited(killed()),
        Signal::Exited(killed()),
        Signal::Spawned,
    ];
    let mut alive = 0;
    for signal in signals {
        let asked = supervisor.pending();
        supervisor.step(signal);
        if asked == Action::Spawn && signal == Signal::Spawned {
            alive += 1;
        }
        if asked == Action::AwaitExit && matches!(signal, Signal::Exited(_)) {
            alive -= 1;
        }
        assert!(alive == 0 || alive == 1);
        if supervisor.pending() == Action::Spawn {
            assert_eq!(alive, 0);
        }
    }
    assert_eq!(alive, 1);
    assert_eq!(supervisor.state().process, Process::Running);
}

#[test]
fn without_watching_the_application_runs_once() {
    let mut supervisor = DevSupervisor::new((), None, true);
    assert_eq!(supervisor.state().mode, Mode::NoWatch);
    assert_eq!(supervisor.pending(), Action::Spawn);
    assert_eq!(supervisor.step(Signal::Spawned), Action::AwaitExit);
    assert_eq!(supervisor.state().phase, Phase::Running);
    assert_eq!(supervisor.step(Signal::SourceChanged), Action::AwaitExit);
    assert_eq!(supervisor.observe(&modified("/project/tauri.conf.json")), Action::AwaitExit);
    let status = ExitStatus { code: Some(0), reason: ExitReason::NormalExit };
    assert_eq!(supervisor.step(Signal::Exited(status)), Action::Halt);
    assert!(supervisor.is_stopped());
    assert_eq!(supervisor.failure(), None);
    assert_eq!(supervisor.state().process, Process::Exited(status));
    assert_eq!(supervisor.step(Signal::Spawned), Action::Halt);
}

#[test]
fn notifications_that_are_no_change_are_passed_over() {
    let mut supervisor = running(Vec::new());
    let before = supervisor.state();
    for notification in [
        Notification::NoticeWrite("/project/src/main.rs".to_string()),
        Notification::NoticeRemove("/project/src/main.rs".to_string()),
        Notification::Chmod("/project/tauri.conf.json".to_string()),
        Notification::Rescan,
        Notification::Error(None),
    ] {
        assert_eq!(supervisor.notice(notification), Action::AwaitChange);
        assert_eq!(supervisor.state(), before);
    }
}

#[test]
fn notifications_of_changes_are_taken_as_changes() {
    let mut supervisor = running(Vec::new());
    assert_eq!(
        supervisor.notice(Notification::Write("/project/tauri.conf.json".to_string())),
        Action::LoadConfig
    );
    let mut supervisor = running(Vec::new());
    assert_eq!(
        supervisor.notice(Notification::Remove("/project/src/lib.rs".to_string())),
        Action::Kill
    );
    let mut supervisor = running(Vec::new());
    assert_eq!(
        supervisor.notice(Notification::Rename(
            "/project/tauri.conf.json".to_string(),
            "/project/old.json".to_string()
        )),
        Action::Kill
    );
    let mut supervisor = running(Vec::new());
    assert_eq!(
        supervisor.notice(Notification::Create("/project/tauri.conf.json".to_string())),
        Action::LoadConfig
    );
}
