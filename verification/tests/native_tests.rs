use motis_bridge::supervisor::{
    auto_init_plan, default_policy, init_precheck, send_outcome, try_auto_init_plan,
    AutoInitStep, BackendMode, CmdPhase, CommandRun, IpcAction, IpcEvent, SendObservation,
    Supervisor,
};
use motis_bridge::spawn::{SpawnAction, SpawnEvent, SpawnPhase, SpawnRun};
use motis_bridge::errors::IpcError;

#[test]
fn destroy_is_idempotent_without_backend() {
    let mut sup = Supervisor::new();
    let had_first = sup.destroy();
    let had_second = sup.destroy();
    assert!(!had_first);
    assert!(!had_second);
    assert!(!sup.is_ipc_initialized());
}

#[test]
fn recovery_without_launch_config_returns_false() {
    let sup = Supervisor::new();
    let policy = default_policy();
    let mut run = CommandRun::begin(&sup, &policy);
    assert_eq!(run.next_action(), Some(IpcAction::TrySend));
    run.step(IpcEvent::SendFailed { detail: "unit-test".to_string() });
    // No launch config: the run must finish at once without requesting a spawn.
    assert_eq!(run.next_action(), None);
    match run.phase {
        CmdPhase::Failed { error: IpcError::NotRecoverable { detail } } => {
            assert_eq!(detail, "unit-test");
        }
        other => panic!("expected a not-recoverable failure, got {:?}", other),
    }
}

#[test]
fn recovery_bound_two_spawns_with_one_delay() {
    let mut sup = Supervisor::new();
    sup.complete_init_ipc("/x/motis-ipc".to_string(), "/x/data".to_string());
    let policy = default_policy();
    let mut run = CommandRun::begin(&sup, &policy);
    assert_eq!(run.next_action(), Some(IpcAction::TrySend));
    run.step(IpcEvent::SendFailed { detail: "broken pipe".to_string() });
    assert_eq!(run.next_action(), Some(IpcAction::SpawnAfter { delay_ms: 0 }));
    run.step(IpcEvent::SpawnFailed);
    assert_eq!(run.next_action(), Some(IpcAction::SpawnAfter { delay_ms: 250 }));
    run.step(IpcEvent::SpawnFailed);
    assert_eq!(run.next_action(), None);
    match run.phase {
        CmdPhase::Failed { error } => {
            match &error {
                IpcError::CommandFailed { attempts, detail } => {
                    assert_eq!(*attempts, 3);
                    assert_eq!(detail, "broken pipe");
                }
                other => panic!("expected an aggregated failure, got {:?}", other),
            }
            assert_eq!(
                error.message(),
                "IPC command failed after 3 attempts: broken pipe"
            );
        }
        other => panic!("expected a terminal failure, got {:?}", other),
    }
}

#[test]
fn successful_recovery_retries_the_send() {
    let mut sup = Supervisor::new();
    sup.complete_init_ipc("/x/motis-ipc".to_string(), "/x/data".to_string());
    let policy = default_policy();
    let mut run = CommandRun::begin(&sup, &policy);
    run.step(IpcEvent::SendFailed { detail: "unexpected eof".to_string() });
    run.step(IpcEvent::SpawnOk);
    assert_eq!(run.next_action(), Some(IpcAction::TrySend));
    run.step(IpcEvent::SendOk { line: "{\"status\":\"ok\",\"data\":null}".to_string() });
    match run.phase {
        CmdPhase::Delivered { line } => assert_eq!(line, "{\"status\":\"ok\",\"data\":null}"),
        other => panic!("expected a delivered line, got {:?}", other),
    }
}

#[test]
fn exhausted_sends_report_three_attempts() {
    let mut sup = Supervisor::new();
    sup.complete_init_ipc("/x/motis-ipc".to_string(), "/x/data".to_string());
    let policy = default_policy();
    let mut run = CommandRun::begin(&sup, &policy);
    run.step(IpcEvent::SendFailed { detail: "e1".to_string() });
    run.step(IpcEvent::SpawnOk);
    run.step(IpcEvent::SendFailed { detail: "e2".to_string() });
    run.step(IpcEvent::SpawnOk);
    run.step(IpcEvent::SendFailed { detail: "e3".to_string() });
    match run.phase {
        CmdPhase::Failed { error: IpcError::CommandFailed { attempts, detail } } => {
            assert_eq!(attempts, 3);
            assert_eq!(detail, "e3");
        }
        other => panic!("expected an aggregated failure, got {:?}", other),
    }
}

#[test]
fn send_without_backend_fails_not_initialized() {
    let sup = Supervisor::new();
    let policy = default_policy();
    let mut run = CommandRun::begin(&sup, &policy);
    run.step(IpcEvent::SendNoBackend);
    match run.phase {
        CmdPhase::Failed { error } => {
            assert!(matches!(error, IpcError::NotInitialized));
            assert_eq!(error.message(), "IPC not initialized");
        }
        other => panic!("expected a failure, got {:?}", other),
    }
}

#[test]
fn init_server_clears_launch_config_and_process() {
    let mut sup = Supervisor::new();
    let had = sup.complete_init_ipc("/x/motis-ipc".to_string(), "/x/data".to_string());
    assert!(!had);
    assert!(sup.is_ipc_initialized());
    assert_eq!(sup.get_mode(), BackendMode::Ipc);
    let had = sup.init_server("http://localhost:9999");
    assert!(had);
    assert_eq!(sup.get_mode(), BackendMode::Server);
    assert!(!sup.is_ipc_initialized());
    assert!(sup.launch.is_none());
    assert_eq!(sup.server_url, "http://localhost:9999");
}

#[test]
fn init_precheck_requires_data_directory() {
    assert!(init_precheck(true, "/data").is_ok());
    match init_precheck(false, "/data") {
        Err(e) => assert_eq!(e.message(), "Data directory not found: /data"),
        Ok(_) => panic!("a missing data directory must be rejected"),
    }
}

#[test]
fn spawn_run_retries_through_tmp_copy_on_permission_error() {
    let mut run = SpawnRun::begin("/mnt/usb/motis-ipc".to_string());
    assert!(matches!(run.next_action(), Some(SpawnAction::StatExe)));
    run.step(SpawnEvent::ExeStat { exists: true, executable: true });
    match run.next_action() {
        Some(SpawnAction::LaunchProcess { path }) => assert_eq!(path, "/mnt/usb/motis-ipc"),
        other => panic!("expected a launch, got {:?}", other),
    }
    run.step(SpawnEvent::LaunchPermissionDenied { detail: "Permission denied".to_string() });
    assert!(matches!(run.next_action(), Some(SpawnAction::CopyToTmp)));
    run.step(SpawnEvent::CopyDone { tmp_path: "/tmp/motis-ipc".to_string() });
    match run.next_action() {
        Some(SpawnAction::LaunchProcess { path }) => assert_eq!(path, "/tmp/motis-ipc"),
        other => panic!("expected a retry launch, got {:?}", other),
    }
    run.step(SpawnEvent::Launched);
    assert!(matches!(run.next_action(), Some(SpawnAction::WaitAndPoll)));
    run.step(SpawnEvent::StillRunning);
    assert!(matches!(run.phase, SpawnPhase::Ready));
}

#[test]
fn spawn_run_rejects_missing_executable() {
    let mut run = SpawnRun::begin("/nowhere/motis-ipc".to_string());
    run.step(SpawnEvent::ExeStat { exists: false, executable: false });
    match run.phase {
        SpawnPhase::Aborted { error } => {
            assert_eq!(error.message(), "Executable not found: /nowhere/motis-ipc");
        }
        other => panic!("expected an abort, got {:?}", other),
    }
}

#[test]
fn spawn_run_copies_when_exec_bit_is_missing() {
    let mut run = SpawnRun::begin("/mnt/fat32/motis-ipc".to_string());
    run.step(SpawnEvent::ExeStat { exists: true, executable: false });
    assert!(matches!(run.next_action(), Some(SpawnAction::CopyToTmp)));
}

#[test]
fn spawn_run_treats_immediate_exit_as_startup_failure() {
    let mut run = SpawnRun::begin("/x/motis-ipc".to_string());
    run.step(SpawnEvent::ExeStat { exists: true, executable: true });
    run.step(SpawnEvent::Launched);
    run.step(SpawnEvent::ExitedEarly { status: "exit status: 127".to_string() });
    match run.phase {
        SpawnPhase::Aborted { error } => {
            let m = error.message();
            assert!(m.contains("motis-ipc exited immediately"));
            assert!(m.contains("exit status: 127"));
        }
        other => panic!("expected an abort, got {:?}", other),
    }
}

#[test]
fn send_outcome_classifies_streams() {
    match send_outcome(SendObservation::ExitedBeforeSend { status: "exit status: 1".to_string() })
    {
        Err(m) => assert_eq!(m, "motis-ipc exited before command send: exit status: 1"),
        Ok(_) => panic!("a dead process must fail the send"),
    }
    match send_outcome(SendObservation::ClosedAfterExit { status: "signal: 9".to_string() }) {
        Err(m) => assert_eq!(m, "motis-ipc exited before response: signal: 9"),
        Ok(_) => panic!("a closed stream must fail the send"),
    }
    match send_outcome(SendObservation::ClosedNoExit) {
        Err(m) => assert_eq!(m, "motis-ipc returned empty response"),
        Ok(_) => panic!("a closed stream must fail the send"),
    }
    match send_outcome(SendObservation::GotLine { line: "x".to_string() }) {
        Ok(l) => assert_eq!(l, "x"),
        Err(_) => panic!("a read line is a success"),
    }
}

#[test]
fn auto_init_plan_validates_paths() {
    match auto_init_plan(None, Some("/d".to_string()), false, false) {
        Err(m) => assert_eq!(m, "No executable path provided"),
        Ok(_) => panic!("a missing executable path must be rejected"),
    }
    match auto_init_plan(Some("/e".to_string()), None, true, true) {
        Err(m) => assert_eq!(m, "No data path provided"),
        Ok(_) => panic!("a missing data path must be rejected"),
    }
    match auto_init_plan(Some("/e".to_string()), Some("/d".to_string()), false, true) {
        Err(m) => assert!(m.starts_with("motis-ipc executable not found: /e")),
        Ok(_) => panic!("a missing executable must be rejected"),
    }
    match auto_init_plan(Some("/e".to_string()), Some("/d".to_string()), true, false) {
        Err(m) => assert!(m.starts_with("Data directory not found: /d")),
        Ok(_) => panic!("a missing data directory must be rejected"),
    }
    match auto_init_plan(Some("/e".to_string()), Some("/d".to_string()), true, true) {
        Ok((e, d)) => {
            assert_eq!(e, "/e");
            assert_eq!(d, "/d");
        }
        Err(m) => panic!("valid paths must pass: {}", m),
    }
}

#[test]
fn try_auto_init_plan_decides() {
    assert!(matches!(
        try_auto_init_plan(true, None, None),
        AutoInitStep::AlreadyRunning
    ));
    assert!(matches!(
        try_auto_init_plan(false, Some("/e".to_string()), None),
        AutoInitStep::MissingPaths
    ));
    match try_auto_init_plan(false, Some("/e".to_string()), Some("/d".to_string())) {
        AutoInitStep::Attempt { exe_path, data_path } => {
            assert_eq!(exe_path, "/e");
            assert_eq!(data_path, "/d");
        }
        other => panic!("expected an attempt, got {:?}", other),
    }
}
