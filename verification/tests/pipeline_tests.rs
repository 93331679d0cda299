use fleet_updater::phase::UpdatePhase;
use fleet_updater::pipeline::HostPipeline;
use fleet_updater::pipeline::PipelineAction;
use fleet_updater::pipeline::RunOptions;
use fleet_updater::pipeline::StepEvent;

fn options() -> RunOptions {
    RunOptions { use_boot: false, forward_agent: false, command: None, run_after: false }
}

fn finished(output: &str, exit_status: i32) -> StepEvent {
    StepEvent::CommandFinished { output: output.to_string(), exit_status }
}

#[test]
fn invalid_token_fails_without_any_network_step() {
    let (p, events) = HostPipeline::new("garbage", options());
    assert!(p.is_finished());
    assert!(matches!(p.next_action(), PipelineAction::Finished));
    assert_eq!(events.len(), 1);
    assert!(matches!(events[0].phase, UpdatePhase::Failed { .. }));
    let r = p.result();
    assert_eq!(r.hostname, "garbage");
    assert!(!r.success);
    assert_eq!(r.transcript, "Invalid server info format");
}

#[test]
fn successful_run_without_auxiliary_command() {
    let (mut p, events) = HostPipeline::new("nixweb:10.0.0.7", options());
    assert_eq!(events.len(), 1);
    assert_eq!(events[0].hostname, "nixweb");
    assert!(matches!(events[0].phase, UpdatePhase::Connecting));
    assert_eq!(events[0].output_line.as_deref(), Some("Connecting to 10.0.0.7..."));
    match p.next_action() {
        PipelineAction::Connect { address } => assert_eq!(address, "10.0.0.7"),
        _ => panic!("expected a connect action"),
    }

    let ev = p.apply_event(StepEvent::Connected);
    assert!(matches!(ev[0].phase, UpdatePhase::CheckingRepo));
    match p.next_action() {
        PipelineAction::RunCommand { command, streaming, pty } => {
            assert_eq!(command, "test -d /etc/nixos/.git || echo 'No git repo found'");
            assert!(!streaming);
            assert!(!pty);
        },
        _ => panic!("expected the repository check"),
    }

    let ev = p.apply_event(finished("", 0));
    assert!(matches!(ev[0].phase, UpdatePhase::SyncingRepo));
    match p.next_action() {
        PipelineAction::RunCommand { command, streaming, pty } => {
            assert_eq!(command, "cd /etc/nixos && git pull --verbose");
            assert!(streaming);
            assert!(!pty);
        },
        _ => panic!("expected the repository sync"),
    }

    let ev = p.apply_event(finished("Already up to date.\n", 0));
    assert!(matches!(ev[0].phase, UpdatePhase::Rebuilding { .. }));
    match p.next_action() {
        PipelineAction::RunCommand { command, streaming, pty } => {
            assert_eq!(
                command,
                "nixos-rebuild switch --flake \"/etc/nixos#web\" --no-write-lock-file"
            );
            assert!(streaming);
            assert!(pty);
        },
        _ => panic!("expected the rebuild"),
    }

    let ev = p.apply_event(finished("done\n", 0));
    assert!(matches!(ev[0].phase, UpdatePhase::Success));
    assert!(p.is_finished());
    let r = p.result();
    assert!(r.success);
    assert_eq!(
        r.transcript,
        "$ cd /etc/nixos && git pull --verbose\nAlready up to date.\n\n\
         $ nixos-rebuild switch --flake \"/etc/nixos#web\" --no-write-lock-file\ndone\n\n"
    );
}

#[test]
fn boot_mode_changes_the_rebuild_command() {
    let opts = RunOptions { use_boot: true, ..options() };
    let (mut p, _) = HostPipeline::new("db:10.0.0.8", opts);
    let _ = p.apply_event(StepEvent::Connected);
    let _ = p.apply_event(finished("", 0));
    match p.next_action() {
        PipelineAction::RunCommand { command, .. } => {
            assert_eq!(command, "cd /etc/nixos && git pull --verbose");
        },
        _ => panic!("expected the sync"),
    }
    let _ = p.apply_event(finished("", 0));
    match p.next_action() {
        PipelineAction::RunCommand { command, .. } => {
            assert_eq!(command, "nixos-rebuild boot --flake \"/etc/nixos#db\" --no-write-lock-file");
        },
        _ => panic!("expected the rebuild"),
    }
}

#[test]
fn before_command_failure_stops_the_pipeline() {
    let opts = RunOptions {
        use_boot: false,
        forward_agent: false,
        command: Some("echo hi".to_string()),
        run_after: false,
    };
    let (mut p, _) = HostPipeline::new("nixa:1.1.1.1", opts);
    let ev = p.apply_event(StepEvent::Connected);
    assert!(matches!(ev[0].phase, UpdatePhase::RunningBeforeCommand));
    assert_eq!(ev[0].output_line.as_deref(), Some("Running: echo hi"));

    let ev = p.apply_event(finished("hi\n", 2));
    assert!(matches!(ev[0].phase, UpdatePhase::Failed { .. }));
    assert!(p.is_finished());
    let r = p.result();
    assert!(!r.success);
    assert_eq!(
        r.transcript,
        "=== Running before-command ===\n$ echo hi\nhi\n\n\
         Before-command failed with exit code: 2\n"
    );

    // Nothing moves a terminally failed host.
    let ev = p.apply_event(finished("anything", 0));
    assert!(ev.is_empty());
    assert_eq!(p.result().transcript, r.transcript);
}

#[test]
fn after_command_failure_keeps_the_rebuild_section() {
    let opts = RunOptions {
        use_boot: false,
        forward_agent: false,
        command: Some("reboot-check".to_string()),
        run_after: true,
    };
    let (mut p, _) = HostPipeline::new("nixa:1.1.1.1", opts);
    let _ = p.apply_event(StepEvent::Connected);
    let _ = p.apply_event(finished("", 0));
    let _ = p.apply_event(finished("pulled\n", 0));
    let ev = p.apply_event(finished("built\n", 0));
    assert!(matches!(ev[0].phase, UpdatePhase::RunningAfterCommand));
    let ev = p.apply_event(finished("nope\n", 1));
    assert!(matches!(ev[0].phase, UpdatePhase::Failed { .. }));
    let r = p.result();
    assert!(!r.success);
    assert_eq!(
        r.transcript,
        "$ cd /etc/nixos && git pull --verbose\npulled\n\n\
         $ nixos-rebuild switch --flake \"/etc/nixos#a\" --no-write-lock-file\nbuilt\n\n\
         === Running after-command ===\n$ reboot-check\nnope\n\n\
         After-command failed with exit code: 1\n"
    );
}

#[test]
fn missing_repository_is_a_distinct_failure() {
    let (mut p, _) = HostPipeline::new("nixa:1.1.1.1", options());
    let _ = p.apply_event(StepEvent::Connected);
    let ev = p.apply_event(finished("No git repo found\n", 0));
    match &ev[0].phase {
        UpdatePhase::Failed { reason } => {
            assert_eq!(reason, "No git repository found in /etc/nixos");
        },
        other => panic!("unexpected phase {:?}", other),
    }
    let r = p.result();
    assert!(!r.success);
    assert_eq!(r.transcript, "No git repository found in /etc/nixos");
}

#[test]
fn sync_failure_reports_the_exit_code() {
    let (mut p, _) = HostPipeline::new("nixa:1.1.1.1", options());
    let _ = p.apply_event(StepEvent::Connected);
    let _ = p.apply_event(finished("", 0));
    let ev = p.apply_event(finished("conflict\n", 128));
    match &ev[0].phase {
        UpdatePhase::Failed { reason } => {
            assert_eq!(reason, "Git pull failed with exit code: 128");
        },
        other => panic!("unexpected phase {:?}", other),
    }
}

#[test]
fn rebuild_failure_reports_the_exit_code() {
    let (mut p, _) = HostPipeline::new("nixa:1.1.1.1", options());
    let _ = p.apply_event(StepEvent::Connected);
    let _ = p.apply_event(finished("", 0));
    let _ = p.apply_event(finished("", 0));
    let ev = p.apply_event(finished("boom\n", 100));
    match &ev[0].phase {
        UpdatePhase::Failed { reason } => {
            assert_eq!(reason, "nixos-rebuild failed with exit code: 100");
        },
        other => panic!("unexpected phase {:?}", other),
    }
}

#[test]
fn connect_failure_is_terminal() {
    let (mut p, _) = HostPipeline::new("nixa:1.1.1.1", options());
    let ev = p.apply_event(StepEvent::ConnectFailed {
        error: "Connection timeout or failed after 60 seconds".to_string(),
    });
    assert!(matches!(ev[0].phase, UpdatePhase::Failed { .. }));
    let r = p.result();
    assert!(!r.success);
    assert_eq!(r.transcript, "Connection timeout or failed after 60 seconds");
}

#[test]
fn auth_failure_carries_the_attempt_log() {
    let (mut p, _) = HostPipeline::new("nixa:1.1.1.1", options());
    let ev = p.apply_event(StepEvent::AuthFailed { log: "Key a: no\nKey b: no".to_string() });
    match &ev[0].phase {
        UpdatePhase::Failed { reason } => assert_eq!(reason, "SSH authentication failed"),
        other => panic!("unexpected phase {:?}", other),
    }
    assert_eq!(ev[0].output_line.as_deref(), Some("Key a: no\nKey b: no"));
    let r = p.result();
    assert_eq!(r.transcript, "SSH authentication failed");
}

#[test]
fn negative_exit_code_is_rendered_with_sign() {
    let (mut p, _) = HostPipeline::new("nixa:1.1.1.1", options());
    let _ = p.apply_event(StepEvent::Connected);
    let _ = p.apply_event(finished("", 0));
    let ev = p.apply_event(finished("", -1));
    match &ev[0].phase {
        UpdatePhase::Failed { reason } => {
            assert_eq!(reason, "Git pull failed with exit code: -1");
        },
        other => panic!("unexpected phase {:?}", other),
    }
}
