use fleet_updater::aggregator::create_progress_map;
use fleet_updater::phase::PhaseColor;
use fleet_updater::phase::ProgressUpdate;
use fleet_updater::phase::UpdatePhase;

fn event(hostname: &str, phase: UpdatePhase, line: Option<&str>) -> ProgressUpdate {
    ProgressUpdate {
        hostname: hostname.to_string(),
        phase,
        output_line: line.map(|l| l.to_string()),
    }
}

#[test]
fn one_pending_entry_per_hostname() {
    let servers = vec![
        "h1:1.1.1.1".to_string(),
        "h2:2.2.2.2".to_string(),
        "h1:9.9.9.9".to_string(),
        "plain".to_string(),
    ];
    let table = create_progress_map(&servers);
    assert_eq!(table.len(), 3);
    let p = table.find("h1").unwrap();
    assert!(matches!(p.phase, UpdatePhase::Pending));
    assert_eq!(p.full_output, "");
    assert!(table.find("h2").is_some());
    assert!(table.find("plain").is_some());
    assert!(table.find("h3").is_none());
}

#[test]
fn apply_replaces_phase_and_appends_lines() {
    let servers = vec!["h1:1.1.1.1".to_string()];
    let mut table = create_progress_map(&servers);
    table.apply(&event("h1", UpdatePhase::Connecting, Some("Connecting to 1.1.1.1...")));
    table.apply(&event("h1", UpdatePhase::SyncingRepo, Some("Running git pull...")));
    table.apply(&event("h1", UpdatePhase::Success, None));
    let p = table.find("h1").unwrap();
    assert!(matches!(p.phase, UpdatePhase::Success));
    assert_eq!(p.full_output, "Connecting to 1.1.1.1...\nRunning git pull...\n");
}

#[test]
fn unknown_hosts_are_ignored() {
    let servers = vec!["h1:1.1.1.1".to_string()];
    let mut table = create_progress_map(&servers);
    table.apply(&event("stranger", UpdatePhase::Success, Some("hi")));
    let p = table.find("h1").unwrap();
    assert!(matches!(p.phase, UpdatePhase::Pending));
    assert!(table.find("stranger").is_none());
}

#[test]
fn other_hosts_messages_leave_a_finished_entry_alone() {
    let servers = vec!["h1:1.1.1.1".to_string(), "h2:2.2.2.2".to_string()];
    let mut table = create_progress_map(&servers);
    table.apply(&event("h1", UpdatePhase::Success, None));
    table.apply(&event("h2", UpdatePhase::Connecting, Some("Connecting to 2.2.2.2...")));
    table.apply(
        &event("h2", UpdatePhase::Failed { reason: "SSH authentication failed".to_string() }, None),
    );
    let p1 = table.find("h1").unwrap();
    assert!(matches!(p1.phase, UpdatePhase::Success));
    assert_eq!(p1.full_output, "");
    let p2 = table.find("h2").unwrap();
    assert!(matches!(p2.phase, UpdatePhase::Failed { .. }));
}

#[test]
fn all_terminal_needs_every_host_done() {
    let servers = vec!["h1:1.1.1.1".to_string(), "h2:2.2.2.2".to_string()];
    let mut table = create_progress_map(&servers);
    assert!(!table.all_terminal());
    table.apply(&event("h1", UpdatePhase::Success, None));
    assert!(!table.all_terminal());
    table.apply(&event("h2", UpdatePhase::Failed { reason: "x".to_string() }, None));
    assert!(table.all_terminal());
}

#[test]
fn rows_expose_label_and_colour_for_rendering() {
    let servers = vec!["h1:1.1.1.1".to_string()];
    let mut table = create_progress_map(&servers);
    {
        let p = table.find("h1").unwrap();
        assert_eq!(p.phase.to_string(), "Pending");
        assert_eq!(p.phase.color(), PhaseColor::Gray);
    }
    table.apply(
        &event("h1", UpdatePhase::Rebuilding { detail: "building 3 drv".to_string() }, None),
    );
    let p = table.find("h1").unwrap();
    assert_eq!(p.phase.to_string(), "Rebuilding: building 3 drv");
    assert_eq!(p.phase.color(), PhaseColor::Yellow);
}
