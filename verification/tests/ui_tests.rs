use fleet_updater::aggregator::create_progress_map;
use fleet_updater::phase::PhaseColor;
use fleet_updater::phase::ProgressUpdate;
use fleet_updater::phase::UpdatePhase;
use fleet_updater::selector::ServerSelector;
use fleet_updater::tui_state::InputSignal;
use fleet_updater::tui_state::ProgressTui;
use fleet_updater::tui_state::ScreenRect;

#[test]
fn selector_cursor_wraps_both_ways() {
    let mut s = ServerSelector::new(vec!["a:1".to_string(), "b:2".to_string(), "c:3".to_string()]);
    assert_eq!(s.cursor, 0);
    s.next();
    s.next();
    s.next();
    assert_eq!(s.cursor, 0);
    s.previous();
    assert_eq!(s.cursor, 2);
}

#[test]
fn selector_toggles_and_collects() {
    let mut s = ServerSelector::new(vec!["a:1".to_string(), "b:2".to_string(), "c:3".to_string()]);
    s.toggle_selected();
    s.next();
    s.next();
    s.toggle_selected();
    assert_eq!(s.get_selected_servers(), vec!["a:1".to_string(), "c:3".to_string()]);
    s.toggle_selected();
    assert_eq!(s.get_selected_servers(), vec!["a:1".to_string()]);
}

#[test]
fn selector_toggle_all_flips_everything() {
    let mut s = ServerSelector::new(vec!["a:1".to_string(), "b:2".to_string()]);
    s.toggle_all();
    assert_eq!(s.get_selected_servers().len(), 2);
    s.toggle_all();
    assert!(s.get_selected_servers().is_empty());
    s.toggle_selected();
    s.toggle_all();
    assert_eq!(s.get_selected_servers().len(), 2);
}

#[test]
fn progress_screen_navigation_wraps_and_rejoins_tail() {
    let mut t = ProgressTui::new(vec!["a:1".to_string(), "b:2".to_string()]);
    assert_eq!(t.selected_index(), 0);
    let _ = t.handle_signal(InputSignal::Down);
    assert_eq!(t.selected_index(), 1);
    let _ = t.handle_signal(InputSignal::Down);
    assert_eq!(t.selected_index(), 0);
    let _ = t.handle_signal(InputSignal::Up);
    assert_eq!(t.selected_index(), 1);
}

#[test]
fn scrolling_clamps_and_resumes_follow_mode() {
    let mut t = ProgressTui::new(vec!["a:1".to_string()]);
    t.update_scroll(30, 10);
    assert_eq!(t.scroll_offset(), 20);
    assert!(t.auto_scroll());
    let _ = t.handle_signal(InputSignal::PageUp);
    assert_eq!(t.scroll_offset(), 15);
    assert!(!t.auto_scroll());
    t.update_scroll(30, 10);
    assert_eq!(t.scroll_offset(), 15);
    let _ = t.handle_signal(InputSignal::PageDown);
    assert_eq!(t.scroll_offset(), 20);
    assert!(t.auto_scroll());
}

#[test]
fn interrupt_needs_two_presses_while_running() {
    let mut t = ProgressTui::new(vec!["a:1".to_string()]);
    assert!(!t.handle_signal(InputSignal::CtrlC));
    assert!(!t.handle_signal(InputSignal::OtherKey));
    assert!(!t.handle_signal(InputSignal::CtrlC));
    assert!(t.handle_signal(InputSignal::CtrlC));
}

#[test]
fn quit_key_works_only_when_all_hosts_are_done() {
    let servers = vec!["h1:1.1.1.1".to_string()];
    let mut table = create_progress_map(&servers);
    let mut t = ProgressTui::new(servers);
    assert!(!t.check_all_complete(&table));
    assert!(!t.handle_signal(InputSignal::QuitKey));
    table.apply(
        &ProgressUpdate {
            hostname: "h1".to_string(),
            phase: UpdatePhase::Success,
            output_line: None,
        },
    );
    assert!(t.check_all_complete(&table));
    assert!(t.handle_signal(InputSignal::QuitKey));
    assert!(t.handle_signal(InputSignal::CtrlC));
}

#[test]
fn a_host_missing_from_the_table_counts_as_unfinished() {
    let table = create_progress_map(&vec!["h1:1.1.1.1".to_string()]);
    let mut t = ProgressTui::new(vec!["h1:1.1.1.1".to_string(), "ghost:2.2.2.2".to_string()]);
    let mut done = create_progress_map(&vec!["h1:1.1.1.1".to_string()]);
    done.apply(
        &ProgressUpdate {
            hostname: "h1".to_string(),
            phase: UpdatePhase::Success,
            output_line: None,
        },
    );
    assert!(!t.check_all_complete(&table));
    assert!(!t.check_all_complete(&done));
}

#[test]
fn clicks_select_the_hit_row() {
    let mut t = ProgressTui::new(vec!["a:1".to_string(), "b:2".to_string(), "c:3".to_string()]);
    t.set_areas(
        ScreenRect { x: 0, y: 0, width: 80, height: 10 },
        ScreenRect { x: 0, y: 10, width: 80, height: 14 },
    );
    // Row 0 is the border; row 3 is the third host.
    let _ = t.handle_signal(InputSignal::LeftClick { column: 5, row: 3 });
    assert_eq!(t.selected_index(), 2);
    // A click outside the list changes nothing.
    let _ = t.handle_signal(InputSignal::LeftClick { column: 5, row: 12 });
    assert_eq!(t.selected_index(), 2);
    // A click past the listed rows changes nothing.
    let _ = t.handle_signal(InputSignal::LeftClick { column: 5, row: 9 });
    assert_eq!(t.selected_index(), 2);
}

#[test]
fn wheel_scrolls_only_over_the_output_pane() {
    let mut t = ProgressTui::new(vec!["a:1".to_string()]);
    t.set_areas(
        ScreenRect { x: 0, y: 0, width: 80, height: 10 },
        ScreenRect { x: 0, y: 10, width: 80, height: 14 },
    );
    t.update_scroll(40, 10);
    assert_eq!(t.scroll_offset(), 30);
    let _ = t.handle_signal(InputSignal::WheelUp { column: 4, row: 12 });
    assert_eq!(t.scroll_offset(), 25);
    let _ = t.handle_signal(InputSignal::WheelUp { column: 4, row: 2 });
    assert_eq!(t.scroll_offset(), 25);
    let _ = t.handle_signal(InputSignal::WheelDown { column: 4, row: 12 });
    assert_eq!(t.scroll_offset(), 30);
}

#[test]
fn phase_labels_and_colours() {
    assert_eq!(UpdatePhase::Pending.to_string(), "Pending");
    assert_eq!(UpdatePhase::Connecting.to_string(), "Connecting...");
    assert_eq!(UpdatePhase::RunningBeforeCommand.to_string(), "Running before-command...");
    assert_eq!(UpdatePhase::CheckingRepo.to_string(), "Checking git repo...");
    assert_eq!(UpdatePhase::SyncingRepo.to_string(), "Pulling git updates...");
    assert_eq!(UpdatePhase::Rebuilding { detail: String::new() }.to_string(), "Rebuilding system...");
    assert_eq!(
        UpdatePhase::Rebuilding { detail: "dl: pkg".to_string() }.to_string(),
        "Rebuilding: dl: pkg"
    );
    assert_eq!(UpdatePhase::RunningAfterCommand.to_string(), "Running after-command...");
    assert_eq!(UpdatePhase::Success.to_string(), "\u{2705} Success");
    assert_eq!(
        UpdatePhase::Failed { reason: "why".to_string() }.to_string(),
        "\u{274c} Failed: why"
    );
    assert_eq!(UpdatePhase::Pending.color(), PhaseColor::Gray);
    assert_eq!(UpdatePhase::Connecting.color(), PhaseColor::Yellow);
    assert_eq!(UpdatePhase::Success.color(), PhaseColor::Green);
    assert_eq!(UpdatePhase::Failed { reason: String::new() }.color(), PhaseColor::Red);
    assert!(UpdatePhase::Success.is_terminal());
    assert!(UpdatePhase::Failed { reason: String::new() }.is_terminal());
    assert!(!UpdatePhase::Rebuilding { detail: String::new() }.is_terminal());
}
