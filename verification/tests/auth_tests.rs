use fleet_updater::auth::AuthAction;
use fleet_updater::auth::AuthEvent;
use fleet_updater::auth::AuthResolver;

fn attempt(authenticated: bool, error: Option<&str>) -> AuthEvent {
    AuthEvent::Attempt { authenticated, error: error.map(|e| e.to_string()) }
}

#[test]
fn key_files_are_probed_in_priority_order() {
    let (mut r, events) = AuthResolver::new("h1".to_string(), "/root".to_string());
    assert_eq!(events[0].output_line.as_deref(), Some("Trying file-based SSH keys..."));
    let expected = [
        "/root/.ssh/id_ed25519",
        "/root/.ssh/id_rsa",
        "/root/.ssh/id_ecdsa",
        "/root/.ssh/id_dsa",
    ];
    for path in expected {
        match r.next_action() {
            AuthAction::ProbeKeyFile { path: p } => assert_eq!(p, path),
            _ => panic!("expected a key file probe"),
        }
        let _ = r.apply_event(AuthEvent::KeyFileExists { exists: false });
    }
    assert!(matches!(r.next_action(), AuthAction::TryAgentAuto));
}

#[test]
fn first_key_that_authenticates_wins() {
    let (mut r, _) = AuthResolver::new("h1".to_string(), "/home/op".to_string());
    let _ = r.apply_event(AuthEvent::KeyFileExists { exists: true });
    match r.next_action() {
        AuthAction::TryKeyFile { path } => assert_eq!(path, "/home/op/.ssh/id_ed25519"),
        _ => panic!("expected a key file attempt"),
    }
    let events = r.apply_event(attempt(true, None));
    assert_eq!(
        events[0].output_line.as_deref(),
        Some("\u{2713} Authenticated with key: /home/op/.ssh/id_ed25519")
    );
    assert_eq!(r.outcome(), Some(true));
}

#[test]
fn agent_auto_follows_failed_key_files() {
    let (mut r, _) = AuthResolver::new("h1".to_string(), "/root".to_string());
    let _ = r.apply_event(AuthEvent::KeyFileExists { exists: true });
    let _ = r.apply_event(attempt(false, Some("denied")));
    let _ = r.apply_event(AuthEvent::KeyFileExists { exists: false });
    let _ = r.apply_event(AuthEvent::KeyFileExists { exists: false });
    let _ = r.apply_event(AuthEvent::KeyFileExists { exists: false });
    assert!(matches!(r.next_action(), AuthAction::TryAgentAuto));
    let events = r.apply_event(attempt(true, None));
    assert_eq!(events[0].output_line.as_deref(), Some("\u{2713} Authenticated via SSH agent"));
    assert_eq!(r.outcome(), Some(true));
}

#[test]
fn manual_agent_iteration_tries_each_identity() {
    let (mut r, _) = AuthResolver::new("h1".to_string(), "/root".to_string());
    for _ in 0..4 {
        let _ = r.apply_event(AuthEvent::KeyFileExists { exists: false });
    }
    let _ = r.apply_event(attempt(false, Some("agent said no")));
    assert!(matches!(r.next_action(), AuthAction::ConnectAgent));
    let events = r.apply_event(AuthEvent::AgentKeys {
        comments: vec!["work-key".to_string(), "spare-key".to_string()],
    });
    assert_eq!(events[0].output_line.as_deref(), Some("Found 2 key(s) in agent"));
    assert_eq!(events[1].output_line.as_deref(), Some("  Trying key #1: work-key"));
    match r.next_action() {
        AuthAction::TryAgentIdentity { index } => assert_eq!(index, 0),
        _ => panic!("expected a manual attempt"),
    }
    let events = r.apply_event(attempt(false, Some("wrong key")));
    assert_eq!(events[0].output_line.as_deref(), Some("  Trying key #2: spare-key"));
    let events = r.apply_event(attempt(true, None));
    assert_eq!(
        events[0].output_line.as_deref(),
        Some("\u{2713} Authenticated with agent key: spare-key")
    );
    assert_eq!(r.outcome(), Some(true));
}

#[test]
fn exhausted_strategies_fail_with_a_full_log() {
    let (mut r, _) = AuthResolver::new("box9".to_string(), "/root".to_string());
    let _ = r.apply_event(AuthEvent::KeyFileExists { exists: true });
    let _ = r.apply_event(attempt(false, Some("bad passphrase")));
    for _ in 0..3 {
        let _ = r.apply_event(AuthEvent::KeyFileExists { exists: false });
    }
    let _ = r.apply_event(attempt(false, Some("no agent")));
    let events = r.apply_event(AuthEvent::AgentKeys { comments: vec!["only".to_string()] });
    assert_eq!(events[0].output_line.as_deref(), Some("Found 1 key(s) in agent"));
    let _ = r.apply_event(attempt(false, Some("rejected")));
    assert_eq!(r.outcome(), Some(false));
    assert_eq!(
        r.failure_log(),
        "Failed to authenticate with SSH for box9.\n\nAttempted methods:\n\
         Key /root/.ssh/id_ed25519: bad passphrase\n\
         SSH agent automatic: no agent\n\
         Agent key 'only': rejected"
    );
}

#[test]
fn unreachable_agent_ends_the_resolution() {
    let (mut r, _) = AuthResolver::new("h1".to_string(), "/root".to_string());
    for _ in 0..4 {
        let _ = r.apply_event(AuthEvent::KeyFileExists { exists: false });
    }
    let _ = r.apply_event(attempt(false, None));
    let _ = r.apply_event(AuthEvent::AgentUnavailable);
    assert_eq!(r.outcome(), Some(false));
}

#[test]
fn empty_agent_list_fails() {
    let (mut r, _) = AuthResolver::new("h1".to_string(), "/root".to_string());
    for _ in 0..4 {
        let _ = r.apply_event(AuthEvent::KeyFileExists { exists: false });
    }
    let _ = r.apply_event(attempt(false, None));
    let events = r.apply_event(AuthEvent::AgentKeys { comments: vec![] });
    assert_eq!(events[0].output_line.as_deref(), Some("Found 0 key(s) in agent"));
    assert_eq!(r.outcome(), Some(false));
}
