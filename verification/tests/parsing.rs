use fleet_updater::host::HostTarget;

#[test]
fn parses_well_formed_token() {
    let t = HostTarget::parse("h:a").unwrap();
    assert_eq!(t.hostname, "h");
    assert_eq!(t.address, "a");
}

#[test]
fn parses_real_looking_token() {
    let t = HostTarget::parse("nixweb01:100.64.0.5").unwrap();
    assert_eq!(t.hostname, "nixweb01");
    assert_eq!(t.address, "100.64.0.5");
}

#[test]
fn token_without_colon_is_rejected() {
    assert!(HostTarget::parse("justahost").is_none());
    assert!(HostTarget::parse("").is_none());
}

#[test]
fn text_after_second_colon_is_ignored() {
    let t = HostTarget::parse("h:a:extra").unwrap();
    assert_eq!(t.hostname, "h");
    assert_eq!(t.address, "a");
}

#[test]
fn empty_hostname_and_address_parse() {
    let t = HostTarget::parse(":").unwrap();
    assert_eq!(t.hostname, "");
    assert_eq!(t.address, "");
}

#[test]
fn rebuild_identifier_strips_prefix() {
    let t = HostTarget::parse("nixweb01:1.2.3.4").unwrap();
    assert_eq!(t.rebuild_identifier(), "web01");
}

#[test]
fn rebuild_identifier_keeps_other_names() {
    let t = HostTarget::parse("db:1.2.3.4").unwrap();
    assert_eq!(t.rebuild_identifier(), "db");
    let t2 = HostTarget::parse("ni:1.2.3.4").unwrap();
    assert_eq!(t2.rebuild_identifier(), "ni");
}

#[test]
fn rebuild_identifier_of_bare_prefix_is_empty() {
    let t = HostTarget::parse("nix:1.2.3.4").unwrap();
    assert_eq!(t.rebuild_identifier(), "");
}
