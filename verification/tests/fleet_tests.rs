use fleet_updater::fleet::nixos_server_tokens;
use fleet_updater::fleet::PeerInfo;

fn peer(name: &str, ips: &[&str], online: bool) -> PeerInfo {
    PeerInfo {
        host_name: name.to_string(),
        ips: ips.iter().map(|s| s.to_string()).collect(),
        online,
    }
}

#[test]
fn selects_online_prefixed_peers_with_an_address() {
    let peers = vec![
        peer("nixweb", &["100.64.0.1"], true),
        peer("laptop", &["100.64.0.2"], true),
        peer("nixdb", &[], true),
        peer("nixcache", &["100.64.0.3"], false),
    ];
    assert_eq!(nixos_server_tokens(&peers), vec!["nixweb:100.64.0.1".to_string()]);
}

#[test]
fn tokens_are_sorted_by_hostname() {
    let peers = vec![
        peer("nixzulu", &["10.0.0.3"], true),
        peer("nixalpha", &["10.0.0.1"], true),
        peer("nixmike", &["10.0.0.2"], true),
    ];
    assert_eq!(
        nixos_server_tokens(&peers),
        vec![
            "nixalpha:10.0.0.1".to_string(),
            "nixmike:10.0.0.2".to_string(),
            "nixzulu:10.0.0.3".to_string(),
        ]
    );
}

#[test]
fn only_the_first_address_is_used() {
    let peers = vec![peer("nixweb", &["100.64.0.1", "fd7a::1"], true)];
    assert_eq!(nixos_server_tokens(&peers), vec!["nixweb:100.64.0.1".to_string()]);
}

#[test]
fn no_candidates_yield_an_empty_list() {
    assert!(nixos_server_tokens(&vec![]).is_empty());
    assert!(nixos_server_tokens(&vec![peer("pi", &["1.1.1.1"], true)]).is_empty());
}

#[test]
fn duplicate_hostnames_are_kept() {
    let peers = vec![
        peer("nixa", &["10.0.0.1"], true),
        peer("nixa", &["10.0.0.2"], true),
    ];
    let tokens = nixos_server_tokens(&peers);
    assert_eq!(tokens.len(), 2);
    assert!(tokens.contains(&"nixa:10.0.0.1".to_string()));
    assert!(tokens.contains(&"nixa:10.0.0.2".to_string()));
}
