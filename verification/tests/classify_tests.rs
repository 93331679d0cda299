use fleet_updater::classify::parse_rebuild_progress;

#[test]
fn download_with_quoted_name() {
    assert_eq!(
        parse_rebuild_progress("downloading 'some-package-with-a-name'...").as_deref(),
        Some("dl: some-package-with-a-name")
    );
}

#[test]
fn download_with_long_name_is_truncated() {
    let line = "downloading 'a-very-long-package-name-that-goes-on-and-on'...";
    assert_eq!(
        parse_rebuild_progress(line).as_deref(),
        Some("dl: a-very-long-package-name-th...")
    );
}

#[test]
fn download_without_quotes_is_generic() {
    assert_eq!(
        parse_rebuild_progress("download in progress").as_deref(),
        Some("downloading...")
    );
    assert_eq!(
        parse_rebuild_progress("downloading 'unterminated").as_deref(),
        Some("downloading...")
    );
}

#[test]
fn building_with_derivation_count() {
    assert_eq!(
        parse_rebuild_progress("building 3 derivations").as_deref(),
        Some("building 3 drv")
    );
    assert_eq!(
        parse_rebuild_progress("these 12 derivations will be built; building now").as_deref(),
        Some("building 12 drv")
    );
}

#[test]
fn building_without_derivation_is_generic() {
    assert_eq!(
        parse_rebuild_progress("building the system").as_deref(),
        Some("building...")
    );
}

#[test]
fn copying_activating_bootloader_reloading() {
    assert_eq!(
        parse_rebuild_progress("copying path /nix/store/x").as_deref(),
        Some("copying paths...")
    );
    assert_eq!(
        parse_rebuild_progress("activating the configuration").as_deref(),
        Some("activating...")
    );
    assert_eq!(
        parse_rebuild_progress("activation finished").as_deref(),
        Some("activating...")
    );
    assert_eq!(
        parse_rebuild_progress("updating the bootloader entries").as_deref(),
        Some("updating bootloader...")
    );
    assert_eq!(
        parse_rebuild_progress("reloading nginx.service").as_deref(),
        Some("reloading services...")
    );
}

#[test]
fn markers_are_case_insensitive() {
    assert_eq!(
        parse_rebuild_progress("DOWNLOADING things").as_deref(),
        Some("downloading...")
    );
    assert_eq!(
        parse_rebuild_progress("Copying Paths").as_deref(),
        Some("copying paths...")
    );
}

#[test]
fn updating_alone_is_not_a_marker() {
    assert_eq!(parse_rebuild_progress("updating the database"), None);
}

#[test]
fn unrecognised_line_yields_no_detail() {
    assert_eq!(parse_rebuild_progress("hello world"), None);
    assert_eq!(parse_rebuild_progress(""), None);
}

#[test]
fn first_marker_wins() {
    // "download" is checked before "building".
    assert_eq!(
        parse_rebuild_progress("building while downloading 'x'").as_deref(),
        Some("dl: x")
    );
}
