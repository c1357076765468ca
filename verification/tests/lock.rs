use aqua_backend::lock::{LockPlatforms, PlatformInfo};

#[test]
fn information_of_a_platform_is_found_again() {
    let platforms = LockPlatforms::new();
    assert!(platforms.get("linux-x64").is_none());
    let platforms = platforms.insert(
        "linux-x64",
        PlatformInfo { url: Some("u".to_string()), checksum: None },
    );
    assert_eq!(platforms.info("linux-x64").url, Some("u".to_string()));
    assert_eq!(platforms.info("linux-x64").checksum, None);
    assert!(platforms.get("macos-arm64").is_none());
}

#[test]
fn recording_one_thing_keeps_the_other() {
    let platforms = LockPlatforms::new()
        .set_url("a", "first".to_string())
        .set_checksum("a", "sha256:1".to_string())
        .set_url("a", "second".to_string())
        .set_checksum("b", "sha256:2".to_string());
    assert_eq!(platforms.info("a").url, Some("second".to_string()));
    assert_eq!(platforms.info("a").checksum, Some("sha256:1".to_string()));
    assert_eq!(platforms.info("b").url, None);
    let entries = platforms.into_entries();
    assert_eq!(entries.len(), 2);
}

#[test]
fn an_entry_is_made_only_where_there_is_none() {
    let platforms = LockPlatforms::new().ensure_entry("a");
    assert!(platforms.get("a").is_some());
    assert_eq!(platforms.info("a").url, None);
    let platforms = platforms.set_url("a", "u".to_string()).ensure_entry("a");
    assert_eq!(platforms.info("a").url, Some("u".to_string()));
    assert_eq!(platforms.into_entries().len(), 1);
}
