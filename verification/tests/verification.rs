use aqua_backend::checksum::ChecksumError;
use aqua_backend::command::AquaSettings;
use aqua_backend::lock::{LockPlatforms, ToolVersion};
use aqua_backend::package::{
    AquaChecksum, AquaChecksumType, AquaPackage, AquaPackageType, AquaSlsaProvenance,
};
use aqua_backend::paths::HostPath;
use aqua_backend::slsa::{verify_slsa, SlsaStep};
use aqua_backend::verification::{verify, AwaitComparison, VerifyError, VerifyStep};

fn checksum(enabled: bool, kind: AquaChecksumType) -> AquaChecksum {
    AquaChecksum {
        enabled,
        kind,
        algorithm: "sha512".to_string(),
        file_format: "raw".to_string(),
        pattern: None,
        cosign: None,
    }
}

fn package(checksum: Option<AquaChecksum>) -> AquaPackage {
    AquaPackage {
        kind: AquaPackageType::GithubRelease,
        repo_owner: "cli".to_string(),
        repo_name: "tool".to_string(),
        name: None,
        path: None,
        description: None,
        version_prefix: None,
        version_source: None,
        no_asset: false,
        error_message: None,
        supported_envs: Vec::new(),
        files: Vec::new(),
        complete_windows_ext: false,
        checksum,
        minisign: None,
        slsa_provenance: None,
    }
}

fn tool_version(lock_platforms: LockPlatforms) -> ToolVersion {
    ToolVersion {
        version: "1".to_string(),
        lock_platforms,
        install_path: HostPath::new("/i"),
        download_path: HostPath::new("/d"),
        cache_path: HostPath::new("/c"),
    }
}

/// Answers the first two steps.
fn after_signatures(lock_platforms: LockPlatforms, pkg: &AquaPackage) -> VerifyStep<String> {
    let tv = tool_version(lock_platforms);
    let next = match verify::<String>(tv, pkg, "v1", "tool.zip", "linux") {
        VerifyStep::Slsa { next } => next,
        _ => panic!("the provenance was not verified"),
    };
    match next.resume::<String>(Ok(())) {
        VerifyStep::Minisign { next } => next.resume(Ok(())),
        _ => panic!("the signature was not verified"),
    }
}

fn comparison(step: VerifyStep<String>) -> (ToolVersion, AwaitComparison) {
    match step {
        VerifyStep::Compare { tv, path, next } => {
            assert_eq!(path.as_str(), "/d/tool.zip");
            (tv, next)
        }
        _ => panic!("the checksum was not compared"),
    }
}

fn with_content(kind: AquaChecksumType, content: &str) -> VerifyStep<String> {
    let pkg = package(Some(checksum(true, kind)));
    let next = match after_signatures(LockPlatforms::new(), &pkg) {
        VerifyStep::ChecksumAsset { next } => {
            assert!(matches!(kind, AquaChecksumType::GithubRelease));
            next
        }
        VerifyStep::ChecksumUrl { next } => {
            assert!(matches!(kind, AquaChecksumType::Http));
            next
        }
        _ => panic!("the checksum file was not asked for"),
    };
    let next = match next.resume::<String>(Ok("https://x.dev/sums".to_string())) {
        VerifyStep::DownloadChecksum { url, path, next } => {
            assert_eq!(url, "https://x.dev/sums");
            assert_eq!(path.as_str(), "/d/tool.zip.checksum");
            next
        }
        _ => panic!("the checksum file was not downloaded"),
    };
    let next = match next.resume::<String>(Ok(())) {
        VerifyStep::Cosign { path, next } => {
            assert_eq!(path.as_str(), "/d/tool.zip.checksum");
            next
        }
        _ => panic!("the checksum file was not verified"),
    };
    match next.resume::<String>(Ok(())) {
        VerifyStep::ReadChecksum { path, next } => {
            assert_eq!(path.as_str(), "/d/tool.zip.checksum");
            next.resume(Ok(content.to_string()))
        }
        _ => panic!("the checksum file was not read"),
    }
}

#[test]
fn the_digest_of_the_checksum_file_is_recorded_and_compared() {
    for kind in [AquaChecksumType::GithubRelease, AquaChecksumType::Http] {
        let (tv, next) = comparison(with_content(kind, "aa x.zip\nbb *tool.zip\n"));
        assert_eq!(tv.lock_platforms.info("linux").checksum, Some("sha512:bb".to_string()));
        match next.resume::<String>(Ok(tv)) {
            VerifyStep::Finished(Ok(tv)) => assert_eq!(tv.version, "1"),
            _ => panic!("the file is verified"),
        }
    }
}

#[test]
fn a_recorded_checksum_is_not_asked_for_again() {
    let locked = LockPlatforms::new().set_checksum("linux", "sha256:aa".to_string());
    let pkg = package(Some(checksum(true, AquaChecksumType::Http)));
    let (tv, _) = comparison(after_signatures(locked, &pkg));
    assert_eq!(tv.lock_platforms.info("linux").checksum, Some("sha256:aa".to_string()));
}

#[test]
fn checksums_of_other_platforms_do_not_count() {
    let locked = LockPlatforms::new().set_checksum("macos", "sha256:aa".to_string());
    let pkg = package(Some(checksum(true, AquaChecksumType::Http)));
    let step = after_signatures(locked, &pkg);
    assert!(matches!(step, VerifyStep::ChecksumUrl { .. }));
}

#[test]
fn packages_without_checksums_leave_an_empty_entry() {
    for checksum in [None, Some(checksum(false, AquaChecksumType::Http))] {
        let (tv, _) = comparison(after_signatures(LockPlatforms::new(), &package(checksum)));
        assert!(tv.lock_platforms.get("linux").is_some());
        assert_eq!(tv.lock_platforms.info("linux").checksum, None);
    }
}

#[test]
fn a_file_that_fails_a_verification_goes_no_further() {
    let tv = tool_version(LockPlatforms::new());
    match verify::<String>(tv, &package(None), "v1", "tool.zip", "linux") {
        VerifyStep::Slsa { next } => {
            let step = next.resume(Err("refused".to_string()));
            let refused = matches!(
                step,
                VerifyStep::Finished(Err(VerifyError::Outside(err))) if err == "refused"
            );
            assert!(refused);
        }
        _ => panic!("the provenance was not verified"),
    }
    let (_, next) = comparison(after_signatures(LockPlatforms::new(), &package(None)));
    let step = next.resume(Err("mismatch".to_string()));
    assert!(matches!(step, VerifyStep::Finished(Err(VerifyError::Outside(_)))));
}

#[test]
fn a_checksum_file_without_a_digest_is_an_error() {
    let step = with_content(AquaChecksumType::Http, "\n");
    let missing = matches!(
        step,
        VerifyStep::Finished(Err(VerifyError::Checksum(ChecksumError::NoDigest)))
    );
    assert!(missing);
}

#[test]
fn a_file_that_slsa_verifier_refuses_does_not_pass() {
    let mut pkg = package(None);
    pkg.slsa_provenance = Some(AquaSlsaProvenance {
        enabled: None,
        kind: Some("http".to_string()),
        repo_owner: None,
        repo_name: None,
        source_uri: None,
        source_tag: None,
    });
    let settings = AquaSettings { slsa: true, cosign: true, cosign_extra_args: None };
    for accepted in [true, false] {
        let tv = tool_version(LockPlatforms::new());
        let downloads = tv.download_path.duplicate();
        let next = match verify::<String>(tv, &pkg, "v1", "tool.zip", "linux") {
            VerifyStep::Slsa { next } => next,
            _ => panic!("the provenance was not verified"),
        };
        let mut step = verify_slsa::<String>(&settings, &pkg, "v1", "tool.zip", &downloads);
        let outcome = loop {
            step = match step {
                SlsaStep::FindVerifier { next } => next.resume(Some("slsa-verifier".to_string())),
                SlsaStep::Url { next } => next.resume(Ok("https://y.dev/p".to_string())),
                SlsaStep::Download { next, .. } => next.resume(Ok(())),
                SlsaStep::Execute { next, .. } => {
                    next.resume(if accepted { Ok(()) } else { Err("refused".to_string()) })
                }
                SlsaStep::Finished(outcome) => break outcome,
                _ => panic!("the provenance has an address"),
            };
        };
        match next.resume(outcome.map(|_| ())) {
            VerifyStep::Minisign { .. } => assert!(accepted),
            VerifyStep::Finished(Err(VerifyError::Outside(err))) => {
                assert!(!accepted);
                assert_eq!(err, "refused");
            }
            _ => panic!("the signature follows the provenance"),
        }
    }
}
