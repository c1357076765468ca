use aqua_backend::command::AquaSettings;
use aqua_backend::minisign::{verify_minisign, AwaitSignatureFile, MinisignOutcome, MinisignStep};
use aqua_backend::package::{AquaMinisign, AquaMinisignType, AquaPackage, AquaPackageType};
use aqua_backend::paths::HostPath;
use aqua_backend::release::GithubAsset;

fn minisign(kind: AquaMinisignType) -> AquaMinisign {
    AquaMinisign { enabled: None, kind, repo_owner: None, repo_name: None }
}

fn package(minisign: Option<AquaMinisign>) -> AquaPackage {
    AquaPackage {
        kind: AquaPackageType::GithubRelease,
        repo_owner: "cli".to_string(),
        repo_name: "tool".to_string(),
        name: None,
        path: None,
        description: None,
        version_prefix: None,
        version_source: None,
        no_asset: false,
        error_message: None,
        supported_envs: Vec::new(),
        files: Vec::new(),
        complete_windows_ext: false,
        checksum: None,
        minisign,
        slsa_provenance: None,
    }
}

fn begin(wanted: bool, minisign: Option<AquaMinisign>) -> MinisignStep<String> {
    let settings = AquaSettings { slsa: wanted, cosign: true, cosign_extra_args: None };
    let dir = HostPath::new("/d");
    verify_minisign(&settings, &package(minisign), "v1", "tool.zip", &dir)
}

fn signature_file() -> AwaitSignatureFile {
    let next = match begin(true, Some(minisign(AquaMinisignType::Http))) {
        MinisignStep::Url { next } => next,
        _ => panic!("the address was not asked for"),
    };
    match next.resume::<String>(Ok("https://y.dev/s".to_string())) {
        MinisignStep::Download { url, next } => {
            assert_eq!(url, "https://y.dev/s");
            next
        }
        _ => panic!("the signature was not downloaded"),
    }
}

#[test]
fn signatures_are_verified_where_they_are_wanted() {
    let step = begin(false, Some(minisign(AquaMinisignType::Http)));
    assert!(matches!(step, MinisignStep::Finished(Ok(MinisignOutcome::SwitchedOff))));
    let step = begin(true, None);
    assert!(matches!(step, MinisignStep::Finished(Ok(MinisignOutcome::NotDeclared))));
    let mut disabled = minisign(AquaMinisignType::Http);
    disabled.enabled = Some(false);
    let step = begin(true, Some(disabled));
    assert!(matches!(step, MinisignStep::Finished(Ok(MinisignOutcome::Disabled))));
}

#[test]
fn a_signature_with_an_address_lies_beside_the_file() {
    assert_eq!(signature_file().signature_path.as_str(), "/d/tool..minisig");
}

#[test]
fn the_signature_is_checked_on_what_was_read() {
    let next = match signature_file().resume::<String>(Ok(())) {
        MinisignStep::ReadFile { path, next } => {
            assert_eq!(path.as_str(), "/d/tool.zip");
            next
        }
        _ => panic!("the file was not read"),
    };
    let next = match next.resume::<String>(Ok(vec![1, 2, 3])) {
        MinisignStep::ReadSignature { path, next } => {
            assert_eq!(path.as_str(), "/d/tool..minisig");
            next
        }
        _ => panic!("the signature was not read"),
    };
    let next = match next.resume::<String>(Ok("signature".to_string())) {
        MinisignStep::PublicKey { v, next } => {
            assert_eq!(v, "v1");
            next
        }
        _ => panic!("the key was not asked for"),
    };
    match next.resume::<String>(Ok("key".to_string())) {
        MinisignStep::Check { public_key, data, signature, next } => {
            assert_eq!(public_key, "key");
            assert_eq!(data, [1, 2, 3]);
            assert_eq!(signature, "signature");
            let step = next.resume::<String>(Ok(()));
            assert!(matches!(step, MinisignStep::Finished(Ok(MinisignOutcome::Verified))));
        }
        _ => panic!("the signature was not checked"),
    }
}

#[test]
fn a_file_that_cannot_be_read_is_not_checked() {
    match signature_file().resume::<String>(Ok(())) {
        MinisignStep::ReadFile { next, .. } => {
            let step = next.resume(Err("gone".to_string()));
            assert!(matches!(step, MinisignStep::Finished(Err(err)) if err == "gone"));
        }
        _ => panic!("the file was not read"),
    }
    let step = signature_file().resume(Err("offline".to_string()));
    assert!(matches!(step, MinisignStep::Finished(Err(err)) if err == "offline"));
}

#[test]
fn the_signature_of_a_release_is_an_asset_of_it() {
    let mut signed = minisign(AquaMinisignType::GithubRelease);
    signed.repo_name = Some("signatures".to_string());
    let next = match begin(true, Some(signed)) {
        MinisignStep::AssetName { next } => next,
        _ => panic!("the name was not asked for"),
    };
    let next = match next.resume::<String>(Ok("tool.minisig".to_string())) {
        MinisignStep::Release { repo, v, next } => {
            assert_eq!((repo.as_str(), v.as_str()), ("cli/signatures", "v1"));
            next
        }
        _ => panic!("the release was not asked for"),
    };
    let assets = vec![GithubAsset {
        name: "tool.minisig".to_string(),
        browser_download_url: "https://x.dev/s".to_string(),
    }];
    match next.resume::<String>(Ok(assets)) {
        MinisignStep::Download { url, next } => {
            assert_eq!(url, "https://x.dev/s");
            assert_eq!(next.signature_path.as_str(), "/d/tool.minisig");
        }
        _ => panic!("the signature was not downloaded"),
    }
}

#[test]
fn a_release_without_the_signature_is_not_verified() {
    let next = match begin(true, Some(minisign(AquaMinisignType::GithubRelease))) {
        MinisignStep::AssetName { next } => next,
        _ => panic!("the name was not asked for"),
    };
    match next.resume::<String>(Ok("s".to_string())) {
        MinisignStep::Release { next, .. } => {
            let step = next.resume::<String>(Ok(Vec::new()));
            let lacking = matches!(
                step,
                MinisignStep::Finished(Ok(MinisignOutcome::NoAsset(name))) if name == "s"
            );
            assert!(lacking);
        }
        _ => panic!("the release was not asked for"),
    }
}
