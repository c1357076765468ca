use aqua_backend::command::AquaSettings;
use aqua_backend::cosign::{cosign_checksums, AwaitCosign, CosignOutcome, CosignPart, CosignStep};
use aqua_backend::package::{
    AquaChecksum, AquaChecksumType, AquaCosign, AquaPackage, AquaPackageType,
};
use aqua_backend::paths::HostPath;

fn cosign() -> AquaCosign {
    AquaCosign {
        enabled: None,
        experimental: None,
        has_signature: false,
        has_key: false,
        has_certificate: false,
        has_bundle: false,
    }
}

fn package(cosign: Option<AquaCosign>) -> AquaPackage {
    AquaPackage {
        kind: AquaPackageType::GithubRelease,
        repo_owner: "cli".to_string(),
        repo_name: "tool".to_string(),
        name: None,
        path: None,
        description: None,
        version_prefix: None,
        version_source: None,
        no_asset: false,
        error_message: None,
        supported_envs: Vec::new(),
        files: Vec::new(),
        complete_windows_ext: false,
        checksum: Some(AquaChecksum {
            enabled: true,
            kind: AquaChecksumType::Http,
            algorithm: "sha256".to_string(),
            file_format: String::new(),
            pattern: None,
            cosign,
        }),
        minisign: None,
        slsa_provenance: None,
    }
}

fn settings(cosign: bool, extra: Option<&str>) -> AquaSettings {
    AquaSettings {
        slsa: true,
        cosign,
        cosign_extra_args: extra.map(|arg| vec![arg.to_string()]),
    }
}

fn begin(settings: &AquaSettings, pkg: &AquaPackage, verbose: bool) -> CosignStep<String> {
    let checksum_path = HostPath::new("/d/tool.zip.checksum");
    cosign_checksums(settings, pkg, &checksum_path, &HostPath::new("/d"), verbose)
}

fn await_cosign(cosign: AquaCosign, extra: Option<&str>, verbose: bool) -> AwaitCosign {
    match begin(&settings(true, extra), &package(Some(cosign)), verbose) {
        CosignStep::FindCosign { next } => next,
        _ => panic!("cosign was not looked for"),
    }
}

#[test]
fn checksum_files_are_verified_where_it_is_wanted() {
    let pkg = package(Some(cosign()));
    let step = begin(&settings(false, None), &pkg, false);
    assert!(matches!(step, CosignStep::Finished(Ok(CosignOutcome::SwitchedOff))));
    let step = begin(&settings(true, None), &package(None), false);
    assert!(matches!(step, CosignStep::Finished(Ok(CosignOutcome::NotDeclared))));
    let mut unlisted = package(None);
    unlisted.checksum = None;
    let step = begin(&settings(true, None), &unlisted, false);
    assert!(matches!(step, CosignStep::Finished(Ok(CosignOutcome::NotDeclared))));
    let mut disabled = cosign();
    disabled.enabled = Some(false);
    let step = begin(&settings(true, None), &package(Some(disabled)), false);
    assert!(matches!(step, CosignStep::Finished(Ok(CosignOutcome::Disabled))));
}

#[test]
fn without_cosign_nothing_is_verified() {
    let step = await_cosign(cosign(), None, false).resume::<String>(None);
    assert!(matches!(step, CosignStep::Finished(Ok(CosignOutcome::NoCosign))));
}

#[test]
fn cosign_is_called_with_all_that_the_package_has() {
    let all = AquaCosign {
        enabled: Some(true),
        experimental: Some(true),
        has_signature: true,
        has_key: true,
        has_certificate: true,
        has_bundle: true,
    };
    let mut step =
        await_cosign(all, Some("--offline"), true).resume::<String>(Some("cosign".to_string()));
    let mut asked = Vec::new();
    let command = loop {
        step = match step {
            CosignStep::Part { next } => {
                let (name, arg) = match next.part {
                    CosignPart::Signature => ("signature", "sig"),
                    CosignPart::Key => ("key", ""),
                    CosignPart::Certificate => ("certificate", "cert"),
                    CosignPart::Bundle => ("bundle", "https://y.dev/b/bundle.json"),
                };
                asked.push(name);
                next.resume(Ok(arg.to_string()))
            }
            CosignStep::DownloadBundle { url, next } => {
                assert_eq!(url, "https://y.dev/b/bundle.json");
                assert_eq!(next.path.as_str(), "/d/bundle.json");
                next.resume(Ok(()))
            }
            CosignStep::Opts { next } => next.resume(Ok(vec!["--opt".to_string()])),
            CosignStep::Execute { command, next } => {
                let end = next.resume::<String>(Ok(()));
                assert!(matches!(end, CosignStep::Finished(Ok(CosignOutcome::Verified))));
                break command;
            }
            _ => panic!("cosign was not run"),
        };
    };
    assert_eq!(asked, ["signature", "key", "certificate", "bundle"]);
    assert_eq!(command.program, "cosign");
    let expected = [
        "verify-blob",
        "/d/tool.zip.checksum",
        "--verbose",
        "--signature",
        "sig",
        "--certificate",
        "cert",
        "--bundle",
        "/d/bundle.json",
        "--opt",
        "--offline",
    ];
    assert_eq!(command.args, expected);
    assert_eq!(command.envs, [("COSIGN_EXPERIMENTAL".to_string(), "1".to_string())]);
}

#[test]
fn cosign_is_called_with_no_more_than_the_package_has() {
    let step = await_cosign(cosign(), None, false).resume::<String>(Some("cosign".to_string()));
    let next = match step {
        CosignStep::Opts { next } => next,
        _ => panic!("the options were not asked for"),
    };
    match next.resume::<String>(Ok(Vec::new())) {
        CosignStep::Execute { command, .. } => {
            assert_eq!(command.args, ["verify-blob", "/d/tool.zip.checksum"]);
            assert!(command.envs.is_empty());
        }
        _ => panic!("cosign was not run"),
    }
}

#[test]
fn a_bundle_without_an_address_is_not_downloaded() {
    let mut bundled = cosign();
    bundled.has_bundle = true;
    match await_cosign(bundled, None, false).resume::<String>(Some("cosign".to_string())) {
        CosignStep::Part { next } => {
            assert!(matches!(next.part, CosignPart::Bundle));
            assert!(matches!(next.resume::<String>(Ok(String::new())), CosignStep::Opts { .. }));
        }
        _ => panic!("the address was not asked for"),
    }
}

#[test]
fn failures_of_cosign_are_handed_on() {
    let step = await_cosign(cosign(), None, false).resume::<String>(Some("cosign".to_string()));
    let next = match step {
        CosignStep::Opts { next } => next,
        _ => panic!("the options were not asked for"),
    };
    match next.resume::<String>(Ok(Vec::new())) {
        CosignStep::Execute { next, .. } => {
            let step = next.resume(Err("refused".to_string()));
            assert!(matches!(step, CosignStep::Finished(Err(err)) if err == "refused"));
        }
        _ => panic!("cosign was not run"),
    }
}
