use aqua_backend::command::{AquaSettings, CommandLine};
use aqua_backend::package::{AquaPackage, AquaPackageType, AquaSlsaProvenance};
use aqua_backend::paths::HostPath;
use aqua_backend::release::GithubAsset;
use aqua_backend::slsa::{verify_slsa, AwaitVerifier, SlsaOutcome, SlsaStep};

fn settings(slsa: bool) -> AquaSettings {
    AquaSettings { slsa, cosign: true, cosign_extra_args: None }
}

fn provenance(kind: Option<&str>) -> AquaSlsaProvenance {
    AquaSlsaProvenance {
        enabled: None,
        kind: kind.map(|kind| kind.to_string()),
        repo_owner: None,
        repo_name: None,
        source_uri: None,
        source_tag: None,
    }
}

fn package(slsa_provenance: Option<AquaSlsaProvenance>) -> AquaPackage {
    AquaPackage {
        kind: AquaPackageType::GithubRelease,
        repo_owner: "cli".to_string(),
        repo_name: "tool".to_string(),
        name: None,
        path: None,
        description: None,
        version_prefix: None,
        version_source: None,
        no_asset: false,
        error_message: None,
        supported_envs: Vec::new(),
        files: Vec::new(),
        complete_windows_ext: false,
        checksum: None,
        minisign: None,
        slsa_provenance,
    }
}

fn begin(slsa: bool, pkg: &AquaPackage) -> SlsaStep<String> {
    verify_slsa(&settings(slsa), pkg, "v1", "tool.zip", &HostPath::new("/d"))
}

fn await_verifier(slsa: AquaSlsaProvenance) -> AwaitVerifier {
    match begin(true, &package(Some(slsa))) {
        SlsaStep::FindVerifier { next } => next,
        _ => panic!("slsa-verifier was not looked for"),
    }
}

fn command(step: SlsaStep<String>) -> CommandLine {
    match step {
        SlsaStep::Execute { command, .. } => command,
        _ => panic!("slsa-verifier was not run"),
    }
}

fn run_http(slsa: AquaSlsaProvenance) -> CommandLine {
    let found = await_verifier(slsa).resume::<String>(Some("/bin/slsa-verifier".to_string()));
    let next = match found {
        SlsaStep::Url { next } => next,
        _ => panic!("the address was not asked for"),
    };
    match next.resume::<String>(Ok("https://y.dev/p".to_string())) {
        SlsaStep::Download { url, next } => {
            assert_eq!(url, "https://y.dev/p");
            assert_eq!(next.path.as_str(), "/d/tool.zip");
            command(next.resume(Ok(())))
        }
        _ => panic!("the provenance was not downloaded"),
    }
}

#[test]
fn provenance_is_verified_where_it_is_wanted() {
    let pkg = package(Some(provenance(Some("http"))));
    assert!(matches!(begin(false, &pkg), SlsaStep::Finished(Ok(SlsaOutcome::SwitchedOff))));
    let without = package(None);
    assert!(matches!(begin(true, &without), SlsaStep::Finished(Ok(SlsaOutcome::NotDeclared))));
    let mut disabled = provenance(Some("http"));
    disabled.enabled = Some(false);
    let pkg = package(Some(disabled));
    assert!(matches!(begin(true, &pkg), SlsaStep::Finished(Ok(SlsaOutcome::Disabled))));
}

#[test]
fn without_the_verifier_nothing_is_verified() {
    let step = await_verifier(provenance(Some("http"))).resume::<String>(None);
    assert!(matches!(step, SlsaStep::Finished(Ok(SlsaOutcome::NoVerifier))));
}

#[test]
fn provenance_of_a_release_is_downloaded_and_verified() {
    let program = Some("/bin/slsa-verifier".to_string());
    let found = await_verifier(provenance(Some("github_release"))).resume::<String>(program);
    let next = match found {
        SlsaStep::AssetName { next } => next,
        _ => panic!("the name was not asked for"),
    };
    let next = match next.resume::<String>(Ok("tool.intoto.jsonl".to_string())) {
        SlsaStep::Release { repo, v, next } => {
            assert_eq!((repo.as_str(), v.as_str()), ("cli/tool", "v1"));
            next
        }
        _ => panic!("the release was not asked for"),
    };
    let assets = vec![GithubAsset {
        name: "tool.intoto.jsonl".to_string(),
        browser_download_url: "https://x.dev/p".to_string(),
    }];
    let next = match next.resume::<String>(Ok(assets)) {
        SlsaStep::Download { url, next } => {
            assert_eq!(url, "https://x.dev/p");
            assert_eq!(next.path.as_str(), "/d/tool.intoto.jsonl");
            next
        }
        _ => panic!("the provenance was not downloaded"),
    };
    match next.resume::<String>(Ok(())) {
        SlsaStep::Execute { command, next } => {
            assert_eq!(command.program, "/bin/slsa-verifier");
            let expected = [
                "verify-artifact",
                "/d/tool.zip",
                "--provenance-repository",
                "cli/tool",
                "--source-uri",
                "github.com/cli/tool",
                "--provenance-path",
                "/d/tool.intoto.jsonl",
                "--source-tag",
                "v1",
            ];
            assert_eq!(command.args, expected);
            assert!(command.envs.is_empty());
            let step = next.resume::<String>(Ok(()));
            assert!(matches!(step, SlsaStep::Finished(Ok(SlsaOutcome::Verified))));
        }
        _ => panic!("slsa-verifier was not run"),
    }
}

#[test]
fn a_release_without_the_provenance_is_not_verified() {
    let program = Some("/bin/slsa-verifier".to_string());
    let next = match await_verifier(provenance(Some("github_release"))).resume::<String>(program) {
        SlsaStep::AssetName { next } => next,
        _ => panic!("the name was not asked for"),
    };
    match next.resume::<String>(Ok("p".to_string())) {
        SlsaStep::Release { next, .. } => {
            let step = next.resume::<String>(Ok(Vec::new()));
            let lacking = matches!(
                step,
                SlsaStep::Finished(Ok(SlsaOutcome::NoAsset(name))) if name == "p"
            );
            assert!(lacking);
        }
        _ => panic!("the release was not asked for"),
    }
}

#[test]
fn provenance_gives_the_repository_the_source_and_the_tag() {
    let mut slsa = provenance(Some("http"));
    slsa.repo_owner = Some("other".to_string());
    slsa.source_uri = Some("github.com/some/where".to_string());
    slsa.source_tag = Some("release-1".to_string());
    let args = run_http(slsa).args;
    assert_eq!(args[3], "other/tool");
    assert_eq!(args[5], "github.com/some/where");
    assert_eq!(&args[6..], ["--provenance-path", "/d/tool.zip", "--source-tag", "release-1"]);
}

#[test]
fn a_dash_means_no_source_tag() {
    let mut slsa = provenance(Some("http"));
    slsa.source_tag = Some("-".to_string());
    let args = run_http(slsa).args;
    assert_eq!(args.len(), 8);
    assert!(!args.contains(&"--source-tag".to_string()));
}

#[test]
fn other_kinds_of_provenance_are_not_verified() {
    for (kind, named) in [(Some("oci"), "oci"), (None, "")] {
        let step = await_verifier(provenance(kind)).resume::<String>(Some("bin".to_string()));
        let unsupported = matches!(
            step,
            SlsaStep::Finished(Ok(SlsaOutcome::UnsupportedType(kind))) if kind == named
        );
        assert!(unsupported);
    }
}

#[test]
fn a_refusal_of_slsa_verifier_is_handed_on() {
    let next = match await_verifier(provenance(Some("http"))).resume::<String>(Some("b".to_string())) {
        SlsaStep::Url { next } => next,
        _ => panic!("the address was not asked for"),
    };
    let next = match next.resume::<String>(Ok("https://y.dev/p".to_string())) {
        SlsaStep::Download { next, .. } => next,
        _ => panic!("the provenance was not downloaded"),
    };
    match next.resume::<String>(Ok(())) {
        SlsaStep::Execute { next, .. } => {
            let step = next.resume(Err("refused".to_string()));
            assert!(matches!(step, SlsaStep::Finished(Err(err)) if err == "refused"));
        }
        _ => panic!("slsa-verifier was not run"),
    }
}
