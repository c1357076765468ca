use aqua_backend::installation::{install_version, Candidates, InstallError, InstallStep};
use aqua_backend::lock::{LockPlatforms, ToolVersion};
use aqua_backend::package::{AquaPackage, AquaPackageType, Refusal};
use aqua_backend::paths::HostPath;
use aqua_backend::platform::Target;
use aqua_backend::versions::{
    remote_versions, version_tags_of, RemoteVersionsStep, VersionTagsStep,
};

fn target() -> Target {
    Target {
        target_os: "linux".to_string(),
        target_arch: "x86_64".to_string(),
        os_name: "linux".to_string(),
        arch_name: "x64".to_string(),
        windows: false,
    }
}

fn package(version_prefix: Option<&str>) -> AquaPackage {
    AquaPackage {
        kind: AquaPackageType::GithubRelease,
        repo_owner: "cli".to_string(),
        repo_name: "tool".to_string(),
        name: None,
        path: None,
        description: None,
        version_prefix: version_prefix.map(|prefix| prefix.to_string()),
        version_source: None,
        no_asset: false,
        error_message: None,
        supported_envs: Vec::new(),
        files: Vec::new(),
        complete_windows_ext: false,
        checksum: None,
        minisign: None,
        slsa_provenance: None,
    }
}

fn tool_version(version: &str, lock_platforms: LockPlatforms) -> ToolVersion {
    ToolVersion {
        version: version.to_string(),
        lock_platforms,
        install_path: HostPath::new("/i"),
        download_path: HostPath::new("/d"),
        cache_path: HostPath::new("/c"),
    }
}

/// What is answered in the course of an installation.
struct Answers {
    tags: Vec<(String, String)>,
    pkg: AquaPackage,
    prefixed: Result<(String, bool), String>,
    plain: Result<(String, bool), String>,
    head: bool,
    verify: bool,
}

fn answers() -> Answers {
    Answers {
        tags: Vec::new(),
        pkg: package(None),
        prefixed: Ok(("https://x.dev/v1/tool.zip".to_string(), true)),
        plain: Ok(("https://x.dev/1/tool.zip".to_string(), true)),
        head: false,
        verify: true,
    }
}

/// Runs an installation, and lists what is asked for.
fn installed(
    tv: ToolVersion,
    answers: &Answers,
) -> (Vec<String>, Result<ToolVersion, InstallError<String>>) {
    let mut asked = Vec::new();
    let mut step = install_version::<String>(tv, "linux".to_string());
    loop {
        step = match step {
            InstallStep::VersionTags { next } => next.resume(Ok(&answers.tags)),
            InstallStep::Package { versions, next } => {
                asked.push(format!("package {}", versions.join(" ")));
                next.resume(Ok(&answers.pkg), &target())
            }
            InstallStep::PrefixedUrl { next } => {
                asked.push(format!("url {}", next.prefixed));
                next.resume(answers.prefixed.clone())
            }
            InstallStep::PlainUrl { next } => {
                asked.push(format!("url {}", next.plain));
                next.resume(answers.plain.clone())
            }
            InstallStep::Head { next } => {
                asked.push(format!("head {}", next.prefixed_url));
                next.resume(answers.head)
            }
            InstallStep::Download { next } => {
                asked.push(format!("download {} {}", next.url, next.filename));
                next.resume(Ok(()))
            }
            InstallStep::Verify { tv, next } => {
                asked.push(format!("verify {} {}", next.v, next.filename));
                if answers.verify {
                    next.resume(Ok(tv))
                } else {
                    next.resume(Err("refused".to_string()))
                }
            }
            InstallStep::Install { v, filename, next } => {
                asked.push(format!("install {v} {filename}"));
                next.resume(Ok(()))
            }
            InstallStep::Finished(end) => return (asked, end),
        };
    }
}

fn recorded(end: Result<ToolVersion, InstallError<String>>) -> Option<String> {
    match end {
        Ok(tv) => tv.lock_platforms.info("linux").url,
        Err(_) => panic!("the version is installed"),
    }
}

fn install(version: &str, answers: &Answers) -> Vec<String> {
    installed(tool_version(version, LockPlatforms::new()), answers).0
}

#[test]
fn a_listed_version_goes_by_its_tag() {
    let tags = vec![
        ("2".to_string(), "v2".to_string()),
        ("1".to_string(), "rel-1".to_string()),
        ("1".to_string(), "v1".to_string()),
    ];
    let candidates = Candidates::resolve(&tags, "1");
    assert_eq!(candidates.plain, "rel-1");
    assert_eq!(candidates.prefixed, None);
    assert_eq!(candidates.versions(), ["rel-1"]);
}

#[test]
fn an_unlisted_version_may_have_a_v() {
    let candidates = Candidates::resolve(&Vec::new(), "1.0");
    assert_eq!(candidates.plain, "1.0");
    assert_eq!(candidates.prefixed, Some("v1.0".to_string()));
    assert_eq!(candidates.versions(), ["1.0", "v1.0"]);
    assert_eq!(Candidates::resolve(&Vec::new(), "v1.0").prefixed, None);
}

#[test]
fn the_prefix_of_the_package_is_put_once() {
    let prefix = Some("cli-".to_string());
    let candidates = Candidates::resolve(&Vec::new(), "1.0").prefix(&prefix);
    assert_eq!(candidates.plain, "cli-1.0");
    assert_eq!(candidates.prefixed, Some("cli-v1.0".to_string()));
    let again = candidates.prefix(&prefix);
    assert_eq!(again.plain, "cli-1.0");
    assert_eq!(again.prefixed, Some("cli-v1.0".to_string()));
    assert_eq!(Candidates::resolve(&Vec::new(), "1").prefix(&None).plain, "1");
}

#[test]
fn an_address_that_was_checked_is_taken() {
    let (asked, end) = installed(tool_version("1", LockPlatforms::new()), &answers());
    let expected = [
        "package 1 v1",
        "url v1",
        "download https://x.dev/v1/tool.zip tool.zip",
        "verify v1 tool.zip",
        "install v1 tool.zip",
    ];
    assert_eq!(asked, expected);
    assert_eq!(recorded(end), Some("https://x.dev/v1/tool.zip".to_string()));
}

#[test]
fn addresses_that_agree_need_no_look() {
    let mut same = answers();
    same.prefixed = Ok(("https://x.dev/tool.zip".to_string(), false));
    same.plain = Ok(("https://x.dev/tool.zip".to_string(), false));
    let asked = install("1", &same);
    assert_eq!(&asked[1..4], ["url v1", "url 1", "download https://x.dev/tool.zip tool.zip"]);
    assert_eq!(asked[4], "verify v1 tool.zip");
}

#[test]
fn of_two_addresses_the_one_that_is_there_is_taken() {
    let mut differing = answers();
    differing.prefixed = Ok(("https://x.dev/v1/tool.zip".to_string(), false));
    differing.head = true;
    let asked = install("1", &differing);
    assert_eq!(asked[3], "head https://x.dev/v1/tool.zip");
    assert_eq!(&asked[4..6], ["download https://x.dev/v1/tool.zip tool.zip", "verify v1 tool.zip"]);
    differing.head = false;
    let asked = install("1", &differing);
    assert_eq!(&asked[4..6], ["download https://x.dev/1/tool.zip tool.zip", "verify 1 tool.zip"]);
}

#[test]
fn the_plain_name_is_tried_when_the_other_has_no_asset() {
    let mut plain = answers();
    plain.prefixed = Err("no v1".to_string());
    let asked = install("1", &plain);
    assert_eq!(asked[3], "download https://x.dev/1/tool.zip tool.zip");
    plain.plain = Err("no 1".to_string());
    let (_, end) = installed(tool_version("1", LockPlatforms::new()), &plain);
    match end {
        Err(InstallError::NoUrl { prefixed, plain }) => {
            assert_eq!((prefixed.as_str(), plain.as_str()), ("no v1", "no 1"));
        }
        _ => panic!("neither name has an asset"),
    }
}

#[test]
fn a_listed_version_has_one_address() {
    let mut listed = answers();
    listed.tags = vec![("1".to_string(), "v1".to_string())];
    let asked = install("1", &listed);
    assert_eq!(&asked[..3], ["package v1", "url v1", "download https://x.dev/1/tool.zip tool.zip"]);
    listed.plain = Err("offline".to_string());
    let (_, end) = installed(tool_version("1", LockPlatforms::new()), &listed);
    assert!(matches!(end, Err(InstallError::Outside(err)) if err == "offline"));
}

#[test]
fn addresses_are_asked_for_with_the_prefix() {
    let mut prefixed = answers();
    prefixed.pkg = package(Some("cli-"));
    assert_eq!(install("1", &prefixed)[1], "url cli-v1");
}

#[test]
fn a_locked_address_is_taken_as_it_is() {
    let url = "https://x.dev/v1/tool_v1.zip".to_string();
    let locked = LockPlatforms::new().set_url("linux", url.clone());
    let (asked, end) = installed(tool_version("1", locked), &answers());
    let expected = [
        "package 1 v1".to_string(),
        format!("download {url} tool_v1.zip"),
        "verify v1 tool_v1.zip".to_string(),
        "install v1 tool_v1.zip".to_string(),
    ];
    assert_eq!(asked, expected);
    assert_eq!(recorded(end), Some(url));
    let plain = LockPlatforms::new().set_url("linux", "https://x.dev/tool-1.zip".to_string());
    let (asked, _) = installed(tool_version("1", plain), &answers());
    assert_eq!(asked[2], "verify 1 tool-1.zip");
}

#[test]
fn a_package_that_is_refused_is_not_downloaded() {
    let mut refused = answers();
    refused.pkg.no_asset = true;
    let (asked, end) = installed(tool_version("1", LockPlatforms::new()), &refused);
    assert_eq!(asked, ["package 1 v1"]);
    assert!(matches!(end, Err(InstallError::Refused(Refusal::NoAsset))));
}

#[test]
fn an_asset_that_is_not_verified_is_not_installed() {
    let mut unverified = answers();
    unverified.verify = false;
    let (asked, end) = installed(tool_version("1", LockPlatforms::new()), &unverified);
    assert_eq!(asked.last().map(|last| last.as_str()), Some("verify v1 tool.zip"));
    assert!(matches!(end, Err(InstallError::Outside(err)) if err == "refused"));
}

#[test]
fn an_offered_version_goes_by_its_tag() {
    let mut step = version_tags_of::<String>(Ok(&package(None)));
    let tags = loop {
        step = match step {
            VersionTagsStep::ListReleases { next } => {
                next.resume(Ok(vec!["v2".to_string(), "1".to_string(), "v1".to_string()]))
            }
            VersionTagsStep::Filter { next } => {
                let accepted = next.tag != "1";
                next.resume(Ok(accepted))
            }
            VersionTagsStep::Prefix { next } => next.resume(&None),
            VersionTagsStep::Finished(Ok(tags)) => break tags,
            _ => panic!("nothing has failed"),
        };
    };
    let mut step = remote_versions(&tags);
    let offered = loop {
        step = match step {
            RemoteVersionsStep::Lookup { next, .. } => next.resume::<String>(Ok(&package(None))),
            RemoteVersionsStep::Finished(versions) => break versions,
        };
    };
    assert_eq!(offered, ["1", "2"]);
    let candidates = Candidates::resolve(&tags, "1");
    assert_eq!(candidates.plain, "v1");
    assert_eq!(candidates.prefixed, None);
}

#[test]
fn a_recorded_address_is_taken_again() {
    let (_, end) = installed(tool_version("1", LockPlatforms::new()), &answers());
    let tv = match end {
        Ok(tv) => tv,
        Err(_) => panic!("the version is installed"),
    };
    assert_eq!(tv.version, "1");
    let mut later = answers();
    later.prefixed = Err("gone".to_string());
    later.plain = Err("gone".to_string());
    let (asked, end) = installed(tv, &later);
    assert_eq!(asked[1], "download https://x.dev/v1/tool.zip tool.zip");
    assert_eq!(recorded(end), Some("https://x.dev/v1/tool.zip".to_string()));
}

#[test]
fn a_download_that_fails_ends_the_installation() {
    let mut step = install_version::<String>(
        tool_version("1", LockPlatforms::new().set_url("linux", "https://x.dev/a".to_string())),
        "linux".to_string(),
    );
    loop {
        step = match step {
            InstallStep::VersionTags { next } => next.resume(Ok(&Vec::new())),
            InstallStep::Package { next, .. } => next.resume(Ok(&package(None)), &target()),
            InstallStep::Download { next } => next.resume(Err("offline".to_string())),
            InstallStep::Finished(end) => {
                assert!(matches!(end, Err(InstallError::Outside(err)) if err == "offline"));
                return;
            }
            _ => panic!("nothing is done with what was not downloaded"),
        };
    }
}
