use aqua_backend::package::{validate, AquaFile, AquaPackage, AquaPackageType, Refusal};
use aqua_backend::platform::{arch, os, Target};

fn target(target_os: &str, target_arch: &str) -> Target {
    Target {
        target_os: target_os.to_string(),
        target_arch: target_arch.to_string(),
        os_name: target_os.to_string(),
        arch_name: target_arch.to_string(),
        windows: target_os == "windows",
    }
}

fn package(kind: AquaPackageType) -> AquaPackage {
    AquaPackage {
        kind,
        repo_owner: "cli".to_string(),
        repo_name: "tool".to_string(),
        name: None,
        path: None,
        description: None,
        version_prefix: None,
        version_source: None,
        no_asset: false,
        error_message: None,
        supported_envs: Vec::new(),
        files: vec![AquaFile { name: "tool".to_string() }],
        complete_windows_ext: false,
        checksum: None,
        minisign: None,
        slsa_provenance: None,
    }
}

fn for_envs(envs: &[&str]) -> AquaPackage {
    let mut pkg = package(AquaPackageType::GithubRelease);
    pkg.supported_envs = envs.iter().map(|env| env.to_string()).collect();
    pkg
}

fn refusal(pkg: &AquaPackage, target: &Target) -> String {
    match validate(pkg, target) {
        Ok(()) => panic!("the package was not refused"),
        Err(refusal) => refusal.message(),
    }
}

#[test]
fn names_of_macos_on_arm() {
    let macos = target("macos", "aarch64");
    assert_eq!(os(&macos), "darwin");
    assert_eq!(arch(&macos), "arm64");
}

#[test]
fn names_of_linux_on_amd64_and_arm() {
    assert_eq!(os(&target("linux", "x86_64")), "linux");
    assert_eq!(arch(&target("linux", "x86_64")), "amd64");
    assert_eq!(arch(&target("linux", "arm")), "armv6l");
}

#[test]
fn other_platforms_keep_the_names_of_the_program() {
    let mut other = target("freebsd", "riscv64");
    other.os_name = "bsd".to_string();
    other.arch_name = "rv64".to_string();
    assert_eq!(os(&other), "bsd");
    assert_eq!(arch(&other), "rv64");
}

#[test]
fn package_without_asset_is_refused_first() {
    let mut pkg = for_envs(&["darwin"]);
    pkg.no_asset = true;
    pkg.error_message = Some("broken".to_string());
    let linux = target("linux", "x86_64");
    assert!(matches!(validate(&pkg, &linux), Err(Refusal::NoAsset)));
    assert_eq!(refusal(&pkg, &linux), "no asset released");
}

#[test]
fn reason_of_the_registry_comes_second() {
    let mut pkg = for_envs(&["darwin"]);
    pkg.error_message = Some("the release is broken".to_string());
    assert_eq!(refusal(&pkg, &target("linux", "x86_64")), "the release is broken");
}

#[test]
fn platform_must_be_supported() {
    let linux = target("linux", "x86_64");
    assert_eq!(refusal(&for_envs(&["darwin", "linux/arm64"]), &linux), "unsupported env: linux/amd64");
    assert!(validate(&for_envs(&["linux/amd64"]), &linux).is_ok());
    assert!(validate(&for_envs(&["darwin", "linux"]), &linux).is_ok());
    assert!(validate(&for_envs(&["amd64"]), &linux).is_ok());
}

#[test]
fn no_platform_and_all_platforms_cover_every_platform() {
    let linux = target("linux", "s390x");
    assert!(validate(&for_envs(&[]), &linux).is_ok());
    assert!(validate(&for_envs(&["darwin", "all"]), &linux).is_ok());
}

#[test]
fn windows_on_arm_installs_what_windows_on_amd64_installs() {
    let arm = target("windows", "aarch64");
    let amd = target("windows", "x86_64");
    for envs in [["windows/amd64"], ["amd64"], ["windows"]] {
        assert!(validate(&for_envs(&envs), &amd).is_ok());
        assert!(validate(&for_envs(&envs), &arm).is_ok());
    }
    assert_eq!(refusal(&for_envs(&["linux/amd64"]), &arm), "unsupported env: windows/arm64");
    assert!(validate(&for_envs(&["amd64"]), &target("linux", "aarch64")).is_err());
}

#[test]
fn cargo_packages_are_left_to_cargo() {
    let linux = target("linux", "x86_64");
    let mut pkg = package(AquaPackageType::Cargo);
    let text = "package type `cargo` is not supported in the aqua backend. Use the cargo backend instead";
    assert_eq!(refusal(&pkg, &linux), format!("{text}."));
    pkg.name = Some("crates.io/ripgrep".to_string());
    assert_eq!(refusal(&pkg, &linux), format!("{text}: cargo:ripgrep."));
    pkg.name = Some("BurntSushi/ripgrep".to_string());
    assert_eq!(refusal(&pkg, &linux), format!("{text}."));
}

#[test]
fn go_packages_are_left_to_go() {
    let linux = target("linux", "x86_64");
    let mut pkg = package(AquaPackageType::GoInstall);
    let text = "package type `go_install` is not supported in the aqua backend. Use the go backend instead";
    assert_eq!(refusal(&pkg, &linux), format!("{text}: go:github.com/cli/tool."));
    pkg.path = Some("golang.org/x/tools/gopls".to_string());
    assert_eq!(refusal(&pkg, &linux), format!("{text}: go:golang.org/x/tools/gopls."));
}
