//! A package of the aqua registry: what installing it depends on, and when it cannot be installed.
use vstd::prelude::*;

use crate::platform::{self, Target};
use crate::text;

verus! {

/// How a package is published.
pub enum AquaPackageType {
    GithubArchive,
    GithubContent,
    GithubRelease,
    Http,
    Cargo,
    GoInstall,
    /// Any other way, by the name that the registry gives it.
    Other(String),
}

/// A file of a package: the name that it is to be called by.
pub struct AquaFile {
    pub name: String,
}

/// Where the checksums of a package are published.
#[derive(Clone, Copy)]
pub enum AquaChecksumType {
    GithubRelease,
    Http,
}

/// How to find the digest of a file in a checksum file.
pub struct AquaChecksumPattern {
    /// Matches the digest; its first group takes it.
    pub checksum: String,
    /// Matches the line of a file; its first group takes the file's name.
    pub file: Option<String>,
}

/// How cosign is called on a checksum file. Of the arguments that depend on the version only their
/// presence stands here.
#[derive(Clone, Copy)]
pub struct AquaCosign {
    pub enabled: Option<bool>,
    pub experimental: Option<bool>,
    pub has_signature: bool,
    pub has_key: bool,
    pub has_certificate: bool,
    pub has_bundle: bool,
}

/// The checksums of a package.
pub struct AquaChecksum {
    pub enabled: bool,
    pub kind: AquaChecksumType,
    pub algorithm: String,
    pub file_format: String,
    pub pattern: Option<AquaChecksumPattern>,
    pub cosign: Option<AquaCosign>,
}

/// Where the minisign signature of a package is published.
#[derive(Clone, Copy)]
pub enum AquaMinisignType {
    GithubRelease,
    Http,
}

/// The minisign signature of a package.
pub struct AquaMinisign {
    pub enabled: Option<bool>,
    pub kind: AquaMinisignType,
    pub repo_owner: Option<String>,
    pub repo_name: Option<String>,
}

/// The SLSA provenance of a package.
pub struct AquaSlsaProvenance {
    pub enabled: Option<bool>,
    pub kind: Option<String>,
    pub repo_owner: Option<String>,
    pub repo_name: Option<String>,
    pub source_uri: Option<String>,
    pub source_tag: Option<String>,
}

impl AquaChecksum {
    /// Another copy of the checksums.
    pub fn duplicate(&self) -> (r: AquaChecksum)
        ensures
            r == *self,
    {
        let pattern = match &self.pattern {
            Some(pattern) => Some(
                AquaChecksumPattern {
                    checksum: pattern.checksum.clone(),
                    file: pattern.file.clone(),
                },
            ),
            None => None,
        };
        AquaChecksum {
            enabled: self.enabled,
            kind: self.kind,
            algorithm: self.algorithm.clone(),
            file_format: self.file_format.clone(),
            pattern,
            cosign: self.cosign,
        }
    }
}

impl AquaMinisign {
    /// Another copy of the signature.
    pub fn duplicate(&self) -> (r: AquaMinisign)
        ensures
            r == *self,
    {
        AquaMinisign {
            enabled: self.enabled,
            kind: self.kind,
            repo_owner: self.repo_owner.clone(),
            repo_name: self.repo_name.clone(),
        }
    }
}

impl AquaSlsaProvenance {
    /// Another copy of the provenance.
    pub fn duplicate(&self) -> (r: AquaSlsaProvenance)
        ensures
            r == *self,
    {
        AquaSlsaProvenance {
            enabled: self.enabled,
            kind: self.kind.clone(),
            repo_owner: self.repo_owner.clone(),
            repo_name: self.repo_name.clone(),
            source_uri: self.source_uri.clone(),
            source_tag: self.source_tag.clone(),
        }
    }
}

/// A package of the registry.
pub struct AquaPackage {
    pub kind: AquaPackageType,
    pub repo_owner: String,
    pub repo_name: String,
    pub name: Option<String>,
    pub path: Option<String>,
    pub description: Option<String>,
    pub version_prefix: Option<String>,
    pub version_source: Option<String>,
    pub no_asset: bool,
    pub error_message: Option<String>,
    pub supported_envs: Vec<String>,
    pub files: Vec<AquaFile>,
    pub complete_windows_ext: bool,
    pub checksum: Option<AquaChecksum>,
    pub minisign: Option<AquaMinisign>,
    pub slsa_provenance: Option<AquaSlsaProvenance>,
}

/// The repository `owner/name`.
pub open spec fn repo_of(owner: Seq<char>, name: Seq<char>) -> Seq<char> {
    owner + "/"@ + name
}

/// The repository `owner/name`.
pub fn repo(owner: &str, name: &str) -> (r: String)
    ensures
        r@ == repo_of(owner@, name@),
{
    owner.to_owned().concat("/").concat(name)
}

/// The text of an optional string, or another text in its place.
pub open spec fn text_or(s: Option<String>, other: Seq<char>) -> Seq<char> {
    match s {
        Some(s) => s@,
        None => other,
    }
}

/// The text of an optional string, or another text in its place.
pub fn string_or(s: &Option<String>, other: &str) -> (r: String)
    ensures
        r@ == text_or(*s, other@),
{
    match s {
        Some(s) => s.clone(),
        None => other.to_owned(),
    }
}

/// Why a package cannot be installed.
pub enum Refusal {
    /// The version has no asset.
    NoAsset,
    /// The registry gives a reason of its own.
    Message(String),
    /// The platform, as `os/arch`, is not among those that the package supports.
    UnsupportedEnv(String),
    /// The package is a Rust crate, of this name if it is known.
    UseCargo(Option<String>),
    /// The package is a Go package, of this path.
    UseGo(String),
}

/// What a refusal says.
pub enum RefusalView {
    NoAsset,
    Message(Seq<char>),
    UnsupportedEnv(Seq<char>),
    UseCargo(Option<Seq<char>>),
    UseGo(Seq<char>),
}

impl View for Refusal {
    type V = RefusalView;

    open spec fn view(&self) -> RefusalView {
        match *self {
            Refusal::NoAsset => RefusalView::NoAsset,
            Refusal::Message(m) => RefusalView::Message(m@),
            Refusal::UnsupportedEnv(env) => RefusalView::UnsupportedEnv(env@),
            Refusal::UseCargo(name) => RefusalView::UseCargo(text::opt_text(name)),
            Refusal::UseGo(path) => RefusalView::UseGo(path@),
        }
    }
}

/// An answer that is a package, or a failure.
pub open spec fn package_reply<E>(reply: Result<&AquaPackage, E>) -> Result<AquaPackage, E> {
    match reply {
        Ok(pkg) => Ok(*pkg),
        Err(err) => Err(err),
    }
}

/// A platform as `os/arch`.
pub open spec fn env_of(target: Target) -> Seq<char> {
    platform::os_of(target) + "/"@ + platform::arch_of(target)
}

/// Whether a name in a package's list of supported platforms stands for this one. What is built for
/// amd64 is taken to run on Windows on arm64.
pub open spec fn names_platform(env: Seq<char>, target: Target) -> bool {
    ||| env == "all"@
    ||| env == platform::os_of(target)
    ||| env == platform::arch_of(target)
    ||| env == env_of(target)
    ||| platform::os_of(target) == "windows"@ && platform::arch_of(target) == "arm64"@ && (env
        == "windows/amd64"@ || env == "amd64"@)
}

/// Whether a list of supported platforms covers this one; an empty list covers every platform.
pub open spec fn covers_platform(envs: Seq<Seq<char>>, target: Target) -> bool {
    envs.len() == 0 || exists|i: int|
        0 <= i < envs.len() && names_platform(#[trigger] envs[i], target)
}

/// What follows a prefix, if the text begins with it.
pub open spec fn tail_after(s: Seq<char>, prefix: Seq<char>) -> Option<Seq<char>> {
    if prefix.is_prefix_of(s) {
        Some(s.skip(prefix.len() as int))
    } else {
        None
    }
}

/// Why a package cannot be installed on a platform; `None` where it can. The first reason counts.
pub open spec fn refusal_of(pkg: AquaPackage, target: Target) -> Option<RefusalView> {
    if pkg.no_asset {
        Some(RefusalView::NoAsset)
    } else if let Some(message) = pkg.error_message {
        Some(RefusalView::Message(message@))
    } else if !covers_platform(text::texts(pkg.supported_envs@), target) {
        Some(RefusalView::UnsupportedEnv(env_of(target)))
    } else {
        match pkg.kind {
            AquaPackageType::Cargo => Some(
                RefusalView::UseCargo(
                    match pkg.name {
                        Some(name) => tail_after(name@, "crates.io/"@),
                        None => None,
                    },
                ),
            ),
            AquaPackageType::GoInstall => Some(
                RefusalView::UseGo(
                    text_or(pkg.path, "github.com/"@ + repo_of(pkg.repo_owner@, pkg.repo_name@)),
                ),
            ),
            _ => None,
        }
    }
}

/// Whether a list of supported platforms covers this one.
fn supports(envs: &Vec<String>, target: &Target) -> (r: bool)
    ensures
        r == covers_platform(text::texts(envs@), *target),
{
    if envs.len() == 0 {
        return true;
    }
    let os = platform::os(target);
    let arch = platform::arch(target);
    let env = repo(os, arch);
    let mut i: usize = 0;
    while i < envs.len()
        invariant
            i <= envs.len(),
            envs.len() > 0,
            os@ == platform::os_of(*target),
            arch@ == platform::arch_of(*target),
            env@ == env_of(*target),
            forall|j: int| 0 <= j < i ==> !names_platform(#[trigger] text::texts(envs@)[j], *target),
        decreases envs.len() - i,
    {
        let name = envs[i].as_str();
        assert(text::texts(envs@)[i as int] == name@);
        if text::same(name, "all") || text::same(name, os) || text::same(name, arch) || text::same(
            name,
            env.as_str(),
        ) {
            return true;
        }
        if text::same(os, "windows") && text::same(arch, "arm64") && (text::same(
            name,
            "windows/amd64",
        ) || text::same(name, "amd64")) {
            return true;
        }
        i = i + 1;
    }
    false
}

/// Refuses a package that cannot be installed on a platform.
pub fn validate(pkg: &AquaPackage, target: &Target) -> (r: Result<(), Refusal>)
    ensures
        r is Ok <==> refusal_of(*pkg, *target) is None,
        r matches Err(refusal) ==> refusal_of(*pkg, *target) == Some(refusal@),
{
    if pkg.no_asset {
        return Err(Refusal::NoAsset);
    }
    if let Some(message) = &pkg.error_message {
        return Err(Refusal::Message(message.clone()));
    }
    if !supports(&pkg.supported_envs, target) {
        return Err(Refusal::UnsupportedEnv(repo(platform::os(target), platform::arch(target))));
    }
    match &pkg.kind {
        AquaPackageType::Cargo => {
            let name: Option<String> = match &pkg.name {
                Some(name) => match text::strip_prefix(name.as_str(), "crates.io/") {
                    Some(rest) => Some(rest.to_owned()),
                    None => None,
                },
                None => None,
            };
            Err(Refusal::UseCargo(name))
        },
        AquaPackageType::GoInstall => {
            let home = repo(pkg.repo_owner.as_str(), pkg.repo_name.as_str());
            let other = "github.com/".to_owned().concat(home.as_str());
            Err(Refusal::UseGo(string_or(&pkg.path, other.as_str())))
        },
        _ => Ok(()),
    }
}

/// What a refusal says to the user.
pub open spec fn refusal_text(refusal: RefusalView) -> Seq<char> {
    match refusal {
        RefusalView::NoAsset => "no asset released"@,
        RefusalView::Message(message) => message,
        RefusalView::UnsupportedEnv(env) => "unsupported env: "@ + env,
        RefusalView::UseCargo(name) => {
            "package type `cargo` is not supported in the aqua backend. Use the cargo backend instead"@
                + (match name {
                Some(name) => ": cargo:"@ + name,
                None => Seq::empty(),
            }) + "."@
        },
        RefusalView::UseGo(path) => {
            "package type `go_install` is not supported in the aqua backend. Use the go backend instead"@
                + (": go:"@ + path) + "."@
        },
    }
}

impl Refusal {
    /// What the refusal says to the user.
    pub fn message(&self) -> (r: String)
        ensures
            r@ == refusal_text(self@),
    {
        match self {
            Refusal::NoAsset => "no asset released".to_owned(),
            Refusal::Message(message) => message.clone(),
            Refusal::UnsupportedEnv(env) => "unsupported env: ".to_owned().concat(env.as_str()),
            Refusal::UseCargo(name) => {
                let advice = match name {
                    Some(name) => ": cargo:".to_owned().concat(name.as_str()),
                    None => String::new(),
                };
                "package type `cargo` is not supported in the aqua backend. Use the cargo backend instead".to_owned().concat(
                advice.as_str()).concat(".")
            },
            Refusal::UseGo(path) => {
                let advice = ": go:".to_owned().concat(path.as_str());
                "package type `go_install` is not supported in the aqua backend. Use the go backend instead".to_owned().concat(
                advice.as_str()).concat(".")
            },
        }
    }
}

/// A package that names no platform, or that names all of them, is never refused for the platform.
pub proof fn law_all_platforms(pkg: AquaPackage, target: Target)
    requires
        pkg.supported_envs@.len() == 0 || text::texts(pkg.supported_envs@).contains("all"@),
    ensures
        !(refusal_of(pkg, target) matches Some(RefusalView::UnsupportedEnv(_))),
{
    let envs = text::texts(pkg.supported_envs@);
    if envs.len() > 0 {
        let i = choose|i: int| 0 <= i < envs.len() && envs[i] == "all"@;
        assert(names_platform(envs[i], target));
    }
}

/// A package that Windows on amd64 can install is not refused for the platform by Windows on arm64.
pub proof fn law_windows_on_arm(pkg: AquaPackage, amd64: Target, arm64: Target)
    requires
        platform::os_of(amd64) == "windows"@,
        platform::arch_of(amd64) == "amd64"@,
        platform::os_of(arm64) == "windows"@,
        platform::arch_of(arm64) == "arm64"@,
        refusal_of(pkg, amd64) is None,
    ensures
        refusal_of(pkg, arm64) is None,
{
    let envs = text::texts(pkg.supported_envs@);
    if envs.len() > 0 {
        let i = choose|i: int| 0 <= i < envs.len() && names_platform(#[trigger] envs[i], amd64);
        assert("windows"@ + "/"@ + "amd64"@ == "windows/amd64"@) by {
            reveal_strlit("windows");
            reveal_strlit("/");
            reveal_strlit("amd64");
            reveal_strlit("windows/amd64");
        }
        assert(names_platform(envs[i], arm64));
    }
}

/// A version without an asset is refused for that, whatever else is wrong with it; after that the
/// registry's own reason counts.
pub proof fn law_first_reasons(pkg: AquaPackage, target: Target)
    ensures
        pkg.no_asset ==> refusal_of(pkg, target) == Some(RefusalView::NoAsset),
        !pkg.no_asset ==> (pkg.error_message matches Some(message) ==> refusal_of(pkg, target)
            == Some(RefusalView::Message(message@))),
{
}

/// A package that lists the platform by its operating system, its architecture, or both with a slash
/// between them, is treated as if it listed no platforms; so is one that lists all of them, and, on
/// Windows on arm64, one that is listed for amd64.
pub proof fn law_listed_platform(pkg: AquaPackage, target: Target, i: int, unlisted: AquaPackage)
    requires
        unlisted == (AquaPackage { supported_envs: unlisted.supported_envs, ..pkg }),
        unlisted.supported_envs@.len() == 0,
        0 <= i < pkg.supported_envs@.len(),
        ({
            let env = pkg.supported_envs@[i]@;
            let os = platform::os_of(target);
            let arch = platform::arch_of(target);
            ||| env == "all"@
            ||| env == os
            ||| env == arch
            ||| env == os + "/"@ + arch
            ||| os == "windows"@ && arch == "arm64"@ && env == "amd64"@
            ||| os == "windows"@ && arch == "arm64"@ && env == "windows/amd64"@
        }),
    ensures
        refusal_of(pkg, target) == refusal_of(unlisted, target),
{
    assert(names_platform(text::texts(pkg.supported_envs@)[i], target));
}

/// A package that lists platforms, and none of them stands for this one, is refused for the platform,
/// which is named by operating system and architecture.
pub proof fn law_unlisted_platform(pkg: AquaPackage, target: Target)
    requires
        !pkg.no_asset,
        pkg.error_message is None,
        pkg.supported_envs@.len() > 0,
        forall|i: int|
            0 <= i < pkg.supported_envs@.len() ==> {
                let env = (#[trigger] pkg.supported_envs@[i])@;
                let os = platform::os_of(target);
                let arch = platform::arch_of(target);
                &&& env != "all"@
                &&& env != os
                &&& env != arch
                &&& env != os + "/"@ + arch
                &&& os == "windows"@ && arch == "arm64"@ ==> env != "amd64"@ && env
                    != "windows/amd64"@
            },
    ensures
        refusal_of(pkg, target) == Some(
            RefusalView::UnsupportedEnv(
                platform::os_of(target) + "/"@ + platform::arch_of(target),
            ),
        ),
{
    assert forall|i: int| 0 <= i < text::texts(pkg.supported_envs@).len() implies !names_platform(
        #[trigger] text::texts(pkg.supported_envs@)[i],
        target,
    ) by {
        let env = pkg.supported_envs@[i];
    }
}

/// A package that lists no platforms, and of which the registry says nothing ill, is refused exactly
/// where it is one of another package manager: a Rust crate, which goes by what follows `crates.io/` in
/// its name, or a Go package, which goes by its path, or, without one, by its repository on GitHub.
pub proof fn law_packages_of_others(pkg: AquaPackage, target: Target, crate_name: Seq<char>)
    requires
        !pkg.no_asset,
        pkg.error_message is None,
        pkg.supported_envs@.len() == 0,
    ensures
        !(pkg.kind is Cargo) && !(pkg.kind is GoInstall) ==> refusal_of(pkg, target) is None,
        pkg.kind is Cargo && (pkg.name matches Some(name) && name@ == "crates.io/"@ + crate_name)
            ==> refusal_of(pkg, target) == Some(RefusalView::UseCargo(Some(crate_name))),
        pkg.kind is Cargo && (pkg.name is None || (pkg.name matches Some(name)
            && !"crates.io/"@.is_prefix_of(name@))) ==> refusal_of(pkg, target) == Some(
            RefusalView::UseCargo(None),
        ),
        pkg.kind is GoInstall ==> (pkg.path matches Some(path) ==> refusal_of(pkg, target) == Some(
            RefusalView::UseGo(path@),
        )),
        pkg.kind is GoInstall && pkg.path is None ==> refusal_of(pkg, target) == Some(
            RefusalView::UseGo("github.com/"@ + pkg.repo_owner@ + "/"@ + pkg.repo_name@),
        ),
{
    let full = "crates.io/"@ + crate_name;
    assert(full.subrange(0, "crates.io/"@.len() as int) == "crates.io/"@);
    assert(full.skip("crates.io/"@.len() as int) == crate_name);
    assert("github.com/"@ + (pkg.repo_owner@ + "/"@ + pkg.repo_name@) == "github.com/"@
        + pkg.repo_owner@ + "/"@ + pkg.repo_name@);
}

/// What each refusal says to the user.
pub proof fn law_words_of_refusals(text: Seq<char>)
    ensures
        refusal_text(RefusalView::NoAsset) == "no asset released"@,
        refusal_text(RefusalView::Message(text)) == text,
        refusal_text(RefusalView::UnsupportedEnv(text)) == "unsupported env: "@ + text,
        refusal_text(RefusalView::UseCargo(None))
            == "package type `cargo` is not supported in the aqua backend. Use the cargo backend instead"@
            + "."@,
        refusal_text(RefusalView::UseCargo(Some(text)))
            == "package type `cargo` is not supported in the aqua backend. Use the cargo backend instead"@
            + (": cargo:"@ + text) + "."@,
        refusal_text(RefusalView::UseGo(text))
            == "package type `go_install` is not supported in the aqua backend. Use the go backend instead"@
            + (": go:"@ + text) + "."@,
{
    let cargo =
        "package type `cargo` is not supported in the aqua backend. Use the cargo backend instead"@;
    assert(cargo + Seq::<char>::empty() == cargo);
}

/// A repository is named by its owner and its name, with a slash between them.
pub proof fn law_name_of_a_repository(owner: Seq<char>, name: Seq<char>)
    ensures
        repo_of(owner, name) == owner + "/"@ + name,
{
}

/// A text that is given counts, whatever it is, and the other only where none is given.
pub proof fn law_given_text(given: String, other: Seq<char>)
    ensures
        text_or(Some(given), other) == given@,
        text_or(None, other) == other,
{
}

} // verus!
