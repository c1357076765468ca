//! Installing a version of a tool: which tag it is, where its asset is, and what is done with it.
//!
//! Each step says what is to be done outside, and holds the state that goes on with the outcome.
use vstd::prelude::*;

use crate::extraction;
use crate::extraction::{ExtractStepView, ExtractionView};
use crate::lock;
use crate::lock::{ToolVersion, ToolVersionView};
use crate::package;
use crate::package::{AquaPackage, Refusal, RefusalView};
use crate::platform::Target;
use crate::text;
use crate::verification;
use crate::verification::{VerificationView, VerifyStepView};
use crate::versions;
use crate::versions::TagReport;

verus! {

/// The names that a version may go by in the registry and in its repository: the one that is taken
/// for granted, and, where that is a guess, the one with a `v` before it.
pub struct Candidates {
    pub plain: String,
    pub prefixed: Option<String>,
}

/// The names that a version may go by.
pub struct CandidatesView {
    pub plain: Seq<char>,
    pub prefixed: Option<Seq<char>>,
}

impl View for Candidates {
    type V = CandidatesView;

    open spec fn view(&self) -> CandidatesView {
        CandidatesView { plain: self.plain@, prefixed: text::opt_text(self.prefixed) }
    }
}

/// The first tag that is listed for a version.
pub open spec fn tag_of(pairs: Seq<(Seq<char>, Seq<char>)>, version: Seq<char>) -> Option<Seq<char>>
    decreases pairs.len(),
{
    if pairs.len() == 0 {
        None
    } else if pairs[0].0 == version {
        Some(pairs[0].1)
    } else {
        tag_of(pairs.skip(1), version)
    }
}

/// A version with a tag goes by its tag; another goes by its own name, or, unless that has a `v`
/// already, by that name with a `v` before it.
pub open spec fn candidates_of(
    pairs: Seq<(Seq<char>, Seq<char>)>,
    version: Seq<char>,
) -> CandidatesView {
    match tag_of(pairs, version) {
        Some(tag) => CandidatesView { plain: tag, prefixed: None },
        None => CandidatesView {
            plain: version,
            prefixed: if "v"@.is_prefix_of(version) {
                None
            } else {
                Some("v"@ + version)
            },
        },
    }
}

/// The names that the registry is asked for.
pub open spec fn asked_versions(candidates: CandidatesView) -> Seq<Seq<char>> {
    match candidates.prefixed {
        Some(prefixed) => seq![candidates.plain, prefixed],
        None => seq![candidates.plain],
    }
}

/// Where the tags of the package begin with a prefix that the version lacks, it is put before each
/// of the names.
pub open spec fn with_prefix(candidates: CandidatesView, prefix: Option<Seq<char>>) -> CandidatesView {
    match prefix {
        Some(prefix) if !prefix.is_prefix_of(candidates.plain) => CandidatesView {
            plain: prefix + candidates.plain,
            prefixed: match candidates.prefixed {
                Some(prefixed) => Some(prefix + prefixed),
                None => None,
            },
        },
        _ => candidates,
    }
}

/// The first tag that is listed for a version.
fn find_tag(version_tags: &Vec<(String, String)>, version: &str) -> (r: Option<String>)
    ensures
        text::opt_text(r) == tag_of(text::pairs(version_tags@), version@),
{
    let ghost pairs = text::pairs(version_tags@);
    let mut i: usize = 0;
    assert(pairs.skip(0) == pairs);
    while i < version_tags.len()
        invariant
            i <= version_tags@.len(),
            pairs == text::pairs(version_tags@),
            tag_of(pairs, version@) == tag_of(pairs.skip(i as int), version@),
        decreases version_tags.len() - i,
    {
        proof {
            assert(pairs.skip(i as int)[0] == pairs[i as int]);
            assert(pairs.skip(i as int).skip(1) == pairs.skip(i + 1));
        }
        if text::same(version_tags[i].0.as_str(), version) {
            return Some(version_tags[i].1.clone());
        }
        i = i + 1;
    }
    None
}

impl Candidates {
    /// The names that a version may go by, with the versions that are known to have a tag.
    pub fn resolve(version_tags: &Vec<(String, String)>, version: &str) -> (r: Candidates)
        ensures
            r@ == candidates_of(text::pairs(version_tags@), version@),
    {
        match find_tag(version_tags, version) {
            Some(tag) => Candidates { plain: tag, prefixed: None },
            None => {
                let prefixed = if text::starts_with(version, "v") {
                    None
                } else {
                    Some("v".to_owned().concat(version))
                };
                Candidates { plain: version.to_owned(), prefixed }
            },
        }
    }

    /// The names that the registry is asked for.
    pub fn versions(&self) -> (r: Vec<String>)
        ensures
            text::texts(r@) == asked_versions(self@),
    {
        let mut r: Vec<String> = Vec::new();
        r.push(self.plain.clone());
        if let Some(prefixed) = &self.prefixed {
            r.push(prefixed.clone());
        }
        assert(text::texts(r@) =~= asked_versions(self@));
        r
    }

    /// The names with the prefix that the tags of the package have.
    pub fn prefix(self, prefix: &Option<String>) -> (r: Candidates)
        ensures
            r@ == with_prefix(self@, text::opt_text(*prefix)),
    {
        if let Some(prefix) = prefix {
            if !text::starts_with(self.plain.as_str(), prefix.as_str()) {
                let plain = prefix.clone().concat(self.plain.as_str());
                let prefixed = match self.prefixed {
                    Some(prefixed) => Some(prefix.clone().concat(prefixed.as_str())),
                    None => None,
                };
                return Candidates { plain, prefixed };
            }
        }
        self
    }
}

/// Why a version cannot be installed.
pub enum InstallError<E> {
    /// Something outside failed.
    Outside(E),
    /// The package cannot be installed.
    Refused(Refusal),
    /// Neither of the names that the version may go by has an asset.
    NoUrl { prefixed: E, plain: E },
}

/// Why a version cannot be installed.
pub enum InstallErrorView<E> {
    Outside(E),
    Refused(RefusalView),
    NoUrl { prefixed: E, plain: E },
}

impl<E> View for InstallError<E> {
    type V = InstallErrorView<E>;

    open spec fn view(&self) -> InstallErrorView<E> {
        match *self {
            InstallError::Outside(err) => InstallErrorView::Outside(err),
            InstallError::Refused(refusal) => InstallErrorView::Refused(refusal@),
            InstallError::NoUrl { prefixed, plain } => InstallErrorView::NoUrl { prefixed, plain },
        }
    }
}

/// A version that is being installed on a platform.
pub struct Installation {
    pub tv: ToolVersion,
    pub platform_key: String,
}

/// A version that is being installed on a platform.
pub struct InstallationView {
    pub tv: ToolVersionView,
    pub platform_key: Seq<char>,
}

impl View for Installation {
    type V = InstallationView;

    open spec fn view(&self) -> InstallationView {
        InstallationView { tv: self.tv@, platform_key: self.platform_key@ }
    }
}

/// What is known of the name with a `v`.
pub enum PrefixedUrl<E> {
    /// There is no such name.
    NoName,
    /// Its asset would have this address.
    Unchecked { url: String, v: String },
    /// It has no asset.
    Failed(E),
}

/// What is known of the name with a `v`.
pub enum PrefixedUrlView<E> {
    NoName,
    Unchecked { url: Seq<char>, v: Seq<char> },
    Failed(E),
}

impl<E> View for PrefixedUrl<E> {
    type V = PrefixedUrlView<E>;

    open spec fn view(&self) -> PrefixedUrlView<E> {
        match *self {
            PrefixedUrl::NoName => PrefixedUrlView::NoName,
            PrefixedUrl::Unchecked { url, v } => PrefixedUrlView::Unchecked { url: url@, v: v@ },
            PrefixedUrl::Failed(err) => PrefixedUrlView::Failed(err),
        }
    }
}

/// The versions of the tool are being listed.
pub struct AwaitVersionTags {
    pub job: Installation,
}

/// The registry is being asked for the package.
pub struct AwaitPackage {
    pub job: Installation,
    pub candidates: Candidates,
}

/// The address for the name with a `v` is being looked up.
pub struct AwaitPrefixedUrl {
    pub job: Installation,
    pub plain: String,
    pub prefixed: String,
}

/// The address for the plain name is being looked up.
pub struct AwaitPlainUrl<E> {
    pub job: Installation,
    pub plain: String,
    pub before: PrefixedUrl<E>,
}

/// Whether the asset of the name with a `v` is there is being looked up.
pub struct AwaitHead {
    pub job: Installation,
    pub plain: String,
    pub plain_url: String,
    pub prefixed: String,
    pub prefixed_url: String,
}

/// The asset is being downloaded.
pub struct AwaitDownload {
    pub job: Installation,
    pub url: String,
    pub v: String,
    pub filename: String,
    /// Whether the lockfile held the address.
    pub locked: bool,
}

/// The asset is being verified.
pub struct AwaitVerify {
    pub v: String,
    pub filename: String,
}

/// The asset is being unpacked.
pub struct AwaitInstall {
    pub tv: ToolVersion,
}

/// What is to be done next.
pub enum InstallStep<E> {
    /// List the versions of the tool, each with its tag.
    VersionTags { next: AwaitVersionTags },
    /// Ask the registry for the package of the first of these versions that it knows.
    Package { versions: Vec<String>, next: AwaitPackage },
    /// Look up the address of the asset for the name with a `v`.
    PrefixedUrl { next: AwaitPrefixedUrl },
    /// Look up the address of the asset for the plain name.
    PlainUrl { next: AwaitPlainUrl<E> },
    /// Look whether there is something at the address for the name with a `v`.
    Head { next: AwaitHead },
    /// Download the asset.
    Download { next: AwaitDownload },
    /// Verify the asset.
    Verify { tv: ToolVersion, next: AwaitVerify },
    /// Unpack the asset.
    Install { v: String, filename: String, next: AwaitInstall },
    /// The installation has come to its end.
    Finished(Result<ToolVersion, InstallError<E>>),
}

/// What is to be done next.
pub enum InstallStepView<E> {
    VersionTags { job: InstallationView },
    Package { versions: Seq<Seq<char>>, job: InstallationView, candidates: CandidatesView },
    PrefixedUrl { job: InstallationView, plain: Seq<char>, prefixed: Seq<char> },
    PlainUrl { job: InstallationView, plain: Seq<char>, before: PrefixedUrlView<E> },
    Head {
        job: InstallationView,
        plain: Seq<char>,
        plain_url: Seq<char>,
        prefixed: Seq<char>,
        prefixed_url: Seq<char>,
    },
    Download {
        job: InstallationView,
        url: Seq<char>,
        v: Seq<char>,
        filename: Seq<char>,
        locked: bool,
    },
    Verify { tv: ToolVersionView, v: Seq<char>, filename: Seq<char> },
    Install { tv: ToolVersionView, v: Seq<char>, filename: Seq<char> },
    Finished(Result<ToolVersionView, InstallErrorView<E>>),
}

impl<E> View for InstallStep<E> {
    type V = InstallStepView<E>;

    open spec fn view(&self) -> InstallStepView<E> {
        match *self {
            InstallStep::VersionTags { next } => InstallStepView::VersionTags { job: next.job@ },
            InstallStep::Package { versions, next } => InstallStepView::Package {
                versions: text::texts(versions@),
                job: next.job@,
                candidates: next.candidates@,
            },
            InstallStep::PrefixedUrl { next } => InstallStepView::PrefixedUrl {
                job: next.job@,
                plain: next.plain@,
                prefixed: next.prefixed@,
            },
            InstallStep::PlainUrl { next } => InstallStepView::PlainUrl {
                job: next.job@,
                plain: next.plain@,
                before: next.before@,
            },
            InstallStep::Head { next } => InstallStepView::Head {
                job: next.job@,
                plain: next.plain@,
                plain_url: next.plain_url@,
                prefixed: next.prefixed@,
                prefixed_url: next.prefixed_url@,
            },
            InstallStep::Download { next } => InstallStepView::Download {
                job: next.job@,
                url: next.url@,
                v: next.v@,
                filename: next.filename@,
                locked: next.locked,
            },
            InstallStep::Verify { tv, next } => InstallStepView::Verify {
                tv: tv@,
                v: next.v@,
                filename: next.filename@,
            },
            InstallStep::Install { v, filename, next } => InstallStepView::Install {
                tv: next.tv@,
                v: v@,
                filename: filename@,
            },
            InstallStep::Finished(Ok(tv)) => InstallStepView::Finished(Ok(tv@)),
            InstallStep::Finished(Err(err)) => InstallStepView::Finished(Err(err@)),
        }
    }
}

/// The end of an installation in which something outside failed.
pub open spec fn failed<E>(err: E) -> InstallStepView<E> {
    InstallStepView::Finished(Err(InstallErrorView::Outside(err)))
}

/// An installation begins with the list of the tool's versions.
pub open spec fn first_step<E>(job: InstallationView) -> InstallStepView<E> {
    InstallStepView::VersionTags { job }
}

/// The registry is asked for the package under the names that the version may go by.
pub open spec fn after_version_tags<E>(
    job: InstallationView,
    reply: Result<Seq<(Seq<char>, Seq<char>)>, E>,
) -> InstallStepView<E> {
    match reply {
        Err(err) => failed(err),
        Ok(pairs) => {
            let candidates = candidates_of(pairs, job.tv.version);
            InstallStepView::Package { versions: asked_versions(candidates), job, candidates }
        },
    }
}

/// The address of the asset that the lockfile holds for the platform.
pub open spec fn locked_url(job: InstallationView) -> Option<Seq<char>> {
    lock::info_of(job.tv.lock_platforms, job.platform_key).url
}

/// The name of the file at an address.
pub open spec fn filename_of(url: Seq<char>) -> Seq<char> {
    text::tail_after_last(url, '/')
}

/// The name that a version goes by at an address that the lockfile holds: with a `v`, where the
/// address shows it so.
pub open spec fn locked_version(url: Seq<char>, version: Seq<char>) -> Seq<char> {
    let prefixed = "v"@ + version;
    if text::has_part(url, prefixed) || text::has_part(filename_of(url), prefixed) {
        prefixed
    } else {
        version
    }
}

/// The asset at an address is downloaded.
pub open spec fn found<E>(
    job: InstallationView,
    url: Seq<char>,
    v: Seq<char>,
    locked: bool,
) -> InstallStepView<E> {
    InstallStepView::Download { job, url, v, filename: filename_of(url), locked }
}

/// A package that can be installed is taken from the address that the lockfile holds; without one,
/// the name with a `v` is tried before the plain one.
pub open spec fn after_package<E>(
    job: InstallationView,
    candidates: CandidatesView,
    reply: Result<AquaPackage, E>,
    target: Target,
) -> InstallStepView<E> {
    match reply {
        Err(err) => failed(err),
        Ok(pkg) => {
            let named = with_prefix(candidates, text::opt_text(pkg.version_prefix));
            match package::refusal_of(pkg, target) {
                Some(refusal) => InstallStepView::Finished(Err(InstallErrorView::Refused(refusal))),
                None => match locked_url(job) {
                    Some(url) => found(job, url, locked_version(url, job.tv.version), true),
                    None => match named.prefixed {
                        Some(prefixed) => InstallStepView::PrefixedUrl {
                            job,
                            plain: named.plain,
                            prefixed,
                        },
                        None => InstallStepView::PlainUrl {
                            job,
                            plain: named.plain,
                            before: PrefixedUrlView::NoName,
                        },
                    },
                },
            }
        },
    }
}

/// An address that is known to lead to the asset is taken; else the plain name is tried too.
pub open spec fn after_prefixed_url<E>(
    job: InstallationView,
    plain: Seq<char>,
    prefixed: Seq<char>,
    reply: Result<(Seq<char>, bool), E>,
) -> InstallStepView<E> {
    match reply {
        Ok((url, true)) => found(job, url, prefixed, false),
        Ok((url, false)) => InstallStepView::PlainUrl {
            job,
            plain,
            before: PrefixedUrlView::Unchecked { url, v: prefixed },
        },
        Err(err) => InstallStepView::PlainUrl { job, plain, before: PrefixedUrlView::Failed(err) },
    }
}

/// Two names with one address go by the one with a `v`; of two addresses, the one for the name with
/// a `v` is looked at first.
pub open spec fn after_plain_url<E>(
    job: InstallationView,
    plain: Seq<char>,
    before: PrefixedUrlView<E>,
    reply: Result<(Seq<char>, bool), E>,
) -> InstallStepView<E> {
    match (before, reply) {
        (PrefixedUrlView::NoName, Ok((url, _))) => found(job, url, plain, false),
        (PrefixedUrlView::NoName, Err(err)) => failed(err),
        (PrefixedUrlView::Unchecked { url: prefixed_url, v }, Ok((url, _))) => if url
            == prefixed_url {
            found(job, url, v, false)
        } else {
            InstallStepView::Head { job, plain, plain_url: url, prefixed: v, prefixed_url }
        },
        (PrefixedUrlView::Unchecked { url, v }, Err(err)) => failed(err),
        (PrefixedUrlView::Failed(first), Ok((url, _))) => found(job, url, plain, false),
        (PrefixedUrlView::Failed(first), Err(err)) => InstallStepView::Finished(
            Err(InstallErrorView::NoUrl { prefixed: first, plain: err }),
        ),
    }
}

/// The name with a `v` is taken where there is something at its address, and else the plain one.
pub open spec fn after_head<E>(
    job: InstallationView,
    plain: Seq<char>,
    plain_url: Seq<char>,
    prefixed: Seq<char>,
    prefixed_url: Seq<char>,
    there: bool,
) -> InstallStepView<E> {
    if there {
        found(job, prefixed_url, prefixed, false)
    } else {
        found(job, plain_url, plain, false)
    }
}

/// The version with the address of its asset in the lockfile.
pub open spec fn with_recorded_url(
    job: InstallationView,
    url: Seq<char>,
    locked: bool,
) -> ToolVersionView {
    if locked {
        job.tv
    } else {
        ToolVersionView {
            lock_platforms: lock::with_url(job.tv.lock_platforms, job.platform_key, url),
            ..job.tv
        }
    }
}

/// The address of a downloaded asset is recorded in the lockfile, and the asset is verified.
pub open spec fn after_download<E>(
    job: InstallationView,
    url: Seq<char>,
    v: Seq<char>,
    filename: Seq<char>,
    locked: bool,
    reply: Result<(), E>,
) -> InstallStepView<E> {
    match reply {
        Err(err) => failed(err),
        Ok(_) => InstallStepView::Verify { tv: with_recorded_url(job, url, locked), v, filename },
    }
}

/// A verified asset is unpacked.
pub open spec fn after_verify<E>(
    v: Seq<char>,
    filename: Seq<char>,
    reply: Result<ToolVersionView, E>,
) -> InstallStepView<E> {
    match reply {
        Err(err) => failed(err),
        Ok(tv) => InstallStepView::Install { tv, v, filename },
    }
}

/// Unpacking the asset ends the installation.
pub open spec fn after_install<E>(tv: ToolVersionView, reply: Result<(), E>) -> InstallStepView<E> {
    match reply {
        Err(err) => failed(err),
        Ok(_) => InstallStepView::Finished(Ok(tv)),
    }
}

/// An answer that is a list of versions with their tags, or a failure.
pub open spec fn pairs_reply<E>(reply: Result<&Vec<(String, String)>, E>) -> Result<
    Seq<(Seq<char>, Seq<char>)>,
    E,
> {
    match reply {
        Ok(pairs) => Ok(text::pairs(pairs@)),
        Err(err) => Err(err),
    }
}

/// An answer that is an address, with whether it is known to lead to the asset, or a failure.
pub open spec fn url_reply<E>(reply: Result<(String, bool), E>) -> Result<(Seq<char>, bool), E> {
    match reply {
        Ok((url, checked)) => Ok((url@, checked)),
        Err(err) => Err(err),
    }
}

/// Begins the installation of a version.
pub fn install_version<E>(tv: ToolVersion, platform_key: String) -> (step: InstallStep<E>)
    ensures
        step@ == first_step::<E>(InstallationView { tv: tv@, platform_key: platform_key@ }),
{
    InstallStep::VersionTags { next: AwaitVersionTags { job: Installation { tv, platform_key } } }
}

impl Installation {
    /// Downloads the asset at an address.
    fn found<E>(self, url: String, v: String, locked: bool) -> (step: InstallStep<E>)
        ensures
            step@ == found::<E>(self@, url@, v@, locked),
    {
        let filename = text::after_last(url.as_str(), '/').to_owned();
        InstallStep::Download { next: AwaitDownload { job: self, url, v, filename, locked } }
    }
}

impl AwaitVersionTags {
    /// Goes on with the versions of the tool, each with its tag.
    pub fn resume<E>(self, reply: Result<&Vec<(String, String)>, E>) -> (step: InstallStep<E>)
        ensures
            step@ == after_version_tags(self.job@, pairs_reply(reply)),
    {
        match reply {
            Err(err) => InstallStep::Finished(Err(InstallError::Outside(err))),
            Ok(version_tags) => {
                let candidates = Candidates::resolve(version_tags, self.job.tv.version.as_str());
                let versions = candidates.versions();
                InstallStep::Package { versions, next: AwaitPackage { job: self.job, candidates } }
            },
        }
    }
}

impl AwaitPackage {
    /// Goes on with the package.
    pub fn resume<E>(self, reply: Result<&AquaPackage, E>, target: &Target) -> (step: InstallStep<E>)
        ensures
            step@ == after_package(self.job@, self.candidates@, package::package_reply(reply), *target),
    {
        let pkg = match reply {
            Err(err) => {
                return InstallStep::Finished(Err(InstallError::Outside(err)));
            },
            Ok(pkg) => pkg,
        };
        let named = self.candidates.prefix(&pkg.version_prefix);
        if let Err(refusal) = package::validate(pkg, target) {
            return InstallStep::Finished(Err(InstallError::Refused(refusal)));
        }
        let job = self.job;
        if let Some(url) = job.tv.lock_platforms.info(job.platform_key.as_str()).url {
            let prefixed = "v".to_owned().concat(job.tv.version.as_str());
            let filename = text::after_last(url.as_str(), '/');
            let v = if text::contains(url.as_str(), prefixed.as_str()) || text::contains(
                filename,
                prefixed.as_str(),
            ) {
                prefixed
            } else {
                job.tv.version.clone()
            };
            return job.found(url, v, true);
        }
        match named.prefixed {
            Some(prefixed) => {
                let next = AwaitPrefixedUrl { job, plain: named.plain, prefixed };
                InstallStep::PrefixedUrl { next }
            },
            None => {
                let next = AwaitPlainUrl { job, plain: named.plain, before: PrefixedUrl::NoName };
                InstallStep::PlainUrl { next }
            },
        }
    }
}

impl AwaitPrefixedUrl {
    /// Goes on with the address for the name with a `v`.
    pub fn resume<E>(self, reply: Result<(String, bool), E>) -> (step: InstallStep<E>)
        ensures
            step@ == after_prefixed_url(self.job@, self.plain@, self.prefixed@, url_reply(reply)),
    {
        match reply {
            Ok((url, checked)) => {
                if checked {
                    return self.job.found(url, self.prefixed, false);
                }
                let before = PrefixedUrl::Unchecked { url, v: self.prefixed };
                let next = AwaitPlainUrl { job: self.job, plain: self.plain, before };
                InstallStep::PlainUrl { next }
            },
            Err(err) => {
                let before = PrefixedUrl::Failed(err);
                let next = AwaitPlainUrl { job: self.job, plain: self.plain, before };
                InstallStep::PlainUrl { next }
            },
        }
    }
}

impl<E> AwaitPlainUrl<E> {
    /// Goes on with the address for the plain name.
    pub fn resume(self, reply: Result<(String, bool), E>) -> (step: InstallStep<E>)
        ensures
            step@ == after_plain_url(self.job@, self.plain@, self.before@, url_reply(reply)),
    {
        match (self.before, reply) {
            (PrefixedUrl::NoName, Ok((url, _))) => self.job.found(url, self.plain, false),
            (PrefixedUrl::NoName, Err(err)) => InstallStep::Finished(Err(InstallError::Outside(err))),
            (PrefixedUrl::Unchecked { url: prefixed_url, v }, Ok((url, _))) => {
                if url == prefixed_url {
                    return self.job.found(url, v, false);
                }
                let next = AwaitHead {
                    job: self.job,
                    plain: self.plain,
                    plain_url: url,
                    prefixed: v,
                    prefixed_url,
                };
                InstallStep::Head { next }
            },
            (PrefixedUrl::Unchecked { .. }, Err(err)) => InstallStep::Finished(
                Err(InstallError::Outside(err)),
            ),
            (PrefixedUrl::Failed(_), Ok((url, _))) => self.job.found(url, self.plain, false),
            (PrefixedUrl::Failed(first), Err(err)) => InstallStep::Finished(
                Err(InstallError::NoUrl { prefixed: first, plain: err }),
            ),
        }
    }
}

impl AwaitHead {
    /// Goes on with whether there is something at the address for the name with a `v`.
    pub fn resume<E>(self, there: bool) -> (step: InstallStep<E>)
        ensures
            step@ == after_head::<E>(
                self.job@,
                self.plain@,
                self.plain_url@,
                self.prefixed@,
                self.prefixed_url@,
                there,
            ),
    {
        if there {
            self.job.found(self.prefixed_url, self.prefixed, false)
        } else {
            self.job.found(self.plain_url, self.plain, false)
        }
    }
}

impl AwaitDownload {
    /// Goes on when the asset has been downloaded, or could not be.
    pub fn resume<E>(self, reply: Result<(), E>) -> (step: InstallStep<E>)
        ensures
            step@ == after_download(
                self.job@,
                self.url@,
                self.v@,
                self.filename@,
                self.locked,
                reply,
            ),
    {
        if let Err(err) = reply {
            return InstallStep::Finished(Err(InstallError::Outside(err)));
        }
        let next = AwaitVerify { v: self.v, filename: self.filename };
        let Installation { tv, platform_key } = self.job;
        if self.locked {
            return InstallStep::Verify { tv, next };
        }
        let ToolVersion { version, lock_platforms, install_path, download_path, cache_path } = tv;
        let lock_platforms = lock_platforms.set_url(platform_key.as_str(), self.url);
        let tv = ToolVersion { version, lock_platforms, install_path, download_path, cache_path };
        InstallStep::Verify { tv, next }
    }
}

impl AwaitVerify {
    /// Goes on with what the verification has made of the version, or with its failure.
    pub fn resume<E>(self, reply: Result<ToolVersion, E>) -> (step: InstallStep<E>)
        ensures
            step@ == after_verify(self.v@, self.filename@, lock::version_reply(reply)),
    {
        match reply {
            Err(err) => InstallStep::Finished(Err(InstallError::Outside(err))),
            Ok(tv) => InstallStep::Install {
                v: self.v,
                filename: self.filename,
                next: AwaitInstall { tv },
            },
        }
    }
}

impl AwaitInstall {
    /// Goes on when the asset has been unpacked, or could not be.
    pub fn resume<E>(self, reply: Result<(), E>) -> (step: InstallStep<E>)
        ensures
            step@ == after_install(self.tv@, reply),
    {
        match reply {
            Err(err) => InstallStep::Finished(Err(InstallError::Outside(err))),
            Ok(_) => InstallStep::Finished(Ok(self.tv)),
        }
    }
}

/// A version that is listed with a tag goes by a tag that is listed for it, and no `v` is guessed.
pub proof fn law_listed_version_has_its_tag(
    pairs: Seq<(Seq<char>, Seq<char>)>,
    version: Seq<char>,
    tag: Seq<char>,
)
    requires
        pairs.contains((version, tag)),
    ensures
        candidates_of(pairs, version).prefixed is None,
        pairs.contains((version, candidates_of(pairs, version).plain)),
    decreases pairs.len(),
{
    let rest = pairs.skip(1);
    if pairs[0].0 == version {
        assert(pairs[0] == (version, pairs[0].1));
    } else {
        let i = choose|i: int| 0 <= i < pairs.len() && pairs[i] == (version, tag);
        assert(rest[i - 1] == (version, tag));
        law_listed_version_has_its_tag(rest, version, tag);
        let plain = candidates_of(rest, version).plain;
        let j = choose|j: int| 0 <= j < rest.len() && rest[j] == (version, plain);
        assert(pairs[j + 1] == (version, plain));
        assert(tag_of(rest, version) is Some) by {
            if tag_of(rest, version) is None {
                lemma_no_tag(rest, version, tag);
            }
        }
    }
}

proof fn lemma_no_tag(pairs: Seq<(Seq<char>, Seq<char>)>, version: Seq<char>, tag: Seq<char>)
    requires
        tag_of(pairs, version) is None,
    ensures
        !pairs.contains((version, tag)),
    decreases pairs.len(),
{
    if pairs.len() > 0 {
        lemma_no_tag(pairs.skip(1), version, tag);
        assert forall|i: int| 0 <= i < pairs.len() implies pairs[i] != (version, tag) by {
            if i > 0 {
                assert(pairs.skip(1)[i - 1] == pairs[i]);
            }
        }
    }
}

proof fn lemma_offered_is_listed<F>(
    pairs: Seq<(Seq<char>, Seq<char>)>,
    lookups: Seq<Result<AquaPackage, F>>,
    version: Seq<char>,
) -> (tag: Seq<char>)
    requires
        versions::offered(pairs, lookups).contains(version),
    ensures
        pairs.contains((version, tag)),
    decreases pairs.len(),
{
    let all = versions::offered(pairs, lookups);
    let rest = pairs.drop_last();
    let before = versions::offered(rest, lookups);
    let i = choose|i: int| 0 <= i < all.len() && all[i] == version;
    if i < before.len() {
        assert(before[i] == version);
        let tag = lemma_offered_is_listed(rest, lookups, version);
        let k = choose|k: int| 0 <= k < rest.len() && rest[k] == (version, tag);
        assert(pairs[k] == (version, tag));
        tag
    } else {
        assert(pairs[pairs.len() - 1] == (version, pairs.last().1));
        pairs.last().1
    }
}

/// A version that is offered goes, when it is installed, by a tag of the repository that is accepted
/// and stands for that version.
pub proof fn law_offered_version_has_its_tag<E, F>(
    reports: Seq<TagReport<E>>,
    lookups: Seq<Result<AquaPackage, F>>,
    version: Seq<char>,
)
    requires
        versions::offered(versions::listed_pairs(reports), lookups).contains(version),
    ensures
        candidates_of(versions::listed_pairs(reports), version).prefixed is None,
        exists|i: int|
            0 <= i < reports.len() && (#[trigger] reports[i]).tag == candidates_of(
                versions::listed_pairs(reports),
                version,
            ).plain && (reports[i].accepted matches Ok(true)) && versions::tag_version(
                reports[i].tag,
                reports[i].version_prefix,
            ) == Some(version),
{
    let pairs = versions::listed_pairs(reports);
    let tag = lemma_offered_is_listed(pairs, lookups, version);
    law_listed_version_has_its_tag(pairs, version, tag);
    versions::law_listed_versions(reports, version, candidates_of(pairs, version).plain);
}

/// Once the prefix of a package has been put before a version, putting it there again changes
/// nothing.
pub proof fn law_prefix_is_put_once(candidates: CandidatesView, prefix: Option<Seq<char>>)
    ensures
        with_prefix(with_prefix(candidates, prefix), prefix) == with_prefix(candidates, prefix),
        prefix matches Some(p) ==> p.is_prefix_of(with_prefix(candidates, prefix).plain),
{
    if let Some(p) = prefix {
        if !p.is_prefix_of(candidates.plain) {
            assert((p + candidates.plain).subrange(0, p.len() as int) == p);
        }
    }
}

/// What comes back from outside in the course of an installation.
pub struct Replies<E> {
    pub version_tags: Result<Seq<(Seq<char>, Seq<char>)>, E>,
    pub package: Result<AquaPackage, E>,
    pub prefixed_url: Result<(Seq<char>, bool), E>,
    pub plain_url: Result<(Seq<char>, bool), E>,
    pub head: bool,
    pub download: Result<(), E>,
    pub verify: Result<ToolVersionView, E>,
    pub install: Result<(), E>,
}

/// The step that follows when the present one is answered.
pub open spec fn answered<E>(
    step: InstallStepView<E>,
    replies: Replies<E>,
    target: Target,
) -> InstallStepView<E> {
    match step {
        InstallStepView::VersionTags { job } => after_version_tags(job, replies.version_tags),
        InstallStepView::Package { versions, job, candidates } => after_package(
            job,
            candidates,
            replies.package,
            target,
        ),
        InstallStepView::PrefixedUrl { job, plain, prefixed } => after_prefixed_url(
            job,
            plain,
            prefixed,
            replies.prefixed_url,
        ),
        InstallStepView::PlainUrl { job, plain, before } => after_plain_url(
            job,
            plain,
            before,
            replies.plain_url,
        ),
        InstallStepView::Head { job, plain, plain_url, prefixed, prefixed_url } => after_head(
            job,
            plain,
            plain_url,
            prefixed,
            prefixed_url,
            replies.head,
        ),
        InstallStepView::Download { job, url, v, filename, locked } => after_download(
            job,
            url,
            v,
            filename,
            locked,
            replies.download,
        ),
        InstallStepView::Verify { tv, v, filename } => after_verify(v, filename, replies.verify),
        InstallStepView::Install { tv, v, filename } => after_install(tv, replies.install),
        InstallStepView::Finished(outcome) => step,
    }
}

/// The step that an installation has come to when `n` steps have been answered.
pub open spec fn run<E>(
    job: InstallationView,
    target: Target,
    replies: Replies<E>,
    n: nat,
) -> InstallStepView<E>
    decreases n,
{
    if n == 0 {
        first_step(job)
    } else {
        answered(run(job, target, replies, (n - 1) as nat), replies, target)
    }
}

/// Which address is downloaded, and under which name the version goes there, where the lockfile
/// holds no address. The name with a `v` is taken where its asset is known to be there, or has the
/// address of the plain name, or is found to be there; failing that, the plain name is.
pub open spec fn choice<E>(candidates: CandidatesView, replies: Replies<E>) -> Result<
    (Seq<char>, Seq<char>),
    InstallErrorView<E>,
> {
    match candidates.prefixed {
        None => match replies.plain_url {
            Ok((url, _)) => Ok((url, candidates.plain)),
            Err(err) => Err(InstallErrorView::Outside(err)),
        },
        Some(prefixed) => match replies.prefixed_url {
            Ok((url, true)) => Ok((url, prefixed)),
            Ok((url, false)) => match replies.plain_url {
                Ok((plain_url, _)) => if url == plain_url || replies.head {
                    Ok((url, prefixed))
                } else {
                    Ok((plain_url, candidates.plain))
                },
                Err(err) => Err(InstallErrorView::Outside(err)),
            },
            Err(first) => match replies.plain_url {
                Ok((plain_url, _)) => Ok((plain_url, candidates.plain)),
                Err(err) => Err(InstallErrorView::NoUrl { prefixed: first, plain: err }),
            },
        },
    }
}

/// The names that a version may go by in its repository, once the package is known.
pub open spec fn named<E>(job: InstallationView, replies: Replies<E>) -> CandidatesView {
    with_prefix(
        candidates_of(replies.version_tags->Ok_0, job.tv.version),
        text::opt_text(replies.package->Ok_0.version_prefix),
    )
}

/// Which address is downloaded, and under which name the version goes there.
pub open spec fn target_of<E>(job: InstallationView, replies: Replies<E>) -> Result<
    (Seq<char>, Seq<char>),
    InstallErrorView<E>,
> {
    match locked_url(job) {
        Some(url) => Ok((url, locked_version(url, job.tv.version))),
        None => choice(named(job, replies), replies),
    }
}

/// Whether the package was found and can be installed.
pub open spec fn accepted<E>(target: Target, replies: Replies<E>) -> bool {
    replies.version_tags is Ok && replies.package is Ok && package::refusal_of(
        replies.package->Ok_0,
        target,
    ) is None
}

/// What is known of a run after each number of answers.
spec fn on_course<E>(
    job: InstallationView,
    target: Target,
    replies: Replies<E>,
    step: InstallStepView<E>,
) -> bool {
    let named = named(job, replies);
    match step {
        InstallStepView::VersionTags { job: j } => j == job,
        InstallStepView::Package { versions, job: j, candidates } => {
            j == job && replies.version_tags is Ok && candidates == candidates_of(
                replies.version_tags->Ok_0,
                job.tv.version,
            )
        },
        InstallStepView::PrefixedUrl { job: j, plain, prefixed } => {
            j == job && accepted(target, replies) && locked_url(job) is None && plain == named.plain
                && Some(prefixed) == named.prefixed
        },
        InstallStepView::PlainUrl { job: j, plain, before } => {
            &&& j == job
            &&& accepted(target, replies)
            &&& locked_url(job) is None
            &&& plain == named.plain
            &&& match before {
                PrefixedUrlView::NoName => named.prefixed is None,
                PrefixedUrlView::Unchecked { url, v } => named.prefixed == Some(v)
                    && replies.prefixed_url == Ok::<(Seq<char>, bool), E>((url, false)),
                PrefixedUrlView::Failed(err) => named.prefixed is Some && replies.prefixed_url
                    == Err::<(Seq<char>, bool), E>(err),
            }
        },
        InstallStepView::Head { job: j, plain, plain_url, prefixed, prefixed_url } => {
            &&& j == job
            &&& accepted(target, replies)
            &&& locked_url(job) is None
            &&& plain == named.plain
            &&& named.prefixed == Some(prefixed)
            &&& replies.prefixed_url == Ok::<(Seq<char>, bool), E>((prefixed_url, false))
            &&& replies.plain_url matches Ok((url, _)) && url == plain_url
            &&& prefixed_url != plain_url
        },
        InstallStepView::Download { job: j, url, v, filename, locked } => {
            &&& j == job
            &&& accepted(target, replies)
            &&& target_of(job, replies) == Ok::<(Seq<char>, Seq<char>), InstallErrorView<E>>(
                (url, v),
            )
            &&& filename == filename_of(url)
            &&& locked == (locked_url(job) is Some)
        },
        InstallStepView::Verify { tv, v, filename } => {
            &&& accepted(target, replies)
            &&& replies.download is Ok
            &&& target_of(job, replies) matches Ok((url, name)) && name == v && filename
                == filename_of(url) && tv == with_recorded_url(job, url, locked_url(job) is Some)
        },
        InstallStepView::Install { tv, v, filename } => {
            &&& accepted(target, replies)
            &&& replies.download is Ok
            &&& replies.verify == Ok::<ToolVersionView, E>(tv)
            &&& target_of(job, replies) matches Ok((url, name)) && name == v && filename
                == filename_of(url)
        },
        InstallStepView::Finished(Ok(tv)) => {
            &&& accepted(target, replies)
            &&& target_of(job, replies) is Ok
            &&& replies.download is Ok
            &&& replies.verify == Ok::<ToolVersionView, E>(tv)
            &&& replies.install is Ok
        },
        InstallStepView::Finished(Err(err)) => true,
    }
}

proof fn lemma_on_course<E>(job: InstallationView, target: Target, replies: Replies<E>, n: nat)
    ensures
        on_course(job, target, replies, run(job, target, replies, n)),
    decreases n,
{
    if n > 0 {
        lemma_on_course(job, target, replies, (n - 1) as nat);
    }
}

/// The version that is handed to the verification, with the address of its asset in the lockfile.
pub open spec fn handed<E>(job: InstallationView, replies: Replies<E>) -> ToolVersionView {
    with_recorded_url(job, target_of(job, replies)->Ok_0.0, locked_url(job) is Some)
}

/// Whether the verification hands back the version that it was handed.
pub open spec fn keeps_version<E>(job: InstallationView, replies: Replies<E>) -> bool {
    replies.verify matches Ok(tv) ==> tv.version == handed(job, replies).version
}

/// Whether the verification leaves the address that the lockfile holds for the platform as it was
/// handed it.
pub open spec fn keeps_address<E>(job: InstallationView, replies: Replies<E>) -> bool {
    replies.verify matches Ok(tv) ==> lock::info_of(tv.lock_platforms, job.platform_key).url
        == lock::info_of(handed(job, replies).lock_platforms, job.platform_key).url
}

/// Whatever comes back from outside: a version is installed only when its package was found and can
/// be installed, its asset was downloaded, the asset passed the verification, and it was unpacked.
/// What is returned is what the verification has made of the version; it is the version that was
/// asked for, where the verification hands that back.
pub proof fn law_only_verified_assets_are_installed<E>(
    job: InstallationView,
    target: Target,
    replies: Replies<E>,
    n: nat,
    r: ToolVersionView,
)
    requires
        run(job, target, replies, n) == InstallStepView::<E>::Finished(Ok(r)),
    ensures
        accepted(target, replies),
        target_of(job, replies) is Ok,
        replies.download is Ok,
        replies.verify == Ok::<ToolVersionView, E>(r),
        replies.install is Ok,
        keeps_version(job, replies) ==> r.version == job.tv.version,
{
    lemma_on_course(job, target, replies, n);
}

/// Whatever comes back from outside: an asset is unpacked only when it was downloaded and passed the
/// verification, and it is unpacked under the name and the version that it was verified under.
pub proof fn law_unpacked_asset<E>(
    job: InstallationView,
    target: Target,
    replies: Replies<E>,
    n: nat,
    tv: ToolVersionView,
    v: Seq<char>,
    filename: Seq<char>,
)
    requires
        run(job, target, replies, n) == (InstallStepView::<E>::Install { tv, v, filename }),
    ensures
        accepted(target, replies),
        replies.download is Ok,
        replies.verify == Ok::<ToolVersionView, E>(tv),
        n > 0,
        run(job, target, replies, (n - 1) as nat) == (InstallStepView::<E>::Verify {
            tv: handed(job, replies),
            v,
            filename,
        }),
{
    lemma_on_course(job, target, replies, n);
    lemma_on_course(job, target, replies, (n - 1) as nat);
}

/// Where the package can be installed and its asset has an address, a download or a verification that
/// fails ends the installation with its failure, and nothing is unpacked.
pub proof fn law_failed_asset<E>(
    job: InstallationView,
    target: Target,
    replies: Replies<E>,
    n: nat,
    err: E,
)
    requires
        accepted(target, replies),
        target_of(job, replies) is Ok,
        replies.download == Err::<(), E>(err) || replies.download is Ok && replies.verify == Err::<
            ToolVersionView,
            E,
        >(err),
    ensures
        !(run(job, target, replies, n) is Install),
        run(job, target, replies, 8) == failed::<E>(err),
{
    lemma_on_course(job, target, replies, n);
    reveal_with_fuel(run, 9);
}

/// A package that cannot be installed is refused, with its reason, before anything else is asked
/// for.
pub proof fn law_refused_package<E>(
    job: InstallationView,
    target: Target,
    replies: Replies<E>,
    refusal: RefusalView,
)
    requires
        replies.version_tags is Ok,
        replies.package matches Ok(pkg) && package::refusal_of(pkg, target) == Some(refusal),
    ensures
        run(job, target, replies, 2) == InstallStepView::<E>::Finished(
            Err(InstallErrorView::Refused(refusal)),
        ),
{
    reveal_with_fuel(run, 3);
}

/// Where the lockfile holds an address, that address is downloaded, and none is looked up.
pub proof fn law_locked_address<E>(
    job: InstallationView,
    target: Target,
    replies: Replies<E>,
    url: Seq<char>,
)
    requires
        accepted(target, replies),
        locked_url(job) == Some(url),
    ensures
        run(job, target, replies, 2) == found::<E>(
            job,
            url,
            locked_version(url, job.tv.version),
            true,
        ),
{
    reveal_with_fuel(run, 3);
}

/// Whatever comes back from outside: what is downloaded is the address, under the name of the
/// version, that the lockfile or the answers about the version's names give.
pub proof fn law_downloaded_address<E>(
    job: InstallationView,
    target: Target,
    replies: Replies<E>,
    n: nat,
    url: Seq<char>,
    v: Seq<char>,
    filename: Seq<char>,
    locked: bool,
)
    requires
        run(job, target, replies, n) == (InstallStepView::<E>::Download {
            job,
            url,
            v,
            filename,
            locked,
        }),
    ensures
        accepted(target, replies),
        target_of(job, replies) == Ok::<(Seq<char>, Seq<char>), InstallErrorView<E>>((url, v)),
        filename == filename_of(url),
        locked == (locked_url(job) is Some),
{
    lemma_on_course(job, target, replies, n);
}

/// Whatever comes back from outside: when the asset is verified, the lockfile holds for the platform
/// the address that was downloaded and the checksum that it held before, and for every other
/// platform what it held before; nothing else of the version has changed.
pub proof fn law_recorded_address<E>(
    job: InstallationView,
    target: Target,
    replies: Replies<E>,
    n: nat,
    tv: ToolVersionView,
    v: Seq<char>,
    filename: Seq<char>,
)
    requires
        run(job, target, replies, n) == (InstallStepView::<E>::Verify { tv, v, filename }),
    ensures
        replies.download is Ok,
        target_of(job, replies) matches Ok((url, name)) && name == v && filename == filename_of(url)
            && lock::info_of(tv.lock_platforms, job.platform_key).url == Some(url),
        lock::info_of(tv.lock_platforms, job.platform_key).checksum == lock::info_of(
            job.tv.lock_platforms,
            job.platform_key,
        ).checksum,
        tv.lock_platforms.remove(job.platform_key) == job.tv.lock_platforms.remove(
            job.platform_key,
        ),
        tv == (ToolVersionView { lock_platforms: tv.lock_platforms, ..job.tv }),
{
    lemma_on_course(job, target, replies, n);
    assert(tv.lock_platforms.remove(job.platform_key) =~= job.tv.lock_platforms.remove(
        job.platform_key,
    ));
}

/// Whatever else comes back from outside: where the verification leaves the address in the lockfile as
/// it was handed it, the lockfile of an installed version holds the address that was downloaded.
pub proof fn law_address_of_the_installed_version<E>(
    job: InstallationView,
    target: Target,
    replies: Replies<E>,
    n: nat,
    r: ToolVersionView,
)
    requires
        run(job, target, replies, n) == InstallStepView::<E>::Finished(Ok(r)),
        keeps_address(job, replies),
    ensures
        target_of(job, replies) matches Ok((url, _)) && lock::info_of(
            r.lock_platforms,
            job.platform_key,
        ).url == Some(url),
{
    lemma_on_course(job, target, replies, n);
}

/// A version that was installed is, when it is installed again, downloaded from the address that it
/// was downloaded from before: it is taken from the lockfile, and none is looked up. The lockfile then
/// holds that address again. The verifications are to leave the address in the lockfile as they are
/// handed it; nothing else is asked of what comes back from outside.
pub proof fn law_recorded_address_is_taken_again<E>(
    job: InstallationView,
    target: Target,
    replies: Replies<E>,
    n: nat,
    r: ToolVersionView,
    later: Replies<E>,
    url: Seq<char>,
)
    requires
        run(job, target, replies, n) == InstallStepView::<E>::Finished(Ok(r)),
        keeps_address(job, replies),
        target_of(job, replies) matches Ok((u, _)) && u == url,
        accepted(target, later),
    ensures
        ({
            let again = InstallationView { tv: r, platform_key: job.platform_key };
            &&& run(again, target, later, 1) is Package
            &&& run(again, target, later, 2) == found::<E>(
                again,
                url,
                locked_version(url, r.version),
                true,
            )
            &&& keeps_address(again, later) ==> forall|m: nat|
                (#[trigger] run(again, target, later, m)) matches InstallStepView::Finished(Ok(r2))
                    ==> lock::info_of(r2.lock_platforms, job.platform_key).url == Some(url)
        }),
{
    let again = InstallationView { tv: r, platform_key: job.platform_key };
    law_address_of_the_installed_version(job, target, replies, n, r);
    law_locked_address(again, target, later, url);
    reveal_with_fuel(run, 3);
    if keeps_address(again, later) {
        assert forall|m: nat|
            (#[trigger] run(again, target, later, m)) matches InstallStepView::Finished(Ok(r2))
                ==> lock::info_of(r2.lock_platforms, job.platform_key).url == Some(url) by {
            if let InstallStepView::Finished(Ok(r2)) = run(again, target, later, m) {
                law_address_of_the_installed_version(again, target, later, m, r2);
            }
        }
    }
}

/// The asset that is handed to the verification.
pub open spec fn verified<E>(job: InstallationView, replies: Replies<E>) -> VerificationView {
    let (url, v) = target_of(job, replies)->Ok_0;
    VerificationView {
        tv: handed(job, replies),
        v,
        filename: filename_of(url),
        platform_key: job.platform_key,
    }
}

/// Where the asset is verified as this crate does it, it is enough that the comparison with the
/// checksum hands back the version, and leaves the address in the lockfile, as it is handed them: what
/// is installed is the version that was asked for, and its lockfile holds the address that was
/// downloaded.
pub proof fn law_installed_version<E, F>(
    job: InstallationView,
    target: Target,
    replies: Replies<E>,
    n: nat,
    r: ToolVersionView,
    checks: verification::Replies<F>,
    m: nat,
)
    requires
        run(job, target, replies, n) == InstallStepView::<E>::Finished(Ok(r)),
        verification::run(
            verified(job, replies),
            replies.package->Ok_0.checksum,
            checks,
            m,
        ) == VerifyStepView::<F>::Finished(Ok(r)),
        verification::keeps_version(
            verified(job, replies),
            replies.package->Ok_0.checksum,
            checks,
        ),
        verification::keeps_address(
            verified(job, replies),
            replies.package->Ok_0.checksum,
            checks,
        ),
    ensures
        r.version == job.tv.version,
        target_of(job, replies) matches Ok((url, _)) && lock::info_of(
            r.lock_platforms,
            job.platform_key,
        ).url == Some(url),
{
    let checksum = replies.package->Ok_0.checksum;
    law_only_verified_assets_are_installed(job, target, replies, n, r);
    verification::law_verified_version(verified(job, replies), checksum, checks, m, r);
    law_address_of_the_installed_version(job, target, replies, n, r);
}

/// The asset that is handed to the extraction.
pub open spec fn extracted<E>(
    job: InstallationView,
    target: Target,
    replies: Replies<E>,
) -> ExtractionView {
    let (url, v) = target_of(job, replies)->Ok_0;
    let tv = replies.verify->Ok_0;
    ExtractionView {
        pkg: replies.package->Ok_0,
        target,
        version: tv.version,
        v,
        filename: filename_of(url),
        install_path: tv.install_path,
        download_path: tv.download_path,
    }
}

/// Where the asset is unpacked as this crate does it: a version is installed only when what was
/// installed before has been removed, everything that the format asks for has been done, and every
/// file of the package goes by its name.
pub proof fn law_installed_version_is_unpacked<E, F>(
    job: InstallationView,
    target: Target,
    replies: Replies<E>,
    n: nat,
    r: ToolVersionView,
    done: extraction::Replies<F>,
    m: nat,
    outcome: Result<(), extraction::ExtractErrorView<F>>,
)
    requires
        run(job, target, replies, n) == InstallStepView::<E>::Finished(Ok(r)),
        extraction::run(extracted(job, target, replies), done, m)
            == ExtractStepView::<F>::Finished(outcome),
        replies.install is Ok <==> outcome is Ok,
    ensures
        extraction::ops_of(extracted(job, target, replies), done) matches Some(ops)
            && extraction::unpacked(extracted(job, target, replies), done, ops.len() as int),
        extraction::named(
            extracted(job, target, replies),
            done,
            extraction::sources_in(extracted(job, target, replies), done).len() as int,
        ),
{
    law_only_verified_assets_are_installed(job, target, replies, n, r);
    assert(outcome->Ok_0 == ());
    extraction::law_everything_is_unpacked(extracted(job, target, replies), done, m);
}

/// Every installation comes to its end after at most eight answers. Where the package can be
/// installed and everything that is done with its asset succeeds, it ends as the search for the
/// asset's address does.
pub proof fn law_installation_ends<E>(job: InstallationView, target: Target, replies: Replies<E>)
    ensures
        run(job, target, replies, 8) is Finished,
        accepted(target, replies) && replies.download is Ok && replies.verify is Ok
            && replies.install is Ok ==> run(job, target, replies, 8) == match target_of(
            job,
            replies,
        ) {
            Ok(_) => InstallStepView::<E>::Finished(Ok(replies.verify->Ok_0)),
            Err(err) => InstallStepView::<E>::Finished(Err(err)),
        },
{
    reveal_with_fuel(run, 9);
}

/// A version that is listed goes by the first tag that is listed for it, and no `v` is guessed.
pub proof fn law_first_listed_tag(
    before: Seq<(Seq<char>, Seq<char>)>,
    version: Seq<char>,
    tag: Seq<char>,
    after: Seq<(Seq<char>, Seq<char>)>,
)
    requires
        forall|i: int| 0 <= i < before.len() ==> (#[trigger] before[i]).0 != version,
    ensures
        candidates_of(before + (seq![(version, tag)] + after), version) == (CandidatesView {
            plain: tag,
            prefixed: None,
        }),
    decreases before.len(),
{
    let pairs = before + (seq![(version, tag)] + after);
    if before.len() == 0 {
        assert(pairs[0] == (version, tag));
    } else {
        let rest = before.skip(1);
        assert(pairs[0] == before[0]);
        assert(pairs.skip(1) == rest + (seq![(version, tag)] + after));
        assert forall|i: int| 0 <= i < rest.len() implies (#[trigger] rest[i]).0 != version by {
            assert(rest[i] == before[i + 1]);
        }
        law_first_listed_tag(rest, version, tag, after);
    }
}

/// A version that is not listed goes by its own name. Where that does not begin with a `v`, the name
/// with a `v` before it is the other one that it may go by.
pub proof fn law_unlisted_version(pairs: Seq<(Seq<char>, Seq<char>)>, version: Seq<char>)
    requires
        forall|i: int| 0 <= i < pairs.len() ==> (#[trigger] pairs[i]).0 != version,
    ensures
        version.len() > 0 && version[0] == 'v' ==> candidates_of(pairs, version) == (
        CandidatesView { plain: version, prefixed: None }),
        version.len() == 0 || version[0] != 'v' ==> candidates_of(pairs, version) == (
        CandidatesView { plain: version, prefixed: Some(seq!['v'] + version) }),
    decreases pairs.len(),
{
    reveal_strlit("v");
    assert("v"@ == seq!['v']);
    if pairs.len() > 0 {
        let rest = pairs.skip(1);
        assert(pairs[0].0 != version);
        assert forall|i: int| 0 <= i < rest.len() implies (#[trigger] rest[i]).0 != version by {
            assert(rest[i] == pairs[i + 1]);
        }
        law_unlisted_version(rest, version);
    } else if version.len() > 0 && version[0] == 'v' {
        assert(version.subrange(0, 1) == "v"@);
    } else if version.len() > 0 {
        assert(version.subrange(0, 1)[0] == version[0]);
    }
}

/// The registry is asked for the package under the plain name, and then under the name with a `v` where
/// there is one.
pub proof fn law_names_that_are_asked_for<E>(
    job: InstallationView,
    pairs: Seq<(Seq<char>, Seq<char>)>,
    err: E,
)
    ensures
        first_step::<E>(job) == (InstallStepView::<E>::VersionTags { job }),
        after_version_tags(job, Err::<Seq<(Seq<char>, Seq<char>)>, E>(err))
            == InstallStepView::<E>::Finished(Err(InstallErrorView::Outside(err))),
        ({
            let names = candidates_of(pairs, job.tv.version);
            after_version_tags(job, Ok::<Seq<(Seq<char>, Seq<char>)>, E>(pairs)) == (
            InstallStepView::<E>::Package {
                versions: match names.prefixed {
                    None => seq![names.plain],
                    Some(prefixed) => seq![names.plain, prefixed],
                },
                job,
                candidates: names,
            })
        }),
{
}

/// The prefix of a package is put before both names where the plain one does not begin with it, and
/// before neither of them where it does.
pub proof fn law_prefix_of_the_names(
    plain: Seq<char>,
    prefixed: Seq<char>,
    prefix: Seq<char>,
    other: Option<Seq<char>>,
)
    ensures
        with_prefix(CandidatesView { plain, prefixed: other }, None) == (CandidatesView {
            plain,
            prefixed: other,
        }),
        with_prefix(CandidatesView { plain: prefix + plain, prefixed: other }, Some(prefix)) == (
        CandidatesView { plain: prefix + plain, prefixed: other }),
        (forall|rest: Seq<char>| plain != #[trigger] (prefix + rest)) ==> {
            &&& with_prefix(
                CandidatesView { plain, prefixed: Some(prefixed) },
                Some(prefix),
            ) == (CandidatesView { plain: prefix + plain, prefixed: Some(prefix + prefixed) })
            &&& with_prefix(CandidatesView { plain, prefixed: None }, Some(prefix)) == (
            CandidatesView { plain: prefix + plain, prefixed: None })
        },
{
    assert((prefix + plain).subrange(0, prefix.len() as int) == prefix);
    if prefix.is_prefix_of(plain) {
        assert(plain == prefix + plain.skip(prefix.len() as int));
    }
}

/// The name of the file at an address is what follows its last slash; the address itself where it has
/// none.
pub proof fn law_name_of_the_file(directory: Seq<char>, name: Seq<char>)
    requires
        !name.contains('/'),
    ensures
        filename_of(directory + seq!['/'] + name) == name,
        filename_of(name) == name,
{
    text::lemma_after_last_of_sum(directory, '/', name);
    assert(directory + seq!['/'] + name == directory.push('/') + name);
}

proof fn lemma_file_ends_its_address(url: Seq<char>) -> (directory: Seq<char>)
    ensures
        url == directory + filename_of(url),
    decreases url.len(),
{
    if url.len() == 0 || url.last() == '/' {
        assert(url == url + filename_of(url));
        url
    } else {
        let directory = lemma_file_ends_its_address(url.drop_last());
        let name = filename_of(url.drop_last());
        assert(filename_of(url) == name.push(url.last()));
        assert(url.drop_last().push(url.last()) == url);
        assert((directory + name).push(url.last()) == directory + name.push(url.last()));
        directory
    }
}

/// At an address that the lockfile holds, a version goes by its name with a `v` before it where that
/// stands anywhere in the address, whatever comes before and after it, and by its plain name where it
/// stands nowhere in the address.
pub proof fn law_version_in_a_locked_address(
    head: Seq<char>,
    version: Seq<char>,
    tail: Seq<char>,
    other: Seq<char>,
)
    ensures
        locked_version(head + (seq!['v'] + version) + tail, version) == seq!['v'] + version,
        (forall|before: Seq<char>, after: Seq<char>|
            other != #[trigger] (before + (seq!['v'] + version) + after)) ==> locked_version(
            other,
            version,
        ) == version,
{
    reveal_strlit("v");
    assert("v"@ == seq!['v']);
    let prefixed = seq!['v'] + version;
    text::law_has_part(head + prefixed + tail, prefixed);
    if forall|before: Seq<char>, after: Seq<char>|
        other != #[trigger] (before + prefixed + after) {
        let name = filename_of(other);
        let directory = lemma_file_ends_its_address(other);
        text::law_has_part(other, prefixed);
        text::law_has_part(name, prefixed);
        if text::has_part(name, prefixed) {
            let (before, after) = choose|before: Seq<char>, after: Seq<char>|
                name == #[trigger] (before + prefixed + after);
            assert(other == (directory + before) + prefixed + after);
        }
    }
}

/// A package that can be installed is downloaded from the address that the lockfile holds for the
/// platform: under the name with a `v` where that stands anywhere in the address, and under the plain
/// version where it stands nowhere in it.
pub proof fn law_download_from_the_lockfile<E>(
    job: InstallationView,
    candidates: CandidatesView,
    pkg: AquaPackage,
    target: Target,
    url: Seq<char>,
    head: Seq<char>,
    tail: Seq<char>,
)
    requires
        package::refusal_of(pkg, target) is None,
        lock::info_of(job.tv.lock_platforms, job.platform_key).url == Some(url),
    ensures
        url == head + (seq!['v'] + job.tv.version) + tail ==> after_package(
            job,
            candidates,
            Ok::<AquaPackage, E>(pkg),
            target,
        ) == (InstallStepView::<E>::Download {
            job,
            url,
            v: seq!['v'] + job.tv.version,
            filename: filename_of(url),
            locked: true,
        }),
        (forall|before: Seq<char>, after: Seq<char>|
            url != #[trigger] (before + (seq!['v'] + job.tv.version) + after)) ==> after_package(
            job,
            candidates,
            Ok::<AquaPackage, E>(pkg),
            target,
        ) == (InstallStepView::<E>::Download {
            job,
            url,
            v: job.tv.version,
            filename: filename_of(url),
            locked: true,
        }),
{
    law_version_in_a_locked_address(head, job.tv.version, tail, url);
}

/// Without an address in the lockfile, the address for the name with a `v` is looked up first, where
/// there is such a name, and that for the plain name at once where there is none. A package that is
/// not found, or cannot be installed, ends the installation, with an address in the lockfile or
/// without one.
pub proof fn law_what_follows_the_package<E>(
    job: InstallationView,
    candidates: CandidatesView,
    pkg: AquaPackage,
    target: Target,
    refusal: RefusalView,
    plain: Seq<char>,
    prefixed: Seq<char>,
    err: E,
)
    ensures
        after_package(job, candidates, Err::<AquaPackage, E>(err), target)
            == InstallStepView::<E>::Finished(Err(InstallErrorView::Outside(err))),
        package::refusal_of(pkg, target) == Some(refusal) ==> after_package(
            job,
            candidates,
            Ok::<AquaPackage, E>(pkg),
            target,
        ) == InstallStepView::<E>::Finished(Err(InstallErrorView::Refused(refusal))),
        package::refusal_of(pkg, target) is None && lock::info_of(
            job.tv.lock_platforms,
            job.platform_key,
        ).url is None ==> {
            let names = with_prefix(candidates, text::opt_text(pkg.version_prefix));
            let next = after_package(job, candidates, Ok::<AquaPackage, E>(pkg), target);
            &&& names == (CandidatesView { plain, prefixed: Some(prefixed) }) ==> next == (
            InstallStepView::<E>::PrefixedUrl { job, plain, prefixed })
            &&& names == (CandidatesView { plain, prefixed: None }) ==> next == (
            InstallStepView::<E>::PlainUrl { job, plain, before: PrefixedUrlView::NoName })
        },
{
}

/// An address for the name with a `v` that is known to lead to the asset is downloaded at once; with
/// any other answer the address for the plain name is looked up as well.
pub proof fn law_address_for_the_name_with_a_v<E>(
    job: InstallationView,
    plain: Seq<char>,
    prefixed: Seq<char>,
    url: Seq<char>,
    err: E,
)
    ensures
        after_prefixed_url(job, plain, prefixed, Ok::<(Seq<char>, bool), E>((url, true))) == (
        InstallStepView::<E>::Download {
            job,
            url,
            v: prefixed,
            filename: filename_of(url),
            locked: false,
        }),
        after_prefixed_url(job, plain, prefixed, Ok::<(Seq<char>, bool), E>((url, false))) == (
        InstallStepView::<E>::PlainUrl {
            job,
            plain,
            before: PrefixedUrlView::Unchecked { url, v: prefixed },
        }),
        after_prefixed_url(job, plain, prefixed, Err::<(Seq<char>, bool), E>(err)) == (
        InstallStepView::<E>::PlainUrl { job, plain, before: PrefixedUrlView::Failed(err) }),
{
}

/// The address for the plain name is downloaded under that name where there is no other name, or the
/// other has no asset. An address that both names have is downloaded under the name with a `v`; where
/// they differ, it is looked up whether there is something at the one for the name with a `v`.
pub proof fn law_address_for_the_plain_name<E>(
    job: InstallationView,
    plain: Seq<char>,
    prefixed: Seq<char>,
    url: Seq<char>,
    other: Seq<char>,
    checked: bool,
    first: E,
    err: E,
)
    requires
        url != other,
    ensures
        ({
            let there = Ok::<(Seq<char>, bool), E>((url, checked));
            let gone = Err::<(Seq<char>, bool), E>(err);
            let download = |v: Seq<char>|
                InstallStepView::<E>::Download {
                    job,
                    url,
                    v,
                    filename: filename_of(url),
                    locked: false,
                };
            &&& after_plain_url(job, plain, PrefixedUrlView::NoName, there) == download(plain)
            &&& after_plain_url(job, plain, PrefixedUrlView::Failed(first), there) == download(plain)
            &&& after_plain_url(
                job,
                plain,
                PrefixedUrlView::Unchecked { url, v: prefixed },
                there,
            ) == download(prefixed)
            &&& after_plain_url(
                job,
                plain,
                PrefixedUrlView::Unchecked { url: other, v: prefixed },
                there,
            ) == (InstallStepView::<E>::Head {
                job,
                plain,
                plain_url: url,
                prefixed,
                prefixed_url: other,
            })
            &&& after_plain_url(job, plain, PrefixedUrlView::NoName, gone)
                == InstallStepView::<E>::Finished(Err(InstallErrorView::Outside(err)))
            &&& after_plain_url(
                job,
                plain,
                PrefixedUrlView::Unchecked { url, v: prefixed },
                gone,
            ) == InstallStepView::<E>::Finished(Err(InstallErrorView::Outside(err)))
            &&& after_plain_url(job, plain, PrefixedUrlView::Failed(first), gone)
                == InstallStepView::<E>::Finished(
                Err(InstallErrorView::NoUrl { prefixed: first, plain: err }),
            )
        }),
{
}

/// Of two addresses, the one for the name with a `v` is downloaded, under that name, where there is
/// something at it, and else the one for the plain name, under the plain name.
pub proof fn law_address_that_is_there<E>(
    job: InstallationView,
    plain: Seq<char>,
    plain_url: Seq<char>,
    prefixed: Seq<char>,
    prefixed_url: Seq<char>,
)
    ensures
        after_head::<E>(job, plain, plain_url, prefixed, prefixed_url, true) == (
        InstallStepView::<E>::Download {
            job,
            url: prefixed_url,
            v: prefixed,
            filename: filename_of(prefixed_url),
            locked: false,
        }),
        after_head::<E>(job, plain, plain_url, prefixed, prefixed_url, false) == (
        InstallStepView::<E>::Download {
            job,
            url: plain_url,
            v: plain,
            filename: filename_of(plain_url),
            locked: false,
        }),
{
}

/// A downloaded asset is verified, a verified one is unpacked, and an unpacked one is installed; each
/// failure ends the installation. The address is recorded in the lockfile for the platform, unless it
/// was taken from there.
pub proof fn law_what_follows_the_download<E>(
    job: InstallationView,
    url: Seq<char>,
    v: Seq<char>,
    filename: Seq<char>,
    locked: bool,
    tv: ToolVersionView,
    err: E,
)
    ensures
        after_download(job, url, v, filename, true, Ok::<(), E>(())) == (
        InstallStepView::<E>::Verify { tv: job.tv, v, filename }),
        after_download(job, url, v, filename, false, Ok::<(), E>(())) == (
        InstallStepView::<E>::Verify {
            tv: ToolVersionView {
                lock_platforms: lock::with_url(job.tv.lock_platforms, job.platform_key, url),
                ..job.tv
            },
            v,
            filename,
        }),
        after_verify(v, filename, Ok::<ToolVersionView, E>(tv)) == (InstallStepView::<E>::Install {
            tv,
            v,
            filename,
        }),
        after_install(tv, Ok::<(), E>(())) == InstallStepView::<E>::Finished(Ok(tv)),
        after_download(job, url, v, filename, locked, Err::<(), E>(err))
            == InstallStepView::<E>::Finished(Err(InstallErrorView::Outside(err))),
        after_verify(v, filename, Err::<ToolVersionView, E>(err)) == InstallStepView::<E>::Finished(
            Err(InstallErrorView::Outside(err)),
        ),
        after_install(tv, Err::<(), E>(err)) == InstallStepView::<E>::Finished(
            Err(InstallErrorView::Outside(err)),
        ),
{
}

} // verus!
