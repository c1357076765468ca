//! Verifying a downloaded file: its provenance, its signature and its checksum, in this order.
//!
//! Each step says what is to be done outside, and holds the state that goes on with the outcome.
use vstd::prelude::*;

use crate::checksum;
use crate::checksum::ChecksumError;
use crate::command::AquaSettings;
use crate::cosign;
use crate::cosign::{CosignOutcome, CosignStepView};
use crate::lock;
use crate::lock::{ToolVersion, ToolVersionView};
use crate::minisign;
use crate::minisign::{MinisignOutcomeView, MinisignStepView};
use crate::package::{AquaChecksum, AquaChecksumType, AquaPackage};
use crate::paths::{HostPath, PathView};
use crate::slsa;
use crate::slsa::{SlsaOutcomeView, SlsaStepView};
use crate::text;

verus! {

/// A file that is being verified.
pub struct Verification {
    pub tv: ToolVersion,
    pub v: String,
    pub filename: String,
    pub platform_key: String,
}

/// A file that is being verified.
pub struct VerificationView {
    pub tv: ToolVersionView,
    pub v: Seq<char>,
    pub filename: Seq<char>,
    pub platform_key: Seq<char>,
}

impl View for Verification {
    type V = VerificationView;

    open spec fn view(&self) -> VerificationView {
        VerificationView {
            tv: self.tv@,
            v: self.v@,
            filename: self.filename@,
            platform_key: self.platform_key@,
        }
    }
}

/// Why a file cannot be verified.
pub enum VerifyError<E> {
    /// Something outside failed.
    Outside(E),
    /// The checksum file gives no digest.
    Checksum(ChecksumError),
}

/// Why a file cannot be verified.
pub enum VerifyErrorView<E> {
    Outside(E),
    NoPattern,
    /// A pattern is no regular expression, with why it is not.
    BadPattern(Seq<char>),
    NoGroup,
    NoDigest,
}

impl<E> View for VerifyError<E> {
    type V = VerifyErrorView<E>;

    open spec fn view(&self) -> VerifyErrorView<E> {
        match *self {
            VerifyError::Outside(err) => VerifyErrorView::Outside(err),
            VerifyError::Checksum(ChecksumError::NoPattern) => VerifyErrorView::NoPattern,
            VerifyError::Checksum(ChecksumError::Pattern(err)) => VerifyErrorView::BadPattern(err@),
            VerifyError::Checksum(ChecksumError::NoGroup) => VerifyErrorView::NoGroup,
            VerifyError::Checksum(ChecksumError::NoDigest) => VerifyErrorView::NoDigest,
        }
    }
}

/// The SLSA provenance of the file is being verified.
pub struct AwaitSlsa {
    pub job: Verification,
    pub checksum: Option<AquaChecksum>,
}

/// The minisign signature of the file is being verified.
pub struct AwaitMinisign {
    pub job: Verification,
    pub checksum: Option<AquaChecksum>,
}

/// The address of the checksum file is being looked up.
pub struct AwaitChecksumUrl {
    pub job: Verification,
    pub checksum: AquaChecksum,
}

/// The checksum file is being downloaded.
pub struct AwaitChecksumFile {
    pub job: Verification,
    pub checksum: AquaChecksum,
}

/// The checksum file is being verified with cosign.
pub struct AwaitCosign {
    pub job: Verification,
    pub checksum: AquaChecksum,
}

/// The checksum file is being read.
pub struct AwaitContent {
    pub job: Verification,
    pub checksum: AquaChecksum,
}

/// The file is being compared with its checksum.
pub struct AwaitComparison {}

/// What is to be done next.
pub enum VerifyStep<E> {
    /// Verify the SLSA provenance.
    Slsa { next: AwaitSlsa },
    /// Verify the minisign signature.
    Minisign { next: AwaitMinisign },
    /// Find the checksum file among the assets of the version's release.
    ChecksumAsset { next: AwaitChecksumUrl },
    /// Render the address of the checksum file.
    ChecksumUrl { next: AwaitChecksumUrl },
    /// Download the checksum file.
    DownloadChecksum { url: String, path: HostPath, next: AwaitChecksumFile },
    /// Verify the checksum file with cosign.
    Cosign { path: HostPath, next: AwaitCosign },
    /// Read the checksum file.
    ReadChecksum { path: HostPath, next: AwaitContent },
    /// Compare the file with the checksum that is recorded for it.
    Compare { tv: ToolVersion, path: HostPath, next: AwaitComparison },
    /// The verification has come to its end.
    Finished(Result<ToolVersion, VerifyError<E>>),
}

/// What is to be done next.
pub enum VerifyStepView<E> {
    Slsa { job: VerificationView, checksum: Option<AquaChecksum> },
    Minisign { job: VerificationView, checksum: Option<AquaChecksum> },
    ChecksumAsset { job: VerificationView, checksum: AquaChecksum },
    ChecksumUrl { job: VerificationView, checksum: AquaChecksum },
    DownloadChecksum {
        url: Seq<char>,
        path: PathView,
        job: VerificationView,
        checksum: AquaChecksum,
    },
    Cosign { path: PathView, job: VerificationView, checksum: AquaChecksum },
    ReadChecksum { path: PathView, job: VerificationView, checksum: AquaChecksum },
    Compare { tv: ToolVersionView, path: PathView },
    Finished(Result<ToolVersionView, VerifyErrorView<E>>),
}

impl<E> View for VerifyStep<E> {
    type V = VerifyStepView<E>;

    open spec fn view(&self) -> VerifyStepView<E> {
        match *self {
            VerifyStep::Slsa { next } => VerifyStepView::Slsa {
                job: next.job@,
                checksum: next.checksum,
            },
            VerifyStep::Minisign { next } => VerifyStepView::Minisign {
                job: next.job@,
                checksum: next.checksum,
            },
            VerifyStep::ChecksumAsset { next } => VerifyStepView::ChecksumAsset {
                job: next.job@,
                checksum: next.checksum,
            },
            VerifyStep::ChecksumUrl { next } => VerifyStepView::ChecksumUrl {
                job: next.job@,
                checksum: next.checksum,
            },
            VerifyStep::DownloadChecksum { url, path, next } => VerifyStepView::DownloadChecksum {
                url: url@,
                path: path@,
                job: next.job@,
                checksum: next.checksum,
            },
            VerifyStep::Cosign { path, next } => VerifyStepView::Cosign {
                path: path@,
                job: next.job@,
                checksum: next.checksum,
            },
            VerifyStep::ReadChecksum { path, next } => VerifyStepView::ReadChecksum {
                path: path@,
                job: next.job@,
                checksum: next.checksum,
            },
            VerifyStep::Compare { tv, path, next } => VerifyStepView::Compare {
                tv: tv@,
                path: path@,
            },
            VerifyStep::Finished(Ok(tv)) => VerifyStepView::Finished(Ok(tv@)),
            VerifyStep::Finished(Err(err)) => VerifyStepView::Finished(Err(err@)),
        }
    }
}

/// The end of a verification in which something outside failed.
pub open spec fn failed<E>(err: E) -> VerifyStepView<E> {
    VerifyStepView::Finished(Err(VerifyErrorView::Outside(err)))
}

/// A verification begins with the SLSA provenance.
pub open spec fn first_step<E>(
    job: VerificationView,
    checksum: Option<AquaChecksum>,
) -> VerifyStepView<E> {
    VerifyStepView::Slsa { job, checksum }
}

/// The SLSA provenance is followed by the minisign signature.
pub open spec fn after_slsa<E>(
    job: VerificationView,
    checksum: Option<AquaChecksum>,
    reply: Result<(), E>,
) -> VerifyStepView<E> {
    match reply {
        Err(err) => failed(err),
        Ok(_) => VerifyStepView::Minisign { job, checksum },
    }
}

/// The file is compared with what the lockfile holds of it.
pub open spec fn compare<E>(job: VerificationView) -> VerifyStepView<E> {
    VerifyStepView::Compare {
        tv: job.tv,
        path: job.tv.download_path.join(job.filename),
    }
}

/// A job with other information in the lockfile.
pub open spec fn with_lock(
    job: VerificationView,
    lock_platforms: Map<Seq<char>, lock::PlatformInfoView>,
) -> VerificationView {
    VerificationView { tv: ToolVersionView { lock_platforms, ..job.tv }, ..job }
}

/// Whether the checksum is to be taken from the package: the lockfile has none, and the package's
/// checksums are enabled.
pub open spec fn wants_checksum(job: VerificationView, checksum: Option<AquaChecksum>) -> bool {
    lock::info_of(job.tv.lock_platforms, job.platform_key).checksum is None && (checksum matches Some(
        c,
    ) && c.enabled)
}

/// The minisign signature is followed by the checksum: that of the package, where it is wanted,
/// and else the one that the lockfile holds. From here on the lockfile has an entry for the
/// platform.
pub open spec fn after_minisign<E>(
    job: VerificationView,
    checksum: Option<AquaChecksum>,
    reply: Result<(), E>,
) -> VerifyStepView<E> {
    let job_with_entry = with_lock(job, lock::with_entry(job.tv.lock_platforms, job.platform_key));
    match reply {
        Err(err) => failed(err),
        Ok(_) => if wants_checksum(job, checksum) {
            match checksum->0.kind {
                AquaChecksumType::GithubRelease => VerifyStepView::ChecksumAsset {
                    job: job_with_entry,
                    checksum: checksum->0,
                },
                AquaChecksumType::Http => VerifyStepView::ChecksumUrl {
                    job: job_with_entry,
                    checksum: checksum->0,
                },
            }
        } else {
            compare(job_with_entry)
        },
    }
}

/// Where the checksum file is kept: beside the file, under the file's name and `.checksum`.
pub open spec fn checksum_path(job: VerificationView) -> PathView {
    job.tv.download_path.join(job.filename + ".checksum"@)
}

/// The checksum file is downloaded from its address.
pub open spec fn after_checksum_url<E>(
    job: VerificationView,
    checksum: AquaChecksum,
    reply: Result<Seq<char>, E>,
) -> VerifyStepView<E> {
    match reply {
        Err(err) => failed(err),
        Ok(url) => VerifyStepView::DownloadChecksum { url, path: checksum_path(job), job, checksum },
    }
}

/// A downloaded checksum file is verified with cosign.
pub open spec fn after_checksum_file<E>(
    job: VerificationView,
    checksum: AquaChecksum,
    reply: Result<(), E>,
) -> VerifyStepView<E> {
    match reply {
        Err(err) => failed(err),
        Ok(_) => VerifyStepView::Cosign { path: checksum_path(job), job, checksum },
    }
}

/// A checksum file that cosign has let pass is read.
pub open spec fn after_cosign<E>(
    job: VerificationView,
    checksum: AquaChecksum,
    reply: Result<(), E>,
) -> VerifyStepView<E> {
    match reply {
        Err(err) => failed(err),
        Ok(_) => VerifyStepView::ReadChecksum { path: checksum_path(job), job, checksum },
    }
}

/// The digest that the checksum file gives is recorded in the lockfile, and the file is compared
/// with it.
pub open spec fn after_content<E>(
    job: VerificationView,
    checksum: AquaChecksum,
    reply: Result<Seq<char>, E>,
) -> VerifyStepView<E> {
    match reply {
        Err(err) => failed(err),
        Ok(content) => match checksum::digest_of(checksum, content, job.filename) {
            checksum::DigestView::Digest(digest) => compare(
                with_lock(
                    job,
                    lock::with_checksum(
                        job.tv.lock_platforms,
                        job.platform_key,
                        checksum::checksum_text(checksum.algorithm@, digest),
                    ),
                ),
            ),
            checksum::DigestView::NoPattern => VerifyStepView::Finished(
                Err(VerifyErrorView::NoPattern),
            ),
            checksum::DigestView::BadPattern(why) => VerifyStepView::Finished(
                Err(VerifyErrorView::BadPattern(why)),
            ),
            checksum::DigestView::NoGroup => VerifyStepView::Finished(Err(VerifyErrorView::NoGroup)),
            checksum::DigestView::NoDigest => VerifyStepView::Finished(
                Err(VerifyErrorView::NoDigest),
            ),
        },
    }
}

/// The comparison ends the verification.
pub open spec fn after_comparison<E>(reply: Result<ToolVersionView, E>) -> VerifyStepView<E> {
    match reply {
        Err(err) => failed(err),
        Ok(tv) => VerifyStepView::Finished(Ok(tv)),
    }
}

/// Begins the verification of a downloaded file.
pub fn verify<E>(
    tv: ToolVersion,
    pkg: &AquaPackage,
    v: &str,
    filename: &str,
    platform_key: &str,
) -> (step: VerifyStep<E>)
    ensures
        step@ == first_step::<E>(
            VerificationView {
                tv: tv@,
                v: v@,
                filename: filename@,
                platform_key: platform_key@,
            },
            pkg.checksum,
        ),
{
    let checksum = match &pkg.checksum {
        Some(checksum) => Some(checksum.duplicate()),
        None => None,
    };
    let job = Verification {
        tv,
        v: v.to_owned(),
        filename: filename.to_owned(),
        platform_key: platform_key.to_owned(),
    };
    VerifyStep::Slsa { next: AwaitSlsa { job, checksum } }
}

impl Verification {
    /// Compares the file with what the lockfile holds of it.
    fn compare<E>(self) -> (step: VerifyStep<E>)
        ensures
            step@ == compare::<E>(self@),
    {
        let path = self.tv.download_path.join(self.filename.as_str());
        VerifyStep::Compare { tv: self.tv, path, next: AwaitComparison {  } }
    }

    /// Where the checksum file is kept.
    fn checksum_path(&self) -> (r: HostPath)
        ensures
            r@ == checksum_path(self@),
    {
        let name = self.filename.clone().concat(".checksum");
        self.tv.download_path.join(name.as_str())
    }
}

impl AwaitSlsa {
    /// Goes on when the SLSA provenance has been verified, or could not be.
    pub fn resume<E>(self, reply: Result<(), E>) -> (step: VerifyStep<E>)
        ensures
            step@ == after_slsa(self.job@, self.checksum, reply),
    {
        match reply {
            Err(err) => VerifyStep::Finished(Err(VerifyError::Outside(err))),
            Ok(_) => VerifyStep::Minisign {
                next: AwaitMinisign { job: self.job, checksum: self.checksum },
            },
        }
    }
}

impl AwaitMinisign {
    /// Goes on when the minisign signature has been verified, or could not be.
    pub fn resume<E>(self, reply: Result<(), E>) -> (step: VerifyStep<E>)
        ensures
            step@ == after_minisign(self.job@, self.checksum, reply),
    {
        if let Err(err) = reply {
            return VerifyStep::Finished(Err(VerifyError::Outside(err)));
        }
        let Verification { tv, v, filename, platform_key } = self.job;
        let ToolVersion { version, lock_platforms, install_path, download_path, cache_path } = tv;
        let recorded = lock_platforms.info(platform_key.as_str()).checksum.is_some();
        let lock_platforms = lock_platforms.ensure_entry(platform_key.as_str());
        let tv = ToolVersion { version, lock_platforms, install_path, download_path, cache_path };
        let job = Verification { tv, v, filename, platform_key };
        match self.checksum {
            Some(checksum) => {
                if recorded || !checksum.enabled {
                    return job.compare();
                }
                match checksum.kind {
                    AquaChecksumType::GithubRelease => VerifyStep::ChecksumAsset {
                        next: AwaitChecksumUrl { job, checksum },
                    },
                    AquaChecksumType::Http => VerifyStep::ChecksumUrl {
                        next: AwaitChecksumUrl { job, checksum },
                    },
                }
            },
            None => job.compare(),
        }
    }
}

impl AwaitChecksumUrl {
    /// Goes on with the address of the checksum file.
    pub fn resume<E>(self, reply: Result<String, E>) -> (step: VerifyStep<E>)
        ensures
            step@ == after_checksum_url(self.job@, self.checksum, text::text_reply(reply)),
    {
        match reply {
            Err(err) => VerifyStep::Finished(Err(VerifyError::Outside(err))),
            Ok(url) => {
                let path = self.job.checksum_path();
                let next = AwaitChecksumFile { job: self.job, checksum: self.checksum };
                VerifyStep::DownloadChecksum { url, path, next }
            },
        }
    }
}

impl AwaitChecksumFile {
    /// Goes on when the checksum file has been downloaded, or could not be.
    pub fn resume<E>(self, reply: Result<(), E>) -> (step: VerifyStep<E>)
        ensures
            step@ == after_checksum_file(self.job@, self.checksum, reply),
    {
        match reply {
            Err(err) => VerifyStep::Finished(Err(VerifyError::Outside(err))),
            Ok(_) => {
                let path = self.job.checksum_path();
                let next = AwaitCosign { job: self.job, checksum: self.checksum };
                VerifyStep::Cosign { path, next }
            },
        }
    }
}

impl AwaitCosign {
    /// Goes on when cosign has verified the checksum file, or could not.
    pub fn resume<E>(self, reply: Result<(), E>) -> (step: VerifyStep<E>)
        ensures
            step@ == after_cosign(self.job@, self.checksum, reply),
    {
        match reply {
            Err(err) => VerifyStep::Finished(Err(VerifyError::Outside(err))),
            Ok(_) => {
                let path = self.job.checksum_path();
                let next = AwaitContent { job: self.job, checksum: self.checksum };
                VerifyStep::ReadChecksum { path, next }
            },
        }
    }
}

impl AwaitContent {
    /// Goes on with what the checksum file holds.
    pub fn resume<E>(self, reply: Result<String, E>) -> (step: VerifyStep<E>)
        ensures
            step@ == after_content(self.job@, self.checksum, text::text_reply(reply)),
    {
        let content = match reply {
            Err(err) => {
                return VerifyStep::Finished(Err(VerifyError::Outside(err)));
            },
            Ok(content) => content,
        };
        match checksum::read_digest(&self.checksum, content.as_str(), self.job.filename.as_str()) {
            Err(err) => VerifyStep::Finished(Err(VerifyError::Checksum(err))),
            Ok(digest) => {
                let value = self.checksum.algorithm.clone().concat(":").concat(digest.as_str());
                let Verification { tv, v, filename, platform_key } = self.job;
                let ToolVersion { version, lock_platforms, install_path, download_path, cache_path } =
                    tv;
                let lock_platforms = lock_platforms.set_checksum(platform_key.as_str(), value);
                let tv = ToolVersion {
                    version,
                    lock_platforms,
                    install_path,
                    download_path,
                    cache_path,
                };
                let job = Verification { tv, v, filename, platform_key };
                job.compare()
            },
        }
    }
}

impl AwaitComparison {
    /// Goes on with what the comparison has made of the version, or with its failure.
    pub fn resume<E>(self, reply: Result<ToolVersion, E>) -> (step: VerifyStep<E>)
        ensures
            step@ == after_comparison(lock::version_reply(reply)),
    {
        match reply {
            Err(err) => VerifyStep::Finished(Err(VerifyError::Outside(err))),
            Ok(tv) => VerifyStep::Finished(Ok(tv)),
        }
    }
}

/// What comes back from outside in the course of a verification.
pub struct Replies<E> {
    pub slsa: Result<(), E>,
    pub minisign: Result<(), E>,
    pub checksum_url: Result<Seq<char>, E>,
    pub checksum_file: Result<(), E>,
    pub cosign: Result<(), E>,
    pub content: Result<Seq<char>, E>,
    pub comparison: Result<ToolVersionView, E>,
}

/// The step that follows when the present one is answered.
pub open spec fn answered<E>(step: VerifyStepView<E>, replies: Replies<E>) -> VerifyStepView<E> {
    match step {
        VerifyStepView::Slsa { job, checksum } => after_slsa(job, checksum, replies.slsa),
        VerifyStepView::Minisign { job, checksum } => after_minisign(
            job,
            checksum,
            replies.minisign,
        ),
        VerifyStepView::ChecksumAsset { job, checksum } => after_checksum_url(
            job,
            checksum,
            replies.checksum_url,
        ),
        VerifyStepView::ChecksumUrl { job, checksum } => after_checksum_url(
            job,
            checksum,
            replies.checksum_url,
        ),
        VerifyStepView::DownloadChecksum { url, path, job, checksum } => after_checksum_file(
            job,
            checksum,
            replies.checksum_file,
        ),
        VerifyStepView::Cosign { path, job, checksum } => after_cosign(
            job,
            checksum,
            replies.cosign,
        ),
        VerifyStepView::ReadChecksum { path, job, checksum } => after_content(
            job,
            checksum,
            replies.content,
        ),
        VerifyStepView::Compare { tv, path } => after_comparison(replies.comparison),
        VerifyStepView::Finished(outcome) => step,
    }
}

/// The step that a verification has come to when its first `n` steps have been answered.
pub open spec fn run<E>(
    job: VerificationView,
    checksum: Option<AquaChecksum>,
    replies: Replies<E>,
    n: nat,
) -> VerifyStepView<E>
    decreases n,
{
    if n == 0 {
        first_step(job, checksum)
    } else {
        answered(run(job, checksum, replies, (n - 1) as nat), replies)
    }
}

/// What the lockfile holds when the file is compared with its checksum.
pub open spec fn compared_lock(
    job: VerificationView,
    checksum: Option<AquaChecksum>,
    content: Seq<char>,
) -> Map<Seq<char>, lock::PlatformInfoView> {
    let digest = checksum::digest_of(checksum->0, content, job.filename);
    if wants_checksum(job, checksum) {
        lock::with_checksum(
            job.tv.lock_platforms,
            job.platform_key,
            checksum::checksum_text(checksum->0.algorithm@, digest->Digest_0),
        )
    } else {
        lock::with_entry(job.tv.lock_platforms, job.platform_key)
    }
}

/// What is known of a run after each number of answers.
spec fn on_course<E>(
    job: VerificationView,
    checksum: Option<AquaChecksum>,
    replies: Replies<E>,
    step: VerifyStepView<E>,
) -> bool {
    let entered = with_lock(job, lock::with_entry(job.tv.lock_platforms, job.platform_key));
    let c = checksum->0;
    let signed = replies.slsa is Ok && replies.minisign is Ok;
    match step {
        VerifyStepView::Slsa { job: j, checksum: k } => j == job && k == checksum,
        VerifyStepView::Minisign { job: j, checksum: k } => {
            j == job && k == checksum && replies.slsa is Ok
        },
        VerifyStepView::ChecksumAsset { job: j, checksum: k } => {
            j == entered && k == c && signed && wants_checksum(job, checksum)
        },
        VerifyStepView::ChecksumUrl { job: j, checksum: k } => {
            j == entered && k == c && signed && wants_checksum(job, checksum)
        },
        VerifyStepView::DownloadChecksum { url, path, job: j, checksum: k } => {
            j == entered && k == c && signed && wants_checksum(job, checksum)
                && replies.checksum_url == Ok::<Seq<char>, E>(url)
        },
        VerifyStepView::Cosign { path, job: j, checksum: k } => {
            j == entered && k == c && signed && wants_checksum(job, checksum)
                && replies.checksum_url is Ok && replies.checksum_file is Ok
        },
        VerifyStepView::ReadChecksum { path, job: j, checksum: k } => {
            j == entered && k == c && signed && wants_checksum(job, checksum)
                && replies.checksum_url is Ok && replies.checksum_file is Ok && replies.cosign is Ok
        },
        VerifyStepView::Compare { tv, path } => {
            &&& compare_ready(job, checksum, replies)
            &&& tv == with_lock(job, compared_lock(job, checksum, replies.content->Ok_0)).tv
            &&& path == job.tv.download_path.join(job.filename)
        },
        VerifyStepView::Finished(Ok(tv)) => {
            &&& compare_ready(job, checksum, replies)
            &&& replies.comparison == Ok::<ToolVersionView, E>(tv)
        },
        VerifyStepView::Finished(Err(err)) => true,
    }
}

/// Whether everything that comes before the comparison has succeeded.
pub open spec fn compare_ready<E>(
    job: VerificationView,
    checksum: Option<AquaChecksum>,
    replies: Replies<E>,
) -> bool {
    &&& replies.slsa is Ok
    &&& replies.minisign is Ok
    &&& wants_checksum(job, checksum) ==> {
        &&& replies.checksum_url is Ok
        &&& replies.checksum_file is Ok
        &&& replies.cosign is Ok
        &&& replies.content is Ok
        &&& checksum::digest_of(checksum->0, replies.content->Ok_0, job.filename) is Digest
    }
}

proof fn lemma_on_course<E>(
    job: VerificationView,
    checksum: Option<AquaChecksum>,
    replies: Replies<E>,
    n: nat,
)
    ensures
        on_course(job, checksum, replies, run(job, checksum, replies, n)),
    decreases n,
{
    if n > 0 {
        lemma_on_course(job, checksum, replies, (n - 1) as nat);
        let lock_platforms = job.tv.lock_platforms;
        let key = job.platform_key;
        let entered = lock::with_entry(lock_platforms, key);
        assert(lock::info_of(entered, key) == lock::info_of(lock_platforms, key));
        assert forall|value: Seq<char>|
            lock::with_checksum(entered, key, value) == #[trigger] lock::with_checksum(
                lock_platforms,
                key,
                value,
            ) by {
            assert(lock::with_checksum(entered, key, value) =~= lock::with_checksum(
                lock_platforms,
                key,
                value,
            ));
        }
    }
}

/// Whatever comes back from outside: a file passes only when its provenance, its signature, and,
/// where the checksum is taken from the package, every step on the way to that checksum have
/// passed, and the comparison with the checksum has.
pub proof fn law_nothing_is_skipped<E>(
    job: VerificationView,
    checksum: Option<AquaChecksum>,
    replies: Replies<E>,
    n: nat,
    tv: ToolVersionView,
)
    requires
        run(job, checksum, replies, n) == VerifyStepView::<E>::Finished(Ok(tv)),
    ensures
        compare_ready(job, checksum, replies),
        replies.comparison == Ok::<ToolVersionView, E>(tv),
{
    lemma_on_course(job, checksum, replies, n);
}

/// Where the provenance is verified as this crate does it: a file whose provenance is wanted and lacks
/// nothing passes only when `slsa-verifier` has accepted the file with the provenance that was
/// downloaded.
pub proof fn law_provenance_is_verified<E, F>(
    job: VerificationView,
    settings: AquaSettings,
    pkg: AquaPackage,
    replies: Replies<E>,
    n: nat,
    tv: ToolVersionView,
    checks: slsa::Replies<F>,
    m: nat,
    outcome: Result<SlsaOutcomeView, F>,
)
    requires
        run(job, pkg.checksum, replies, n) == VerifyStepView::<E>::Finished(Ok(tv)),
        slsa::run(
            slsa::first_step::<F>(settings, pkg, job.v, job.filename, job.tv.download_path),
            checks,
            m,
        ) == SlsaStepView::<F>::Finished(outcome),
        replies.slsa is Ok <==> outcome is Ok,
        settings.slsa,
        pkg.slsa_provenance matches Some(slsa) && slsa.enabled != Some(false)
            && slsa::provenance_url(slsa, checks) is Some,
        checks.verifier is Some,
    ensures
        outcome == Ok::<SlsaOutcomeView, F>(SlsaOutcomeView::Verified),
        checks.provenance is Ok,
        checks.execution is Ok,
{
    law_nothing_is_skipped(job, pkg.checksum, replies, n, tv);
    slsa::law_passed_is_verified(
        settings,
        pkg,
        job.v,
        job.filename,
        job.tv.download_path,
        checks,
        m,
        outcome->Ok_0,
    );
}

/// Where the signature is verified as this crate does it: a file whose signature is wanted and is not
/// lacking passes only when the check has accepted the signature that was downloaded.
pub proof fn law_signature_is_verified<E, F>(
    job: VerificationView,
    settings: AquaSettings,
    pkg: AquaPackage,
    replies: Replies<E>,
    n: nat,
    tv: ToolVersionView,
    checks: minisign::Replies<F>,
    m: nat,
    outcome: Result<MinisignOutcomeView, F>,
)
    requires
        run(job, pkg.checksum, replies, n) == VerifyStepView::<E>::Finished(Ok(tv)),
        minisign::run(
            minisign::first_step::<F>(settings, pkg, job.v, job.filename, job.tv.download_path),
            checks,
            m,
        ) == MinisignStepView::<F>::Finished(outcome),
        replies.minisign is Ok <==> outcome is Ok,
        settings.slsa,
        pkg.minisign matches Some(minisign) && minisign.enabled != Some(false)
            && minisign::signature_url(minisign, checks) is Some,
    ensures
        outcome == Ok::<MinisignOutcomeView, F>(MinisignOutcomeView::Verified),
        checks.signature_file is Ok,
        checks.data is Ok,
        checks.signature is Ok,
        checks.public_key is Ok,
        checks.check is Ok,
{
    law_nothing_is_skipped(job, pkg.checksum, replies, n, tv);
    minisign::law_passed_is_verified(
        settings,
        pkg,
        job.v,
        job.filename,
        job.tv.download_path,
        checks,
        m,
        outcome->Ok_0,
    );
}

/// Where the checksum file is verified as this crate does it: a file whose checksum is taken from the
/// package, and whose checksum file is to be verified with a cosign that is not lacking, passes only
/// when cosign, given all that the package has, has accepted the checksum file.
pub proof fn law_checksum_file_is_verified<E, F>(
    job: VerificationView,
    settings: AquaSettings,
    pkg: AquaPackage,
    replies: Replies<E>,
    n: nat,
    tv: ToolVersionView,
    verbose: bool,
    checks: cosign::Replies<F>,
    m: nat,
    outcome: Result<CosignOutcome, F>,
)
    requires
        run(job, pkg.checksum, replies, n) == VerifyStepView::<E>::Finished(Ok(tv)),
        wants_checksum(job, pkg.checksum),
        cosign::run(
            cosign::first_step::<F>(
                settings,
                pkg,
                checksum_path(job),
                job.tv.download_path,
                verbose,
            ),
            checks,
            m,
        ) == CosignStepView::<F>::Finished(outcome),
        replies.cosign is Ok <==> outcome is Ok,
        settings.cosign,
        cosign::cosign_of(pkg) matches Some(cosign) && cosign.enabled != Some(false),
        checks.cosign is Some,
    ensures
        outcome == Ok::<CosignOutcome, F>(CosignOutcome::Verified),
        cosign::rendered(cosign::cosign_of(pkg)->0, checks),
        checks.opts is Ok,
        checks.execution is Ok,
{
    law_nothing_is_skipped(job, pkg.checksum, replies, n, tv);
    cosign::law_passed_is_verified(
        settings,
        pkg,
        checksum_path(job),
        job.tv.download_path,
        verbose,
        checks,
        m,
        outcome->Ok_0,
    );
}

/// Whatever comes back from outside: the file that is compared is the downloaded one, and what the
/// lockfile then holds of the platform is what it held before, with the package's checksum added
/// where the lockfile had none and the package gives one. A checksum that was recorded is kept, and
/// so is all that the lockfile holds of other platforms.
pub proof fn law_recorded_checksum<E>(
    job: VerificationView,
    checksum: Option<AquaChecksum>,
    replies: Replies<E>,
    n: nat,
    tv: ToolVersionView,
    path: PathView,
)
    requires
        run(job, checksum, replies, n) == (VerifyStepView::<E>::Compare { tv, path }),
    ensures
        path == job.tv.download_path.join(job.filename),
        tv == (ToolVersionView {
            lock_platforms: compared_lock(job, checksum, replies.content->Ok_0),
            ..job.tv
        }),
        lock::info_of(tv.lock_platforms, job.platform_key).url == lock::info_of(
            job.tv.lock_platforms,
            job.platform_key,
        ).url,
        lock::info_of(job.tv.lock_platforms, job.platform_key).checksum is Some ==> lock::info_of(
            tv.lock_platforms,
            job.platform_key,
        ).checksum == lock::info_of(job.tv.lock_platforms, job.platform_key).checksum,
        tv.lock_platforms.remove(job.platform_key) == job.tv.lock_platforms.remove(
            job.platform_key,
        ),
{
    lemma_on_course(job, checksum, replies, n);
    assert(tv.lock_platforms.remove(job.platform_key) =~= job.tv.lock_platforms.remove(
        job.platform_key,
    ));
}

/// The version that is handed to the comparison with the checksum.
pub open spec fn compared<E>(
    job: VerificationView,
    checksum: Option<AquaChecksum>,
    replies: Replies<E>,
) -> ToolVersionView {
    ToolVersionView {
        lock_platforms: compared_lock(job, checksum, replies.content->Ok_0),
        ..job.tv
    }
}

/// Whether the comparison hands back the version that it was handed.
pub open spec fn keeps_version<E>(
    job: VerificationView,
    checksum: Option<AquaChecksum>,
    replies: Replies<E>,
) -> bool {
    replies.comparison matches Ok(tv) ==> tv.version == compared(job, checksum, replies).version
}

/// Whether the comparison leaves the address that the lockfile holds for the platform as it was handed
/// it.
pub open spec fn keeps_address<E>(
    job: VerificationView,
    checksum: Option<AquaChecksum>,
    replies: Replies<E>,
) -> bool {
    replies.comparison matches Ok(tv) ==> lock::info_of(tv.lock_platforms, job.platform_key).url
        == lock::info_of(compared(job, checksum, replies).lock_platforms, job.platform_key).url
}

/// Whatever else comes back from outside: a file that passes leaves the version, and the address that
/// the lockfile holds for the platform, as they were, where the comparison with the checksum does.
pub proof fn law_verified_version<E>(
    job: VerificationView,
    checksum: Option<AquaChecksum>,
    replies: Replies<E>,
    n: nat,
    tv: ToolVersionView,
)
    requires
        run(job, checksum, replies, n) == VerifyStepView::<E>::Finished(Ok(tv)),
    ensures
        keeps_version(job, checksum, replies) ==> tv.version == job.tv.version,
        keeps_address(job, checksum, replies) ==> lock::info_of(
            tv.lock_platforms,
            job.platform_key,
        ).url == lock::info_of(job.tv.lock_platforms, job.platform_key).url,
{
    lemma_on_course(job, checksum, replies, n);
}

/// Every verification comes to its end after at most eight answers; where all that comes before the
/// comparison succeeds, its outcome is that of the comparison.
pub proof fn law_verification_ends<E>(
    job: VerificationView,
    checksum: Option<AquaChecksum>,
    replies: Replies<E>,
)
    ensures
        run(job, checksum, replies, 8) is Finished,
        compare_ready(job, checksum, replies) ==> run(job, checksum, replies, 8)
            == after_comparison(replies.comparison),
{
    reveal_with_fuel(run, 9);
}

/// The provenance is verified first, then the signature; a failure of either ends the verification.
pub proof fn law_order_of_the_verification<E>(
    job: VerificationView,
    checksum: Option<AquaChecksum>,
    err: E,
)
    ensures
        first_step::<E>(job, checksum) == (VerifyStepView::<E>::Slsa { job, checksum }),
        after_slsa(job, checksum, Ok::<(), E>(())) == (VerifyStepView::<E>::Minisign {
            job,
            checksum,
        }),
        after_slsa(job, checksum, Err::<(), E>(err)) == VerifyStepView::<E>::Finished(
            Err(VerifyErrorView::Outside(err)),
        ),
        after_minisign(job, checksum, Err::<(), E>(err)) == VerifyStepView::<E>::Finished(
            Err(VerifyErrorView::Outside(err)),
        ),
{
}

/// A checksum that the lockfile holds for the platform counts before that of the package. Where it holds
/// none, and the package's checksums are enabled, the checksum file is sought, among the assets of the
/// release or by its address; else the file is compared at once. Either way the lockfile then has an
/// entry for the platform, and nothing else of the version has changed.
pub proof fn law_which_checksum_counts<E>(job: VerificationView, checksum: AquaChecksum)
    ensures
        ({
            let recorded = lock::info_of(job.tv.lock_platforms, job.platform_key).checksum;
            let tv = ToolVersionView {
                lock_platforms: lock::with_entry(job.tv.lock_platforms, job.platform_key),
                ..job.tv
            };
            let with_entry = VerificationView { tv, ..job };
            let compared = VerifyStepView::<E>::Compare {
                tv,
                path: job.tv.download_path.join(job.filename),
            };
            let next = after_minisign(job, Some(checksum), Ok::<(), E>(()));
            &&& recorded is Some ==> next == compared
            &&& !checksum.enabled ==> next == compared
            &&& recorded is None && checksum.enabled && checksum.kind is GithubRelease ==> next == (
            VerifyStepView::<E>::ChecksumAsset { job: with_entry, checksum })
            &&& recorded is None && checksum.enabled && checksum.kind is Http ==> next == (
            VerifyStepView::<E>::ChecksumUrl { job: with_entry, checksum })
            &&& after_minisign(job, None, Ok::<(), E>(())) == compared
        }),
{
}

/// The checksum file is downloaded beside the file, under the file's name and `.checksum`; the same file
/// is then verified with cosign, and is then read. A failure ends the verification.
pub proof fn law_checksum_file<E>(
    job: VerificationView,
    checksum: AquaChecksum,
    url: Seq<char>,
    err: E,
)
    ensures
        ({
            let path = job.tv.download_path.join(job.filename + ".checksum"@);
            let failed = VerifyStepView::<E>::Finished(Err(VerifyErrorView::Outside(err)));
            &&& after_checksum_url(job, checksum, Ok::<Seq<char>, E>(url)) == (
            VerifyStepView::<E>::DownloadChecksum { url, path, job, checksum })
            &&& after_checksum_file(job, checksum, Ok::<(), E>(())) == (
            VerifyStepView::<E>::Cosign { path, job, checksum })
            &&& after_cosign(job, checksum, Ok::<(), E>(())) == (
            VerifyStepView::<E>::ReadChecksum { path, job, checksum })
            &&& after_checksum_url(job, checksum, Err::<Seq<char>, E>(err)) == failed
            &&& after_checksum_file(job, checksum, Err::<(), E>(err)) == failed
            &&& after_cosign(job, checksum, Err::<(), E>(err)) == failed
            &&& after_content(job, checksum, Err::<Seq<char>, E>(err)) == failed
        }),
{
}

/// The digest that the checksum file gives for the file is recorded in the lockfile for the platform,
/// after the algorithm and a colon, and the downloaded file is compared with it; nothing else of the
/// version has changed. A checksum file that gives none ends the verification, with why it does not.
pub proof fn law_recorded_digest<E>(
    job: VerificationView,
    checksum: AquaChecksum,
    content: Seq<char>,
    digest: Seq<char>,
    why: Seq<char>,
    tv: ToolVersionView,
    err: E,
)
    ensures
        ({
            let given = checksum::digest_of(checksum, content, job.filename);
            let next = after_content(job, checksum, Ok::<Seq<char>, E>(content));
            let failed = |why: VerifyErrorView<E>| VerifyStepView::<E>::Finished(Err(why));
            &&& given == checksum::DigestView::Digest(digest) ==> next == (
            VerifyStepView::<E>::Compare {
                tv: ToolVersionView {
                    lock_platforms: lock::with_checksum(
                        job.tv.lock_platforms,
                        job.platform_key,
                        checksum.algorithm@ + seq![':'] + digest,
                    ),
                    ..job.tv
                },
                path: job.tv.download_path.join(job.filename),
            })
            &&& given is NoPattern ==> next == failed(VerifyErrorView::NoPattern)
            &&& given == checksum::DigestView::BadPattern(why) ==> next == failed(
                VerifyErrorView::BadPattern(why),
            )
            &&& given is NoGroup ==> next == failed(VerifyErrorView::NoGroup)
            &&& given is NoDigest ==> next == failed(VerifyErrorView::NoDigest)
        }),
        after_comparison(Ok::<ToolVersionView, E>(tv)) == VerifyStepView::<E>::Finished(Ok(tv)),
        after_comparison(Err::<ToolVersionView, E>(err)) == VerifyStepView::<E>::Finished(
            Err(VerifyErrorView::Outside(err)),
        ),
{
    reveal_strlit(":");
    assert(":"@ == seq![':']);
}

} // verus!
