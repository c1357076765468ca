//! Verifying the minisign signature of a downloaded file.
use vstd::prelude::*;

use crate::command::AquaSettings;
use crate::package;
use crate::package::{AquaMinisign, AquaMinisignType, AquaPackage};
use crate::paths::{HostPath, PathView};
use crate::release;
use crate::release::{GithubAsset, GithubAssetView};
use crate::text;

verus! {

/// A file whose signature is being verified.
pub struct MinisignJob {
    pub minisign: AquaMinisign,
    pub repo: String,
    pub v: String,
    pub filename: String,
    pub download_path: HostPath,
}

/// A file whose signature is being verified.
pub struct MinisignJobView {
    pub minisign: AquaMinisign,
    pub repo: Seq<char>,
    pub v: Seq<char>,
    pub filename: Seq<char>,
    pub download_path: PathView,
}

impl View for MinisignJob {
    type V = MinisignJobView;

    open spec fn view(&self) -> MinisignJobView {
        MinisignJobView {
            minisign: self.minisign,
            repo: self.repo@,
            v: self.v@,
            filename: self.filename@,
            download_path: self.download_path@,
        }
    }
}

/// How the verification of a signature ended, where nothing failed.
pub enum MinisignOutcome {
    /// The settings switch it off.
    SwitchedOff,
    /// The package has no signature.
    NotDeclared,
    /// The package disables it.
    Disabled,
    /// The release lacks the asset that should hold the signature.
    NoAsset(String),
    /// The signature is that of the file.
    Verified,
}

/// How the verification of a signature ended, where nothing failed.
pub enum MinisignOutcomeView {
    SwitchedOff,
    NotDeclared,
    Disabled,
    NoAsset(Seq<char>),
    Verified,
}

impl View for MinisignOutcome {
    type V = MinisignOutcomeView;

    open spec fn view(&self) -> MinisignOutcomeView {
        match *self {
            MinisignOutcome::SwitchedOff => MinisignOutcomeView::SwitchedOff,
            MinisignOutcome::NotDeclared => MinisignOutcomeView::NotDeclared,
            MinisignOutcome::Disabled => MinisignOutcomeView::Disabled,
            MinisignOutcome::NoAsset(asset) => MinisignOutcomeView::NoAsset(asset@),
            MinisignOutcome::Verified => MinisignOutcomeView::Verified,
        }
    }
}

/// The name of the signature's asset is being rendered.
pub struct AwaitAssetName {
    pub job: MinisignJob,
}

/// The release is being fetched.
pub struct AwaitRelease {
    pub job: MinisignJob,
    pub asset: String,
}

/// The address of the signature is being rendered.
pub struct AwaitUrl {
    pub job: MinisignJob,
}

/// The signature is being downloaded.
pub struct AwaitSignatureFile {
    pub job: MinisignJob,
    pub signature_path: HostPath,
}

/// The file is being read.
pub struct AwaitData {
    pub job: MinisignJob,
    pub signature_path: HostPath,
}

/// The signature is being read.
pub struct AwaitSignature {
    pub job: MinisignJob,
    pub data: Vec<u8>,
}

/// The public key is being rendered.
pub struct AwaitPublicKey {
    pub data: Vec<u8>,
    pub signature: String,
}

/// The signature is being checked.
pub struct AwaitCheck {}

/// What is to be done next.
pub enum MinisignStep<E> {
    /// Render the name of the asset that holds the signature.
    AssetName { next: AwaitAssetName },
    /// Fetch the release of a version.
    Release { repo: String, v: String, next: AwaitRelease },
    /// Render the address of the signature.
    Url { next: AwaitUrl },
    /// Download the signature to the path that the state holds.
    Download { url: String, next: AwaitSignatureFile },
    /// Read the file.
    ReadFile { path: HostPath, next: AwaitData },
    /// Read the signature.
    ReadSignature { path: HostPath, next: AwaitSignature },
    /// Render the public key for the version.
    PublicKey { v: String, next: AwaitPublicKey },
    /// Check the signature.
    Check { public_key: String, data: Vec<u8>, signature: String, next: AwaitCheck },
    /// The verification has come to its end.
    Finished(Result<MinisignOutcome, E>),
}

/// What is to be done next.
pub enum MinisignStepView<E> {
    AssetName { job: MinisignJobView },
    Release { repo: Seq<char>, v: Seq<char>, job: MinisignJobView, asset: Seq<char> },
    Url { job: MinisignJobView },
    Download { url: Seq<char>, job: MinisignJobView, signature_path: PathView },
    ReadFile { path: PathView, job: MinisignJobView, signature_path: PathView },
    ReadSignature { path: PathView, job: MinisignJobView, data: Seq<u8> },
    PublicKey { v: Seq<char>, data: Seq<u8>, signature: Seq<char> },
    Check { public_key: Seq<char>, data: Seq<u8>, signature: Seq<char> },
    Finished(Result<MinisignOutcomeView, E>),
}

impl<E> View for MinisignStep<E> {
    type V = MinisignStepView<E>;

    open spec fn view(&self) -> MinisignStepView<E> {
        match *self {
            MinisignStep::AssetName { next } => MinisignStepView::AssetName { job: next.job@ },
            MinisignStep::Release { repo, v, next } => MinisignStepView::Release {
                repo: repo@,
                v: v@,
                job: next.job@,
                asset: next.asset@,
            },
            MinisignStep::Url { next } => MinisignStepView::Url { job: next.job@ },
            MinisignStep::Download { url, next } => MinisignStepView::Download {
                url: url@,
                job: next.job@,
                signature_path: next.signature_path@,
            },
            MinisignStep::ReadFile { path, next } => MinisignStepView::ReadFile {
                path: path@,
                job: next.job@,
                signature_path: next.signature_path@,
            },
            MinisignStep::ReadSignature { path, next } => MinisignStepView::ReadSignature {
                path: path@,
                job: next.job@,
                data: next.data@,
            },
            MinisignStep::PublicKey { v, next } => MinisignStepView::PublicKey {
                v: v@,
                data: next.data@,
                signature: next.signature@,
            },
            MinisignStep::Check { public_key, data, signature, next } => MinisignStepView::Check {
                public_key: public_key@,
                data: data@,
                signature: signature@,
            },
            MinisignStep::Finished(Ok(outcome)) => MinisignStepView::Finished(Ok(outcome@)),
            MinisignStep::Finished(Err(err)) => MinisignStepView::Finished(Err(err)),
        }
    }
}

/// The repository of the signature: where the signature names none, that of the package.
pub open spec fn minisign_repo(minisign: AquaMinisign, pkg: AquaPackage) -> Seq<char> {
    package::repo_of(
        package::text_or(minisign.repo_owner, pkg.repo_owner@),
        package::text_or(minisign.repo_name, pkg.repo_name@),
    )
}

/// A signature is verified where the settings want it and the package has it and does not disable
/// it; how it is published decides how it is found. The setting is the one for provenance.
pub open spec fn first_step<E>(
    settings: AquaSettings,
    pkg: AquaPackage,
    v: Seq<char>,
    filename: Seq<char>,
    download_path: PathView,
) -> MinisignStepView<E> {
    if !settings.slsa {
        MinisignStepView::Finished(Ok(MinisignOutcomeView::SwitchedOff))
    } else if let Some(minisign) = pkg.minisign {
        let job = MinisignJobView {
            minisign,
            repo: minisign_repo(minisign, pkg),
            v,
            filename,
            download_path,
        };
        if minisign.enabled == Some(false) {
            MinisignStepView::Finished(Ok(MinisignOutcomeView::Disabled))
        } else {
            match minisign.kind {
                AquaMinisignType::GithubRelease => MinisignStepView::AssetName { job },
                AquaMinisignType::Http => MinisignStepView::Url { job },
            }
        }
    } else {
        MinisignStepView::Finished(Ok(MinisignOutcomeView::NotDeclared))
    }
}

/// The asset is sought in the release of the version.
pub open spec fn after_asset_name<E>(
    job: MinisignJobView,
    reply: Result<Seq<char>, E>,
) -> MinisignStepView<E> {
    match reply {
        Err(err) => MinisignStepView::Finished(Err(err)),
        Ok(asset) => MinisignStepView::Release { repo: job.repo, v: job.v, job, asset },
    }
}

/// The asset of that name is downloaded, under its name.
pub open spec fn after_release<E>(
    job: MinisignJobView,
    asset: Seq<char>,
    reply: Result<Seq<GithubAssetView>, E>,
) -> MinisignStepView<E> {
    match reply {
        Err(err) => MinisignStepView::Finished(Err(err)),
        Ok(assets) => match release::asset_url(assets, seq![asset]) {
            None => MinisignStepView::Finished(Ok(MinisignOutcomeView::NoAsset(asset))),
            Some(url) => MinisignStepView::Download {
                url,
                job,
                signature_path: job.download_path.join(asset),
            },
        },
    }
}

/// Where the downloaded file is.
pub open spec fn file_path(job: MinisignJobView) -> PathView {
    job.download_path.join(job.filename)
}

/// A signature with an address of its own is downloaded beside the file.
pub open spec fn after_url<E>(
    job: MinisignJobView,
    reply: Result<Seq<char>, E>,
) -> MinisignStepView<E> {
    match reply {
        Err(err) => MinisignStepView::Finished(Err(err)),
        Ok(url) => MinisignStepView::Download {
            url,
            job,
            signature_path: file_path(job).with_extension(".minisig"@),
        },
    }
}

/// With the signature in place the file is read.
pub open spec fn after_signature_file<E>(
    job: MinisignJobView,
    signature_path: PathView,
    reply: Result<(), E>,
) -> MinisignStepView<E> {
    match reply {
        Err(err) => MinisignStepView::Finished(Err(err)),
        Ok(_) => MinisignStepView::ReadFile { path: file_path(job), job, signature_path },
    }
}

/// The file is followed by the signature.
pub open spec fn after_data<E>(
    job: MinisignJobView,
    signature_path: PathView,
    reply: Result<Seq<u8>, E>,
) -> MinisignStepView<E> {
    match reply {
        Err(err) => MinisignStepView::Finished(Err(err)),
        Ok(data) => MinisignStepView::ReadSignature { path: signature_path, job, data },
    }
}

/// The signature is followed by the public key.
pub open spec fn after_signature<E>(
    job: MinisignJobView,
    data: Seq<u8>,
    reply: Result<Seq<char>, E>,
) -> MinisignStepView<E> {
    match reply {
        Err(err) => MinisignStepView::Finished(Err(err)),
        Ok(signature) => MinisignStepView::PublicKey { v: job.v, data, signature },
    }
}

/// The signature is checked against the file under the public key.
pub open spec fn after_public_key<E>(
    data: Seq<u8>,
    signature: Seq<char>,
    reply: Result<Seq<char>, E>,
) -> MinisignStepView<E> {
    match reply {
        Err(err) => MinisignStepView::Finished(Err(err)),
        Ok(public_key) => MinisignStepView::Check { public_key, data, signature },
    }
}

/// The check ends the verification.
pub open spec fn after_check<E>(reply: Result<(), E>) -> MinisignStepView<E> {
    match reply {
        Err(err) => MinisignStepView::Finished(Err(err)),
        Ok(_) => MinisignStepView::Finished(Ok(MinisignOutcomeView::Verified)),
    }
}

/// An answer that is bytes, or a failure.
pub open spec fn bytes_reply<E>(reply: Result<Vec<u8>, E>) -> Result<Seq<u8>, E> {
    match reply {
        Ok(bytes) => Ok(bytes@),
        Err(err) => Err(err),
    }
}

/// Begins the verification of a file's signature.
pub fn verify_minisign<E>(
    settings: &AquaSettings,
    pkg: &AquaPackage,
    v: &str,
    filename: &str,
    download_path: &HostPath,
) -> (step: MinisignStep<E>)
    ensures
        step@ == first_step::<E>(*settings, *pkg, v@, filename@, download_path@),
{
    if !settings.slsa {
        return MinisignStep::Finished(Ok(MinisignOutcome::SwitchedOff));
    }
    match &pkg.minisign {
        None => MinisignStep::Finished(Ok(MinisignOutcome::NotDeclared)),
        Some(minisign) => {
            if let Some(false) = minisign.enabled {
                return MinisignStep::Finished(Ok(MinisignOutcome::Disabled));
            }
            let owner = package::string_or(&minisign.repo_owner, pkg.repo_owner.as_str());
            let name = package::string_or(&minisign.repo_name, pkg.repo_name.as_str());
            let job = MinisignJob {
                minisign: minisign.duplicate(),
                repo: package::repo(owner.as_str(), name.as_str()),
                v: v.to_owned(),
                filename: filename.to_owned(),
                download_path: download_path.duplicate(),
            };
            match minisign.kind {
                AquaMinisignType::GithubRelease => MinisignStep::AssetName {
                    next: AwaitAssetName { job },
                },
                AquaMinisignType::Http => MinisignStep::Url { next: AwaitUrl { job } },
            }
        },
    }
}

impl MinisignJob {
    /// Where the downloaded file is.
    fn file_path(&self) -> (r: HostPath)
        ensures
            r@ == file_path(self@),
    {
        self.download_path.join(self.filename.as_str())
    }
}

impl AwaitAssetName {
    /// Goes on with the name of the asset that holds the signature.
    pub fn resume<E>(self, reply: Result<String, E>) -> (step: MinisignStep<E>)
        ensures
            step@ == after_asset_name(self.job@, text::text_reply(reply)),
    {
        match reply {
            Err(err) => MinisignStep::Finished(Err(err)),
            Ok(asset) => {
                let repo = self.job.repo.clone();
                let v = self.job.v.clone();
                MinisignStep::Release { repo, v, next: AwaitRelease { job: self.job, asset } }
            },
        }
    }
}

impl AwaitRelease {
    /// Goes on with the assets of the release.
    pub fn resume<E>(self, reply: Result<Vec<GithubAsset>, E>) -> (step: MinisignStep<E>)
        ensures
            step@ == after_release(self.job@, self.asset@, release::assets_reply(reply)),
    {
        match reply {
            Err(err) => MinisignStep::Finished(Err(err)),
            Ok(assets) => match release::find_asset(&assets, self.asset.as_str()) {
                None => MinisignStep::Finished(Ok(MinisignOutcome::NoAsset(self.asset))),
                Some(url) => {
                    let signature_path = self.job.download_path.join(self.asset.as_str());
                    let next = AwaitSignatureFile { job: self.job, signature_path };
                    MinisignStep::Download { url, next }
                },
            },
        }
    }
}

impl AwaitUrl {
    /// Goes on with the address of the signature.
    pub fn resume<E>(self, reply: Result<String, E>) -> (step: MinisignStep<E>)
        ensures
            step@ == after_url(self.job@, text::text_reply(reply)),
    {
        match reply {
            Err(err) => MinisignStep::Finished(Err(err)),
            Ok(url) => {
                let path = self.job.file_path();
                proof {
                    reveal_strlit(".minisig");
                }
                let signature_path = path.with_extension(".minisig");
                let next = AwaitSignatureFile { job: self.job, signature_path };
                MinisignStep::Download { url, next }
            },
        }
    }
}

impl AwaitSignatureFile {
    /// Goes on when the signature has been downloaded, or could not be.
    pub fn resume<E>(self, reply: Result<(), E>) -> (step: MinisignStep<E>)
        ensures
            step@ == after_signature_file(self.job@, self.signature_path@, reply),
    {
        match reply {
            Err(err) => MinisignStep::Finished(Err(err)),
            Ok(_) => {
                let path = self.job.file_path();
                let next = AwaitData { job: self.job, signature_path: self.signature_path };
                MinisignStep::ReadFile { path, next }
            },
        }
    }
}

impl AwaitData {
    /// Goes on with what the file holds.
    pub fn resume<E>(self, reply: Result<Vec<u8>, E>) -> (step: MinisignStep<E>)
        ensures
            step@ == after_data(self.job@, self.signature_path@, bytes_reply(reply)),
    {
        match reply {
            Err(err) => MinisignStep::Finished(Err(err)),
            Ok(data) => {
                let next = AwaitSignature { job: self.job, data };
                MinisignStep::ReadSignature { path: self.signature_path, next }
            },
        }
    }
}

impl AwaitSignature {
    /// Goes on with the signature.
    pub fn resume<E>(self, reply: Result<String, E>) -> (step: MinisignStep<E>)
        ensures
            step@ == after_signature(self.job@, self.data@, text::text_reply(reply)),
    {
        match reply {
            Err(err) => MinisignStep::Finished(Err(err)),
            Ok(signature) => {
                let next = AwaitPublicKey { data: self.data, signature };
                MinisignStep::PublicKey { v: self.job.v, next }
            },
        }
    }
}

impl AwaitPublicKey {
    /// Goes on with the public key.
    pub fn resume<E>(self, reply: Result<String, E>) -> (step: MinisignStep<E>)
        ensures
            step@ == after_public_key(self.data@, self.signature@, text::text_reply(reply)),
    {
        match reply {
            Err(err) => MinisignStep::Finished(Err(err)),
            Ok(public_key) => MinisignStep::Check {
                public_key,
                data: self.data,
                signature: self.signature,
                next: AwaitCheck {  },
            },
        }
    }
}

impl AwaitCheck {
    /// Goes on with what the check says.
    pub fn resume<E>(self, reply: Result<(), E>) -> (step: MinisignStep<E>)
        ensures
            step@ == after_check(reply),
    {
        match reply {
            Err(err) => MinisignStep::Finished(Err(err)),
            Ok(_) => MinisignStep::Finished(Ok(MinisignOutcome::Verified)),
        }
    }
}

/// What comes back from outside in the course of a verification.
pub struct Replies<E> {
    pub asset_name: Result<Seq<char>, E>,
    pub release: Result<Seq<GithubAssetView>, E>,
    pub url: Result<Seq<char>, E>,
    pub signature_file: Result<(), E>,
    pub data: Result<Seq<u8>, E>,
    pub signature: Result<Seq<char>, E>,
    pub public_key: Result<Seq<char>, E>,
    pub check: Result<(), E>,
}

/// The step that follows when the present one is answered.
pub open spec fn answered<E>(step: MinisignStepView<E>, replies: Replies<E>) -> MinisignStepView<E> {
    match step {
        MinisignStepView::AssetName { job } => after_asset_name(job, replies.asset_name),
        MinisignStepView::Release { repo, v, job, asset } => after_release(
            job,
            asset,
            replies.release,
        ),
        MinisignStepView::Url { job } => after_url(job, replies.url),
        MinisignStepView::Download { url, job, signature_path } => after_signature_file(
            job,
            signature_path,
            replies.signature_file,
        ),
        MinisignStepView::ReadFile { path, job, signature_path } => after_data(
            job,
            signature_path,
            replies.data,
        ),
        MinisignStepView::ReadSignature { path, job, data } => after_signature(
            job,
            data,
            replies.signature,
        ),
        MinisignStepView::PublicKey { v, data, signature } => after_public_key(
            data,
            signature,
            replies.public_key,
        ),
        MinisignStepView::Check { public_key, data, signature } => after_check(replies.check),
        MinisignStepView::Finished(outcome) => step,
    }
}

/// The step that a verification has come to when `n` steps have been answered.
pub open spec fn run<E>(
    first: MinisignStepView<E>,
    replies: Replies<E>,
    n: nat,
) -> MinisignStepView<E>
    decreases n,
{
    if n == 0 {
        first
    } else {
        answered(run(first, replies, (n - 1) as nat), replies)
    }
}

/// Where the signature is downloaded from: the asset of the release, or the address that was
/// rendered; nothing where neither can be had.
pub open spec fn signature_url<E>(minisign: AquaMinisign, replies: Replies<E>) -> Option<Seq<char>> {
    match minisign.kind {
        AquaMinisignType::GithubRelease => match (replies.asset_name, replies.release) {
            (Ok(asset), Ok(assets)) => release::asset_url(assets, seq![asset]),
            _ => None,
        },
        AquaMinisignType::Http => match replies.url {
            Ok(url) => Some(url),
            Err(_) => None,
        },
    }
}

/// Where the signature of a file is downloaded to.
pub open spec fn signature_path_of<E>(
    minisign: AquaMinisign,
    filename: Seq<char>,
    download_path: PathView,
    replies: Replies<E>,
) -> PathView {
    match minisign.kind {
        AquaMinisignType::GithubRelease => download_path.join(replies.asset_name->Ok_0),
        AquaMinisignType::Http => download_path.join(filename).with_extension(".minisig"@),
    }
}

/// What is known of a run after each number of answers.
spec fn on_course<E>(
    settings: AquaSettings,
    pkg: AquaPackage,
    v: Seq<char>,
    filename: Seq<char>,
    download_path: PathView,
    replies: Replies<E>,
    step: MinisignStepView<E>,
) -> bool {
    let minisign = pkg.minisign->0;
    let job = MinisignJobView {
        minisign,
        repo: minisign_repo(minisign, pkg),
        v,
        filename,
        download_path,
    };
    let path = signature_path_of(minisign, filename, download_path, replies);
    let wanted = settings.slsa && (pkg.minisign matches Some(m) && m.enabled != Some(false));
    let found = wanted && signature_url(minisign, replies) is Some;
    match step {
        MinisignStepView::AssetName { job: j } => {
            wanted && j == job && minisign.kind is GithubRelease
        },
        MinisignStepView::Release { repo, v, job: j, asset } => {
            wanted && j == job && minisign.kind is GithubRelease && replies.asset_name == Ok::<
                Seq<char>,
                E,
            >(asset)
        },
        MinisignStepView::Url { job: j } => wanted && j == job && minisign.kind is Http,
        MinisignStepView::Download { url, job: j, signature_path } => {
            wanted && j == job && signature_url(minisign, replies) == Some(url) && signature_path
                == path
        },
        MinisignStepView::Finished(Ok(MinisignOutcomeView::Verified)) => {
            found && replies.signature_file is Ok && replies.data is Ok && replies.signature is Ok
                && replies.public_key is Ok && replies.check is Ok
        },
        MinisignStepView::Finished(Ok(MinisignOutcomeView::NoAsset(_))) => {
            signature_url(minisign, replies) is None
        },
        MinisignStepView::Finished(Ok(_)) => !wanted,
        MinisignStepView::Finished(Err(_)) => true,
        MinisignStepView::ReadFile { path: from, job: j, signature_path } => {
            found && j == job && replies.signature_file is Ok && from == file_path(job)
                && signature_path == path
        },
        MinisignStepView::ReadSignature { path: from, job: j, data } => {
            found && j == job && replies.signature_file is Ok && replies.data == Ok::<Seq<u8>, E>(
                data,
            ) && from == path
        },
        MinisignStepView::PublicKey { v: version, data, signature } => {
            found && version == v && replies.signature_file is Ok && replies.data == Ok::<Seq<u8>, E>(data)
                && replies.signature == Ok::<Seq<char>, E>(signature)
        },
        MinisignStepView::Check { public_key, data, signature } => {
            found && replies.signature_file is Ok && replies.data == Ok::<Seq<u8>, E>(data)
                && replies.signature == Ok::<Seq<char>, E>(signature) && replies.public_key == Ok::<
                Seq<char>,
                E,
            >(public_key)
        },
    }
}

proof fn lemma_on_course<E>(
    settings: AquaSettings,
    pkg: AquaPackage,
    v: Seq<char>,
    filename: Seq<char>,
    download_path: PathView,
    replies: Replies<E>,
    n: nat,
)
    ensures
        on_course(
            settings,
            pkg,
            v,
            filename,
            download_path,
            replies,
            run(first_step::<E>(settings, pkg, v, filename, download_path), replies, n),
        ),
    decreases n,
{
    if n > 0 {
        lemma_on_course(settings, pkg, v, filename, download_path, replies, (n - 1) as nat);
    }
}

/// Whatever comes back from outside: a signature counts as verified only where the settings and the
/// package want it verified, and it was found, was downloaded, and was accepted by the check.
pub proof fn law_verified_by_the_check<E>(
    settings: AquaSettings,
    pkg: AquaPackage,
    v: Seq<char>,
    filename: Seq<char>,
    download_path: PathView,
    replies: Replies<E>,
    n: nat,
)
    requires
        run(first_step::<E>(settings, pkg, v, filename, download_path), replies, n)
            == MinisignStepView::<E>::Finished(Ok(MinisignOutcomeView::Verified)),
    ensures
        settings.slsa,
        pkg.minisign matches Some(minisign) && minisign.enabled != Some(false) && signature_url(
            minisign,
            replies,
        ) is Some,
        replies.signature_file is Ok,
        replies.data is Ok,
        replies.signature is Ok,
        replies.public_key is Ok,
        replies.check is Ok,
{
    lemma_on_course(settings, pkg, v, filename, download_path, replies, n);
}

/// Whatever else comes back from outside: where a signature is wanted, and is not lacking, the
/// verification passes only when the check has accepted the signature that was downloaded.
pub proof fn law_passed_is_verified<E>(
    settings: AquaSettings,
    pkg: AquaPackage,
    v: Seq<char>,
    filename: Seq<char>,
    download_path: PathView,
    replies: Replies<E>,
    n: nat,
    outcome: MinisignOutcomeView,
)
    requires
        run(first_step::<E>(settings, pkg, v, filename, download_path), replies, n)
            == MinisignStepView::<E>::Finished(Ok(outcome)),
        settings.slsa,
        pkg.minisign matches Some(minisign) && minisign.enabled != Some(false) && signature_url(
            minisign,
            replies,
        ) is Some,
    ensures
        outcome is Verified,
        replies.signature_file is Ok,
        replies.data is Ok,
        replies.signature is Ok,
        replies.public_key is Ok,
        replies.check is Ok,
{
    lemma_on_course(settings, pkg, v, filename, download_path, replies, n);
}

/// Whatever comes back from outside: what is checked is the signature that was read, against the
/// bytes that were read, under the key that was rendered.
pub proof fn law_checked_signature<E>(
    settings: AquaSettings,
    pkg: AquaPackage,
    v: Seq<char>,
    filename: Seq<char>,
    download_path: PathView,
    replies: Replies<E>,
    n: nat,
    public_key: Seq<char>,
    data: Seq<u8>,
    signature: Seq<char>,
)
    requires
        run(first_step::<E>(settings, pkg, v, filename, download_path), replies, n) == (
        MinisignStepView::<E>::Check { public_key, data, signature }),
    ensures
        replies.signature_file is Ok,
        replies.data == Ok::<Seq<u8>, E>(data),
        replies.signature == Ok::<Seq<char>, E>(signature),
        replies.public_key == Ok::<Seq<char>, E>(public_key),
{
    lemma_on_course(settings, pkg, v, filename, download_path, replies, n);
}

/// Whatever comes back from outside: the file that is read is the downloaded one.
pub proof fn law_read_file<E>(
    settings: AquaSettings,
    pkg: AquaPackage,
    v: Seq<char>,
    filename: Seq<char>,
    download_path: PathView,
    replies: Replies<E>,
    n: nat,
    path: PathView,
    job: MinisignJobView,
    signature_path: PathView,
)
    requires
        run(first_step::<E>(settings, pkg, v, filename, download_path), replies, n) == (
        MinisignStepView::<E>::ReadFile { path, job, signature_path }),
    ensures
        path == download_path.join(filename),
{
    lemma_on_course(settings, pkg, v, filename, download_path, replies, n);
}

/// Whatever comes back from outside: the signature that is read is the one that was downloaded.
pub proof fn law_read_signature<E>(
    settings: AquaSettings,
    pkg: AquaPackage,
    v: Seq<char>,
    filename: Seq<char>,
    download_path: PathView,
    replies: Replies<E>,
    n: nat,
    path: PathView,
    job: MinisignJobView,
    data: Seq<u8>,
)
    requires
        run(first_step::<E>(settings, pkg, v, filename, download_path), replies, n) == (
        MinisignStepView::<E>::ReadSignature { path, job, data }),
    ensures
        pkg.minisign matches Some(minisign) && signature_url(minisign, replies) is Some && path
            == signature_path_of(minisign, filename, download_path, replies),
        replies.signature_file is Ok,
        replies.data == Ok::<Seq<u8>, E>(data),
{
    lemma_on_course(settings, pkg, v, filename, download_path, replies, n);
}

/// Every verification comes to its end after at most seven answers. Where it is wanted and nothing
/// is lacking or fails, the signature is verified.
pub proof fn law_verification_ends<E>(
    settings: AquaSettings,
    pkg: AquaPackage,
    v: Seq<char>,
    filename: Seq<char>,
    download_path: PathView,
    replies: Replies<E>,
)
    ensures
        run(first_step::<E>(settings, pkg, v, filename, download_path), replies, 7) is Finished,
        settings.slsa && (pkg.minisign matches Some(minisign) && minisign.enabled != Some(false)
            && signature_url(minisign, replies) is Some) && replies.signature_file is Ok
            && replies.data is Ok && replies.signature is Ok && replies.public_key is Ok
            && replies.check is Ok ==> run(
            first_step::<E>(settings, pkg, v, filename, download_path),
            replies,
            7,
        ) == MinisignStepView::<E>::Finished(Ok(MinisignOutcomeView::Verified)),
{
    reveal_with_fuel(run, 8);
}

/// The signature of a file is verified unless the setting for provenance switches it off, the package
/// has none, or the package says that it is disabled. It is sought in the repository that it names, or,
/// for what it does not name of it, in that of the package: by its asset's name where it is published
/// with the release, and else by its address.
pub proof fn law_wanted_signature<E>(
    settings: AquaSettings,
    pkg: AquaPackage,
    v: Seq<char>,
    filename: Seq<char>,
    download_path: PathView,
)
    ensures
        ({
            let first = first_step::<E>(settings, pkg, v, filename, download_path);
            &&& !settings.slsa ==> first == MinisignStepView::<E>::Finished(
                Ok(MinisignOutcomeView::SwitchedOff),
            )
            &&& settings.slsa && pkg.minisign is None ==> first == MinisignStepView::<E>::Finished(
                Ok(MinisignOutcomeView::NotDeclared),
            )
            &&& settings.slsa && (pkg.minisign matches Some(minisign) && minisign.enabled == Some(
                false,
            )) ==> first == MinisignStepView::<E>::Finished(Ok(MinisignOutcomeView::Disabled))
            &&& settings.slsa ==> (pkg.minisign matches Some(minisign) ==> minisign.enabled != Some(
                false,
            ) ==> {
                let owner = match minisign.repo_owner {
                    Some(owner) => owner@,
                    None => pkg.repo_owner@,
                };
                let name = match minisign.repo_name {
                    Some(name) => name@,
                    None => pkg.repo_name@,
                };
                let job = MinisignJobView {
                    minisign,
                    repo: owner + "/"@ + name,
                    v,
                    filename,
                    download_path,
                };
                &&& minisign.kind is GithubRelease ==> first == (
                MinisignStepView::<E>::AssetName { job })
                &&& minisign.kind is Http ==> first == (MinisignStepView::<E>::Url { job })
            })
        }),
{
}

/// The asset is sought in the release of the version, by exactly its name, and is downloaded under that
/// name; a signature with an address of its own is downloaded under the name of the file with another
/// extension. A failure ends the verification.
pub proof fn law_downloaded_signature<E>(
    job: MinisignJobView,
    asset: Seq<char>,
    before: Seq<GithubAssetView>,
    found: GithubAssetView,
    after: Seq<GithubAssetView>,
    url: Seq<char>,
    err: E,
)
    requires
        forall|i: int| 0 <= i < before.len() ==> (#[trigger] before[i]).name != asset,
        found.name == asset,
    ensures
        after_asset_name(job, Ok::<Seq<char>, E>(asset)) == (MinisignStepView::<E>::Release {
            repo: job.repo,
            v: job.v,
            job,
            asset,
        }),
        after_release(
            job,
            asset,
            Ok::<Seq<GithubAssetView>, E>(before + (seq![found] + after)),
        ) == (MinisignStepView::<E>::Download {
            url: found.browser_download_url,
            job,
            signature_path: job.download_path.join(asset),
        }),
        after_release(job, asset, Ok::<Seq<GithubAssetView>, E>(before))
            == MinisignStepView::<E>::Finished(Ok(MinisignOutcomeView::NoAsset(asset))),
        after_url(job, Ok::<Seq<char>, E>(url)) == (MinisignStepView::<E>::Download {
            url,
            job,
            signature_path: job.download_path.join(job.filename).with_extension(".minisig"@),
        }),
        after_asset_name(job, Err::<Seq<char>, E>(err)) == MinisignStepView::<E>::Finished(Err(err)),
        after_release(job, asset, Err::<Seq<GithubAssetView>, E>(err))
            == MinisignStepView::<E>::Finished(Err(err)),
        after_url(job, Err::<Seq<char>, E>(err)) == MinisignStepView::<E>::Finished(Err(err)),
{
    release::law_asset_of_that_name(before, found, after);
}

/// The downloaded file is read, then the signature from where it was downloaded to, then the public key
/// is rendered for the version, and the three are checked together. A failure ends the verification.
pub proof fn law_what_is_checked<E>(
    job: MinisignJobView,
    signature_path: PathView,
    data: Seq<u8>,
    signature: Seq<char>,
    public_key: Seq<char>,
    err: E,
)
    ensures
        after_signature_file(job, signature_path, Ok::<(), E>(())) == (
        MinisignStepView::<E>::ReadFile {
            path: job.download_path.join(job.filename),
            job,
            signature_path,
        }),
        after_data(job, signature_path, Ok::<Seq<u8>, E>(data)) == (
        MinisignStepView::<E>::ReadSignature { path: signature_path, job, data }),
        after_signature(job, data, Ok::<Seq<char>, E>(signature)) == (
        MinisignStepView::<E>::PublicKey { v: job.v, data, signature }),
        after_public_key(data, signature, Ok::<Seq<char>, E>(public_key)) == (
        MinisignStepView::<E>::Check { public_key, data, signature }),
        after_check(Ok::<(), E>(())) == MinisignStepView::<E>::Finished(
            Ok(MinisignOutcomeView::Verified),
        ),
        after_signature_file(job, signature_path, Err::<(), E>(err))
            == MinisignStepView::<E>::Finished(Err(err)),
        after_data(job, signature_path, Err::<Seq<u8>, E>(err)) == MinisignStepView::<E>::Finished(
            Err(err),
        ),
        after_signature(job, data, Err::<Seq<char>, E>(err)) == MinisignStepView::<E>::Finished(
            Err(err),
        ),
        after_public_key(data, signature, Err::<Seq<char>, E>(err))
            == MinisignStepView::<E>::Finished(Err(err)),
        after_check(Err::<(), E>(err)) == MinisignStepView::<E>::Finished(Err(err)),
{
}

} // verus!
