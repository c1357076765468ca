//! Verifying the SLSA provenance of a downloaded file.
use vstd::prelude::*;

use crate::command::{AquaSettings, CommandLine, CommandLineView};
use crate::package;
use crate::package::{AquaPackage, AquaSlsaProvenance};
use crate::paths::{HostPath, PathView};
use crate::release;
use crate::release::{GithubAsset, GithubAssetView};
use crate::text;

verus! {

/// A file whose provenance is being verified.
pub struct SlsaJob {
    pub slsa: AquaSlsaProvenance,
    pub repo: String,
    pub v: String,
    pub filename: String,
    pub download_path: HostPath,
}

/// A file whose provenance is being verified.
pub struct SlsaJobView {
    pub slsa: AquaSlsaProvenance,
    pub repo: Seq<char>,
    pub v: Seq<char>,
    pub filename: Seq<char>,
    pub download_path: PathView,
}

impl View for SlsaJob {
    type V = SlsaJobView;

    open spec fn view(&self) -> SlsaJobView {
        SlsaJobView {
            slsa: self.slsa,
            repo: self.repo@,
            v: self.v@,
            filename: self.filename@,
            download_path: self.download_path@,
        }
    }
}

/// How the verification of a provenance ended, where nothing failed.
pub enum SlsaOutcome {
    /// The settings switch it off.
    SwitchedOff,
    /// The package has no provenance.
    NotDeclared,
    /// The package disables it.
    Disabled,
    /// `slsa-verifier` is not installed.
    NoVerifier,
    /// The release lacks the asset that should hold the provenance.
    NoAsset(String),
    /// The provenance is published in a way that is not supported.
    UnsupportedType(String),
    /// `slsa-verifier` has accepted the file.
    Verified,
}

/// How the verification of a provenance ended, where nothing failed.
pub enum SlsaOutcomeView {
    SwitchedOff,
    NotDeclared,
    Disabled,
    NoVerifier,
    NoAsset(Seq<char>),
    UnsupportedType(Seq<char>),
    Verified,
}

impl View for SlsaOutcome {
    type V = SlsaOutcomeView;

    open spec fn view(&self) -> SlsaOutcomeView {
        match *self {
            SlsaOutcome::SwitchedOff => SlsaOutcomeView::SwitchedOff,
            SlsaOutcome::NotDeclared => SlsaOutcomeView::NotDeclared,
            SlsaOutcome::Disabled => SlsaOutcomeView::Disabled,
            SlsaOutcome::NoVerifier => SlsaOutcomeView::NoVerifier,
            SlsaOutcome::NoAsset(asset) => SlsaOutcomeView::NoAsset(asset@),
            SlsaOutcome::UnsupportedType(kind) => SlsaOutcomeView::UnsupportedType(kind@),
            SlsaOutcome::Verified => SlsaOutcomeView::Verified,
        }
    }
}

/// `slsa-verifier` is being looked for.
pub struct AwaitVerifier {
    pub job: SlsaJob,
}

/// The name of the provenance's asset is being rendered.
pub struct AwaitAssetName {
    pub job: SlsaJob,
    pub program: String,
}

/// The release is being fetched.
pub struct AwaitRelease {
    pub job: SlsaJob,
    pub program: String,
    pub asset: String,
}

/// The address of the provenance is being rendered.
pub struct AwaitUrl {
    pub job: SlsaJob,
    pub program: String,
}

/// The provenance is being downloaded.
pub struct AwaitProvenance {
    pub job: SlsaJob,
    pub program: String,
    pub path: HostPath,
}

/// `slsa-verifier` is running.
pub struct AwaitExecution {}

/// What is to be done next.
pub enum SlsaStep<E> {
    /// Look for `slsa-verifier`.
    FindVerifier { next: AwaitVerifier },
    /// Render the name of the asset that holds the provenance.
    AssetName { next: AwaitAssetName },
    /// Fetch the release of a version.
    Release { repo: String, v: String, next: AwaitRelease },
    /// Render the address of the provenance.
    Url { next: AwaitUrl },
    /// Download the provenance to the path that the state holds.
    Download { url: String, next: AwaitProvenance },
    /// Run `slsa-verifier`.
    Execute { command: CommandLine, next: AwaitExecution },
    /// The verification has come to its end.
    Finished(Result<SlsaOutcome, E>),
}

/// What is to be done next.
pub enum SlsaStepView<E> {
    FindVerifier { job: SlsaJobView },
    AssetName { job: SlsaJobView, program: Seq<char> },
    Release {
        repo: Seq<char>,
        v: Seq<char>,
        job: SlsaJobView,
        program: Seq<char>,
        asset: Seq<char>,
    },
    Url { job: SlsaJobView, program: Seq<char> },
    Download { url: Seq<char>, path: PathView, job: SlsaJobView, program: Seq<char> },
    Execute { command: CommandLineView },
    Finished(Result<SlsaOutcomeView, E>),
}

impl<E> View for SlsaStep<E> {
    type V = SlsaStepView<E>;

    open spec fn view(&self) -> SlsaStepView<E> {
        match *self {
            SlsaStep::FindVerifier { next } => SlsaStepView::FindVerifier { job: next.job@ },
            SlsaStep::AssetName { next } => SlsaStepView::AssetName {
                job: next.job@,
                program: next.program@,
            },
            SlsaStep::Release { repo, v, next } => SlsaStepView::Release {
                repo: repo@,
                v: v@,
                job: next.job@,
                program: next.program@,
                asset: next.asset@,
            },
            SlsaStep::Url { next } => SlsaStepView::Url {
                job: next.job@,
                program: next.program@,
            },
            SlsaStep::Download { url, next } => SlsaStepView::Download {
                url: url@,
                path: next.path@,
                job: next.job@,
                program: next.program@,
            },
            SlsaStep::Execute { command, next } => SlsaStepView::Execute { command: command@ },
            SlsaStep::Finished(Ok(outcome)) => SlsaStepView::Finished(Ok(outcome@)),
            SlsaStep::Finished(Err(err)) => SlsaStepView::Finished(Err(err)),
        }
    }
}

/// The repository of the provenance: where the provenance names none, that of the package.
pub open spec fn slsa_repo(slsa: AquaSlsaProvenance, pkg: AquaPackage) -> Seq<char> {
    package::repo_of(
        package::text_or(slsa.repo_owner, pkg.repo_owner@),
        package::text_or(slsa.repo_name, pkg.repo_name@),
    )
}

/// Provenance is verified where the settings want it and the package has it and does not disable
/// it; `slsa-verifier` is then looked for.
pub open spec fn first_step<E>(
    settings: AquaSettings,
    pkg: AquaPackage,
    v: Seq<char>,
    filename: Seq<char>,
    download_path: PathView,
) -> SlsaStepView<E> {
    if !settings.slsa {
        SlsaStepView::Finished(Ok(SlsaOutcomeView::SwitchedOff))
    } else if let Some(slsa) = pkg.slsa_provenance {
        if slsa.enabled == Some(false) {
            SlsaStepView::Finished(Ok(SlsaOutcomeView::Disabled))
        } else {
            SlsaStepView::FindVerifier {
                job: SlsaJobView { slsa, repo: slsa_repo(slsa, pkg), v, filename, download_path },
            }
        }
    } else {
        SlsaStepView::Finished(Ok(SlsaOutcomeView::NotDeclared))
    }
}

/// How the provenance is published decides how it is found.
pub open spec fn after_verifier<E>(job: SlsaJobView, reply: Option<Seq<char>>) -> SlsaStepView<E> {
    let kind = package::text_or(job.slsa.kind, Seq::empty());
    match reply {
        None => SlsaStepView::Finished(Ok(SlsaOutcomeView::NoVerifier)),
        Some(program) => if kind == "github_release"@ {
            SlsaStepView::AssetName { job, program }
        } else if kind == "http"@ {
            SlsaStepView::Url { job, program }
        } else {
            SlsaStepView::Finished(Ok(SlsaOutcomeView::UnsupportedType(kind)))
        },
    }
}

/// The asset is sought in the release of the version.
pub open spec fn after_asset_name<E>(
    job: SlsaJobView,
    program: Seq<char>,
    reply: Result<Seq<char>, E>,
) -> SlsaStepView<E> {
    match reply {
        Err(err) => SlsaStepView::Finished(Err(err)),
        Ok(asset) => SlsaStepView::Release { repo: job.repo, v: job.v, job, program, asset },
    }
}

/// The asset of that name is downloaded, under its name.
pub open spec fn after_release<E>(
    job: SlsaJobView,
    program: Seq<char>,
    asset: Seq<char>,
    reply: Result<Seq<GithubAssetView>, E>,
) -> SlsaStepView<E> {
    match reply {
        Err(err) => SlsaStepView::Finished(Err(err)),
        Ok(assets) => match release::asset_url(assets, seq![asset]) {
            None => SlsaStepView::Finished(Ok(SlsaOutcomeView::NoAsset(asset))),
            Some(url) => SlsaStepView::Download {
                url,
                path: job.download_path.join(asset),
                job,
                program,
            },
        },
    }
}

/// A provenance with an address of its own is downloaded under the name of the file.
pub open spec fn after_url<E>(
    job: SlsaJobView,
    program: Seq<char>,
    reply: Result<Seq<char>, E>,
) -> SlsaStepView<E> {
    match reply {
        Err(err) => SlsaStepView::Finished(Err(err)),
        Ok(url) => SlsaStepView::Download {
            url,
            path: job.download_path.join(job.filename),
            job,
            program,
        },
    }
}

/// How `slsa-verifier` is called. The source tag is that of the provenance, or the version; a tag
/// `-` means that none is handed over.
pub open spec fn slsa_command(
    job: SlsaJobView,
    program: Seq<char>,
    provenance: PathView,
) -> CommandLineView {
    let source_uri = package::text_or(job.slsa.source_uri, "github.com/"@ + job.repo);
    let source_tag = package::text_or(job.slsa.source_tag, job.v);
    let tag_args = if source_tag == "-"@ {
        Seq::empty()
    } else {
        seq!["--source-tag"@, source_tag]
    };
    CommandLineView {
        program,
        args: seq![
            "verify-artifact"@,
            job.download_path.join(job.filename).text,
            "--provenance-repository"@,
            job.repo,
            "--source-uri"@,
            source_uri,
            "--provenance-path"@,
            provenance.text,
        ] + tag_args,
        envs: Seq::empty(),
    }
}

/// With the provenance in place `slsa-verifier` is run.
pub open spec fn after_provenance<E>(
    job: SlsaJobView,
    program: Seq<char>,
    path: PathView,
    reply: Result<(), E>,
) -> SlsaStepView<E> {
    match reply {
        Err(err) => SlsaStepView::Finished(Err(err)),
        Ok(_) => SlsaStepView::Execute { command: slsa_command(job, program, path) },
    }
}

/// What `slsa-verifier` says ends the verification.
pub open spec fn after_execution<E>(reply: Result<(), E>) -> SlsaStepView<E> {
    match reply {
        Err(err) => SlsaStepView::Finished(Err(err)),
        Ok(_) => SlsaStepView::Finished(Ok(SlsaOutcomeView::Verified)),
    }
}

/// Begins the verification of a file's provenance.
pub fn verify_slsa<E>(
    settings: &AquaSettings,
    pkg: &AquaPackage,
    v: &str,
    filename: &str,
    download_path: &HostPath,
) -> (step: SlsaStep<E>)
    ensures
        step@ == first_step::<E>(*settings, *pkg, v@, filename@, download_path@),
{
    if !settings.slsa {
        return SlsaStep::Finished(Ok(SlsaOutcome::SwitchedOff));
    }
    match &pkg.slsa_provenance {
        None => SlsaStep::Finished(Ok(SlsaOutcome::NotDeclared)),
        Some(slsa) => {
            if let Some(false) = slsa.enabled {
                return SlsaStep::Finished(Ok(SlsaOutcome::Disabled));
            }
            let owner = package::string_or(&slsa.repo_owner, pkg.repo_owner.as_str());
            let name = package::string_or(&slsa.repo_name, pkg.repo_name.as_str());
            let job = SlsaJob {
                slsa: slsa.duplicate(),
                repo: package::repo(owner.as_str(), name.as_str()),
                v: v.to_owned(),
                filename: filename.to_owned(),
                download_path: download_path.duplicate(),
            };
            SlsaStep::FindVerifier { next: AwaitVerifier { job } }
        },
    }
}

impl AwaitVerifier {
    /// Goes on with where `slsa-verifier` is, if it is installed.
    pub fn resume<E>(self, reply: Option<String>) -> (step: SlsaStep<E>)
        ensures
            step@ == after_verifier::<E>(self.job@, text::opt_text(reply)),
    {
        let program = match reply {
            None => {
                return SlsaStep::Finished(Ok(SlsaOutcome::NoVerifier));
            },
            Some(program) => program,
        };
        let kind = package::string_or(&self.job.slsa.kind, "");
        assert(""@ =~= Seq::<char>::empty()) by {
            reveal_strlit("");
        }
        if text::same(kind.as_str(), "github_release") {
            SlsaStep::AssetName { next: AwaitAssetName { job: self.job, program } }
        } else if text::same(kind.as_str(), "http") {
            SlsaStep::Url { next: AwaitUrl { job: self.job, program } }
        } else {
            SlsaStep::Finished(Ok(SlsaOutcome::UnsupportedType(kind)))
        }
    }
}

impl AwaitAssetName {
    /// Goes on with the name of the asset that holds the provenance.
    pub fn resume<E>(self, reply: Result<String, E>) -> (step: SlsaStep<E>)
        ensures
            step@ == after_asset_name(self.job@, self.program@, text::text_reply(reply)),
    {
        match reply {
            Err(err) => SlsaStep::Finished(Err(err)),
            Ok(asset) => {
                let repo = self.job.repo.clone();
                let v = self.job.v.clone();
                let next = AwaitRelease { job: self.job, program: self.program, asset };
                SlsaStep::Release { repo, v, next }
            },
        }
    }
}

impl AwaitRelease {
    /// Goes on with the assets of the release.
    pub fn resume<E>(self, reply: Result<Vec<GithubAsset>, E>) -> (step: SlsaStep<E>)
        ensures
            step@ == after_release(self.job@, self.program@, self.asset@, release::assets_reply(reply)),
    {
        match reply {
            Err(err) => SlsaStep::Finished(Err(err)),
            Ok(assets) => match release::find_asset(&assets, self.asset.as_str()) {
                None => SlsaStep::Finished(Ok(SlsaOutcome::NoAsset(self.asset))),
                Some(url) => {
                    let path = self.job.download_path.join(self.asset.as_str());
                    let next = AwaitProvenance { job: self.job, program: self.program, path };
                    SlsaStep::Download { url, next }
                },
            },
        }
    }
}

impl AwaitUrl {
    /// Goes on with the address of the provenance.
    pub fn resume<E>(self, reply: Result<String, E>) -> (step: SlsaStep<E>)
        ensures
            step@ == after_url(self.job@, self.program@, text::text_reply(reply)),
    {
        match reply {
            Err(err) => SlsaStep::Finished(Err(err)),
            Ok(url) => {
                let path = self.job.download_path.join(self.job.filename.as_str());
                let next = AwaitProvenance { job: self.job, program: self.program, path };
                SlsaStep::Download { url, next }
            },
        }
    }
}

impl AwaitProvenance {
    /// Goes on when the provenance has been downloaded, or could not be.
    pub fn resume<E>(self, reply: Result<(), E>) -> (step: SlsaStep<E>)
        ensures
            step@ == after_provenance(self.job@, self.program@, self.path@, reply),
    {
        if let Err(err) = reply {
            return SlsaStep::Finished(Err(err));
        }
        let job = self.job;
        let artifact = job.download_path.join(job.filename.as_str());
        let home = "github.com/".to_owned().concat(job.repo.as_str());
        let source_uri = package::string_or(&job.slsa.source_uri, home.as_str());
        let source_tag = package::string_or(&job.slsa.source_tag, job.v.as_str());
        let mut command = CommandLine::new(self.program).arg("verify-artifact").arg(
            artifact.as_str(),
        ).arg("--provenance-repository").arg(job.repo.as_str()).arg("--source-uri").arg(
            source_uri.as_str(),
        ).arg("--provenance-path").arg(self.path.as_str());
        if !text::same(source_tag.as_str(), "-") {
            command = command.arg("--source-tag").arg(source_tag.as_str());
        }
        assert(command@.args =~= slsa_command(job@, self.program@, self.path@).args);
        SlsaStep::Execute { command, next: AwaitExecution {  } }
    }
}

impl AwaitExecution {
    /// Goes on with what `slsa-verifier` says.
    pub fn resume<E>(self, reply: Result<(), E>) -> (step: SlsaStep<E>)
        ensures
            step@ == after_execution(reply),
    {
        match reply {
            Err(err) => SlsaStep::Finished(Err(err)),
            Ok(_) => SlsaStep::Finished(Ok(SlsaOutcome::Verified)),
        }
    }
}

/// What comes back from outside in the course of a verification.
pub struct Replies<E> {
    pub verifier: Option<Seq<char>>,
    pub asset_name: Result<Seq<char>, E>,
    pub release: Result<Seq<GithubAssetView>, E>,
    pub url: Result<Seq<char>, E>,
    pub provenance: Result<(), E>,
    pub execution: Result<(), E>,
}

/// The step that follows when the present one is answered.
pub open spec fn answered<E>(step: SlsaStepView<E>, replies: Replies<E>) -> SlsaStepView<E> {
    match step {
        SlsaStepView::FindVerifier { job } => after_verifier(job, replies.verifier),
        SlsaStepView::AssetName { job, program } => after_asset_name(
            job,
            program,
            replies.asset_name,
        ),
        SlsaStepView::Release { repo, v, job, program, asset } => after_release(
            job,
            program,
            asset,
            replies.release,
        ),
        SlsaStepView::Url { job, program } => after_url(job, program, replies.url),
        SlsaStepView::Download { url, path, job, program } => after_provenance(
            job,
            program,
            path,
            replies.provenance,
        ),
        SlsaStepView::Execute { command } => after_execution(replies.execution),
        SlsaStepView::Finished(outcome) => step,
    }
}

/// The step that a verification has come to when `n` steps have been answered.
pub open spec fn run<E>(first: SlsaStepView<E>, replies: Replies<E>, n: nat) -> SlsaStepView<E>
    decreases n,
{
    if n == 0 {
        first
    } else {
        answered(run(first, replies, (n - 1) as nat), replies)
    }
}

/// Where the provenance of a file is downloaded to.
pub open spec fn provenance_path(job: SlsaJobView, asset: Seq<char>) -> PathView {
    if package::text_or(job.slsa.kind, Seq::empty()) == "github_release"@ {
        job.download_path.join(asset)
    } else {
        job.download_path.join(job.filename)
    }
}

/// Where the provenance is downloaded from: the asset of the release, or the address that was
/// rendered; nothing where neither can be had.
pub open spec fn provenance_url<E>(slsa: AquaSlsaProvenance, replies: Replies<E>) -> Option<
    Seq<char>,
> {
    let kind = package::text_or(slsa.kind, Seq::empty());
    if kind == "github_release"@ {
        match (replies.asset_name, replies.release) {
            (Ok(asset), Ok(assets)) => release::asset_url(assets, seq![asset]),
            _ => None,
        }
    } else if kind == "http"@ && replies.url is Ok {
        Some(replies.url->Ok_0)
    } else {
        None
    }
}

/// What is known of a run after each number of answers.
spec fn on_course<E>(job: SlsaJobView, replies: Replies<E>, step: SlsaStepView<E>) -> bool {
    let kind = package::text_or(job.slsa.kind, Seq::empty());
    match step {
        SlsaStepView::FindVerifier { job: j } => j == job,
        SlsaStepView::AssetName { job: j, program } => {
            j == job && replies.verifier == Some(program) && kind == "github_release"@
        },
        SlsaStepView::Release { repo, v, job: j, program, asset } => {
            j == job && replies.verifier == Some(program) && kind == "github_release"@
                && replies.asset_name == Ok::<Seq<char>, E>(asset)
        },
        SlsaStepView::Url { job: j, program } => {
            j == job && replies.verifier == Some(program) && kind != "github_release"@ && kind
                == "http"@
        },
        SlsaStepView::Download { url, path, job: j, program } => {
            j == job && replies.verifier == Some(program) && provenance_url(job.slsa, replies)
                == Some(url) && path == provenance_path(job, replies.asset_name->Ok_0)
        },
        SlsaStepView::Execute { command } => {
            replies.verifier is Some && provenance_url(job.slsa, replies) is Some
                && replies.provenance is Ok && command == slsa_command(
                job,
                replies.verifier->0,
                provenance_path(job, replies.asset_name->Ok_0),
            )
        },
        SlsaStepView::Finished(Ok(SlsaOutcomeView::Verified)) => {
            replies.verifier is Some && provenance_url(job.slsa, replies) is Some
                && replies.provenance is Ok && replies.execution is Ok
        },
        SlsaStepView::Finished(Ok(SlsaOutcomeView::NoVerifier)) => replies.verifier is None,
        SlsaStepView::Finished(Ok(SlsaOutcomeView::NoAsset(_))) => {
            provenance_url(job.slsa, replies) is None
        },
        SlsaStepView::Finished(Ok(SlsaOutcomeView::UnsupportedType(_))) => {
            provenance_url(job.slsa, replies) is None
        },
        SlsaStepView::Finished(Ok(_)) => false,
        SlsaStepView::Finished(Err(_)) => true,
    }
}

proof fn lemma_on_course<E>(job: SlsaJobView, replies: Replies<E>, n: nat)
    ensures
        on_course(job, replies, run(SlsaStepView::FindVerifier { job }, replies, n)),
    decreases n,
{
    if n > 0 {
        lemma_on_course(job, replies, (n - 1) as nat);
    }
}

proof fn lemma_stays_finished<E>(outcome: Result<SlsaOutcomeView, E>, replies: Replies<E>, n: nat)
    ensures
        run(SlsaStepView::Finished(outcome), replies, n) == SlsaStepView::Finished(outcome),
    decreases n,
{
    if n > 0 {
        lemma_stays_finished(outcome, replies, (n - 1) as nat);
    }
}

/// Whatever comes back from outside: a provenance counts as verified only where the settings and
/// the package want it verified, and `slsa-verifier` was found, was given a provenance that had been
/// downloaded, and accepted the file.
pub proof fn law_verified_by_the_verifier<E>(
    settings: AquaSettings,
    pkg: AquaPackage,
    v: Seq<char>,
    filename: Seq<char>,
    download_path: PathView,
    replies: Replies<E>,
    n: nat,
)
    requires
        run(first_step::<E>(settings, pkg, v, filename, download_path), replies, n)
            == SlsaStepView::<E>::Finished(Ok(SlsaOutcomeView::Verified)),
    ensures
        settings.slsa,
        pkg.slsa_provenance matches Some(slsa) && slsa.enabled != Some(false) && provenance_url(
            slsa,
            replies,
        ) is Some,
        replies.verifier is Some,
        replies.provenance is Ok,
        replies.execution is Ok,
{
    let first = first_step::<E>(settings, pkg, v, filename, download_path);
    match first {
        SlsaStepView::FindVerifier { job } => lemma_on_course(job, replies, n),
        SlsaStepView::Finished(outcome) => lemma_stays_finished(outcome, replies, n),
        _ => {},
    }
}

/// Whatever else comes back from outside: where a provenance is wanted, and neither `slsa-verifier` nor
/// the provenance is lacking, the verification passes only when `slsa-verifier` has accepted the file
/// with the provenance that was downloaded.
pub proof fn law_passed_is_verified<E>(
    settings: AquaSettings,
    pkg: AquaPackage,
    v: Seq<char>,
    filename: Seq<char>,
    download_path: PathView,
    replies: Replies<E>,
    n: nat,
    outcome: SlsaOutcomeView,
)
    requires
        run(first_step::<E>(settings, pkg, v, filename, download_path), replies, n)
            == SlsaStepView::<E>::Finished(Ok(outcome)),
        settings.slsa,
        pkg.slsa_provenance matches Some(slsa) && slsa.enabled != Some(false) && provenance_url(
            slsa,
            replies,
        ) is Some,
        replies.verifier is Some,
    ensures
        outcome is Verified,
        replies.provenance is Ok,
        replies.execution is Ok,
{
    match first_step::<E>(settings, pkg, v, filename, download_path) {
        SlsaStepView::FindVerifier { job } => lemma_on_course(job, replies, n),
        _ => {},
    }
}

/// Whatever comes back from outside: what is run is the program that was found, on the downloaded
/// file, with the provenance that was downloaded, and with the repository, the source and the tag
/// that the provenance, or in their absence the package and the version, give.
pub proof fn law_command_of_the_verifier<E>(
    settings: AquaSettings,
    pkg: AquaPackage,
    v: Seq<char>,
    filename: Seq<char>,
    download_path: PathView,
    replies: Replies<E>,
    n: nat,
    command: CommandLineView,
)
    requires
        run(first_step::<E>(settings, pkg, v, filename, download_path), replies, n) == (
        SlsaStepView::<E>::Execute { command }),
    ensures
        pkg.slsa_provenance matches Some(slsa) && provenance_url(slsa, replies) is Some,
        replies.verifier is Some,
        replies.provenance is Ok,
        ({
            let slsa = pkg.slsa_provenance->0;
            let job = SlsaJobView {
                slsa,
                repo: slsa_repo(slsa, pkg),
                v,
                filename,
                download_path,
            };
            command == slsa_command(
                job,
                replies.verifier->0,
                provenance_path(job, replies.asset_name->Ok_0),
            )
        }),
{
    let first = first_step::<E>(settings, pkg, v, filename, download_path);
    match first {
        SlsaStepView::FindVerifier { job } => lemma_on_course(job, replies, n),
        SlsaStepView::Finished(outcome) => lemma_stays_finished(outcome, replies, n),
        _ => {},
    }
}

/// Every verification comes to its end after at most six answers. Where it is wanted and nothing is
/// lacking or fails, the provenance is verified.
pub proof fn law_verification_ends<E>(
    settings: AquaSettings,
    pkg: AquaPackage,
    v: Seq<char>,
    filename: Seq<char>,
    download_path: PathView,
    replies: Replies<E>,
)
    ensures
        run(first_step::<E>(settings, pkg, v, filename, download_path), replies, 6) is Finished,
        settings.slsa && (pkg.slsa_provenance matches Some(slsa) && slsa.enabled != Some(false)
            && provenance_url(slsa, replies) is Some) && replies.verifier is Some
            && replies.provenance is Ok && replies.execution is Ok ==> run(
            first_step::<E>(settings, pkg, v, filename, download_path),
            replies,
            6,
        ) == SlsaStepView::<E>::Finished(Ok(SlsaOutcomeView::Verified)),
{
    reveal_with_fuel(run, 7);
}

/// The provenance of a file is verified unless the settings switch it off, the package has none, or the
/// package says that it is disabled. It is sought in the repository that it names, or, for what it does
/// not name of it, in that of the package.
pub proof fn law_wanted_provenance<E>(
    settings: AquaSettings,
    pkg: AquaPackage,
    v: Seq<char>,
    filename: Seq<char>,
    download_path: PathView,
)
    ensures
        ({
            let first = first_step::<E>(settings, pkg, v, filename, download_path);
            &&& !settings.slsa ==> first == SlsaStepView::<E>::Finished(
                Ok(SlsaOutcomeView::SwitchedOff),
            )
            &&& settings.slsa && pkg.slsa_provenance is None ==> first
                == SlsaStepView::<E>::Finished(Ok(SlsaOutcomeView::NotDeclared))
            &&& settings.slsa && (pkg.slsa_provenance matches Some(slsa) && slsa.enabled == Some(
                false,
            )) ==> first == SlsaStepView::<E>::Finished(Ok(SlsaOutcomeView::Disabled))
            &&& settings.slsa ==> (pkg.slsa_provenance matches Some(slsa) ==> slsa.enabled != Some(
                false,
            ) ==> {
                let owner = match slsa.repo_owner {
                    Some(owner) => owner@,
                    None => pkg.repo_owner@,
                };
                let name = match slsa.repo_name {
                    Some(name) => name@,
                    None => pkg.repo_name@,
                };
                first == (SlsaStepView::<E>::FindVerifier {
                    job: SlsaJobView {
                        slsa,
                        repo: owner + "/"@ + name,
                        v,
                        filename,
                        download_path,
                    },
                })
            })
        }),
{
}

/// Without `slsa-verifier` the verification ends. With it, a provenance that is published with the
/// release is sought by its asset's name, one that is published elsewhere by its address, and one that
/// is published in any other way is not supported.
pub proof fn law_published_provenance<E>(job: SlsaJobView, program: Seq<char>, kind: Seq<char>)
    requires
        job.slsa.kind is None ==> kind == Seq::<char>::empty(),
        job.slsa.kind matches Some(k) ==> kind == k@,
    ensures
        after_verifier::<E>(job, None) == SlsaStepView::<E>::Finished(
            Ok(SlsaOutcomeView::NoVerifier),
        ),
        kind == "github_release"@ ==> after_verifier::<E>(job, Some(program)) == (
        SlsaStepView::<E>::AssetName { job, program }),
        kind == "http"@ ==> after_verifier::<E>(job, Some(program)) == (SlsaStepView::<E>::Url {
            job,
            program,
        }),
        kind != "github_release"@ && kind != "http"@ ==> after_verifier::<E>(job, Some(program))
            == SlsaStepView::<E>::Finished(Ok(SlsaOutcomeView::UnsupportedType(kind))),
{
    reveal_strlit("github_release");
    reveal_strlit("http");
    assert("github_release"@.len() == 14 && "http"@.len() == 4);
}

/// The asset is sought in the release of the version, by exactly its name, and is downloaded under that
/// name; a provenance with an address of its own is downloaded under the name of the file. A failure
/// ends the verification.
pub proof fn law_downloaded_provenance<E>(
    job: SlsaJobView,
    program: Seq<char>,
    asset: Seq<char>,
    before: Seq<GithubAssetView>,
    found: GithubAssetView,
    after: Seq<GithubAssetView>,
    url: Seq<char>,
    err: E,
)
    requires
        forall|i: int| 0 <= i < before.len() ==> (#[trigger] before[i]).name != asset,
        found.name == asset,
    ensures
        after_asset_name(job, program, Ok::<Seq<char>, E>(asset)) == (SlsaStepView::<E>::Release {
            repo: job.repo,
            v: job.v,
            job,
            program,
            asset,
        }),
        after_release(
            job,
            program,
            asset,
            Ok::<Seq<GithubAssetView>, E>(before + (seq![found] + after)),
        ) == (SlsaStepView::<E>::Download {
            url: found.browser_download_url,
            path: job.download_path.join(asset),
            job,
            program,
        }),
        after_release(job, program, asset, Ok::<Seq<GithubAssetView>, E>(before))
            == SlsaStepView::<E>::Finished(Ok(SlsaOutcomeView::NoAsset(asset))),
        after_url(job, program, Ok::<Seq<char>, E>(url)) == (SlsaStepView::<E>::Download {
            url,
            path: job.download_path.join(job.filename),
            job,
            program,
        }),
        after_asset_name(job, program, Err::<Seq<char>, E>(err)) == SlsaStepView::<E>::Finished(
            Err(err),
        ),
        after_release(job, program, asset, Err::<Seq<GithubAssetView>, E>(err))
            == SlsaStepView::<E>::Finished(Err(err)),
        after_url(job, program, Err::<Seq<char>, E>(err)) == SlsaStepView::<E>::Finished(Err(err)),
{
    release::law_asset_of_that_name(before, found, after);
}

/// `slsa-verifier` is given the downloaded file, the repository, the source, the provenance, and the tag
/// of the source. The source is the repository on GitHub, and its tag the version, unless the provenance
/// says otherwise; where it says `-`, no tag is handed over.
pub proof fn law_arguments_of_the_verifier<E>(
    job: SlsaJobView,
    program: Seq<char>,
    path: PathView,
    source: Seq<char>,
    tag: Seq<char>,
    err: E,
)
    requires
        job.slsa.source_uri is None ==> source == "github.com/"@ + job.repo,
        job.slsa.source_uri matches Some(uri) ==> source == uri@,
        job.slsa.source_tag is None ==> tag == job.v,
        job.slsa.source_tag matches Some(t) ==> tag == t@,
    ensures
        ({
            let args = seq![
                "verify-artifact"@,
                job.download_path.join(job.filename).text,
                "--provenance-repository"@,
                job.repo,
                "--source-uri"@,
                source,
                "--provenance-path"@,
                path.text,
            ];
            let execute = |args: Seq<Seq<char>>|
                SlsaStepView::<E>::Execute {
                    command: CommandLineView {
                        program,
                        args,
                        envs: Seq::<(Seq<char>, Seq<char>)>::empty(),
                    },
                };
            &&& tag != seq!['-'] ==> after_provenance(job, program, path, Ok::<(), E>(()))
                == execute(args + seq!["--source-tag"@, tag])
            &&& tag == seq!['-'] ==> after_provenance(job, program, path, Ok::<(), E>(()))
                == execute(args)
        }),
        after_provenance(job, program, path, Err::<(), E>(err)) == SlsaStepView::<E>::Finished(
            Err(err),
        ),
        after_execution(Ok::<(), E>(())) == SlsaStepView::<E>::Finished(
            Ok(SlsaOutcomeView::Verified),
        ),
        after_execution(Err::<(), E>(err)) == SlsaStepView::<E>::Finished(Err(err)),
{
    reveal_strlit("-");
    assert("-"@ == seq!['-']);
    let args = slsa_command(job, program, path).args;
    if tag == seq!['-'] {
        assert(args == seq![
            "verify-artifact"@,
            job.download_path.join(job.filename).text,
            "--provenance-repository"@,
            job.repo,
            "--source-uri"@,
            source,
            "--provenance-path"@,
            path.text,
        ]);
    }
}

} // verus!
