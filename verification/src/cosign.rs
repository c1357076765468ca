//! Verifying a checksum file with cosign.
use vstd::prelude::*;

use crate::command::{AquaSettings, CommandLine, CommandLineView};
use crate::package::{AquaCosign, AquaPackage};
use crate::paths::{HostPath, PathView};
use crate::text;

verus! {

/// A checksum file that is being verified.
pub struct CosignJob {
    pub cosign: AquaCosign,
    pub extra_args: Vec<String>,
    pub checksum_path: HostPath,
    pub download_path: HostPath,
    /// Whether cosign is to say more of what it does.
    pub verbose: bool,
}

/// A checksum file that is being verified.
pub struct CosignJobView {
    pub cosign: AquaCosign,
    pub extra_args: Seq<Seq<char>>,
    pub checksum_path: PathView,
    pub download_path: PathView,
    pub verbose: bool,
}

impl View for CosignJob {
    type V = CosignJobView;

    open spec fn view(&self) -> CosignJobView {
        CosignJobView {
            cosign: self.cosign,
            extra_args: text::texts(self.extra_args@),
            checksum_path: self.checksum_path@,
            download_path: self.download_path@,
            verbose: self.verbose,
        }
    }
}

/// How the verification with cosign ended, where nothing failed.
pub enum CosignOutcome {
    /// The settings switch it off.
    SwitchedOff,
    /// The package does not use cosign.
    NotDeclared,
    /// The package disables it.
    Disabled,
    /// cosign is not installed.
    NoCosign,
    /// cosign has accepted the checksum file.
    Verified,
}

/// An argument of cosign that depends on the version.
#[derive(Clone, Copy)]
pub enum CosignPart {
    Signature,
    Key,
    Certificate,
    /// The address of the bundle, which is downloaded before cosign is run.
    Bundle,
}

/// cosign is being looked for.
pub struct AwaitCosign {
    pub job: CosignJob,
}

/// An argument is being rendered.
pub struct AwaitPart {
    pub job: CosignJob,
    pub command: CommandLine,
    pub part: CosignPart,
}

/// The bundle is being downloaded.
pub struct AwaitBundle {
    pub job: CosignJob,
    pub command: CommandLine,
    pub path: HostPath,
}

/// The further options of the package are being rendered.
pub struct AwaitOpts {
    pub job: CosignJob,
    pub command: CommandLine,
}

/// cosign is running.
pub struct AwaitExecution {}

/// What is to be done next.
pub enum CosignStep<E> {
    /// Look for cosign.
    FindCosign { next: AwaitCosign },
    /// Render the argument that the state names.
    Part { next: AwaitPart },
    /// Download the bundle to the path that the state holds.
    DownloadBundle { url: String, next: AwaitBundle },
    /// Render the further options of the package.
    Opts { next: AwaitOpts },
    /// Run cosign.
    Execute { command: CommandLine, next: AwaitExecution },
    /// The verification has come to its end.
    Finished(Result<CosignOutcome, E>),
}

/// What is to be done next.
pub enum CosignStepView<E> {
    FindCosign { job: CosignJobView },
    Part { part: CosignPart, job: CosignJobView, command: CommandLineView },
    DownloadBundle {
        url: Seq<char>,
        path: PathView,
        job: CosignJobView,
        command: CommandLineView,
    },
    Opts { job: CosignJobView, command: CommandLineView },
    Execute { command: CommandLineView },
    Finished(Result<CosignOutcome, E>),
}

impl<E> View for CosignStep<E> {
    type V = CosignStepView<E>;

    open spec fn view(&self) -> CosignStepView<E> {
        match *self {
            CosignStep::FindCosign { next } => CosignStepView::FindCosign { job: next.job@ },
            CosignStep::Part { next } => CosignStepView::Part {
                part: next.part,
                job: next.job@,
                command: next.command@,
            },
            CosignStep::DownloadBundle { url, next } => CosignStepView::DownloadBundle {
                url: url@,
                path: next.path@,
                job: next.job@,
                command: next.command@,
            },
            CosignStep::Opts { next } => CosignStepView::Opts {
                job: next.job@,
                command: next.command@,
            },
            CosignStep::Execute { command, next } => CosignStepView::Execute { command: command@ },
            CosignStep::Finished(outcome) => CosignStepView::Finished(outcome),
        }
    }
}

/// How the package uses cosign.
pub open spec fn cosign_of(pkg: AquaPackage) -> Option<AquaCosign> {
    match pkg.checksum {
        Some(checksum) => checksum.cosign,
        None => None,
    }
}

/// The arguments that the user adds.
pub open spec fn extra_args_of(settings: AquaSettings) -> Seq<Seq<char>> {
    match settings.cosign_extra_args {
        Some(args) => text::texts(args@),
        None => Seq::empty(),
    }
}

/// A checksum file is verified where the settings want it and the package uses cosign and does not
/// disable it; cosign is then looked for.
pub open spec fn first_step<E>(
    settings: AquaSettings,
    pkg: AquaPackage,
    checksum_path: PathView,
    download_path: PathView,
    verbose: bool,
) -> CosignStepView<E> {
    if !settings.cosign {
        CosignStepView::Finished(Ok(CosignOutcome::SwitchedOff))
    } else if let Some(cosign) = cosign_of(pkg) {
        if cosign.enabled == Some(false) {
            CosignStepView::Finished(Ok(CosignOutcome::Disabled))
        } else {
            CosignStepView::FindCosign {
                job: CosignJobView {
                    cosign,
                    extra_args: extra_args_of(settings),
                    checksum_path,
                    download_path,
                    verbose,
                },
            }
        }
    } else {
        CosignStepView::Finished(Ok(CosignOutcome::NotDeclared))
    }
}

/// The command line before anything that depends on the version.
pub open spec fn base_command(job: CosignJobView, program: Seq<char>) -> CommandLineView {
    CommandLineView {
        program,
        args: if job.verbose {
            seq!["verify-blob"@, job.checksum_path.text, "--verbose"@]
        } else {
            seq!["verify-blob"@, job.checksum_path.text]
        },
        envs: if job.cosign.experimental == Some(true) {
            seq![("COSIGN_EXPERIMENTAL"@, "1"@)]
        } else {
            Seq::empty()
        },
    }
}

/// The arguments are rendered in their order, each one that the package has; the further options
/// come after them.
pub open spec fn ask_signature<E>(job: CosignJobView, command: CommandLineView) -> CosignStepView<E> {
    if job.cosign.has_signature {
        CosignStepView::Part { part: CosignPart::Signature, job, command }
    } else {
        ask_key(job, command)
    }
}

/// The step after the signature.
pub open spec fn ask_key<E>(job: CosignJobView, command: CommandLineView) -> CosignStepView<E> {
    if job.cosign.has_key {
        CosignStepView::Part { part: CosignPart::Key, job, command }
    } else {
        ask_certificate(job, command)
    }
}

/// The step after the key.
pub open spec fn ask_certificate<E>(
    job: CosignJobView,
    command: CommandLineView,
) -> CosignStepView<E> {
    if job.cosign.has_certificate {
        CosignStepView::Part { part: CosignPart::Certificate, job, command }
    } else {
        ask_bundle(job, command)
    }
}

/// The step after the certificate.
pub open spec fn ask_bundle<E>(job: CosignJobView, command: CommandLineView) -> CosignStepView<E> {
    if job.cosign.has_bundle {
        CosignStepView::Part { part: CosignPart::Bundle, job, command }
    } else {
        CosignStepView::Opts { job, command }
    }
}

/// With cosign found, its command line is put together.
pub open spec fn after_cosign<E>(job: CosignJobView, reply: Option<Seq<char>>) -> CosignStepView<E> {
    match reply {
        None => CosignStepView::Finished(Ok(CosignOutcome::NoCosign)),
        Some(program) => ask_signature(job, base_command(job, program)),
    }
}

/// A flag with its argument; an empty argument means that the flag is left out.
pub open spec fn flag(name: Seq<char>, arg: Seq<char>) -> Seq<Seq<char>> {
    if arg.len() == 0 {
        Seq::empty()
    } else {
        seq![name, arg]
    }
}

/// Where the bundle is kept: under the last part of its address.
pub open spec fn bundle_path(job: CosignJobView, url: Seq<char>) -> PathView {
    job.download_path.join(text::tail_after_last(url, '/'))
}

/// A rendered argument goes to the end of the command line; a bundle is downloaded first.
pub open spec fn after_part<E>(
    job: CosignJobView,
    command: CommandLineView,
    part: CosignPart,
    reply: Result<Seq<char>, E>,
) -> CosignStepView<E> {
    match reply {
        Err(err) => CosignStepView::Finished(Err(err)),
        Ok(arg) => match part {
            CosignPart::Signature => ask_key(job, command.args(flag("--signature"@, arg))),
            CosignPart::Key => ask_certificate(job, command.args(flag("--key"@, arg))),
            CosignPart::Certificate => ask_bundle(job, command.args(flag("--certificate"@, arg))),
            CosignPart::Bundle => if arg.len() == 0 {
                CosignStepView::Opts { job, command }
            } else {
                CosignStepView::DownloadBundle {
                    url: arg,
                    path: bundle_path(job, arg),
                    job,
                    command,
                }
            },
        },
    }
}

/// A downloaded bundle is handed over.
pub open spec fn after_bundle<E>(
    job: CosignJobView,
    command: CommandLineView,
    path: PathView,
    reply: Result<(), E>,
) -> CosignStepView<E> {
    match reply {
        Err(err) => CosignStepView::Finished(Err(err)),
        Ok(_) => CosignStepView::Opts { job, command: command.args(seq!["--bundle"@, path.text]) },
    }
}

/// The options of the package are followed by the arguments of the user; then cosign is run.
pub open spec fn after_opts<E>(
    job: CosignJobView,
    command: CommandLineView,
    reply: Result<Seq<Seq<char>>, E>,
) -> CosignStepView<E> {
    match reply {
        Err(err) => CosignStepView::Finished(Err(err)),
        Ok(opts) => CosignStepView::Execute { command: command.args(opts).args(job.extra_args) },
    }
}

/// What cosign says ends the verification.
pub open spec fn after_execution<E>(reply: Result<(), E>) -> CosignStepView<E> {
    match reply {
        Err(err) => CosignStepView::Finished(Err(err)),
        Ok(_) => CosignStepView::Finished(Ok(CosignOutcome::Verified)),
    }
}

/// Begins the verification of a checksum file.
pub fn cosign_checksums<E>(
    settings: &AquaSettings,
    pkg: &AquaPackage,
    checksum_path: &HostPath,
    download_path: &HostPath,
    verbose: bool,
) -> (step: CosignStep<E>)
    ensures
        step@ == first_step::<E>(*settings, *pkg, checksum_path@, download_path@, verbose),
{
    if !settings.cosign {
        return CosignStep::Finished(Ok(CosignOutcome::SwitchedOff));
    }
    let cosign = match &pkg.checksum {
        Some(checksum) => match checksum.cosign {
            Some(cosign) => cosign,
            None => {
                return CosignStep::Finished(Ok(CosignOutcome::NotDeclared));
            },
        },
        None => {
            return CosignStep::Finished(Ok(CosignOutcome::NotDeclared));
        },
    };
    if let Some(false) = cosign.enabled {
        return CosignStep::Finished(Ok(CosignOutcome::Disabled));
    }
    let extra_args = match &settings.cosign_extra_args {
        Some(args) => text::copy(args),
        None => Vec::new(),
    };
    assert(text::texts(extra_args@) =~= extra_args_of(*settings));
    let job = CosignJob {
        cosign,
        extra_args,
        checksum_path: checksum_path.duplicate(),
        download_path: download_path.duplicate(),
        verbose,
    };
    CosignStep::FindCosign { next: AwaitCosign { job } }
}

impl CosignJob {
    /// The step before the signature.
    fn ask_signature<E>(self, command: CommandLine) -> (step: CosignStep<E>)
        ensures
            step@ == ask_signature::<E>(self@, command@),
    {
        if self.cosign.has_signature {
            let next = AwaitPart { job: self, command, part: CosignPart::Signature };
            CosignStep::Part { next }
        } else {
            self.ask_key(command)
        }
    }

    /// The step after the signature.
    fn ask_key<E>(self, command: CommandLine) -> (step: CosignStep<E>)
        ensures
            step@ == ask_key::<E>(self@, command@),
    {
        if self.cosign.has_key {
            let next = AwaitPart { job: self, command, part: CosignPart::Key };
            CosignStep::Part { next }
        } else {
            self.ask_certificate(command)
        }
    }

    /// The step after the key.
    fn ask_certificate<E>(self, command: CommandLine) -> (step: CosignStep<E>)
        ensures
            step@ == ask_certificate::<E>(self@, command@),
    {
        if self.cosign.has_certificate {
            let next = AwaitPart { job: self, command, part: CosignPart::Certificate };
            CosignStep::Part { next }
        } else {
            self.ask_bundle(command)
        }
    }

    /// The step after the certificate.
    fn ask_bundle<E>(self, command: CommandLine) -> (step: CosignStep<E>)
        ensures
            step@ == ask_bundle::<E>(self@, command@),
    {
        if self.cosign.has_bundle {
            let next = AwaitPart { job: self, command, part: CosignPart::Bundle };
            CosignStep::Part { next }
        } else {
            CosignStep::Opts { next: AwaitOpts { job: self, command } }
        }
    }
}

/// Adds a flag with its argument, unless the argument is empty.
fn with_flag(command: CommandLine, name: &str, arg: &str) -> (r: CommandLine)
    ensures
        r@ == command@.args(flag(name@, arg@)),
{
    if arg.is_empty() {
        assert(command@.args + flag(name@, arg@) =~= command@.args);
        command
    } else {
        assert(command@.args.push(name@).push(arg@) =~= command@.args + seq![name@, arg@]);
        command.arg(name).arg(arg)
    }
}

impl AwaitCosign {
    /// Goes on with where cosign is, if it is installed.
    pub fn resume<E>(self, reply: Option<String>) -> (step: CosignStep<E>)
        ensures
            step@ == after_cosign::<E>(self.job@, text::opt_text(reply)),
    {
        match reply {
            None => CosignStep::Finished(Ok(CosignOutcome::NoCosign)),
            Some(program) => {
                let mut command = CommandLine::new(program).arg("verify-blob").arg(
                    self.job.checksum_path.as_str(),
                );
                if self.job.verbose {
                    command = command.arg("--verbose");
                }
                if let Some(true) = self.job.cosign.experimental {
                    command = command.env("COSIGN_EXPERIMENTAL", "1");
                }
                assert(command@.args =~= base_command(self.job@, program@).args);
                assert(command@.envs =~= base_command(self.job@, program@).envs);
                self.job.ask_signature(command)
            },
        }
    }
}

impl AwaitPart {
    /// Goes on with the rendered argument.
    pub fn resume<E>(self, reply: Result<String, E>) -> (step: CosignStep<E>)
        ensures
            step@ == after_part(self.job@, self.command@, self.part, text::text_reply(reply)),
    {
        let arg = match reply {
            Err(err) => {
                return CosignStep::Finished(Err(err));
            },
            Ok(arg) => arg,
        };
        match self.part {
            CosignPart::Signature => {
                let command = with_flag(self.command, "--signature", arg.as_str());
                self.job.ask_key(command)
            },
            CosignPart::Key => {
                let command = with_flag(self.command, "--key", arg.as_str());
                self.job.ask_certificate(command)
            },
            CosignPart::Certificate => {
                let command = with_flag(self.command, "--certificate", arg.as_str());
                self.job.ask_bundle(command)
            },
            CosignPart::Bundle => {
                if arg.as_str().is_empty() {
                    let next = AwaitOpts { job: self.job, command: self.command };
                    CosignStep::Opts { next }
                } else {
                    let name = text::after_last(arg.as_str(), '/');
                    let path = self.job.download_path.join(name);
                    let next = AwaitBundle { job: self.job, command: self.command, path };
                    CosignStep::DownloadBundle { url: arg, next }
                }
            },
        }
    }
}

impl AwaitBundle {
    /// Goes on when the bundle has been downloaded, or could not be.
    pub fn resume<E>(self, reply: Result<(), E>) -> (step: CosignStep<E>)
        ensures
            step@ == after_bundle(self.job@, self.command@, self.path@, reply),
    {
        match reply {
            Err(err) => CosignStep::Finished(Err(err)),
            Ok(_) => {
                let command = self.command.arg("--bundle").arg(self.path.as_str());
                assert(command@.args =~= self.command@.args + seq!["--bundle"@, self.path@.text]);
                CosignStep::Opts { next: AwaitOpts { job: self.job, command } }
            },
        }
    }
}

impl AwaitOpts {
    /// Goes on with the further options of the package.
    pub fn resume<E>(self, reply: Result<Vec<String>, E>) -> (step: CosignStep<E>)
        ensures
            step@ == after_opts(self.job@, self.command@, text::list_reply(reply)),
    {
        match reply {
            Err(err) => CosignStep::Finished(Err(err)),
            Ok(opts) => {
                let command = self.command.args(&opts).args(&self.job.extra_args);
                CosignStep::Execute { command, next: AwaitExecution {  } }
            },
        }
    }
}

impl AwaitExecution {
    /// Goes on with what cosign says.
    pub fn resume<E>(self, reply: Result<(), E>) -> (step: CosignStep<E>)
        ensures
            step@ == after_execution(reply),
    {
        match reply {
            Err(err) => CosignStep::Finished(Err(err)),
            Ok(_) => CosignStep::Finished(Ok(CosignOutcome::Verified)),
        }
    }
}

/// What comes back from outside in the course of a verification.
pub struct Replies<E> {
    pub cosign: Option<Seq<char>>,
    pub signature: Result<Seq<char>, E>,
    pub key: Result<Seq<char>, E>,
    pub certificate: Result<Seq<char>, E>,
    pub bundle: Result<Seq<char>, E>,
    pub bundle_file: Result<(), E>,
    pub opts: Result<Seq<Seq<char>>, E>,
    pub execution: Result<(), E>,
}

/// What is rendered of an argument.
pub open spec fn part_reply<E>(part: CosignPart, replies: Replies<E>) -> Result<Seq<char>, E> {
    match part {
        CosignPart::Signature => replies.signature,
        CosignPart::Key => replies.key,
        CosignPart::Certificate => replies.certificate,
        CosignPart::Bundle => replies.bundle,
    }
}

/// The step that follows when the present one is answered.
pub open spec fn answered<E>(step: CosignStepView<E>, replies: Replies<E>) -> CosignStepView<E> {
    match step {
        CosignStepView::FindCosign { job } => after_cosign(job, replies.cosign),
        CosignStepView::Part { part, job, command } => after_part(
            job,
            command,
            part,
            part_reply(part, replies),
        ),
        CosignStepView::DownloadBundle { url, path, job, command } => after_bundle(
            job,
            command,
            path,
            replies.bundle_file,
        ),
        CosignStepView::Opts { job, command } => after_opts(job, command, replies.opts),
        CosignStepView::Execute { command } => after_execution(replies.execution),
        CosignStepView::Finished(outcome) => step,
    }
}

/// The step that a verification has come to when `n` steps have been answered.
pub open spec fn run<E>(first: CosignStepView<E>, replies: Replies<E>, n: nat) -> CosignStepView<E>
    decreases n,
{
    if n == 0 {
        first
    } else {
        answered(run(first, replies, (n - 1) as nat), replies)
    }
}

/// A flag that the package has, with the argument that was rendered for it.
pub open spec fn rendered_flag<E>(
    name: Seq<char>,
    present: bool,
    reply: Result<Seq<char>, E>,
) -> Seq<Seq<char>> {
    if present {
        flag(name, reply->Ok_0)
    } else {
        Seq::empty()
    }
}

/// The bundle that the package has, unless its address is empty.
pub open spec fn bundle_args<E>(job: CosignJobView, reply: Result<Seq<char>, E>) -> Seq<Seq<char>> {
    if job.cosign.has_bundle && reply->Ok_0.len() > 0 {
        seq!["--bundle"@, bundle_path(job, reply->Ok_0).text]
    } else {
        Seq::empty()
    }
}

/// How cosign is called: on the checksum file, with the signature, the key, the certificate and the
/// bundle that the package has, with its further options, and with the arguments of the user.
pub open spec fn cosign_command<E>(job: CosignJobView, replies: Replies<E>) -> CommandLineView {
    command_to_opts(job, replies).args(replies.opts->Ok_0).args(job.extra_args)
}

/// The command line up to the bundle.
pub open spec fn command_to_opts<E>(job: CosignJobView, replies: Replies<E>) -> CommandLineView {
    command_before(job, replies, CosignPart::Bundle).args(bundle_args(job, replies.bundle))
}

/// The command line up to an argument.
pub open spec fn command_before<E>(
    job: CosignJobView,
    replies: Replies<E>,
    part: CosignPart,
) -> CommandLineView {
    let base = base_command(job, replies.cosign->0);
    let signed = base.args(
        rendered_flag("--signature"@, job.cosign.has_signature, replies.signature),
    );
    let keyed = signed.args(rendered_flag("--key"@, job.cosign.has_key, replies.key));
    match part {
        CosignPart::Signature => base,
        CosignPart::Key => signed,
        CosignPart::Certificate => keyed,
        CosignPart::Bundle => keyed.args(
            rendered_flag("--certificate"@, job.cosign.has_certificate, replies.certificate),
        ),
    }
}

/// Whether every argument that the package has could be rendered, and the bundle downloaded.
pub open spec fn rendered<E>(cosign: AquaCosign, replies: Replies<E>) -> bool {
    &&& cosign.has_signature ==> replies.signature is Ok
    &&& cosign.has_key ==> replies.key is Ok
    &&& cosign.has_certificate ==> replies.certificate is Ok
    &&& cosign.has_bundle ==> {
        &&& replies.bundle is Ok
        &&& replies.bundle->Ok_0.len() > 0 ==> replies.bundle_file is Ok
    }
}

/// Whether every argument before the given one could be rendered.
spec fn rendered_before<E>(cosign: AquaCosign, replies: Replies<E>, part: CosignPart) -> bool {
    &&& !(part is Signature) && cosign.has_signature ==> replies.signature is Ok
    &&& !(part is Signature || part is Key) && cosign.has_key ==> replies.key is Ok
    &&& part is Bundle && cosign.has_certificate ==> replies.certificate is Ok
}

/// Whether the package has an argument.
pub open spec fn has_part(cosign: AquaCosign, part: CosignPart) -> bool {
    match part {
        CosignPart::Signature => cosign.has_signature,
        CosignPart::Key => cosign.has_key,
        CosignPart::Certificate => cosign.has_certificate,
        CosignPart::Bundle => cosign.has_bundle,
    }
}

/// What is known of a run after each number of answers.
spec fn on_course<E>(job: CosignJobView, replies: Replies<E>, step: CosignStepView<E>) -> bool {
    match step {
        CosignStepView::FindCosign { job: j } => j == job,
        CosignStepView::Part { part, job: j, command } => {
            j == job && replies.cosign is Some && has_part(job.cosign, part) && rendered_before(
                job.cosign,
                replies,
                part,
            ) && command == command_before(job, replies, part)
        },
        CosignStepView::DownloadBundle { url, path, job: j, command } => {
            &&& j == job
            &&& replies.cosign is Some
            &&& job.cosign.has_bundle
            &&& rendered_before(job.cosign, replies, CosignPart::Bundle)
            &&& command == command_before(job, replies, CosignPart::Bundle)
            &&& replies.bundle == Ok::<Seq<char>, E>(url)
            &&& url.len() > 0
            &&& path == bundle_path(job, url)
        },
        CosignStepView::Opts { job: j, command } => {
            j == job && replies.cosign is Some && rendered(job.cosign, replies) && command
                == command_to_opts(job, replies)
        },
        CosignStepView::Execute { command } => {
            replies.cosign is Some && rendered(job.cosign, replies) && replies.opts is Ok && command
                == cosign_command(job, replies)
        },
        CosignStepView::Finished(Ok(CosignOutcome::Verified)) => {
            replies.cosign is Some && rendered(job.cosign, replies) && replies.opts is Ok
                && replies.execution is Ok
        },
        CosignStepView::Finished(Ok(CosignOutcome::NoCosign)) => replies.cosign is None,
        CosignStepView::Finished(Ok(_)) => false,
        CosignStepView::Finished(Err(_)) => true,
    }
}

proof fn lemma_on_course<E>(job: CosignJobView, replies: Replies<E>, n: nat)
    ensures
        on_course(job, replies, run(CosignStepView::FindCosign { job }, replies, n)),
    decreases n,
{
    if n > 0 {
        lemma_on_course(job, replies, (n - 1) as nat);
        assert forall|c: CommandLineView| #[trigger] c.args(Seq::empty()) == c by {
            assert(c.args(Seq::empty()).args =~= c.args);
        }
    }
}

proof fn lemma_stays_finished<E>(outcome: Result<CosignOutcome, E>, replies: Replies<E>, n: nat)
    ensures
        run(CosignStepView::Finished(outcome), replies, n) == CosignStepView::Finished(outcome),
    decreases n,
{
    if n > 0 {
        lemma_stays_finished(outcome, replies, (n - 1) as nat);
    }
}

/// Whatever comes back from outside: a checksum file counts as verified only where the settings and
/// the package want it verified, and cosign was found, was given all that the package has, and
/// accepted the file.
pub proof fn law_verified_by_cosign<E>(
    settings: AquaSettings,
    pkg: AquaPackage,
    checksum_path: PathView,
    download_path: PathView,
    verbose: bool,
    replies: Replies<E>,
    n: nat,
)
    requires
        run(
            first_step::<E>(settings, pkg, checksum_path, download_path, verbose),
            replies,
            n,
        ) == CosignStepView::<E>::Finished(Ok(CosignOutcome::Verified)),
    ensures
        settings.cosign,
        cosign_of(pkg) matches Some(cosign) && cosign.enabled != Some(false) && rendered(
            cosign,
            replies,
        ),
        replies.cosign is Some,
        replies.opts is Ok,
        replies.execution is Ok,
{
    match first_step::<E>(settings, pkg, checksum_path, download_path, verbose) {
        CosignStepView::FindCosign { job } => lemma_on_course(job, replies, n),
        CosignStepView::Finished(outcome) => lemma_stays_finished(outcome, replies, n),
        _ => {},
    }
}

/// Whatever else comes back from outside: where it is wanted, and cosign is not lacking, the
/// verification passes only when cosign, given all that the package has, has accepted the checksum
/// file.
pub proof fn law_passed_is_verified<E>(
    settings: AquaSettings,
    pkg: AquaPackage,
    checksum_path: PathView,
    download_path: PathView,
    verbose: bool,
    replies: Replies<E>,
    n: nat,
    outcome: CosignOutcome,
)
    requires
        run(
            first_step::<E>(settings, pkg, checksum_path, download_path, verbose),
            replies,
            n,
        ) == CosignStepView::<E>::Finished(Ok(outcome)),
        settings.cosign,
        cosign_of(pkg) matches Some(cosign) && cosign.enabled != Some(false),
        replies.cosign is Some,
    ensures
        outcome is Verified,
        rendered(cosign_of(pkg)->0, replies),
        replies.opts is Ok,
        replies.execution is Ok,
{
    match first_step::<E>(settings, pkg, checksum_path, download_path, verbose) {
        CosignStepView::FindCosign { job } => lemma_on_course(job, replies, n),
        _ => {},
    }
}

/// Whatever comes back from outside: what is run is the cosign that was found, on the checksum file,
/// with exactly the arguments that the package and the user give, in their order.
pub proof fn law_command_of_cosign<E>(
    settings: AquaSettings,
    pkg: AquaPackage,
    checksum_path: PathView,
    download_path: PathView,
    verbose: bool,
    replies: Replies<E>,
    n: nat,
    command: CommandLineView,
)
    requires
        run(
            first_step::<E>(settings, pkg, checksum_path, download_path, verbose),
            replies,
            n,
        ) == (CosignStepView::<E>::Execute { command }),
    ensures
        cosign_of(pkg) matches Some(cosign) && rendered(cosign, replies),
        replies.cosign is Some,
        replies.opts is Ok,
        command == cosign_command(
            CosignJobView {
                cosign: cosign_of(pkg)->0,
                extra_args: extra_args_of(settings),
                checksum_path,
                download_path,
                verbose,
            },
            replies,
        ),
{
    match first_step::<E>(settings, pkg, checksum_path, download_path, verbose) {
        CosignStepView::FindCosign { job } => lemma_on_course(job, replies, n),
        CosignStepView::Finished(outcome) => lemma_stays_finished(outcome, replies, n),
        _ => {},
    }
}

/// Every verification comes to its end after at most eight answers. Where it is wanted and nothing is
/// lacking or fails, the checksum file is verified.
pub proof fn law_verification_ends<E>(
    settings: AquaSettings,
    pkg: AquaPackage,
    checksum_path: PathView,
    download_path: PathView,
    verbose: bool,
    replies: Replies<E>,
)
    ensures
        run(
            first_step::<E>(settings, pkg, checksum_path, download_path, verbose),
            replies,
            8,
        ) is Finished,
        settings.cosign && (cosign_of(pkg) matches Some(cosign) && cosign.enabled != Some(false)
            && rendered(cosign, replies)) && replies.cosign is Some && replies.opts is Ok
            && replies.execution is Ok ==> run(
            first_step::<E>(settings, pkg, checksum_path, download_path, verbose),
            replies,
            8,
        ) == CosignStepView::<E>::Finished(Ok(CosignOutcome::Verified)),
{
    reveal_with_fuel(run, 9);
}

/// A checksum file is verified with cosign unless the settings switch it off, the package's checksums do
/// not use it, or the package says that it is disabled. The arguments that the user adds go with it.
pub proof fn law_wanted_verification<E>(
    settings: AquaSettings,
    pkg: AquaPackage,
    checksum_path: PathView,
    download_path: PathView,
    verbose: bool,
)
    ensures
        ({
            let first = first_step::<E>(settings, pkg, checksum_path, download_path, verbose);
            &&& !settings.cosign ==> first == CosignStepView::<E>::Finished(
                Ok(CosignOutcome::SwitchedOff),
            )
            &&& settings.cosign && (pkg.checksum matches Some(checksum) ==> checksum.cosign is None)
                ==> first == CosignStepView::<E>::Finished(Ok(CosignOutcome::NotDeclared))
            &&& settings.cosign ==> (pkg.checksum matches Some(checksum)
                ==> (checksum.cosign matches Some(cosign) ==> {
                let extra_args = match settings.cosign_extra_args {
                    Some(args) => Seq::new(args@.len(), |i: int| args@[i]@),
                    None => Seq::<Seq<char>>::empty(),
                };
                &&& cosign.enabled == Some(false) ==> first == CosignStepView::<E>::Finished(
                    Ok(CosignOutcome::Disabled),
                )
                &&& cosign.enabled != Some(false) ==> first == (CosignStepView::<E>::FindCosign {
                    job: CosignJobView {
                        cosign,
                        extra_args,
                        checksum_path,
                        download_path,
                        verbose,
                    },
                })
            }))
        }),
{
    if let Some(args) = settings.cosign_extra_args {
        assert(text::texts(args@) =~= Seq::new(args@.len(), |i: int| args@[i]@));
    }
}

/// cosign is told to verify the checksum file, and to say more of what it does where that is wanted;
/// only where the package says that it is experimental, its environment says so too.
pub proof fn law_beginning_of_the_command<E>(job: CosignJobView, program: Seq<char>)
    ensures
        after_cosign::<E>(job, None) == CosignStepView::<E>::Finished(Ok(CosignOutcome::NoCosign)),
        after_cosign::<E>(job, Some(program)) == ask_signature::<E>(
            job,
            CommandLineView {
                program,
                args: if job.verbose {
                    seq!["verify-blob"@, job.checksum_path.text, "--verbose"@]
                } else {
                    seq!["verify-blob"@, job.checksum_path.text]
                },
                envs: if job.cosign.experimental == Some(true) {
                    seq![("COSIGN_EXPERIMENTAL"@, "1"@)]
                } else {
                    Seq::<(Seq<char>, Seq<char>)>::empty()
                },
            },
        ),
{
}

/// The arguments that the package has are rendered in this order: the signature, the key, the
/// certificate, the bundle; when none of them is left, the further options are.
pub proof fn law_order_of_the_arguments<E>(job: CosignJobView, command: CommandLineView)
    ensures
        ({
            let part = |part: CosignPart| CosignStepView::<E>::Part { part, job, command };
            let opts = CosignStepView::<E>::Opts { job, command };
            let uses = job.cosign;
            &&& uses.has_signature ==> ask_signature::<E>(job, command) == part(
                CosignPart::Signature,
            )
            &&& !uses.has_signature && uses.has_key ==> ask_signature::<E>(job, command) == part(
                CosignPart::Key,
            )
            &&& !uses.has_signature && !uses.has_key && uses.has_certificate ==> ask_signature::<E>(
                job,
                command,
            ) == part(CosignPart::Certificate)
            &&& !uses.has_signature && !uses.has_key && !uses.has_certificate && uses.has_bundle
                ==> ask_signature::<E>(job, command) == part(CosignPart::Bundle)
            &&& !uses.has_signature && !uses.has_key && !uses.has_certificate && !uses.has_bundle
                ==> ask_signature::<E>(job, command) == opts
            &&& uses.has_key ==> ask_key::<E>(job, command) == part(CosignPart::Key)
            &&& !uses.has_key && uses.has_certificate ==> ask_key::<E>(job, command) == part(
                CosignPart::Certificate,
            )
            &&& !uses.has_key && !uses.has_certificate && uses.has_bundle ==> ask_key::<E>(
                job,
                command,
            ) == part(CosignPart::Bundle)
            &&& !uses.has_key && !uses.has_certificate && !uses.has_bundle ==> ask_key::<E>(
                job,
                command,
            ) == opts
            &&& uses.has_certificate ==> ask_certificate::<E>(job, command) == part(
                CosignPart::Certificate,
            )
            &&& !uses.has_certificate && uses.has_bundle ==> ask_certificate::<E>(job, command)
                == part(CosignPart::Bundle)
            &&& !uses.has_certificate && !uses.has_bundle ==> ask_certificate::<E>(job, command)
                == opts
            &&& uses.has_bundle ==> ask_bundle::<E>(job, command) == part(CosignPart::Bundle)
            &&& !uses.has_bundle ==> ask_bundle::<E>(job, command) == opts
        }),
{
}

/// A rendered argument that is not empty goes to the end of the command line, after its flag, and an
/// empty one is left out; the next argument follows.
pub proof fn law_flags<E>(
    job: CosignJobView,
    command: CommandLineView,
    part: CosignPart,
    arg: Seq<char>,
    err: E,
)
    ensures
        arg.len() > 0 ==> {
            let with = |name: Seq<char>|
                CommandLineView { args: command.args + seq![name, arg], ..command };
            &&& after_part(job, command, CosignPart::Signature, Ok::<Seq<char>, E>(arg)) == ask_key::<
                E,
            >(job, with("--signature"@))
            &&& after_part(job, command, CosignPart::Key, Ok::<Seq<char>, E>(arg))
                == ask_certificate::<E>(job, with("--key"@))
            &&& after_part(job, command, CosignPart::Certificate, Ok::<Seq<char>, E>(arg))
                == ask_bundle::<E>(job, with("--certificate"@))
        },
        arg.len() == 0 ==> {
            &&& after_part(job, command, CosignPart::Signature, Ok::<Seq<char>, E>(arg)) == ask_key::<
                E,
            >(job, command)
            &&& after_part(job, command, CosignPart::Key, Ok::<Seq<char>, E>(arg))
                == ask_certificate::<E>(job, command)
            &&& after_part(job, command, CosignPart::Certificate, Ok::<Seq<char>, E>(arg))
                == ask_bundle::<E>(job, command)
            &&& after_part(job, command, CosignPart::Bundle, Ok::<Seq<char>, E>(arg)) == (
            CosignStepView::<E>::Opts { job, command })
        },
        after_part(job, command, part, Err::<Seq<char>, E>(err)) == CosignStepView::<E>::Finished(
            Err(err),
        ),
{
    assert(command.args + Seq::<Seq<char>>::empty() == command.args);
}

/// A bundle is downloaded under what follows the last slash of its address, and is then handed over by
/// its path. The options of the package follow, then the arguments of the user, and cosign is run.
pub proof fn law_end_of_the_command<E>(
    job: CosignJobView,
    command: CommandLineView,
    directory: Seq<char>,
    name: Seq<char>,
    path: PathView,
    opts: Seq<Seq<char>>,
    err: E,
)
    requires
        !name.contains('/'),
    ensures
        ({
            let url = directory + seq!['/'] + name;
            after_part(job, command, CosignPart::Bundle, Ok::<Seq<char>, E>(url)) == (
            CosignStepView::<E>::DownloadBundle {
                url,
                path: job.download_path.join(name),
                job,
                command,
            })
        }),
        name.len() > 0 ==> after_part(
            job,
            command,
            CosignPart::Bundle,
            Ok::<Seq<char>, E>(name),
        ) == (CosignStepView::<E>::DownloadBundle {
            url: name,
            path: job.download_path.join(name),
            job,
            command,
        }),
        after_bundle(job, command, path, Ok::<(), E>(())) == (CosignStepView::<E>::Opts {
            job,
            command: CommandLineView {
                args: command.args + seq!["--bundle"@, path.text],
                ..command
            },
        }),
        after_opts(job, command, Ok::<Seq<Seq<char>>, E>(opts)) == (CosignStepView::<E>::Execute {
            command: CommandLineView { args: command.args + opts + job.extra_args, ..command },
        }),
        after_execution(Ok::<(), E>(())) == CosignStepView::<E>::Finished(
            Ok(CosignOutcome::Verified),
        ),
        after_bundle(job, command, path, Err::<(), E>(err)) == CosignStepView::<E>::Finished(
            Err(err),
        ),
        after_opts(job, command, Err::<Seq<Seq<char>>, E>(err)) == CosignStepView::<E>::Finished(
            Err(err),
        ),
        after_execution(Err::<(), E>(err)) == CosignStepView::<E>::Finished(Err(err)),
{
    text::lemma_after_last_of_sum(directory, '/', name);
    assert(directory + seq!['/'] + name == directory.push('/') + name);
}

} // verus!
