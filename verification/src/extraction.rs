//! Unpacking a verified asset, and giving the files of the package their names.
//!
//! Each step says what is to be done outside, and holds the state that goes on with the outcome.
use vstd::prelude::*;

use crate::package::{AquaFile, AquaPackage, AquaPackageType};
use crate::paths::{HostPath, PathView};
use crate::platform::Target;
use crate::sources;
use crate::sources::{
    PlaceView, Source, SourceView, SourcesError, SourcesStep, SourcesStepView, SourcesView,
};
use crate::text;

verus! {

/// Something to be done to files.
pub enum FileOp {
    CreateDir { path: HostPath },
    Copy { from: HostPath, to: HostPath },
    MakeExecutable { path: HostPath },
    /// Unpack a tar archive in a format, without the first components of its paths.
    Untar { archive: HostPath, to: HostPath, format: String, strip_components: usize },
    Unzip { archive: HostPath, to: HostPath },
    UnGz { archive: HostPath, to: HostPath },
    UnXz { archive: HostPath, to: HostPath },
    UnZst { archive: HostPath, to: HostPath },
    UnBz2 { archive: HostPath, to: HostPath },
    UnDmg { archive: HostPath, to: HostPath },
    UnPkg { archive: HostPath, to: HostPath },
    Symlink { target: HostPath, link: HostPath },
}

/// Something to be done to files.
pub enum FileOpView {
    CreateDir { path: PathView },
    Copy { from: PathView, to: PathView },
    MakeExecutable { path: PathView },
    Untar { archive: PathView, to: PathView, format: Seq<char>, strip_components: nat },
    Unzip { archive: PathView, to: PathView },
    UnGz { archive: PathView, to: PathView },
    UnXz { archive: PathView, to: PathView },
    UnZst { archive: PathView, to: PathView },
    UnBz2 { archive: PathView, to: PathView },
    UnDmg { archive: PathView, to: PathView },
    UnPkg { archive: PathView, to: PathView },
    Symlink { target: PathView, link: PathView },
}

impl View for FileOp {
    type V = FileOpView;

    open spec fn view(&self) -> FileOpView {
        match *self {
            FileOp::CreateDir { path } => FileOpView::CreateDir { path: path@ },
            FileOp::Copy { from, to } => FileOpView::Copy { from: from@, to: to@ },
            FileOp::MakeExecutable { path } => FileOpView::MakeExecutable { path: path@ },
            FileOp::Untar { archive, to, format, strip_components } => FileOpView::Untar {
                archive: archive@,
                to: to@,
                format: format@,
                strip_components: strip_components as nat,
            },
            FileOp::Unzip { archive, to } => FileOpView::Unzip { archive: archive@, to: to@ },
            FileOp::UnGz { archive, to } => FileOpView::UnGz { archive: archive@, to: to@ },
            FileOp::UnXz { archive, to } => FileOpView::UnXz { archive: archive@, to: to@ },
            FileOp::UnZst { archive, to } => FileOpView::UnZst { archive: archive@, to: to@ },
            FileOp::UnBz2 { archive, to } => FileOpView::UnBz2 { archive: archive@, to: to@ },
            FileOp::UnDmg { archive, to } => FileOpView::UnDmg { archive: archive@, to: to@ },
            FileOp::UnPkg { archive, to } => FileOpView::UnPkg { archive: archive@, to: to@ },
            FileOp::Symlink { target, link } => FileOpView::Symlink {
                target: target@,
                link: link@,
            },
        }
    }
}

/// A list of things to be done to files.
pub open spec fn ops_view(ops: Seq<FileOp>) -> Seq<FileOpView> {
    Seq::new(ops.len(), |i: int| ops[i]@)
}

/// The name of the program of a package: that of its first file, or the last part of the package's
/// name, or the name of its repository.
pub open spec fn bin_name_of(pkg: AquaPackage) -> Seq<char> {
    if pkg.files@.len() > 0 {
        pkg.files@[0].name@
    } else {
        match pkg.name {
            Some(name) => text::tail_after_last(name@, '/'),
            None => pkg.repo_name@,
        }
    }
}

/// Where a program that is not packed is put.
pub open spec fn bin_path_of(
    pkg: AquaPackage,
    target: Target,
    install_path: PathView,
) -> PathView {
    let path = install_path.join(bin_name_of(pkg));
    if target.windows && pkg.complete_windows_ext {
        path.with_extension("exe"@)
    } else {
        path
    }
}

/// What is done with an asset that holds one packed program.
pub open spec fn program_ops(
    unpack: FileOpView,
    install_path: PathView,
    bin_path: PathView,
) -> Seq<FileOpView> {
    seq![
        FileOpView::CreateDir { path: install_path },
        unpack,
        FileOpView::MakeExecutable { path: bin_path },
    ]
}

/// What is done with an asset, by how its package is published and by its format; nothing for a
/// format that is not supported.
pub open spec fn unpack_ops(
    pkg: AquaPackage,
    target: Target,
    format: Seq<char>,
    archive: PathView,
    install_path: PathView,
) -> Option<Seq<FileOpView>> {
    let to = bin_path_of(pkg, target, install_path);
    let untar = FileOpView::Untar { archive, to: install_path, format, strip_components: 0 };
    if pkg.kind is GithubArchive {
        Some(seq![untar])
    } else if pkg.kind is GithubContent {
        Some(
            seq![FileOpView::Untar { archive, to: install_path, format, strip_components: 1 }],
        )
    } else if format == "raw"@ {
        Some(program_ops(FileOpView::Copy { from: archive, to }, install_path, to))
    } else if "tar"@.is_prefix_of(format) {
        Some(seq![untar])
    } else if format == "zip"@ {
        Some(seq![FileOpView::Unzip { archive, to: install_path }])
    } else if format == "gz"@ {
        Some(program_ops(FileOpView::UnGz { archive, to }, install_path, to))
    } else if format == "xz"@ {
        Some(program_ops(FileOpView::UnXz { archive, to }, install_path, to))
    } else if format == "zst"@ {
        Some(program_ops(FileOpView::UnZst { archive, to }, install_path, to))
    } else if format == "bz2"@ {
        Some(program_ops(FileOpView::UnBz2 { archive, to }, install_path, to))
    } else if format == "dmg"@ {
        Some(seq![FileOpView::UnDmg { archive, to: install_path }])
    } else if format == "pkg"@ {
        Some(seq![FileOpView::UnPkg { archive, to: install_path }])
    } else {
        None
    }
}

/// Where a program that is not packed is put.
fn bin_path(pkg: &AquaPackage, target: &Target, install_path: &HostPath) -> (r: HostPath)
    ensures
        r@ == bin_path_of(*pkg, *target, install_path@),
{
    let name = if pkg.files.len() > 0 {
        pkg.files[0].name.as_str()
    } else {
        match &pkg.name {
            Some(name) => text::after_last(name.as_str(), '/'),
            None => pkg.repo_name.as_str(),
        }
    };
    let path = install_path.join(name);
    if target.windows && pkg.complete_windows_ext {
        proof {
            reveal_strlit("exe");
        }
        path.with_extension("exe")
    } else {
        path
    }
}

/// A list of one thing to be done.
fn one_op(op: FileOp) -> (r: Vec<FileOp>)
    ensures
        ops_view(r@) == seq![op@],
{
    let mut r: Vec<FileOp> = Vec::new();
    r.push(op);
    assert(ops_view(r@) =~= seq![op@]);
    r
}

/// What is done with an asset that holds one packed program.
fn ops_for_program(unpack: FileOp, install_path: &HostPath, bin_path: &HostPath) -> (r: Vec<FileOp>)
    ensures
        ops_view(r@) == program_ops(unpack@, install_path@, bin_path@),
{
    let mut r: Vec<FileOp> = Vec::new();
    r.push(FileOp::CreateDir { path: install_path.duplicate() });
    r.push(unpack);
    r.push(FileOp::MakeExecutable { path: bin_path.duplicate() });
    assert(ops_view(r@) =~= program_ops(unpack@, install_path@, bin_path@));
    r
}

/// What is done with an asset; nothing for a format that is not supported.
pub fn unpack(
    pkg: &AquaPackage,
    target: &Target,
    format: &str,
    archive: &HostPath,
    install_path: &HostPath,
) -> (r: Option<Vec<FileOp>>)
    ensures
        r is Some <==> unpack_ops(*pkg, *target, format@, archive@, install_path@) is Some,
        r matches Some(ops) ==> unpack_ops(*pkg, *target, format@, archive@, install_path@) == Some(
            ops_view(ops@),
        ),
{
    let bin = bin_path(pkg, target, install_path);
    let archive = archive.duplicate();
    let dir = install_path.duplicate();
    let to = bin.duplicate();
    let strip_components: usize = match &pkg.kind {
        AquaPackageType::GithubContent => 1,
        _ => 0,
    };
    let archived = match &pkg.kind {
        AquaPackageType::GithubArchive => true,
        AquaPackageType::GithubContent => true,
        _ => false,
    };
    if archived {
        let format = format.to_owned();
        Some(one_op(FileOp::Untar { archive, to: dir, format, strip_components }))
    } else if text::same(format, "raw") {
        let op = FileOp::Copy { from: archive, to };
        Some(ops_for_program(op, install_path, &bin))
    } else if text::starts_with(format, "tar") {
        let format = format.to_owned();
        Some(one_op(FileOp::Untar { archive, to: dir, format, strip_components }))
    } else if text::same(format, "zip") {
        Some(one_op(FileOp::Unzip { archive, to: dir }))
    } else if text::same(format, "gz") {
        Some(ops_for_program(FileOp::UnGz { archive, to }, install_path, &bin))
    } else if text::same(format, "xz") {
        Some(ops_for_program(FileOp::UnXz { archive, to }, install_path, &bin))
    } else if text::same(format, "zst") {
        Some(ops_for_program(FileOp::UnZst { archive, to }, install_path, &bin))
    } else if text::same(format, "bz2") {
        Some(ops_for_program(FileOp::UnBz2 { archive, to }, install_path, &bin))
    } else if text::same(format, "dmg") {
        Some(one_op(FileOp::UnDmg { archive, to: dir }))
    } else if text::same(format, "pkg") {
        Some(one_op(FileOp::UnPkg { archive, to: dir }))
    } else {
        None
    }
}

/// An asset that is being unpacked.
pub struct Extraction<'a> {
    pub pkg: &'a AquaPackage,
    pub target: &'a Target,
    pub version: String,
    pub v: String,
    pub filename: String,
    pub install_path: HostPath,
    pub download_path: HostPath,
}

/// An asset that is being unpacked.
pub struct ExtractionView {
    pub pkg: AquaPackage,
    pub target: Target,
    pub version: Seq<char>,
    pub v: Seq<char>,
    pub filename: Seq<char>,
    pub install_path: PathView,
    pub download_path: PathView,
}

impl<'a> View for Extraction<'a> {
    type V = ExtractionView;

    open spec fn view(&self) -> ExtractionView {
        ExtractionView {
            pkg: *self.pkg,
            target: *self.target,
            version: self.version@,
            v: self.v@,
            filename: self.filename@,
            install_path: self.install_path@,
            download_path: self.download_path@,
        }
    }
}

/// Why an asset cannot be unpacked.
pub enum ExtractError<E> {
    /// Something outside failed.
    Outside(E),
    /// The format of the asset is not supported.
    UnsupportedFormat(String),
    /// The place of a file has no directory.
    NoParent,
    /// The place of a file has no name.
    NoFileName,
}

/// Why an asset cannot be unpacked.
pub enum ExtractErrorView<E> {
    Outside(E),
    UnsupportedFormat(Seq<char>),
    NoParent,
    NoFileName,
}

impl<E> View for ExtractError<E> {
    type V = ExtractErrorView<E>;

    open spec fn view(&self) -> ExtractErrorView<E> {
        match *self {
            ExtractError::Outside(err) => ExtractErrorView::Outside(err),
            ExtractError::UnsupportedFormat(format) => ExtractErrorView::UnsupportedFormat(format@),
            ExtractError::NoParent => ExtractErrorView::NoParent,
            ExtractError::NoFileName => ExtractErrorView::NoFileName,
        }
    }
}

/// What was installed before is being removed.
pub struct AwaitRemoval<'a> {
    pub job: Extraction<'a>,
}

/// The format of the asset is being rendered.
pub struct AwaitFormat<'a> {
    pub job: Extraction<'a>,
}

/// Something is being done to unpack the asset.
pub struct AwaitOp<'a> {
    pub job: Extraction<'a>,
    /// What is to be done after it.
    pub ops: Vec<FileOp>,
}

/// The place of a file is being rendered.
pub struct AwaitPlace<'a> {
    pub job: Extraction<'a>,
    pub at: sources::AwaitPlace<'a>,
}

/// Whether a file is there is being looked up.
pub struct AwaitProbe<'a> {
    pub job: Extraction<'a>,
    pub source: Source,
    /// The files that come after it.
    pub rest: Vec<Source>,
}

/// A file is being given its name.
pub struct AwaitLink<'a> {
    pub job: Extraction<'a>,
    /// The files that come after it.
    pub rest: Vec<Source>,
}

/// What is to be done next.
pub enum ExtractStep<'a, E> {
    /// Say what is being done, and remove what was installed before.
    Remove { message: String, path: HostPath, next: AwaitRemoval<'a> },
    /// Render the format of the asset.
    Format { next: AwaitFormat<'a> },
    /// Do something to unpack the asset.
    Unpack { op: FileOp, next: AwaitOp<'a> },
    /// Render the place of the package's file with this index for each of these names of the version.
    Place { file: usize, versions: Vec<String>, next: AwaitPlace<'a> },
    /// Look whether the file is there, and whether there is something under its name already.
    Probe { next: AwaitProbe<'a> },
    /// Give a file its name.
    Link { op: FileOp, next: AwaitLink<'a> },
    /// The extraction has come to its end.
    Finished(Result<(), ExtractError<E>>),
}

/// What is to be done next.
pub enum ExtractStepView<E> {
    Remove { message: Seq<char>, path: PathView, job: ExtractionView },
    Format { job: ExtractionView },
    Unpack { op: FileOpView, ops: Seq<FileOpView>, job: ExtractionView },
    Place { file: nat, versions: Seq<Seq<char>>, at: PlaceView, job: ExtractionView },
    Probe { source: SourceView, rest: Seq<SourceView>, job: ExtractionView },
    Link { op: FileOpView, rest: Seq<SourceView>, job: ExtractionView },
    Finished(Result<(), ExtractErrorView<E>>),
}

impl<'a, E> View for ExtractStep<'a, E> {
    type V = ExtractStepView<E>;

    open spec fn view(&self) -> ExtractStepView<E> {
        match *self {
            ExtractStep::Remove { message, path, next } => ExtractStepView::Remove {
                message: message@,
                path: path@,
                job: next.job@,
            },
            ExtractStep::Format { next } => ExtractStepView::Format { job: next.job@ },
            ExtractStep::Unpack { op, next } => ExtractStepView::Unpack {
                op: op@,
                ops: ops_view(next.ops@),
                job: next.job@,
            },
            ExtractStep::Place { file, versions, next } => ExtractStepView::Place {
                file: file as nat,
                versions: text::texts(versions@),
                at: next.at@,
                job: next.job@,
            },
            ExtractStep::Probe { next } => ExtractStepView::Probe {
                source: next.source@,
                rest: sources::sources_view(next.rest@),
                job: next.job@,
            },
            ExtractStep::Link { op, next } => ExtractStepView::Link {
                op: op@,
                rest: sources::sources_view(next.rest@),
                job: next.job@,
            },
            ExtractStep::Finished(Ok(_)) => ExtractStepView::Finished(Ok(())),
            ExtractStep::Finished(Err(err)) => ExtractStepView::Finished(Err(err@)),
        }
    }
}

/// The end of an extraction in which something outside failed.
pub open spec fn failed<E>(err: E) -> ExtractStepView<E> {
    ExtractStepView::Finished(Err(ExtractErrorView::Outside(err)))
}

/// An extraction begins with removing what was installed before.
pub open spec fn first_step<E>(job: ExtractionView) -> ExtractStepView<E> {
    ExtractStepView::Remove {
        message: "extract "@ + job.filename,
        path: job.install_path,
        job,
    }
}

/// The format of the asset decides how it is unpacked.
pub open spec fn after_removal<E>(job: ExtractionView, reply: Result<(), E>) -> ExtractStepView<E> {
    match reply {
        Err(err) => failed(err),
        Ok(_) => ExtractStepView::Format { job },
    }
}

/// One thing is done after the other; then the files are given their names.
pub open spec fn next_op<E>(job: ExtractionView, ops: Seq<FileOpView>) -> ExtractStepView<E> {
    if ops.len() == 0 {
        go_on_with(
            job,
            sources::next_place(
                sources::first_place(job.pkg, job.version, job.install_path),
            ),
        )
    } else {
        ExtractStepView::Unpack { op: ops[0], ops: ops.skip(1), job }
    }
}

/// Where the downloaded asset is.
pub open spec fn archive_of(job: ExtractionView) -> PathView {
    job.download_path.join(job.filename)
}

/// An asset in a format that is supported is unpacked.
pub open spec fn after_format<E>(
    job: ExtractionView,
    reply: Result<Seq<char>, E>,
) -> ExtractStepView<E> {
    match reply {
        Err(err) => failed(err),
        Ok(format) => match unpack_ops(
            job.pkg,
            job.target,
            format,
            archive_of(job),
            job.install_path,
        ) {
            None => ExtractStepView::Finished(Err(ExtractErrorView::UnsupportedFormat(format))),
            Some(ops) => next_op(job, ops),
        },
    }
}

/// The next thing is done only where the one before has succeeded.
pub open spec fn after_op<E>(
    job: ExtractionView,
    ops: Seq<FileOpView>,
    reply: Result<(), E>,
) -> ExtractStepView<E> {
    match reply {
        Err(err) => failed(err),
        Ok(_) => next_op(job, ops),
    }
}

/// A file that lies under its name already needs no other.
pub open spec fn next_link<E>(job: ExtractionView, rest: Seq<SourceView>) -> ExtractStepView<E>
    decreases rest.len(),
{
    if rest.len() == 0 {
        ExtractStepView::Finished(Ok(()))
    } else if rest[0].src.same(rest[0].dst) {
        next_link(job, rest.skip(1))
    } else {
        ExtractStepView::Probe { source: rest[0], rest: rest.skip(1), job }
    }
}

/// When the places of all files are known, the files are given their names, one after the other.
pub open spec fn go_on_with<E>(
    job: ExtractionView,
    step: SourcesStepView<E>,
) -> ExtractStepView<E> {
    match step {
        SourcesStepView::Place { file, versions, at } => ExtractStepView::Place {
            file,
            versions,
            at,
            job,
        },
        SourcesStepView::Finished(SourcesView::Outside(err)) => failed(err),
        SourcesStepView::Finished(SourcesView::NoParent) => ExtractStepView::Finished(
            Err(ExtractErrorView::NoParent),
        ),
        SourcesStepView::Finished(SourcesView::Sources(sources)) => next_link(job, sources),
    }
}

/// The place of a file is followed by that of the next.
pub open spec fn after_place<E>(
    job: ExtractionView,
    at: PlaceView,
    reply: Result<Vec<Option<String>>, E>,
) -> ExtractStepView<E> {
    go_on_with(job, sources::after_place(at, reply))
}

/// How a file is given its name: by a copy on Windows, and else by a link to the file beside it;
/// nothing where its place has no name.
pub open spec fn link_op(source: SourceView, windows: bool) -> Option<FileOpView> {
    if windows {
        Some(FileOpView::Copy { from: source.src, to: source.dst })
    } else {
        match source.src.file_name() {
            Some(name) => Some(
                FileOpView::Symlink {
                    target: source.src.with_text("."@).join(name),
                    link: source.dst,
                },
            ),
            None => None,
        }
    }
}

/// A file that is there is given its name, unless there is something under that name.
pub open spec fn after_probe<E>(
    job: ExtractionView,
    source: SourceView,
    rest: Seq<SourceView>,
    src_there: bool,
    dst_there: bool,
) -> ExtractStepView<E> {
    if src_there && !dst_there {
        match link_op(source, job.target.windows) {
            Some(op) => ExtractStepView::Link { op, rest, job },
            None => ExtractStepView::Finished(Err(ExtractErrorView::NoFileName)),
        }
    } else {
        next_link(job, rest)
    }
}

/// The next file is given its name only where the one before has got its own.
pub open spec fn after_link<E>(
    job: ExtractionView,
    rest: Seq<SourceView>,
    reply: Result<(), E>,
) -> ExtractStepView<E> {
    match reply {
        Err(err) => failed(err),
        Ok(_) => next_link(job, rest),
    }
}

/// Begins to unpack an asset.
pub fn install<'a, E>(
    pkg: &'a AquaPackage,
    target: &'a Target,
    version: &str,
    v: &str,
    filename: &str,
    install_path: &HostPath,
    download_path: &HostPath,
) -> (step: ExtractStep<'a, E>)
    ensures
        step@ == first_step::<E>(
            ExtractionView {
                pkg: *pkg,
                target: *target,
                version: version@,
                v: v@,
                filename: filename@,
                install_path: install_path@,
                download_path: download_path@,
            },
        ),
{
    let job = Extraction {
        pkg,
        target,
        version: version.to_owned(),
        v: v.to_owned(),
        filename: filename.to_owned(),
        install_path: install_path.duplicate(),
        download_path: download_path.duplicate(),
    };
    let message = "extract ".to_owned().concat(filename);
    ExtractStep::Remove { message, path: install_path.duplicate(), next: AwaitRemoval { job } }
}

impl<'a> Extraction<'a> {
    /// Does the next thing to unpack the asset.
    fn next_op<E>(self, ops: Vec<FileOp>) -> (step: ExtractStep<'a, E>)
        ensures
            step@ == next_op::<E>(self@, ops_view(ops@)),
    {
        if ops.len() == 0 {
            let step = sources::srcs(self.pkg, self.version.as_str(), &self.install_path);
            return self.go_on_with(step);
        }
        let mut left = ops;
        let op = left.remove(0);
        assert(ops_view(left@) =~= ops_view(ops@).skip(1));
        ExtractStep::Unpack { op, next: AwaitOp { job: self, ops: left } }
    }

    /// Goes on with the places of the files, or, when they are known, with the files' names.
    fn go_on_with<E>(self, step: SourcesStep<'a, E>) -> (r: ExtractStep<'a, E>)
        ensures
            r@ == go_on_with(self@, step@),
    {
        match step {
            SourcesStep::Place { file, versions, next } => ExtractStep::Place {
                file,
                versions,
                next: AwaitPlace { job: self, at: next },
            },
            SourcesStep::Finished(Err(SourcesError::Outside(err))) => ExtractStep::Finished(
                Err(ExtractError::Outside(err)),
            ),
            SourcesStep::Finished(Err(SourcesError::NoParent)) => ExtractStep::Finished(
                Err(ExtractError::NoParent),
            ),
            SourcesStep::Finished(Ok(sources)) => self.next_link(sources),
        }
    }

    /// Goes on to the next file that does not lie under its name.
    fn next_link<E>(self, sources: Vec<Source>) -> (step: ExtractStep<'a, E>)
        ensures
            step@ == next_link::<E>(self@, sources::sources_view(sources@)),
    {
        let ghost all = sources::sources_view(sources@);
        let mut left = sources;
        while left.len() > 0
            invariant
                all == sources::sources_view(sources@),
                next_link::<E>(self@, all) == next_link::<E>(
                    self@,
                    sources::sources_view(left@),
                ),
            decreases left.len(),
        {
            let ghost before = sources::sources_view(left@);
            let source = left.remove(0);
            assert(sources::sources_view(left@) =~= before.skip(1));
            assert(before[0] == source@);
            if !source.src.same(&source.dst) {
                return ExtractStep::Probe { next: AwaitProbe { job: self, source, rest: left } };
            }
        }
        ExtractStep::Finished(Ok(()))
    }
}

impl<'a> AwaitRemoval<'a> {
    /// Goes on when what was installed before has been removed, or could not be.
    pub fn resume<E>(self, reply: Result<(), E>) -> (step: ExtractStep<'a, E>)
        ensures
            step@ == after_removal(self.job@, reply),
    {
        match reply {
            Err(err) => ExtractStep::Finished(Err(ExtractError::Outside(err))),
            Ok(_) => ExtractStep::Format { next: AwaitFormat { job: self.job } },
        }
    }
}

impl<'a> AwaitFormat<'a> {
    /// Goes on with the format of the asset.
    pub fn resume<E>(self, reply: Result<String, E>) -> (step: ExtractStep<'a, E>)
        ensures
            step@ == after_format(self.job@, text::text_reply(reply)),
    {
        let format = match reply {
            Err(err) => {
                return ExtractStep::Finished(Err(ExtractError::Outside(err)));
            },
            Ok(format) => format,
        };
        let job = self.job;
        let archive = job.download_path.join(job.filename.as_str());
        match unpack(
            job.pkg,
            job.target,
            format.as_str(),
            &archive,
            &job.install_path,
        ) {
            None => ExtractStep::Finished(Err(ExtractError::UnsupportedFormat(format))),
            Some(ops) => job.next_op(ops),
        }
    }
}

impl<'a> AwaitOp<'a> {
    /// Goes on when the thing has been done, or could not be.
    pub fn resume<E>(self, reply: Result<(), E>) -> (step: ExtractStep<'a, E>)
        ensures
            step@ == after_op(self.job@, ops_view(self.ops@), reply),
    {
        match reply {
            Err(err) => ExtractStep::Finished(Err(ExtractError::Outside(err))),
            Ok(_) => self.job.next_op(self.ops),
        }
    }
}

impl<'a> AwaitPlace<'a> {
    /// Goes on with what is rendered of the place of the file, for each name of the version.
    pub fn resume<E>(self, reply: Result<Vec<Option<String>>, E>) -> (step: ExtractStep<'a, E>)
        ensures
            step@ == after_place(self.job@, self.at@, reply),
    {
        let step = self.at.resume(reply);
        self.job.go_on_with(step)
    }
}

impl<'a> AwaitProbe<'a> {
    /// Goes on with whether the file is there, and whether there is something under its name.
    pub fn resume<E>(self, src_there: bool, dst_there: bool) -> (step: ExtractStep<'a, E>)
        ensures
            step@ == after_probe::<E>(
                self.job@,
                self.source@,
                sources::sources_view(self.rest@),
                src_there,
                dst_there,
            ),
    {
        if !src_there || dst_there {
            return self.job.next_link(self.rest);
        }
        let Source { src, dst } = self.source;
        let op = if self.job.target.windows {
            FileOp::Copy { from: src, to: dst }
        } else {
            match src.file_name() {
                Some(name) => FileOp::Symlink {
                    target: src.with_text(".").join(name.as_str()),
                    link: dst,
                },
                None => {
                    return ExtractStep::Finished(Err(ExtractError::NoFileName));
                },
            }
        };
        ExtractStep::Link { op, next: AwaitLink { job: self.job, rest: self.rest } }
    }
}

impl<'a> AwaitLink<'a> {
    /// Goes on when the file has been given its name, or could not be.
    pub fn resume<E>(self, reply: Result<(), E>) -> (step: ExtractStep<'a, E>)
        ensures
            step@ == after_link(self.job@, sources::sources_view(self.rest@), reply),
    {
        match reply {
            Err(err) => ExtractStep::Finished(Err(ExtractError::Outside(err))),
            Ok(_) => self.job.next_link(self.rest),
        }
    }
}

/// What is said of an asset in a format that is not supported.
pub fn unsupported_format_message(format: &str) -> (r: String)
    ensures
        r@ == "unsupported format: "@ + format@,
{
    "unsupported format: ".to_owned().concat(format)
}

/// What comes back from outside in the course of an extraction.
pub struct Replies<E> {
    pub removal: Result<(), E>,
    pub format: Result<Seq<char>, E>,
    /// What doing a thing to files comes to.
    pub op: spec_fn(FileOpView) -> Result<(), E>,
    /// What is rendered of the place of each file.
    pub places: Seq<Result<Vec<Option<String>>, E>>,
    pub src_there: spec_fn(SourceView) -> bool,
    pub dst_there: spec_fn(SourceView) -> bool,
}

/// The step that follows when the present one is answered.
pub open spec fn answered<E>(step: ExtractStepView<E>, replies: Replies<E>) -> ExtractStepView<E> {
    match step {
        ExtractStepView::Remove { message, path, job } => after_removal(job, replies.removal),
        ExtractStepView::Format { job } => after_format(job, replies.format),
        ExtractStepView::Unpack { op, ops, job } => after_op(job, ops, (replies.op)(op)),
        ExtractStepView::Place { file, versions, at, job } => after_place(
            job,
            at,
            replies.places[file as int],
        ),
        ExtractStepView::Probe { source, rest, job } => after_probe(
            job,
            source,
            rest,
            (replies.src_there)(source),
            (replies.dst_there)(source),
        ),
        ExtractStepView::Link { op, rest, job } => after_link(job, rest, (replies.op)(op)),
        ExtractStepView::Finished(outcome) => step,
    }
}

/// The step that an extraction has come to when `n` steps have been answered.
pub open spec fn run<E>(job: ExtractionView, replies: Replies<E>, n: nat) -> ExtractStepView<E>
    decreases n,
{
    if n == 0 {
        first_step(job)
    } else {
        answered(run(job, replies, (n - 1) as nat), replies)
    }
}

/// What is done with the asset of a job.
pub open spec fn ops_of<E>(job: ExtractionView, replies: Replies<E>) -> Option<Seq<FileOpView>> {
    match replies.format {
        Ok(format) => unpack_ops(job.pkg, job.target, format, archive_of(job), job.install_path),
        Err(_) => None,
    }
}

/// Whether everything has been done to unpack the asset, up to a number of things.
pub open spec fn unpacked<E>(job: ExtractionView, replies: Replies<E>, n: int) -> bool {
    &&& replies.removal is Ok
    &&& ops_of(job, replies) matches Some(ops) && 0 <= n <= ops.len() && forall|i: int|
        0 <= i < n ==> (replies.op)(#[trigger] ops[i]) is Ok
}

/// Whether a file goes by its name: it lies under that name, or it is not there, or there was
/// something under that name, or it has been given that name.
pub open spec fn goes_by_its_name<E>(
    job: ExtractionView,
    replies: Replies<E>,
    source: SourceView,
) -> bool {
    ||| source.src.same(source.dst)
    ||| !(replies.src_there)(source)
    ||| (replies.dst_there)(source)
    ||| link_op(source, job.target.windows) matches Some(op) && (replies.op)(op) is Ok
}

/// Whether the files go by their names, up to a number of files.
pub open spec fn named<E>(job: ExtractionView, replies: Replies<E>, n: int) -> bool {
    &&& unpacked(job, replies, ops_of(job, replies)->0.len() as int)
    &&& sources::sources_of(
        job.install_path,
        job.pkg.files@,
        replies.places,
    ) matches SourcesView::Sources(sources) && 0 <= n <= sources.len() && forall|i: int|
        0 <= i < n ==> goes_by_its_name(job, replies, #[trigger] sources[i])
}

/// The files of the package of a job.
pub open spec fn sources_in<E>(job: ExtractionView, replies: Replies<E>) -> Seq<SourceView> {
    sources::sources_of(job.install_path, job.pkg.files@, replies.places)->Sources_0
}

/// What is known of a run after each number of answers.
spec fn on_course<E>(job: ExtractionView, replies: Replies<E>, step: ExtractStepView<E>) -> bool {
    match step {
        ExtractStepView::Remove { message, path, job: j } => j == job,
        ExtractStepView::Format { job: j } => j == job && replies.removal is Ok,
        ExtractStepView::Unpack { op, ops, job: j } => {
            let all = ops_of(job, replies)->0;
            let k = all.len() - ops.len() - 1;
            &&& j == job
            &&& unpacked(job, replies, k)
            &&& k < all.len()
            &&& op == all[k]
            &&& ops == all.skip(k + 1)
        },
        ExtractStepView::Place { file, versions, at, job: j } => {
            let first = sources::first_place(job.pkg, job.version, job.install_path);
            &&& j == job
            &&& unpacked(job, replies, ops_of(job, replies)->0.len() as int)
            &&& at == (PlaceView { index: at.index, kept: at.kept, ..first })
            &&& file == at.index
            &&& versions == at.versions
            &&& at.index < job.pkg.files@.len()
            &&& sources::is_on_course(at, replies.places)
        },
        ExtractStepView::Probe { source, rest, job: j } => {
            let all = sources_in(job, replies);
            let k = all.len() - rest.len() - 1;
            &&& j == job
            &&& named(job, replies, k)
            &&& k < all.len()
            &&& source == all[k]
            &&& !source.src.same(source.dst)
            &&& rest == all.skip(k + 1)
        },
        ExtractStepView::Link { op, rest, job: j } => {
            let all = sources_in(job, replies);
            let k = all.len() - rest.len() - 1;
            &&& j == job
            &&& named(job, replies, k)
            &&& k < all.len()
            &&& link_op(all[k], job.target.windows) == Some(op)
            &&& !all[k].src.same(all[k].dst)
            &&& (replies.src_there)(all[k])
            &&& !(replies.dst_there)(all[k])
            &&& rest == all.skip(k + 1)
        },
        ExtractStepView::Finished(Ok(_)) => {
            named(job, replies, sources_in(job, replies).len() as int)
        },
        ExtractStepView::Finished(Err(err)) => true,
    }
}

proof fn lemma_next_link<E>(job: ExtractionView, replies: Replies<E>, k: int)
    requires
        named(job, replies, k),
    ensures
        on_course(
            job,
            replies,
            next_link::<E>(job, sources_in(job, replies).skip(k)),
        ),
    decreases sources_in(job, replies).len() - k,
{
    let all = sources_in(job, replies);
    if k < all.len() {
        assert(all.skip(k)[0] == all[k]);
        assert(all.skip(k).skip(1) == all.skip(k + 1));
        if all[k].src.same(all[k].dst) {
            assert(goes_by_its_name(job, replies, all[k]));
            lemma_next_link(job, replies, k + 1);
        }
    }
}

/// What comes of the places of the files leads on to their names.
proof fn lemma_go_on_with<E>(job: ExtractionView, replies: Replies<E>)
    requires
        unpacked(job, replies, ops_of(job, replies)->0.len() as int),
    ensures
        on_course(
            job,
            replies,
            go_on_with(
                job,
                SourcesStepView::Finished(
                    sources::sources_of(job.install_path, job.pkg.files@, replies.places),
                ),
            ),
        ),
{
    if sources::sources_of(job.install_path, job.pkg.files@, replies.places) is Sources {
        lemma_next_link(job, replies, 0);
        assert(sources_in(job, replies).skip(0) == sources_in(job, replies));
    }
}

proof fn lemma_next_op<E>(job: ExtractionView, replies: Replies<E>, k: int)
    requires
        unpacked(job, replies, k),
    ensures
        on_course(job, replies, next_op::<E>(job, ops_of(job, replies)->0.skip(k))),
{
    let all = ops_of(job, replies)->0;
    if k < all.len() {
        assert(all.skip(k)[0] == all[k]);
        assert(all.skip(k).skip(1) == all.skip(k + 1));
    } else {
        let files = job.pkg.files@;
        assert(files.take(0) == Seq::<AquaFile>::empty());
        if files.len() == 0 {
            assert(files == Seq::<AquaFile>::empty());
            lemma_go_on_with(job, replies);
        }
    }
}

proof fn lemma_on_course<E>(job: ExtractionView, replies: Replies<E>, n: nat)
    ensures
        on_course(job, replies, run(job, replies, n)),
    decreases n,
{
    if n > 0 {
        lemma_on_course(job, replies, (n - 1) as nat);
        match run(job, replies, (n - 1) as nat) {
            ExtractStepView::Format { job: j } => {
                if let Some(ops) = ops_of(job, replies) {
                    lemma_next_op(job, replies, 0);
                    assert(ops.skip(0) == ops);
                }
            },
            ExtractStepView::Unpack { op, ops, job: j } => {
                let k = ops_of(job, replies)->0.len() - ops.len() - 1;
                if (replies.op)(op) is Ok {
                    lemma_next_op(job, replies, k + 1);
                }
            },
            ExtractStepView::Place { file, versions, at, job: j } => {
                sources::lemma_after_place(at, replies.places);
                lemma_go_on_with(job, replies);
            },
            ExtractStepView::Probe { source, rest, job: j } => {
                let k = sources_in(job, replies).len() - rest.len() - 1;
                if !(replies.src_there)(source) || (replies.dst_there)(source) {
                    assert(goes_by_its_name(job, replies, sources_in(job, replies)[k]));
                    lemma_next_link(job, replies, k + 1);
                }
            },
            ExtractStepView::Link { op, rest, job: j } => {
                let k = sources_in(job, replies).len() - rest.len() - 1;
                if (replies.op)(op) is Ok {
                    assert(goes_by_its_name(job, replies, sources_in(job, replies)[k]));
                    lemma_next_link(job, replies, k + 1);
                }
            },
            _ => {},
        }
    }
}

/// Whatever comes back from outside: an extraction succeeds only when what was installed before has
/// been removed, everything that the format asks for has been done, and every file of the package
/// goes by its name.
pub proof fn law_everything_is_unpacked<E>(job: ExtractionView, replies: Replies<E>, n: nat)
    requires
        run(job, replies, n) == ExtractStepView::<E>::Finished(Ok(())),
    ensures
        ops_of(job, replies) is Some,
        unpacked(job, replies, ops_of(job, replies)->0.len() as int),
        named(job, replies, sources_in(job, replies).len() as int),
{
    lemma_on_course(job, replies, n);
}

/// Whatever comes back from outside: nothing is unpacked before what was installed before has been
/// removed, and what is done is what the format asks for, in its order.
pub proof fn law_order_of_unpacking<E>(
    job: ExtractionView,
    replies: Replies<E>,
    n: nat,
    op: FileOpView,
    ops: Seq<FileOpView>,
)
    requires
        run(job, replies, n) == (ExtractStepView::<E>::Unpack { op, ops, job }),
    ensures
        ops_of(job, replies) matches Some(all) && ops.len() < all.len() && unpacked(
            job,
            replies,
            all.len() - ops.len() - 1,
        ) && op == all[all.len() - ops.len() - 1] && ops == all.skip(all.len() - ops.len()),
{
    lemma_on_course(job, replies, n);
}

/// How many answers an extraction needs at most from a step on, where `files` is the number of the
/// package's files, and `sources` that of their sources.
spec fn answers_left<E>(step: ExtractStepView<E>, files: nat, sources: nat) -> nat {
    match step {
        ExtractStepView::Remove { message, path, job } => 2 * sources + files + 5,
        ExtractStepView::Format { job } => 2 * sources + files + 4,
        ExtractStepView::Unpack { op, ops, job } => 2 * sources + files + 1 + ops.len(),
        ExtractStepView::Place { file, versions, at, job } => (2 * sources + files - file) as nat,
        ExtractStepView::Probe { source, rest, job } => 2 * rest.len() + 2,
        ExtractStepView::Link { op, rest, job } => 2 * rest.len() + 1,
        ExtractStepView::Finished(outcome) => 0,
    }
}

proof fn lemma_next_link_answers<E>(
    job: ExtractionView,
    rest: Seq<SourceView>,
    files: nat,
    sources: nat,
)
    ensures
        answers_left(next_link::<E>(job, rest), files, sources) <= 2 * rest.len(),
    decreases rest.len(),
{
    if rest.len() > 0 {
        lemma_next_link_answers::<E>(job, rest.skip(1), files, sources);
    }
}

/// The number of answers after which an extraction is sure to have come to its end.
pub open spec fn most_answers<E>(job: ExtractionView, replies: Replies<E>) -> nat {
    2 * sources_in(job, replies).len() + job.pkg.files@.len() + 5
}

proof fn lemma_answers_left<E>(job: ExtractionView, replies: Replies<E>, n: nat)
    ensures
        answers_left(
            run(job, replies, n),
            job.pkg.files@.len(),
            sources_in(job, replies).len(),
        ) <= if n <= most_answers(job, replies) {
            most_answers(job, replies) - n
        } else {
            0
        },
    decreases n,
{
    let files = job.pkg.files@.len();
    let all = sources_in(job, replies);
    if n > 0 {
        lemma_answers_left(job, replies, (n - 1) as nat);
        lemma_on_course(job, replies, (n - 1) as nat);
        match run(job, replies, (n - 1) as nat) {
            ExtractStepView::Format { job: j } => {
                lemma_next_link_answers::<E>(job, Seq::empty(), files, all.len());
            },
            ExtractStepView::Unpack { op, ops, job: j } => {
                lemma_next_link_answers::<E>(job, Seq::empty(), files, all.len());
            },
            ExtractStepView::Place { file, versions, at, job: j } => {
                sources::lemma_after_place(at, replies.places);
                lemma_next_link_answers::<E>(job, all, files, all.len());
            },
            ExtractStepView::Probe { source, rest, job: j } => {
                lemma_next_link_answers::<E>(job, rest, files, all.len());
            },
            ExtractStepView::Link { op, rest, job: j } => {
                lemma_next_link_answers::<E>(job, rest, files, all.len());
            },
            _ => {},
        }
    }
}

proof fn lemma_next_link_succeeds<E>(job: ExtractionView, rest: Seq<SourceView>)
    ensures
        !(next_link::<E>(job, rest) matches ExtractStepView::Finished(Err(_))),
    decreases rest.len(),
{
    if rest.len() > 0 {
        lemma_next_link_succeeds::<E>(job, rest.skip(1));
    }
}

proof fn lemma_never_fails<E>(job: ExtractionView, replies: Replies<E>, n: nat)
    requires
        named(job, replies, sources_in(job, replies).len() as int),
    ensures
        !(run(job, replies, n) matches ExtractStepView::Finished(Err(_))),
    decreases n,
{
    if n > 0 {
        lemma_never_fails(job, replies, (n - 1) as nat);
        lemma_on_course(job, replies, (n - 1) as nat);
        match run(job, replies, (n - 1) as nat) {
            ExtractStepView::Place { file, versions, at, job: j } => {
                sources::lemma_after_place(at, replies.places);
                lemma_next_link_succeeds::<E>(job, sources_in(job, replies));
            },
            ExtractStepView::Probe { source, rest, job: j } => {
                let k = sources_in(job, replies).len() - rest.len() - 1;
                assert(goes_by_its_name(job, replies, sources_in(job, replies)[k]));
                lemma_next_link_succeeds::<E>(job, rest);
            },
            ExtractStepView::Link { op, rest, job: j } => {
                let k = sources_in(job, replies).len() - rest.len() - 1;
                assert(goes_by_its_name(job, replies, sources_in(job, replies)[k]));
                lemma_next_link_succeeds::<E>(job, rest);
            },
            _ => {},
        }
    }
}

/// Every extraction comes to its end. It succeeds where what was installed before is removed,
/// everything that the format asks for is done, and every file of the package goes by its name or
/// can be given it.
pub proof fn law_extraction_ends<E>(job: ExtractionView, replies: Replies<E>)
    ensures
        run(job, replies, most_answers(job, replies)) is Finished,
        named(job, replies, sources_in(job, replies).len() as int) ==> run(
            job,
            replies,
            most_answers(job, replies),
        ) == ExtractStepView::<E>::Finished(Ok(())),
{
    let n = most_answers(job, replies);
    lemma_answers_left(job, replies, n);
    lemma_on_course(job, replies, n);
    if named(job, replies, sources_in(job, replies).len() as int) {
        lemma_never_fails(job, replies, n);
        match run(job, replies, n) {
            ExtractStepView::Finished(Ok(done)) => {
                assert(done == ());
            },
            _ => {},
        }
    }
}

/// An asset whose format begins with `tar`, whatever follows, is unpacked by taking the archive apart in
/// that format into the directory that the version is installed in, with all its paths.
pub proof fn law_tar_archives(
    pkg: AquaPackage,
    target: Target,
    tail: Seq<char>,
    archive: PathView,
    install_path: PathView,
)
    requires
        !(pkg.kind is GithubArchive),
        !(pkg.kind is GithubContent),
    ensures
        unpack_ops(pkg, target, "tar"@ + tail, archive, install_path) == Some(
            seq![
                FileOpView::Untar {
                    archive,
                    to: install_path,
                    format: "tar"@ + tail,
                    strip_components: 0,
                },
            ],
        ),
{
    reveal_strlit("tar");
    reveal_strlit("raw");
    let format = "tar"@ + tail;
    assert(format[0] == 't' && "raw"@[0] == 'r');
    assert(format.subrange(0, "tar"@.len() as int) == "tar"@);
}

/// The archive of a repository is unpacked as a tar archive, whatever its format; of the content of a
/// repository the first component of each path is left out.
pub proof fn law_archives_of_a_repository(
    pkg: AquaPackage,
    target: Target,
    format: Seq<char>,
    archive: PathView,
    install_path: PathView,
)
    ensures
        pkg.kind is GithubArchive ==> unpack_ops(pkg, target, format, archive, install_path) == Some(
            seq![FileOpView::Untar { archive, to: install_path, format, strip_components: 0 }],
        ),
        pkg.kind is GithubContent ==> unpack_ops(pkg, target, format, archive, install_path) == Some(
            seq![FileOpView::Untar { archive, to: install_path, format, strip_components: 1 }],
        ),
{
}

proof fn lemma_formats_differ()
    ensures
        !"tar"@.is_prefix_of("raw"@),
        !"tar"@.is_prefix_of("zip"@),
        !"tar"@.is_prefix_of("gz"@),
        !"tar"@.is_prefix_of("xz"@),
        !"tar"@.is_prefix_of("zst"@),
        !"tar"@.is_prefix_of("bz2"@),
        !"tar"@.is_prefix_of("dmg"@),
        !"tar"@.is_prefix_of("pkg"@),
        "raw"@[0] == 'r' && "zip"@[0] == 'z' && "gz"@[0] == 'g' && "xz"@[0] == 'x' && "zst"@[0]
            == 'z' && "bz2"@[0] == 'b' && "dmg"@[0] == 'd' && "pkg"@[0] == 'p',
        "zip"@ != "zst"@,
{
    reveal_strlit("tar");
    reveal_strlit("raw");
    reveal_strlit("zip");
    reveal_strlit("gz");
    reveal_strlit("xz");
    reveal_strlit("zst");
    reveal_strlit("bz2");
    reveal_strlit("dmg");
    reveal_strlit("pkg");
    assert("tar"@[0] == 't');
    assert("zip"@[1] == 'i' && "zst"@[1] == 's');
}

/// Zip archives, disk images and installer packages are unpacked into the directory that the version is
/// installed in.
pub proof fn law_other_archives(
    pkg: AquaPackage,
    target: Target,
    archive: PathView,
    install_path: PathView,
)
    requires
        !(pkg.kind is GithubArchive),
        !(pkg.kind is GithubContent),
    ensures
        unpack_ops(pkg, target, "zip"@, archive, install_path) == Some(
            seq![FileOpView::Unzip { archive, to: install_path }],
        ),
        unpack_ops(pkg, target, "dmg"@, archive, install_path) == Some(
            seq![FileOpView::UnDmg { archive, to: install_path }],
        ),
        unpack_ops(pkg, target, "pkg"@, archive, install_path) == Some(
            seq![FileOpView::UnPkg { archive, to: install_path }],
        ),
{
    lemma_formats_differ();
}

/// An asset that is one program, packed or not, is put under the program's name in the directory that the
/// version is installed in, which is made for it, and is then made executable.
pub proof fn law_single_programs(
    pkg: AquaPackage,
    target: Target,
    archive: PathView,
    install_path: PathView,
)
    requires
        !(pkg.kind is GithubArchive),
        !(pkg.kind is GithubContent),
    ensures
        ({
            let to = bin_path_of(pkg, target, install_path);
            let made = FileOpView::CreateDir { path: install_path };
            let executable = FileOpView::MakeExecutable { path: to };
            &&& unpack_ops(pkg, target, "raw"@, archive, install_path) == Some(
                seq![made, FileOpView::Copy { from: archive, to }, executable],
            )
            &&& unpack_ops(pkg, target, "gz"@, archive, install_path) == Some(
                seq![made, FileOpView::UnGz { archive, to }, executable],
            )
            &&& unpack_ops(pkg, target, "xz"@, archive, install_path) == Some(
                seq![made, FileOpView::UnXz { archive, to }, executable],
            )
            &&& unpack_ops(pkg, target, "zst"@, archive, install_path) == Some(
                seq![made, FileOpView::UnZst { archive, to }, executable],
            )
            &&& unpack_ops(pkg, target, "bz2"@, archive, install_path) == Some(
                seq![made, FileOpView::UnBz2 { archive, to }, executable],
            )
        }),
{
    lemma_formats_differ();
}

/// Every other format is not supported.
pub proof fn law_unsupported_formats(
    pkg: AquaPackage,
    target: Target,
    format: Seq<char>,
    archive: PathView,
    install_path: PathView,
)
    requires
        !(pkg.kind is GithubArchive),
        !(pkg.kind is GithubContent),
        !"tar"@.is_prefix_of(format),
        format != "raw"@ && format != "zip"@ && format != "gz"@ && format != "xz"@ && format
            != "zst"@ && format != "bz2"@ && format != "dmg"@ && format != "pkg"@,
    ensures
        unpack_ops(pkg, target, format, archive, install_path) is None,
{
}

/// A program goes by the name of the package's first file; a package without files names it by what
/// follows the last slash of its name, or, without a name, by its repository. Only on Windows, and where
/// the package wants it, the program gets the extension `exe`.
pub proof fn law_place_of_a_program(
    pkg: AquaPackage,
    target: Target,
    install_path: PathView,
    owner: Seq<char>,
    last: Seq<char>,
)
    requires
        !last.contains('/'),
    ensures
        ({
            let at = |name: Seq<char>|
                if target.windows && pkg.complete_windows_ext {
                    install_path.join(name).with_extension("exe"@)
                } else {
                    install_path.join(name)
                };
            let to = bin_path_of(pkg, target, install_path);
            let named = |text: Seq<char>| pkg.name matches Some(name) && name@ == text;
            &&& pkg.files@.len() > 0 ==> to == at(pkg.files@[0].name@)
            &&& pkg.files@.len() == 0 && named(owner.push('/') + last) ==> to == at(last)
            &&& pkg.files@.len() == 0 && named(last) ==> to == at(last)
            &&& pkg.files@.len() == 0 && pkg.name is None ==> to == at(pkg.repo_name@)
        }),
{
    text::lemma_after_last_of_sum(owner, '/', last);
}

/// What was installed before is removed before anything else; then the asset that was downloaded is
/// unpacked as its format asks for, one thing after the other.
pub proof fn law_first_steps<E>(
    job: ExtractionView,
    format: Seq<char>,
    ops: Seq<FileOpView>,
    err: E,
)
    ensures
        first_step::<E>(job) == (ExtractStepView::<E>::Remove {
            message: "extract "@ + job.filename,
            path: job.install_path,
            job,
        }),
        after_removal::<E>(job, Ok(())) == (ExtractStepView::<E>::Format { job }),
        after_removal::<E>(job, Err(err)) == ExtractStepView::<E>::Finished(
            Err(ExtractErrorView::Outside(err)),
        ),
        after_format(job, Err::<Seq<char>, E>(err)) == ExtractStepView::<E>::Finished(
            Err(ExtractErrorView::Outside(err)),
        ),
        unpack_ops(
            job.pkg,
            job.target,
            format,
            job.download_path.join(job.filename),
            job.install_path,
        ) is None ==> after_format(job, Ok::<Seq<char>, E>(format))
            == ExtractStepView::<E>::Finished(Err(ExtractErrorView::UnsupportedFormat(format))),
        unpack_ops(
            job.pkg,
            job.target,
            format,
            job.download_path.join(job.filename),
            job.install_path,
        ) == Some(ops) && ops.len() > 0 ==> after_format(job, Ok::<Seq<char>, E>(format)) == (
        ExtractStepView::<E>::Unpack { op: ops[0], ops: ops.skip(1), job }),
        ops.len() > 0 ==> after_op::<E>(job, ops, Ok(())) == (ExtractStepView::<E>::Unpack {
            op: ops[0],
            ops: ops.skip(1),
            job,
        }),
        after_op::<E>(job, ops, Err(err)) == ExtractStepView::<E>::Finished(
            Err(ExtractErrorView::Outside(err)),
        ),
{
}

/// When everything has been done to unpack the asset, the places of the package's files are asked for,
/// from the first file on.
pub proof fn law_places_follow<E>(job: ExtractionView, err: E)
    ensures
        job.pkg.files@.len() > 0 ==> after_op::<E>(job, Seq::empty(), Ok(())) == (
        ExtractStepView::<E>::Place {
            file: 0,
            versions: sources::src_versions_of(job.pkg, job.version),
            at: PlaceView {
                pkg: job.pkg,
                versions: sources::src_versions_of(job.pkg, job.version),
                install_path: job.install_path,
                index: 0,
                kept: Seq::empty(),
            },
            job,
        }),
        job.pkg.files@.len() == 0 ==> after_op::<E>(job, Seq::empty(), Ok(()))
            == ExtractStepView::<E>::Finished(Ok(())),
        go_on_with(job, SourcesStepView::<E>::Finished(SourcesView::Outside(err)))
            == ExtractStepView::<E>::Finished(Err(ExtractErrorView::Outside(err))),
        go_on_with(job, SourcesStepView::<E>::Finished(SourcesView::NoParent))
            == ExtractStepView::<E>::Finished(Err(ExtractErrorView::NoParent)),
{
}

proof fn lemma_skipped<E>(job: ExtractionView, skipped: Seq<SourceView>, rest: Seq<SourceView>)
    requires
        forall|i: int| 0 <= i < skipped.len() ==> (#[trigger] skipped[i]).src.same(skipped[i].dst),
    ensures
        next_link::<E>(job, skipped + rest) == next_link::<E>(job, rest),
    decreases skipped.len(),
{
    if skipped.len() == 0 {
        assert(skipped + rest == rest);
    } else {
        let all = skipped + rest;
        assert(all[0] == skipped[0]);
        assert(all.skip(1) == skipped.skip(1) + rest);
        assert forall|i: int| 0 <= i < skipped.skip(1).len() implies (
        #[trigger] skipped.skip(1)[i]).src.same(skipped.skip(1)[i].dst) by {
            assert(skipped.skip(1)[i] == skipped[i + 1]);
        }
        lemma_skipped::<E>(job, skipped.skip(1), rest);
    }
}

/// The files are looked at in their order. One that lies under its name already is passed over; of any
/// other it is asked whether it is there, and what is under its name.
pub proof fn law_files_in_turn<E>(
    job: ExtractionView,
    skipped: Seq<SourceView>,
    source: SourceView,
    rest: Seq<SourceView>,
)
    requires
        forall|i: int| 0 <= i < skipped.len() ==> (#[trigger] skipped[i]).src.same(skipped[i].dst),
        !source.src.same(source.dst),
    ensures
        go_on_with(
            job,
            SourcesStepView::<E>::Finished(SourcesView::Sources(skipped + (seq![source] + rest))),
        ) == (ExtractStepView::<E>::Probe { source, rest, job }),
        after_link::<E>(job, skipped + (seq![source] + rest), Ok(())) == (
        ExtractStepView::<E>::Probe { source, rest, job }),
        go_on_with(job, SourcesStepView::<E>::Finished(SourcesView::Sources(skipped)))
            == ExtractStepView::<E>::Finished(Ok(())),
        after_link::<E>(job, skipped, Ok(())) == ExtractStepView::<E>::Finished(Ok(())),
{
    let later = seq![source] + rest;
    lemma_skipped::<E>(job, skipped, later);
    assert(later[0] == source);
    assert(later.skip(1) == rest);
    lemma_skipped::<E>(job, skipped, Seq::empty());
    assert(skipped + Seq::<SourceView>::empty() == skipped);
}

/// A file that is there, with nothing under its name, is given the name: by a copy on Windows, and else
/// by a link from the name to the file beside it. A file that is not there, or whose name is taken, is
/// left alone, and the next one follows.
pub proof fn law_named_file<E>(
    job: ExtractionView,
    source: SourceView,
    rest: Seq<SourceView>,
    name: Seq<char>,
    err: E,
)
    ensures
        job.target.windows ==> after_probe::<E>(job, source, rest, true, false) == (
        ExtractStepView::<E>::Link {
            op: FileOpView::Copy { from: source.src, to: source.dst },
            rest,
            job,
        }),
        !job.target.windows && source.src.file_name() == Some(name) ==> after_probe::<E>(
            job,
            source,
            rest,
            true,
            false,
        ) == (ExtractStepView::<E>::Link {
            op: FileOpView::Symlink {
                target: source.src.with_text("."@).join(name),
                link: source.dst,
            },
            rest,
            job,
        }),
        !job.target.windows && source.src.file_name() is None ==> after_probe::<E>(
            job,
            source,
            rest,
            true,
            false,
        ) == ExtractStepView::<E>::Finished(Err(ExtractErrorView::NoFileName)),
        after_probe::<E>(job, source, rest, true, true) == after_link::<E>(job, rest, Ok(())),
        after_probe::<E>(job, source, rest, false, true) == after_link::<E>(job, rest, Ok(())),
        after_probe::<E>(job, source, rest, false, false) == after_link::<E>(job, rest, Ok(())),
        after_link::<E>(job, rest, Err(err)) == ExtractStepView::<E>::Finished(
            Err(ExtractErrorView::Outside(err)),
        ),
{
}

/// The places of the files are asked for by the steps that learn the sources of the package, one after
/// the other, and the extraction goes on from where they end.
pub proof fn law_places_in_turn<E>(
    job: ExtractionView,
    file: nat,
    versions: Seq<Seq<char>>,
    at: PlaceView,
    reply: Result<Vec<Option<String>>, E>,
)
    ensures
        go_on_with(job, SourcesStepView::<E>::Place { file, versions, at }) == (
        ExtractStepView::<E>::Place { file, versions, at, job }),
        after_place(job, at, reply) == go_on_with(job, sources::after_place(at, reply)),
{
}

} // verus!
