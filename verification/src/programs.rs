//! Where the programs of an installed version lie.
//!
//! Each step says what is to be done outside, and holds the state that goes on with the outcome.
use vstd::prelude::*;

use crate::package;
use crate::package::AquaPackage;
use crate::paths;
use crate::paths::{HostPath, PathView};
use crate::sources;
use crate::sources::{PlaceView, SourceView, SourcesError, SourcesStep, SourcesStepView, SourcesView};
use crate::text;

verus! {

/// Why it cannot be told where the programs of a version lie.
pub enum BinPathsError<E> {
    /// Something outside failed.
    Outside(E),
    /// The place of a file has no directory.
    NoParent,
    /// A directory does not lie below the one that the version is installed in.
    NotBelow,
}

/// Where the programs of a version lie, below the directory that it is installed in; or why that
/// cannot be told.
pub enum BinPathsView<E> {
    Paths(Seq<PathView>),
    Outside(E),
    NoParent,
    NotBelow,
}

/// What the outcome of listing the directories stands for.
pub open spec fn outcome_view<E>(r: Result<Vec<HostPath>, BinPathsError<E>>) -> BinPathsView<E> {
    match r {
        Ok(dirs) => BinPathsView::Paths(paths::paths_view(dirs@)),
        Err(BinPathsError::Outside(err)) => BinPathsView::Outside(err),
        Err(BinPathsError::NoParent) => BinPathsView::NoParent,
        Err(BinPathsError::NotBelow) => BinPathsView::NotBelow,
    }
}

/// The registry is being asked for the package.
pub struct AwaitPackage {
    pub version: String,
    pub install_path: HostPath,
}

/// The place of a file is being rendered.
pub struct AwaitPlace<'a> {
    pub install_path: HostPath,
    pub at: sources::AwaitPlace<'a>,
}

/// Whether a directory is there is being looked up.
pub struct AwaitProbe {
    pub install_path: HostPath,
    pub dir: HostPath,
    /// The directories that come after it.
    pub rest: Vec<HostPath>,
    /// The directories before it, each with whether it is there.
    pub probed: Vec<(HostPath, bool)>,
}

/// What is to be done next.
pub enum BinPathsStep<'a, E> {
    /// Ask the registry for the package of the version.
    Package { versions: Vec<String>, next: AwaitPackage },
    /// Render the place of the package's file with this index for each of these names of the version.
    Place { file: usize, versions: Vec<String>, next: AwaitPlace<'a> },
    /// Look whether the directory that the state holds is there.
    Probe { next: AwaitProbe },
    /// The directories are known, or cannot be.
    Finished(Result<Vec<HostPath>, BinPathsError<E>>),
}

/// What is to be done next.
pub enum BinPathsStepView<E> {
    Package { versions: Seq<Seq<char>>, version: Seq<char>, install_path: PathView },
    Place { file: nat, versions: Seq<Seq<char>>, at: PlaceView, install_path: PathView },
    Probe {
        dir: PathView,
        rest: Seq<PathView>,
        probed: Seq<(PathView, bool)>,
        install_path: PathView,
    },
    Finished(BinPathsView<E>),
}

impl<'a, E> View for BinPathsStep<'a, E> {
    type V = BinPathsStepView<E>;

    open spec fn view(&self) -> BinPathsStepView<E> {
        match *self {
            BinPathsStep::Package { versions, next } => BinPathsStepView::Package {
                versions: text::texts(versions@),
                version: next.version@,
                install_path: next.install_path@,
            },
            BinPathsStep::Place { file, versions, next } => BinPathsStepView::Place {
                file: file as nat,
                versions: text::texts(versions@),
                at: next.at@,
                install_path: next.install_path@,
            },
            BinPathsStep::Probe { next } => BinPathsStepView::Probe {
                dir: next.dir@,
                rest: paths::paths_view(next.rest@),
                probed: sources::probed_view(next.probed@),
                install_path: next.install_path@,
            },
            BinPathsStep::Finished(outcome) => BinPathsStepView::Finished(outcome_view(outcome)),
        }
    }
}

/// What is known already is taken; else the registry is asked for the package of the version.
pub open spec fn first_step<E>(
    version: Seq<char>,
    install_path: PathView,
    known: Option<Seq<PathView>>,
) -> BinPathsStepView<E> {
    match known {
        Some(dirs) => BinPathsStepView::Finished(BinPathsView::Paths(dirs)),
        None => BinPathsStepView::Package { versions: seq![version], version, install_path },
    }
}

/// The directories that are there, as they lie below the one that the version is installed in.
pub open spec fn relative_paths<E>(
    probed: Seq<(PathView, bool)>,
    install_path: PathView,
) -> BinPathsView<E> {
    match sources::relative_dirs(probed, install_path) {
        Some(dirs) => BinPathsView::Paths(dirs),
        None => BinPathsView::NotBelow,
    }
}

/// The directories are looked for one after the other.
pub open spec fn next_probe<E>(
    rest: Seq<PathView>,
    probed: Seq<(PathView, bool)>,
    install_path: PathView,
) -> BinPathsStepView<E> {
    if rest.len() == 0 {
        BinPathsStepView::Finished(relative_paths(probed, install_path))
    } else {
        BinPathsStepView::Probe { dir: rest[0], rest: rest.skip(1), probed, install_path }
    }
}

/// When the places of all files are known, the directories that may hold programs are looked for.
pub open spec fn go_on_with<E>(
    step: SourcesStepView<E>,
    install_path: PathView,
) -> BinPathsStepView<E> {
    match step {
        SourcesStepView::Place { file, versions, at } => BinPathsStepView::Place {
            file,
            versions,
            at,
            install_path,
        },
        SourcesStepView::Finished(SourcesView::Outside(err)) => BinPathsStepView::Finished(
            BinPathsView::Outside(err),
        ),
        SourcesStepView::Finished(SourcesView::NoParent) => BinPathsStepView::Finished(
            BinPathsView::NoParent,
        ),
        SourcesStepView::Finished(SourcesView::Sources(sources)) => match sources::bin_dirs_of(
            sources,
            install_path,
        ) {
            Some(dirs) => next_probe(dirs, Seq::empty(), install_path),
            None => BinPathsStepView::Finished(BinPathsView::NoParent),
        },
    }
}

/// The places of the package's files are rendered one after the other.
pub open spec fn after_package<E>(
    version: Seq<char>,
    install_path: PathView,
    reply: Result<AquaPackage, E>,
) -> BinPathsStepView<E> {
    match reply {
        Err(err) => BinPathsStepView::Finished(BinPathsView::Outside(err)),
        Ok(pkg) => go_on_with(
            sources::next_place(sources::first_place(pkg, version, install_path)),
            install_path,
        ),
    }
}

/// The place of a file is followed by that of the next.
pub open spec fn after_place<E>(
    at: PlaceView,
    install_path: PathView,
    reply: Result<Vec<Option<String>>, E>,
) -> BinPathsStepView<E> {
    go_on_with(sources::after_place(at, reply), install_path)
}

/// Whether a directory is there is kept with it.
pub open spec fn after_probe<E>(
    dir: PathView,
    rest: Seq<PathView>,
    probed: Seq<(PathView, bool)>,
    install_path: PathView,
    there: bool,
) -> BinPathsStepView<E> {
    next_probe(rest, probed.push((dir, there)), install_path)
}

/// What is known already of the directories of a version.
pub open spec fn known_view(known: Option<Vec<HostPath>>) -> Option<Seq<PathView>> {
    match known {
        Some(dirs) => Some(paths::paths_view(dirs@)),
        None => None,
    }
}

/// Begins to list the directories that hold the programs of a version, as they lie below the one that
/// it is installed in.
pub fn list_bin_paths<'a, E>(
    version: &str,
    install_path: &HostPath,
    known: Option<Vec<HostPath>>,
) -> (step: BinPathsStep<'a, E>)
    ensures
        step@ == first_step::<E>(version@, install_path@, known_view(known)),
{
    match known {
        Some(dirs) => BinPathsStep::Finished(Ok(dirs)),
        None => {
            let mut versions: Vec<String> = Vec::new();
            versions.push(version.to_owned());
            assert(text::texts(versions@) =~= seq![version@]);
            let next = AwaitPackage {
                version: version.to_owned(),
                install_path: install_path.duplicate(),
            };
            BinPathsStep::Package { versions, next }
        },
    }
}

/// Goes on with the places of the files, or, when they are known, with the directories.
fn with_sources<'a, E>(step: SourcesStep<'a, E>, install_path: HostPath) -> (r: BinPathsStep<'a, E>)
    ensures
        r@ == go_on_with(step@, install_path@),
{
    match step {
        SourcesStep::Place { file, versions, next } => BinPathsStep::Place {
            file,
            versions,
            next: AwaitPlace { install_path, at: next },
        },
        SourcesStep::Finished(Err(SourcesError::Outside(err))) => BinPathsStep::Finished(
            Err(BinPathsError::Outside(err)),
        ),
        SourcesStep::Finished(Err(SourcesError::NoParent)) => BinPathsStep::Finished(
            Err(BinPathsError::NoParent),
        ),
        SourcesStep::Finished(Ok(sources)) => match sources::bin_dirs(&sources, &install_path) {
            None => BinPathsStep::Finished(Err(BinPathsError::NoParent)),
            Some(dirs) => {
                let none: Vec<(HostPath, bool)> = Vec::new();
                assert(sources::probed_view(none@) =~= Seq::<(PathView, bool)>::empty());
                from_directory(dirs, none, install_path)
            },
        },
    }
}

/// Goes on to the next directory.
fn from_directory<'a, E>(
    dirs: Vec<HostPath>,
    probed: Vec<(HostPath, bool)>,
    install_path: HostPath,
) -> (step: BinPathsStep<'a, E>)
    ensures
        step@ == next_probe::<E>(
            paths::paths_view(dirs@),
            sources::probed_view(probed@),
            install_path@,
        ),
{
    if dirs.len() == 0 {
        return match sources::relative_bin_dirs(&probed, &install_path) {
            Some(relative) => BinPathsStep::Finished(Ok(relative)),
            None => BinPathsStep::Finished(Err(BinPathsError::NotBelow)),
        };
    }
    let mut rest = dirs;
    let dir = rest.remove(0);
    assert(paths::paths_view(rest@) =~= paths::paths_view(dirs@).skip(1));
    BinPathsStep::Probe { next: AwaitProbe { install_path, dir, rest, probed } }
}

impl AwaitPackage {
    /// Goes on with the package of the version.
    pub fn resume<'a, E>(self, reply: Result<&'a AquaPackage, E>) -> (step: BinPathsStep<'a, E>)
        ensures
            step@ == after_package(
                self.version@,
                self.install_path@,
                package::package_reply(reply),
            ),
    {
        match reply {
            Err(err) => BinPathsStep::Finished(Err(BinPathsError::Outside(err))),
            Ok(pkg) => {
                let step = sources::srcs(pkg, self.version.as_str(), &self.install_path);
                with_sources(step, self.install_path)
            },
        }
    }
}

impl<'a> AwaitPlace<'a> {
    /// Goes on with what is rendered of the place of the file, for each name of the version.
    pub fn resume<E>(self, reply: Result<Vec<Option<String>>, E>) -> (step: BinPathsStep<'a, E>)
        ensures
            step@ == after_place(self.at@, self.install_path@, reply),
    {
        let step = self.at.resume(reply);
        with_sources(step, self.install_path)
    }
}

impl AwaitProbe {
    /// Goes on with whether the directory is there.
    pub fn resume<'a, E>(self, there: bool) -> (step: BinPathsStep<'a, E>)
        ensures
            step@ == after_probe::<E>(
                self.dir@,
                paths::paths_view(self.rest@),
                sources::probed_view(self.probed@),
                self.install_path@,
                there,
            ),
    {
        let mut probed = self.probed;
        let ghost before = sources::probed_view(probed@);
        probed.push((self.dir, there));
        assert(sources::probed_view(probed@) =~= before.push((self.dir@, there)));
        from_directory(self.rest, probed, self.install_path)
    }
}

/// What comes back from outside while the directories of a version are listed.
pub struct Replies<E> {
    pub package: Result<AquaPackage, E>,
    /// What is rendered of the place of each file.
    pub places: Seq<Result<Vec<Option<String>>, E>>,
    pub there: spec_fn(PathView) -> bool,
}

/// The step that follows when the present one is answered.
pub open spec fn answered<E>(step: BinPathsStepView<E>, replies: Replies<E>) -> BinPathsStepView<E> {
    match step {
        BinPathsStepView::Package { versions, version, install_path } => after_package(
            version,
            install_path,
            replies.package,
        ),
        BinPathsStepView::Place { file, versions, at, install_path } => after_place(
            at,
            install_path,
            replies.places[file as int],
        ),
        BinPathsStepView::Probe { dir, rest, probed, install_path } => after_probe(
            dir,
            rest,
            probed,
            install_path,
            (replies.there)(dir),
        ),
        BinPathsStepView::Finished(outcome) => step,
    }
}

/// The step that is come to when `n` steps have been answered.
pub open spec fn run<E>(step: BinPathsStepView<E>, replies: Replies<E>, n: nat) -> BinPathsStepView<E>
    decreases n,
{
    if n == 0 {
        step
    } else {
        run(answered(step, replies), replies, (n - 1) as nat)
    }
}

/// Directories, each with whether it is there.
pub open spec fn probed_dirs(dirs: Seq<PathView>, there: spec_fn(PathView) -> bool) -> Seq<
    (PathView, bool),
> {
    Seq::new(dirs.len(), |i: int| (dirs[i], there(dirs[i])))
}

/// The directories that may hold the programs of a package, from what comes of its sources.
pub open spec fn dirs_of<E>(sources: SourcesView<E>, install_path: PathView) -> Option<
    Seq<PathView>,
> {
    match sources {
        SourcesView::Sources(sources) => sources::bin_dirs_of(sources, install_path),
        _ => None,
    }
}

/// Where the programs of a package lie, from what comes of its sources.
pub open spec fn paths_of_sources<E>(
    sources: SourcesView<E>,
    install_path: PathView,
    there: spec_fn(PathView) -> bool,
) -> BinPathsView<E> {
    match sources {
        SourcesView::Outside(err) => BinPathsView::Outside(err),
        SourcesView::NoParent => BinPathsView::NoParent,
        SourcesView::Sources(sources) => match sources::bin_dirs_of(sources, install_path) {
            None => BinPathsView::NoParent,
            Some(dirs) => relative_paths(probed_dirs(dirs, there), install_path),
        },
    }
}

/// Where the programs of a version lie: in those of the directories of its package's sources that are
/// there, each of them once, as they lie below the one that the version is installed in.
pub open spec fn paths_of_version<E>(install_path: PathView, replies: Replies<E>) -> BinPathsView<E> {
    match replies.package {
        Err(err) => BinPathsView::Outside(err),
        Ok(pkg) => paths_of_sources(
            sources::sources_of(install_path, pkg.files@, replies.places),
            install_path,
            replies.there,
        ),
    }
}

/// The number of answers after which a listing is sure to have come to its end: one for the package,
/// one for each of its files, and one for each directory.
pub open spec fn most_answers<E>(install_path: PathView, replies: Replies<E>) -> nat {
    match replies.package {
        Err(err) => 1,
        Ok(pkg) => 1 + pkg.files@.len() + match dirs_of(
            sources::sources_of(install_path, pkg.files@, replies.places),
            install_path,
        ) {
            Some(dirs) => dirs.len(),
            None => 0,
        },
    }
}

proof fn lemma_stays_finished<E>(outcome: BinPathsView<E>, replies: Replies<E>, n: nat)
    ensures
        run(BinPathsStepView::Finished(outcome), replies, n) == BinPathsStepView::Finished(outcome),
    decreases n,
{
    if n > 0 {
        lemma_stays_finished(outcome, replies, (n - 1) as nat);
    }
}

proof fn lemma_probes<E>(
    rest: Seq<PathView>,
    probed: Seq<(PathView, bool)>,
    install_path: PathView,
    replies: Replies<E>,
    n: nat,
)
    requires
        n >= rest.len(),
    ensures
        run(next_probe::<E>(rest, probed, install_path), replies, n) == BinPathsStepView::Finished(
            relative_paths::<E>(probed + probed_dirs(rest, replies.there), install_path),
        ),
    decreases rest.len(),
{
    let all = probed + probed_dirs(rest, replies.there);
    if rest.len() == 0 {
        assert(all == probed);
        lemma_stays_finished(relative_paths::<E>(probed, install_path), replies, n);
    } else {
        let more = probed.push((rest[0], (replies.there)(rest[0])));
        assert(more + probed_dirs(rest.skip(1), replies.there) == all);
        lemma_probes(rest.skip(1), more, install_path, replies, (n - 1) as nat);
    }
}

proof fn lemma_after_sources<E>(
    sources: SourcesView<E>,
    install_path: PathView,
    replies: Replies<E>,
    n: nat,
)
    requires
        dirs_of(sources, install_path) matches Some(dirs) ==> n >= dirs.len(),
    ensures
        run(go_on_with(SourcesStepView::Finished(sources), install_path), replies, n)
            == BinPathsStepView::Finished(paths_of_sources(sources, install_path, replies.there)),
{
    let outcome = paths_of_sources(sources, install_path, replies.there);
    match dirs_of(sources, install_path) {
        Some(dirs) => {
            let none = Seq::<(PathView, bool)>::empty();
            assert(none + probed_dirs(dirs, replies.there) == probed_dirs(dirs, replies.there));
            lemma_probes(dirs, none, install_path, replies, n);
        },
        None => lemma_stays_finished(outcome, replies, n),
    }
}

proof fn lemma_places<E>(at: PlaceView, replies: Replies<E>, n: nat)
    requires
        sources::is_on_course(at, replies.places),
        ({
            let sources = sources::sources_of(at.install_path, at.pkg.files@, replies.places);
            let files = at.pkg.files@.len() - at.index;
            match dirs_of(sources, at.install_path) {
                Some(dirs) => n >= files + dirs.len(),
                None => n >= files,
            }
        }),
    ensures
        run(go_on_with(sources::next_place::<E>(at), at.install_path), replies, n)
            == BinPathsStepView::Finished(
            paths_of_sources(
                sources::sources_of(at.install_path, at.pkg.files@, replies.places),
                at.install_path,
                replies.there,
            ),
        ),
    decreases at.pkg.files@.len() - at.index,
{
    let files = at.pkg.files@;
    let sources = sources::sources_of(at.install_path, files, replies.places);
    if at.index < files.len() {
        sources::lemma_after_place(at, replies.places);
        match sources::after_place(at, replies.places[at.index as int]) {
            SourcesStepView::Place { file, versions, at: next } => {
                lemma_places(next, replies, (n - 1) as nat);
            },
            SourcesStepView::Finished(outcome) => {
                lemma_after_sources(sources, at.install_path, replies, (n - 1) as nat);
            },
        }
    } else {
        assert(files.take(files.len() as int) == files);
        lemma_after_sources(sources, at.install_path, replies, n);
    }
}

/// Where nothing is known, the listing comes to its end, and tells where the programs of the version
/// lie: in those of the directories of its package's sources that are there, each of them once, as
/// they lie below the one that the version is installed in.
pub proof fn law_listed_paths<E>(
    version: Seq<char>,
    install_path: PathView,
    replies: Replies<E>,
    n: nat,
)
    requires
        n >= most_answers(install_path, replies),
    ensures
        run(first_step::<E>(version, install_path, None), replies, n)
            == BinPathsStepView::Finished(paths_of_version(install_path, replies)),
{
    let second = after_package(version, install_path, replies.package);
    assert(run(first_step::<E>(version, install_path, None), replies, n) == run(
        second,
        replies,
        (n - 1) as nat,
    ));
    match replies.package {
        Err(err) => lemma_stays_finished(BinPathsView::Outside(err), replies, (n - 1) as nat),
        Ok(pkg) => {
            let at = sources::first_place(pkg, version, install_path);
            assert(pkg.files@.take(0) == Seq::<package::AquaFile>::empty());
            lemma_places(at, replies, (n - 1) as nat);
        },
    }
}

/// What one listing has told is told again by another that knows it, and nothing is asked for, whatever
/// has changed outside.
pub proof fn law_known_paths_are_told_again<E>(
    version: Seq<char>,
    install_path: PathView,
    known: Option<Seq<PathView>>,
    replies: Replies<E>,
    n: nat,
    told: Seq<PathView>,
    later: Replies<E>,
    m: nat,
)
    requires
        run(first_step::<E>(version, install_path, known), replies, n)
            == BinPathsStepView::Finished(BinPathsView::<E>::Paths(told)),
    ensures
        run(first_step::<E>(version, install_path, Some(told)), later, m)
            == BinPathsStepView::Finished(BinPathsView::<E>::Paths(told)),
        known matches Some(dirs) ==> told == dirs,
{
    lemma_stays_finished(BinPathsView::<E>::Paths(told), later, m);
    if let Some(dirs) = known {
        lemma_stays_finished(BinPathsView::<E>::Paths(dirs), replies, n);
    }
}

/// What is known is told at once; else the registry is asked for the package of exactly this version.
pub proof fn law_what_is_asked_first<E>(
    version: Seq<char>,
    install_path: PathView,
    dirs: Seq<PathView>,
)
    ensures
        first_step::<E>(version, install_path, Some(dirs)) == BinPathsStepView::<E>::Finished(
            BinPathsView::Paths(dirs),
        ),
        first_step::<E>(version, install_path, None) == (BinPathsStepView::<E>::Package {
            versions: seq![version],
            version,
            install_path,
        }),
{
}

/// The places of the package's files are asked for next, from the first file on; a package without files
/// is looked for in the directory that the version is installed in.
pub proof fn law_places_of_the_files<E>(
    version: Seq<char>,
    install_path: PathView,
    pkg: AquaPackage,
    err: E,
)
    ensures
        after_package(version, install_path, Err::<AquaPackage, E>(err))
            == BinPathsStepView::<E>::Finished(BinPathsView::Outside(err)),
        pkg.files@.len() > 0 ==> after_package(version, install_path, Ok::<AquaPackage, E>(pkg)) == (
        BinPathsStepView::<E>::Place {
            file: 0,
            versions: sources::src_versions_of(pkg, version),
            at: PlaceView {
                pkg,
                versions: sources::src_versions_of(pkg, version),
                install_path,
                index: 0,
                kept: Seq::empty(),
            },
            install_path,
        }),
        pkg.files@.len() == 0 ==> after_package(version, install_path, Ok::<AquaPackage, E>(pkg))
            == (BinPathsStepView::<E>::Probe {
            dir: install_path,
            rest: Seq::empty(),
            probed: Seq::empty(),
            install_path,
        }),
{
    if pkg.files@.len() == 0 {
        assert(seq![install_path].skip(1) == Seq::<PathView>::empty());
    }
}

/// The directories are looked for in their order, each with whether it is there kept with it; when all
/// have been, what is left of those that are there below the directory of the version is told.
pub proof fn law_directories_in_turn<E>(
    install_path: PathView,
    sources: Seq<SourceView>,
    dirs: Seq<PathView>,
    dir: PathView,
    probed: Seq<(PathView, bool)>,
    there: bool,
    told: Seq<PathView>,
    err: E,
)
    ensures
        sources::bin_dirs_of(sources, install_path) == Some(dirs) && dirs.len() > 0 ==> go_on_with(
            SourcesStepView::<E>::Finished(SourcesView::Sources(sources)),
            install_path,
        ) == (BinPathsStepView::<E>::Probe {
            dir: dirs[0],
            rest: dirs.skip(1),
            probed: Seq::empty(),
            install_path,
        }),
        sources::bin_dirs_of(sources, install_path) is None ==> go_on_with(
            SourcesStepView::<E>::Finished(SourcesView::Sources(sources)),
            install_path,
        ) == BinPathsStepView::<E>::Finished(BinPathsView::NoParent),
        go_on_with(SourcesStepView::<E>::Finished(SourcesView::Outside(err)), install_path)
            == BinPathsStepView::<E>::Finished(BinPathsView::Outside(err)),
        go_on_with(SourcesStepView::<E>::Finished(SourcesView::NoParent), install_path)
            == BinPathsStepView::<E>::Finished(BinPathsView::NoParent),
        dirs.len() > 0 ==> after_probe::<E>(dir, dirs, probed, install_path, there) == (
        BinPathsStepView::<E>::Probe {
            dir: dirs[0],
            rest: dirs.skip(1),
            probed: probed.push((dir, there)),
            install_path,
        }),
        sources::relative_dirs(probed.push((dir, there)), install_path) == Some(told)
            ==> after_probe::<E>(dir, Seq::empty(), probed, install_path, there)
            == BinPathsStepView::<E>::Finished(BinPathsView::Paths(told)),
        sources::relative_dirs(probed.push((dir, there)), install_path) is None ==> after_probe::<E>(
            dir,
            Seq::empty(),
            probed,
            install_path,
            there,
        ) == BinPathsStepView::<E>::Finished(BinPathsView::NotBelow),
{
}

/// The places of the files are asked for by the steps that learn the sources of the package, one after
/// the other, and the directories are learned from where they end.
pub proof fn law_places_in_turn<E>(
    install_path: PathView,
    file: nat,
    versions: Seq<Seq<char>>,
    at: PlaceView,
    reply: Result<Vec<Option<String>>, E>,
)
    ensures
        go_on_with(SourcesStepView::<E>::Place { file, versions, at }, install_path) == (
        BinPathsStepView::<E>::Place { file, versions, at, install_path }),
        after_place(at, install_path, reply) == go_on_with(
            sources::after_place(at, reply),
            install_path,
        ),
{
}

} // verus!
