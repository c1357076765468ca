//! The files of an installed package: where each one lies, what it is to be called, and which
//! directories hold the programs.
use vstd::prelude::*;

use crate::package::{AquaFile, AquaPackage};
use crate::paths;
use crate::paths::{HostPath, PathView};
use crate::text;

verus! {

/// A file of a package: where it lies, and where it is to be found under its name.
pub struct Source {
    pub src: HostPath,
    pub dst: HostPath,
}

/// A file of a package: where it lies, and where it is to be found under its name.
pub struct SourceView {
    pub src: PathView,
    pub dst: PathView,
}

impl View for Source {
    type V = SourceView;

    open spec fn view(&self) -> SourceView {
        SourceView { src: self.src@, dst: self.dst@ }
    }
}

/// The files of a package, in their order.
pub open spec fn sources_view(sources: Seq<Source>) -> Seq<SourceView> {
    Seq::new(sources.len(), |i: int| sources[i]@)
}

/// The names of a version that the place of a file is rendered for: the version with the package's
/// prefix, or, without one, the version as it is and with a `v`.
pub open spec fn src_versions_of(pkg: AquaPackage, version: Seq<char>) -> Seq<Seq<char>> {
    match pkg.version_prefix {
        Some(prefix) => seq![prefix@ + version],
        None => seq![version, "v"@ + version],
    }
}

/// The names of a version that the place of a file is rendered for.
pub fn src_versions(pkg: &AquaPackage, version: &str) -> (r: Vec<String>)
    ensures
        text::texts(r@) == src_versions_of(*pkg, version@),
{
    let mut r: Vec<String> = Vec::new();
    match &pkg.version_prefix {
        Some(prefix) => {
            r.push(prefix.clone().concat(version));
        },
        None => {
            r.push(version.to_owned());
            r.push("v".to_owned().concat(version));
        },
    }
    assert(text::texts(r@) =~= src_versions_of(*pkg, version@));
    r
}

/// The place of a file, and the place beside it under the file's name; nothing where the first has
/// no directory.
pub open spec fn source_of(
    install_path: PathView,
    name: Seq<char>,
    rendered: Seq<char>,
) -> Option<SourceView> {
    let src = install_path.join(rendered);
    match src.parent() {
        Some(parent) => Some(SourceView { src, dst: parent.join(name) }),
        None => None,
    }
}

/// What is rendered of the place of a file, for each name of the version.
pub open spec fn places_view(places: Seq<Option<String>>) -> Seq<Option<Seq<char>>> {
    Seq::new(places.len(), |i: int| text::opt_text(places[i]))
}

/// The sources of one file: one for each name of the version that gives it a place.
pub open spec fn file_sources(
    install_path: PathView,
    name: Seq<char>,
    places: Seq<Option<Seq<char>>>,
) -> Option<Seq<SourceView>>
    decreases places.len(),
{
    if places.len() == 0 {
        Some(Seq::empty())
    } else {
        match file_sources(install_path, name, places.drop_last()) {
            None => None,
            Some(before) => match places.last() {
                None => Some(before),
                Some(rendered) => match source_of(install_path, name, rendered) {
                    Some(source) => Some(before.push(source)),
                    None => None,
                },
            },
        }
    }
}

/// What comes of the sources of a package: the first file whose place cannot be rendered, or that
/// has a place without a directory, decides.
pub enum SourcesView<E> {
    Sources(Seq<SourceView>),
    Outside(E),
    NoParent,
}

/// Why the sources of a package are not known.
pub enum SourcesError<E> {
    /// The place of a file cannot be rendered.
    Outside(E),
    /// The place of a file has no directory.
    NoParent,
}

/// What the outcome of listing the sources stands for.
pub open spec fn outcome_view<E>(r: Result<Vec<Source>, SourcesError<E>>) -> SourcesView<E> {
    match r {
        Ok(sources) => SourcesView::Sources(sources_view(sources@)),
        Err(SourcesError::Outside(err)) => SourcesView::Outside(err),
        Err(SourcesError::NoParent) => SourcesView::NoParent,
    }
}

/// The sources of all files, one file after the other, where `rendered` says what is rendered of the
/// place of each file.
pub open spec fn all_sources<E>(
    install_path: PathView,
    files: Seq<AquaFile>,
    rendered: Seq<Result<Vec<Option<String>>, E>>,
) -> SourcesView<E>
    decreases files.len(),
{
    if files.len() == 0 {
        SourcesView::Sources(Seq::empty())
    } else {
        match all_sources(install_path, files.drop_last(), rendered) {
            SourcesView::Sources(before) => match rendered[files.len() - 1] {
                Err(err) => SourcesView::Outside(err),
                Ok(places) => match file_sources(
                    install_path,
                    files.last().name@,
                    places_view(places@),
                ) {
                    Some(sources) => SourcesView::Sources(before + sources),
                    None => SourcesView::NoParent,
                },
            },
            ended => ended,
        }
    }
}

/// Whether one of the sources lies at a path.
pub open spec fn lies_at(sources: Seq<SourceView>, src: PathView) -> bool {
    exists|i: int| 0 <= i < sources.len() && (#[trigger] sources[i]).src.same(src)
}

/// The sources without those that lie where an earlier one does.
pub open spec fn distinct_sources(sources: Seq<SourceView>) -> Seq<SourceView>
    decreases sources.len(),
{
    if sources.len() == 0 {
        Seq::empty()
    } else {
        let before = distinct_sources(sources.drop_last());
        if lies_at(before, sources.last().src) {
            before
        } else {
            before.push(sources.last())
        }
    }
}

/// The sources of a package.
pub open spec fn sources_of<E>(
    install_path: PathView,
    files: Seq<AquaFile>,
    rendered: Seq<Result<Vec<Option<String>>, E>>,
) -> SourcesView<E> {
    match all_sources(install_path, files, rendered) {
        SourcesView::Sources(sources) => SourcesView::Sources(distinct_sources(sources)),
        ended => ended,
    }
}

/// The sources of one file.
fn sources_of_file(install_path: &HostPath, name: &str, places: &Vec<Option<String>>) -> (r: Option<
    Vec<Source>,
>)
    ensures
        r is Some <==> file_sources(install_path@, name@, places_view(places@)) is Some,
        r matches Some(sources) ==> file_sources(install_path@, name@, places_view(places@))
            == Some(sources_view(sources@)),
{
    let ghost all = places_view(places@);
    let mut r: Vec<Source> = Vec::new();
    let mut i: usize = 0;
    assert(all.take(0) == Seq::<Option<Seq<char>>>::empty());
    assert(sources_view(r@) == Seq::<SourceView>::empty());
    while i < places.len()
        invariant
            i <= places@.len(),
            all == places_view(places@),
            file_sources(install_path@, name@, all.take(i as int)) == Some(sources_view(r@)),
        decreases places.len() - i,
    {
        let ghost before = sources_view(r@);
        proof {
            assert(all.take(i + 1).drop_last() == all.take(i as int));
            assert(all.take(i + 1).last() == all[i as int]);
        }
        if let Some(rendered) = &places[i] {
            let src = install_path.join(rendered.as_str());
            match src.parent() {
                None => {
                    proof {
                        lemma_file_sources_fail(install_path@, name@, all, i + 1);
                    }
                    return None;
                },
                Some(parent) => {
                    let dst = parent.join(name);
                    r.push(Source { src, dst });
                    assert(sources_view(r@) == before.push(r@[r@.len() - 1]@));
                },
            }
        }
        i = i + 1;
    }
    assert(all.take(all.len() as int) == all);
    Some(r)
}

proof fn lemma_file_sources_fail(
    install_path: PathView,
    name: Seq<char>,
    places: Seq<Option<Seq<char>>>,
    n: int,
)
    requires
        0 <= n <= places.len(),
        file_sources(install_path, name, places.take(n)) is None,
    ensures
        file_sources(install_path, name, places) is None,
    decreases places.len(),
{
    if n == places.len() {
        assert(places.take(n) == places);
    } else {
        assert(places.drop_last().take(n) == places.take(n));
        lemma_file_sources_fail(install_path, name, places.drop_last(), n);
    }
}

proof fn lemma_all_sources_end<E>(
    install_path: PathView,
    files: Seq<AquaFile>,
    rendered: Seq<Result<Vec<Option<String>>, E>>,
    n: int,
)
    requires
        0 <= n <= files.len(),
        !(all_sources(install_path, files.take(n), rendered) is Sources),
    ensures
        all_sources(install_path, files, rendered) == all_sources(
            install_path,
            files.take(n),
            rendered,
        ),
    decreases files.len(),
{
    if n == files.len() {
        assert(files.take(n) == files);
    } else {
        assert(files.drop_last().take(n) == files.take(n));
        lemma_all_sources_end(install_path, files.drop_last(), rendered, n);
    }
}

/// Whether one of the sources lies at a path.
fn any_lies_at(sources: &Vec<Source>, src: &HostPath) -> (r: bool)
    ensures
        r == lies_at(sources_view(sources@), src@),
{
    let mut i: usize = 0;
    while i < sources.len()
        invariant
            i <= sources@.len(),
            forall|j: int|
                0 <= j < i ==> !(#[trigger] sources_view(sources@)[j]).src.same(src@),
        decreases sources.len() - i,
    {
        assert(sources_view(sources@)[i as int].src == sources@[i as int].src@);
        if sources[i].src.same(src) {
            return true;
        }
        i = i + 1;
    }
    false
}

/// Sources with more of them, without those of the latter that lie where an earlier one does.
pub open spec fn with_more(kept: Seq<SourceView>, more: Seq<SourceView>) -> Seq<SourceView>
    decreases more.len(),
{
    if more.len() == 0 {
        kept
    } else {
        let before = with_more(kept, more.drop_last());
        if lies_at(before, more.last().src) {
            before
        } else {
            before.push(more.last())
        }
    }
}

proof fn lemma_distinct_sources_of_sum(first: Seq<SourceView>, more: Seq<SourceView>)
    ensures
        distinct_sources(first + more) == with_more(distinct_sources(first), more),
    decreases more.len(),
{
    if more.len() == 0 {
        assert(first + more == first);
    } else {
        assert((first + more).drop_last() == first + more.drop_last());
        assert((first + more).last() == more.last());
        lemma_distinct_sources_of_sum(first, more.drop_last());
    }
}

/// Adds the sources of one file to those before it, leaving out those that lie where an earlier one
/// does.
fn add_distinct(kept: Vec<Source>, more: Vec<Source>) -> (r: Vec<Source>)
    ensures
        sources_view(r@) == with_more(sources_view(kept@), sources_view(more@)),
{
    let ghost first = sources_view(kept@);
    let ghost all = sources_view(more@);
    let mut r = kept;
    let mut i: usize = 0;
    assert(all.take(0) == Seq::<SourceView>::empty());
    while i < more.len()
        invariant
            i <= more@.len(),
            all == sources_view(more@),
            sources_view(r@) == with_more(first, all.take(i as int)),
        decreases more.len() - i,
    {
        let ghost before = sources_view(r@);
        proof {
            assert(all.take(i + 1).drop_last() == all.take(i as int));
            assert(all.take(i + 1).last() == all[i as int]);
        }
        if !any_lies_at(&r, &more[i].src) {
            r.push(Source { src: more[i].src.duplicate(), dst: more[i].dst.duplicate() });
            assert(sources_view(r@) == before.push(all[i as int]));
        }
        i = i + 1;
    }
    assert(all.take(all.len() as int) == all);
    r
}

/// The place of one of a package's files is being rendered.
pub struct AwaitPlace<'a> {
    pkg: &'a AquaPackage,
    versions: Vec<String>,
    install_path: HostPath,
    index: usize,
    kept: Vec<Source>,
}

/// The place of one of a package's files is being rendered: the index of the file, and the sources of
/// the files before it.
pub struct PlaceView {
    pub pkg: AquaPackage,
    pub versions: Seq<Seq<char>>,
    pub install_path: PathView,
    pub index: nat,
    pub kept: Seq<SourceView>,
}

impl<'a> View for AwaitPlace<'a> {
    type V = PlaceView;

    closed spec fn view(&self) -> PlaceView {
        PlaceView {
            pkg: *self.pkg,
            versions: text::texts(self.versions@),
            install_path: self.install_path@,
            index: self.index as nat,
            kept: sources_view(self.kept@),
        }
    }
}

/// What is to be done next to learn the sources of a package.
pub enum SourcesStep<'a, E> {
    /// Render the place of the package's file with this index for each of these names of the version.
    Place { file: usize, versions: Vec<String>, next: AwaitPlace<'a> },
    /// The sources are known, or cannot be.
    Finished(Result<Vec<Source>, SourcesError<E>>),
}

/// What is to be done next to learn the sources of a package.
pub enum SourcesStepView<E> {
    Place { file: nat, versions: Seq<Seq<char>>, at: PlaceView },
    Finished(SourcesView<E>),
}

impl<'a, E> View for SourcesStep<'a, E> {
    type V = SourcesStepView<E>;

    open spec fn view(&self) -> SourcesStepView<E> {
        match *self {
            SourcesStep::Place { file, versions, next } => SourcesStepView::Place {
                file: file as nat,
                versions: text::texts(versions@),
                at: next@,
            },
            SourcesStep::Finished(outcome) => SourcesStepView::Finished(outcome_view(outcome)),
        }
    }
}

/// The files of a package are taken in their order.
pub open spec fn next_place<E>(at: PlaceView) -> SourcesStepView<E> {
    if at.index < at.pkg.files@.len() {
        SourcesStepView::Place { file: at.index, versions: at.versions, at }
    } else {
        SourcesStepView::Finished(SourcesView::Sources(at.kept))
    }
}

/// The sources of a package are sought from its first file on.
pub open spec fn first_place(
    pkg: AquaPackage,
    version: Seq<char>,
    install_path: PathView,
) -> PlaceView {
    PlaceView {
        pkg,
        versions: src_versions_of(pkg, version),
        install_path,
        index: 0,
        kept: Seq::empty(),
    }
}

/// The sources of a file are added to those before it, unless its place cannot be rendered or has no
/// directory.
pub open spec fn after_place<E>(
    at: PlaceView,
    reply: Result<Vec<Option<String>>, E>,
) -> SourcesStepView<E> {
    match reply {
        Err(err) => SourcesStepView::Finished(SourcesView::Outside(err)),
        Ok(places) => match file_sources(
            at.install_path,
            at.pkg.files@[at.index as int].name@,
            places_view(places@),
        ) {
            None => SourcesStepView::Finished(SourcesView::NoParent),
            Some(more) => next_place(
                PlaceView { index: at.index + 1, kept: with_more(at.kept, more), ..at },
            ),
        },
    }
}

/// Begins to learn the sources of a package.
pub fn srcs<'a, E>(pkg: &'a AquaPackage, version: &str, install_path: &HostPath) -> (step:
    SourcesStep<'a, E>)
    ensures
        step@ == next_place::<E>(first_place(*pkg, version@, install_path@)),
{
    let versions = src_versions(pkg, version);
    let kept: Vec<Source> = Vec::new();
    assert(sources_view(kept@) == Seq::<SourceView>::empty());
    go_on(pkg, versions, install_path.duplicate(), 0, kept)
}

/// Goes on to a file of a package, if there is one with this index.
fn go_on<'a, E>(
    pkg: &'a AquaPackage,
    versions: Vec<String>,
    install_path: HostPath,
    index: usize,
    kept: Vec<Source>,
) -> (step: SourcesStep<'a, E>)
    ensures
        step@ == next_place::<E>(
            PlaceView {
                pkg: *pkg,
                versions: text::texts(versions@),
                install_path: install_path@,
                index: index as nat,
                kept: sources_view(kept@),
            },
        ),
{
    if index < pkg.files.len() {
        let asked = text::copy(&versions);
        let next = AwaitPlace { pkg, versions, install_path, index, kept };
        SourcesStep::Place { file: index, versions: asked, next }
    } else {
        SourcesStep::Finished(Ok(kept))
    }
}

impl<'a> AwaitPlace<'a> {
    /// The index is that of one of the package's files.
    #[verifier::type_invariant]
    spec fn is_at_a_file(self) -> bool {
        self.index < self.pkg.files@.len()
    }

    /// Goes on with what is rendered of the place of the file, for each name of the version.
    pub fn resume<E>(self, reply: Result<Vec<Option<String>>, E>) -> (step: SourcesStep<'a, E>)
        ensures
            step@ == after_place(self@, reply),
    {
        proof {
            use_type_invariant(&self);
            assert(self.index < self.pkg.files.len());
        }
        let places = match reply {
            Err(err) => {
                return SourcesStep::Finished(Err(SourcesError::Outside(err)));
            },
            Ok(places) => places,
        };
        let name = self.pkg.files[self.index].name.as_str();
        match sources_of_file(&self.install_path, name, &places) {
            None => SourcesStep::Finished(Err(SourcesError::NoParent)),
            Some(more) => {
                let kept = add_distinct(self.kept, more);
                go_on(self.pkg, self.versions, self.install_path, self.index + 1, kept)
            },
        }
    }
}

/// Whether the sources at hand are those of the files before the one whose place is being rendered.
pub open spec fn is_on_course<E>(
    at: PlaceView,
    rendered: Seq<Result<Vec<Option<String>>, E>>,
) -> bool {
    &&& at.index <= at.pkg.files@.len()
    &&& sources_of(at.install_path, at.pkg.files@.take(at.index as int), rendered)
        == SourcesView::<E>::Sources(at.kept)
}

/// With the place of a file rendered, the sources at hand are those of the files up to it; what comes
/// of the last file, or of one that fails, is what comes of the package.
pub proof fn lemma_after_place<E>(at: PlaceView, rendered: Seq<Result<Vec<Option<String>>, E>>)
    requires
        at.index < at.pkg.files@.len(),
        is_on_course(at, rendered),
    ensures
        match after_place(at, rendered[at.index as int]) {
            SourcesStepView::Place { file, versions, at: next } => {
                &&& file == at.index + 1
                &&& versions == at.versions
                &&& next == (PlaceView { index: at.index + 1, kept: next.kept, ..at })
                &&& next.index < next.pkg.files@.len()
                &&& is_on_course(next, rendered)
            },
            SourcesStepView::Finished(outcome) => outcome == sources_of(
                at.install_path,
                at.pkg.files@,
                rendered,
            ),
        },
{
    let files = at.pkg.files@;
    let i = at.index as int;
    let upto = files.take(i + 1);
    assert(upto.drop_last() == files.take(i));
    assert(upto.last() == files[i]);
    match all_sources(at.install_path, files.take(i), rendered) {
        SourcesView::Sources(before) => {
            if let Ok(places) = rendered[i] {
                if let Some(more) = file_sources(
                    at.install_path,
                    files[i].name@,
                    places_view(places@),
                ) {
                    lemma_distinct_sources_of_sum(before, more);
                }
            }
        },
        _ => {},
    }
    if !(all_sources(at.install_path, upto, rendered) is Sources) {
        lemma_all_sources_end(at.install_path, files, rendered, i + 1);
    }
    if i + 1 == files.len() {
        assert(upto == files);
    }
}

/// The step that is come to when `n` steps have been answered.
pub open spec fn run<E>(
    step: SourcesStepView<E>,
    rendered: Seq<Result<Vec<Option<String>>, E>>,
    n: nat,
) -> SourcesStepView<E>
    decreases n,
{
    if n == 0 {
        step
    } else {
        match step {
            SourcesStepView::Place { file, versions, at } => run(
                after_place(at, rendered[file as int]),
                rendered,
                (n - 1) as nat,
            ),
            SourcesStepView::Finished(outcome) => step,
        }
    }
}

proof fn lemma_run<E>(at: PlaceView, rendered: Seq<Result<Vec<Option<String>>, E>>)
    requires
        is_on_course(at, rendered),
    ensures
        run(next_place::<E>(at), rendered, (at.pkg.files@.len() - at.index) as nat) == (
        SourcesStepView::Finished(sources_of(at.install_path, at.pkg.files@, rendered))),
    decreases at.pkg.files@.len() - at.index,
{
    let files = at.pkg.files@;
    if at.index < files.len() {
        lemma_after_place(at, rendered);
        match after_place(at, rendered[at.index as int]) {
            SourcesStepView::Place { file, versions, at: next } => {
                assert(next_place::<E>(next) == after_place(at, rendered[at.index as int]));
                lemma_run(next, rendered);
            },
            SourcesStepView::Finished(outcome) => {
                lemma_stays_finished(outcome, rendered, (files.len() - at.index - 1) as nat);
            },
        }
    } else {
        assert(files.take(files.len() as int) == files);
    }
}

proof fn lemma_stays_finished<E>(
    outcome: SourcesView<E>,
    rendered: Seq<Result<Vec<Option<String>>, E>>,
    n: nat,
)
    ensures
        run(SourcesStepView::Finished(outcome), rendered, n) == SourcesStepView::Finished(outcome),
{
}

/// The sources of a package are known after at most one answer for each of its files; they are those
/// of its files, one file after the other, without those that lie where an earlier one does.
pub proof fn law_sources_of_a_package<E>(
    pkg: AquaPackage,
    version: Seq<char>,
    install_path: PathView,
    rendered: Seq<Result<Vec<Option<String>>, E>>,
)
    ensures
        run(
            next_place::<E>(first_place(pkg, version, install_path)),
            rendered,
            pkg.files@.len(),
        ) == SourcesStepView::Finished(sources_of(install_path, pkg.files@, rendered)),
{
    let at = first_place(pkg, version, install_path);
    assert(pkg.files@.take(0) == Seq::<AquaFile>::empty());
    lemma_run(at, rendered);
}

/// No two sources lie at one path; each is one of the given ones; and each of the given ones is there
/// or lies where one that is there does.
pub proof fn law_distinct_sources(sources: Seq<SourceView>)
    ensures
        forall|i: int, j: int|
            0 <= i < j < distinct_sources(sources).len() ==> !(
            #[trigger] distinct_sources(sources)[i]).src.same((
            #[trigger] distinct_sources(sources)[j]).src),
        forall|i: int|
            0 <= i < distinct_sources(sources).len() ==> sources.contains(
                #[trigger] distinct_sources(sources)[i],
            ),
        forall|i: int|
            0 <= i < sources.len() ==> distinct_sources(sources).contains(#[trigger] sources[i])
                || lies_at(distinct_sources(sources), sources[i].src),
    decreases sources.len(),
{
    if sources.len() > 0 {
        let rest = sources.drop_last();
        let last = sources.last();
        let before = distinct_sources(rest);
        let kept = distinct_sources(sources);
        law_distinct_sources(rest);
        assert forall|i: int| 0 <= i < kept.len() implies sources.contains(#[trigger] kept[i]) by {
            if i < before.len() {
                assert(kept[i] == before[i]);
                let k = choose|k: int| 0 <= k < rest.len() && rest[k] == before[i];
                assert(sources[k] == before[i]);
            } else {
                assert(sources[sources.len() - 1] == kept[i]);
            }
        }
        assert forall|i: int, j: int| 0 <= i < j < kept.len() implies !(
        #[trigger] kept[i]).src.same((#[trigger] kept[j]).src) by {
            assert(kept[i] == before[i]);
            if j < before.len() {
                assert(kept[j] == before[j]);
            }
        }
        assert forall|i: int| 0 <= i < sources.len() implies kept.contains(#[trigger] sources[i])
            || lies_at(kept, sources[i].src) by {
            if i < rest.len() {
                assert(sources[i] == rest[i]);
                if before.contains(rest[i]) {
                    let k = choose|k: int| 0 <= k < before.len() && before[k] == rest[i];
                    assert(kept[k] == rest[i]);
                } else {
                    let k = choose|k: int|
                        0 <= k < before.len() && (#[trigger] before[k]).src.same(rest[i].src);
                    assert(kept[k] == before[k]);
                }
            } else if !lies_at(before, last.src) {
                assert(kept[kept.len() - 1] == last);
            }
        }
    }
}

/// Whether one of the paths is the given one.
pub open spec fn is_among(dirs: Seq<PathView>, dir: PathView) -> bool {
    exists|i: int| 0 <= i < dirs.len() && (#[trigger] dirs[i]).same(dir)
}

/// The paths without those that an earlier one equals.
pub open spec fn distinct_paths(dirs: Seq<PathView>) -> Seq<PathView>
    decreases dirs.len(),
{
    if dirs.len() == 0 {
        Seq::empty()
    } else {
        let before = distinct_paths(dirs.drop_last());
        if is_among(before, dirs.last()) {
            before
        } else {
            before.push(dirs.last())
        }
    }
}

/// The directories in which the files are found under their names; nothing where one has none.
pub open spec fn dst_dirs(sources: Seq<SourceView>) -> Option<Seq<PathView>>
    decreases sources.len(),
{
    if sources.len() == 0 {
        Some(Seq::empty())
    } else {
        match (dst_dirs(sources.drop_last()), sources.last().dst.parent()) {
            (Some(before), Some(dir)) => Some(before.push(dir)),
            _ => None,
        }
    }
}

/// The directories that may hold the programs of a package, each of them once: those of its files,
/// or, for a package without files, the one that it is installed in.
pub open spec fn bin_dirs_of(sources: Seq<SourceView>, install_path: PathView) -> Option<
    Seq<PathView>,
> {
    if sources.len() == 0 {
        Some(seq![install_path])
    } else {
        match dst_dirs(sources) {
            Some(dirs) => Some(distinct_paths(dirs)),
            None => None,
        }
    }
}

/// Whether one of the paths is the given one.
fn any_is(dirs: &Vec<HostPath>, dir: &HostPath) -> (r: bool)
    ensures
        r == is_among(paths::paths_view(dirs@), dir@),
{
    let mut i: usize = 0;
    while i < dirs.len()
        invariant
            i <= dirs@.len(),
            forall|j: int|
                0 <= j < i ==> !(#[trigger] paths::paths_view(dirs@)[j]).same(dir@),
        decreases dirs.len() - i,
    {
        assert(paths::paths_view(dirs@)[i as int] == dirs@[i as int]@);
        if dirs[i].same(dir) {
            return true;
        }
        i = i + 1;
    }
    false
}

proof fn lemma_dst_dirs_fail(sources: Seq<SourceView>, n: int)
    requires
        0 <= n <= sources.len(),
        dst_dirs(sources.take(n)) is None,
    ensures
        dst_dirs(sources) is None,
    decreases sources.len(),
{
    if n == sources.len() {
        assert(sources.take(n) == sources);
    } else {
        assert(sources.drop_last().take(n) == sources.take(n));
        lemma_dst_dirs_fail(sources.drop_last(), n);
    }
}

/// The directories that may hold the programs of a package; nothing where a file has no directory.
pub fn bin_dirs(sources: &Vec<Source>, install_path: &HostPath) -> (r: Option<Vec<HostPath>>)
    ensures
        r is Some <==> bin_dirs_of(sources_view(sources@), install_path@) is Some,
        r matches Some(dirs) ==> bin_dirs_of(sources_view(sources@), install_path@) == Some(
            paths::paths_view(dirs@),
        ),
{
    let ghost all = sources_view(sources@);
    let mut r: Vec<HostPath> = Vec::new();
    if sources.len() == 0 {
        r.push(install_path.duplicate());
        assert(paths::paths_view(r@) == seq![install_path@]);
        return Some(r);
    }
    let ghost mut seen: Seq<PathView> = Seq::empty();
    let mut i: usize = 0;
    assert(all.take(0) == Seq::<SourceView>::empty());
    assert(paths::paths_view(r@) == Seq::<PathView>::empty());
    while i < sources.len()
        invariant
            i <= sources@.len(),
            sources@.len() > 0,
            all == sources_view(sources@),
            dst_dirs(all.take(i as int)) == Some(seen),
            paths::paths_view(r@) == distinct_paths(seen),
        decreases sources.len() - i,
    {
        let ghost before = paths::paths_view(r@);
        proof {
            assert(all.take(i + 1).drop_last() == all.take(i as int));
            assert(all.take(i + 1).last() == sources@[i as int]@);
        }
        match sources[i].dst.parent() {
            None => {
                proof {
                    lemma_dst_dirs_fail(all, i + 1);
                }
                return None;
            },
            Some(dir) => {
                proof {
                    assert(seen.push(dir@).drop_last() == seen);
                    seen = seen.push(dir@);
                }
                if !any_is(&r, &dir) {
                    r.push(dir);
                    assert(paths::paths_view(r@) == before.push(dir@));
                }
            },
        }
        i = i + 1;
    }
    assert(all.take(all.len() as int) == all);
    Some(r)
}

/// The directories that are there, as they lie below the one that the package is installed in, where
/// each comes with whether it is there; nothing where one of them does not lie below.
pub open spec fn relative_dirs(dirs: Seq<(PathView, bool)>, install_path: PathView) -> Option<
    Seq<PathView>,
>
    decreases dirs.len(),
{
    if dirs.len() == 0 {
        Some(Seq::empty())
    } else {
        match relative_dirs(dirs.drop_last(), install_path) {
            None => None,
            Some(before) => if !dirs.last().1 {
                Some(before)
            } else {
                match dirs.last().0.below(install_path) {
                    Some(dir) => Some(before.push(dir)),
                    None => None,
                }
            },
        }
    }
}

/// Directories, each with whether it is there.
pub open spec fn probed_view(dirs: Seq<(HostPath, bool)>) -> Seq<(PathView, bool)> {
    Seq::new(dirs.len(), |i: int| (dirs[i].0@, dirs[i].1))
}

proof fn lemma_relative_dirs_fail(dirs: Seq<(PathView, bool)>, install_path: PathView, n: int)
    requires
        0 <= n <= dirs.len(),
        relative_dirs(dirs.take(n), install_path) is None,
    ensures
        relative_dirs(dirs, install_path) is None,
    decreases dirs.len(),
{
    if n == dirs.len() {
        assert(dirs.take(n) == dirs);
    } else {
        assert(dirs.drop_last().take(n) == dirs.take(n));
        lemma_relative_dirs_fail(dirs.drop_last(), install_path, n);
    }
}

/// The directories that hold the programs of a package, as they lie below the one that the package
/// is installed in, where each comes with whether it is there; nothing where one that is there does
/// not lie below.
pub fn relative_bin_dirs(dirs: &Vec<(HostPath, bool)>, install_path: &HostPath) -> (r: Option<
    Vec<HostPath>,
>)
    ensures
        r is Some <==> relative_dirs(probed_view(dirs@), install_path@) is Some,
        r matches Some(relative) ==> relative_dirs(probed_view(dirs@), install_path@) == Some(
            paths::paths_view(relative@),
        ),
{
    let ghost all = probed_view(dirs@);
    let mut r: Vec<HostPath> = Vec::new();
    let mut i: usize = 0;
    assert(all.take(0) == Seq::<(PathView, bool)>::empty());
    assert(paths::paths_view(r@) == Seq::<PathView>::empty());
    while i < dirs.len()
        invariant
            i <= dirs@.len(),
            all == probed_view(dirs@),
            relative_dirs(all.take(i as int), install_path@) == Some(paths::paths_view(r@)),
        decreases dirs.len() - i,
    {
        let ghost before = paths::paths_view(r@);
        proof {
            assert(all.take(i + 1).drop_last() == all.take(i as int));
            assert(all.take(i + 1).last() == all[i as int]);
        }
        if dirs[i].1 {
            match dirs[i].0.below(install_path) {
                None => {
                    proof {
                        lemma_relative_dirs_fail(all, install_path@, i + 1);
                    }
                    return None;
                },
                Some(dir) => {
                    r.push(dir);
                    assert(paths::paths_view(r@) == before.push(dir@));
                },
            }
        }
        i = i + 1;
    }
    assert(all.take(all.len() as int) == all);
    Some(r)
}

/// No directory occurs twice among those that may hold programs; each is one of the given ones; and
/// each of the given ones is there or equals one that is there.
pub proof fn law_distinct_paths(dirs: Seq<PathView>)
    ensures
        forall|i: int, j: int|
            0 <= i < j < distinct_paths(dirs).len() ==> !(
            #[trigger] distinct_paths(dirs)[i]).same(#[trigger] distinct_paths(dirs)[j]),
        forall|i: int|
            0 <= i < distinct_paths(dirs).len() ==> dirs.contains(
                #[trigger] distinct_paths(dirs)[i],
            ),
        forall|i: int|
            0 <= i < dirs.len() ==> distinct_paths(dirs).contains(#[trigger] dirs[i]) || is_among(
                distinct_paths(dirs),
                dirs[i],
            ),
    decreases dirs.len(),
{
    if dirs.len() > 0 {
        let rest = dirs.drop_last();
        let last = dirs.last();
        let before = distinct_paths(rest);
        let kept = distinct_paths(dirs);
        law_distinct_paths(rest);
        assert forall|i: int| 0 <= i < kept.len() implies dirs.contains(#[trigger] kept[i]) by {
            if i < before.len() {
                assert(kept[i] == before[i]);
                let k = choose|k: int| 0 <= k < rest.len() && rest[k] == before[i];
                assert(dirs[k] == before[i]);
            } else {
                assert(dirs[dirs.len() - 1] == kept[i]);
            }
        }
        assert forall|i: int, j: int| 0 <= i < j < kept.len() implies !(
        #[trigger] kept[i]).same(#[trigger] kept[j]) by {
            assert(kept[i] == before[i]);
            if j < before.len() {
                assert(kept[j] == before[j]);
            }
        }
        assert forall|i: int| 0 <= i < dirs.len() implies kept.contains(#[trigger] dirs[i])
            || is_among(kept, dirs[i]) by {
            if i < rest.len() {
                assert(dirs[i] == rest[i]);
                if before.contains(rest[i]) {
                    let k = choose|k: int| 0 <= k < before.len() && before[k] == rest[i];
                    assert(kept[k] == rest[i]);
                } else {
                    let k = choose|k: int|
                        0 <= k < before.len() && (#[trigger] before[k]).same(rest[i]);
                    assert(kept[k] == before[k]);
                }
            } else if !is_among(before, last) {
                assert(kept[kept.len() - 1] == last);
            }
        }
    }
}

/// The place of a file is rendered for the version after the package's prefix; without a prefix it is
/// rendered twice, for the version as it is, and with a `v`.
pub proof fn law_names_of_a_version(pkg: AquaPackage, version: Seq<char>)
    ensures
        pkg.version_prefix matches Some(prefix) ==> src_versions_of(pkg, version) == seq![
            prefix@ + version,
        ],
        pkg.version_prefix is None ==> src_versions_of(pkg, version) == seq![
            version,
            "v"@ + version,
        ],
{
}

/// A file lies at its rendered place below the directory that the package is installed in, and is to be
/// found under its name in the directory of that place.
pub proof fn law_place_of_a_file(
    install_path: PathView,
    name: Seq<char>,
    rendered: Seq<char>,
    parent: PathView,
)
    ensures
        install_path.join(rendered).parent() == Some(parent) ==> source_of(
            install_path,
            name,
            rendered,
        ) == Some(
            SourceView { src: install_path.join(rendered), dst: parent.join(name) },
        ),
        install_path.join(rendered).parent() is None ==> source_of(install_path, name, rendered)
            is None,
{
}

/// One more place of a file adds the source there, after those of the places before; a place that is not
/// rendered adds none, and one without a directory is an error.
pub proof fn law_one_more_place(
    install_path: PathView,
    name: Seq<char>,
    places: Seq<Option<Seq<char>>>,
    before: Seq<SourceView>,
    rendered: Seq<char>,
    parent: PathView,
)
    requires
        file_sources(install_path, name, places) == Some(before),
    ensures
        file_sources(install_path, name, Seq::empty()) == Some(Seq::<SourceView>::empty()),
        file_sources(install_path, name, places.push(None)) == Some(before),
        install_path.join(rendered).parent() == Some(parent) ==> file_sources(
            install_path,
            name,
            places.push(Some(rendered)),
        ) == Some(
            before.push(
                SourceView { src: install_path.join(rendered), dst: parent.join(name) },
            ),
        ),
        install_path.join(rendered).parent() is None ==> file_sources(
            install_path,
            name,
            places.push(Some(rendered)),
        ) is None,
{
    assert(places.push(None).drop_last() == places);
    assert(places.push(Some(rendered)).drop_last() == places);
}

/// One more source is kept, after the others, unless one that was kept lies at its path.
pub proof fn law_one_more_source(sources: Seq<SourceView>, source: SourceView)
    ensures
        distinct_sources(Seq::empty()) == Seq::<SourceView>::empty(),
        (exists|i: int|
            0 <= i < distinct_sources(sources).len() && (
            #[trigger] distinct_sources(sources)[i]).src.same(source.src)) ==> distinct_sources(
            sources.push(source),
        ) == distinct_sources(sources),
        (forall|i: int|
            0 <= i < distinct_sources(sources).len() ==> !(
            #[trigger] distinct_sources(sources)[i]).src.same(source.src)) ==> distinct_sources(
            sources.push(source),
        ) == distinct_sources(sources).push(source),
{
    assert(sources.push(source).drop_last() == sources);
}

/// The files of a package are taken one after the other, from the first to the last. The sources of a
/// file are added to those before it; a place that cannot be rendered, or that has no directory, ends
/// the search.
pub proof fn law_files_of_a_package<E>(
    at: PlaceView,
    places: Vec<Option<String>>,
    more: Seq<SourceView>,
    err: E,
)
    requires
        at.index < at.pkg.files@.len(),
    ensures
        after_place(at, Err::<Vec<Option<String>>, E>(err)) == SourcesStepView::<E>::Finished(
            SourcesView::Outside(err),
        ),
        file_sources(
            at.install_path,
            at.pkg.files@[at.index as int].name@,
            places_view(places@),
        ) is None ==> after_place(at, Ok::<Vec<Option<String>>, E>(places))
            == SourcesStepView::<E>::Finished(SourcesView::NoParent),
        file_sources(
            at.install_path,
            at.pkg.files@[at.index as int].name@,
            places_view(places@),
        ) == Some(more) ==> {
            let kept = with_more(at.kept, more);
            after_place(at, Ok::<Vec<Option<String>>, E>(places)) == if at.index + 1
                < at.pkg.files@.len() {
                SourcesStepView::Place {
                    file: at.index + 1,
                    versions: at.versions,
                    at: PlaceView { index: at.index + 1, kept, ..at },
                }
            } else {
                SourcesStepView::<E>::Finished(SourcesView::Sources(kept))
            }
        },
{
}

/// The search begins with the first file of the package, for the names of the version, and with no
/// sources; a package without files has none.
pub proof fn law_first_file<E>(pkg: AquaPackage, version: Seq<char>, install_path: PathView)
    ensures
        pkg.files@.len() > 0 ==> next_place::<E>(first_place(pkg, version, install_path)) == (
        SourcesStepView::<E>::Place {
            file: 0,
            versions: src_versions_of(pkg, version),
            at: PlaceView {
                pkg,
                versions: src_versions_of(pkg, version),
                install_path,
                index: 0,
                kept: Seq::empty(),
            },
        }),
        pkg.files@.len() == 0 ==> next_place::<E>(first_place(pkg, version, install_path))
            == SourcesStepView::<E>::Finished(SourcesView::Sources(Seq::empty())),
{
}

/// Adding sources to those that are kept is keeping the distinct ones of all of them.
pub proof fn law_sources_are_added(first: Seq<SourceView>, more: Seq<SourceView>)
    ensures
        with_more(distinct_sources(first), more) == distinct_sources(first + more),
{
    lemma_distinct_sources_of_sum(first, more);
}

/// One more directory is kept, after the others, unless one that was kept is the same.
pub proof fn law_one_more_directory(dirs: Seq<PathView>, dir: PathView)
    ensures
        distinct_paths(Seq::empty()) == Seq::<PathView>::empty(),
        (exists|i: int|
            0 <= i < distinct_paths(dirs).len() && (#[trigger] distinct_paths(dirs)[i]).same(dir))
            ==> distinct_paths(dirs.push(dir)) == distinct_paths(dirs),
        (forall|i: int|
            0 <= i < distinct_paths(dirs).len() ==> !(#[trigger] distinct_paths(dirs)[i]).same(
                dir,
            )) ==> distinct_paths(dirs.push(dir)) == distinct_paths(dirs).push(dir),
{
    assert(dirs.push(dir).drop_last() == dirs);
}

proof fn lemma_dst_dirs(sources: Seq<SourceView>, dirs: Seq<PathView>)
    requires
        dirs.len() == sources.len(),
        forall|i: int| 0 <= i < sources.len() ==> (#[trigger] sources[i]).dst.parent() == Some(dirs[i]),
    ensures
        dst_dirs(sources) == Some(dirs),
    decreases sources.len(),
{
    if sources.len() == 0 {
        assert(dirs == Seq::<PathView>::empty());
    } else {
        assert forall|i: int| 0 <= i < sources.drop_last().len() implies (
        #[trigger] sources.drop_last()[i]).dst.parent() == Some(dirs.drop_last()[i]) by {
            assert(sources.drop_last()[i] == sources[i]);
        }
        lemma_dst_dirs(sources.drop_last(), dirs.drop_last());
        assert(sources[sources.len() - 1].dst.parent() == Some(dirs[sources.len() - 1]));
        assert(dirs.drop_last().push(dirs.last()) == dirs);
    }
}

/// The programs of a package lie in the directories in which its files are found under their names, each
/// of them once; those of a package without files in the directory that it is installed in.
pub proof fn law_directories_of_programs(
    sources: Seq<SourceView>,
    install_path: PathView,
    dirs: Seq<PathView>,
    i: int,
)
    ensures
        bin_dirs_of(Seq::empty(), install_path) == Some(seq![install_path]),
        sources.len() > 0 && dirs.len() == sources.len() && (forall|j: int|
            0 <= j < sources.len() ==> (#[trigger] sources[j]).dst.parent() == Some(dirs[j]))
            ==> bin_dirs_of(sources, install_path) == Some(distinct_paths(dirs)),
        0 <= i < sources.len() && sources[i].dst.parent() is None ==> bin_dirs_of(
            sources,
            install_path,
        ) is None,
{
    if sources.len() > 0 && dirs.len() == sources.len() && (forall|j: int|
        0 <= j < sources.len() ==> (#[trigger] sources[j]).dst.parent() == Some(dirs[j])) {
        lemma_dst_dirs(sources, dirs);
    }
    if 0 <= i < sources.len() && sources[i].dst.parent() is None {
        assert(sources.take(i + 1).last() == sources[i]);
        lemma_dst_dirs_fail(sources, i + 1);
    }
}

/// One more directory that is there is kept, after the others, by what is left of it below the directory
/// that the package is installed in; one that is not there is left out, wherever it lies, and one that
/// is there and does not lie below is an error.
pub proof fn law_one_more_probed_directory(
    dirs: Seq<(PathView, bool)>,
    install_path: PathView,
    kept: Seq<PathView>,
    dir: PathView,
    below: PathView,
)
    requires
        relative_dirs(dirs, install_path) == Some(kept),
    ensures
        relative_dirs(Seq::empty(), install_path) == Some(Seq::<PathView>::empty()),
        relative_dirs(dirs.push((dir, false)), install_path) == Some(kept),
        dir.below(install_path) == Some(below) ==> relative_dirs(
            dirs.push((dir, true)),
            install_path,
        ) == Some(kept.push(below)),
        dir.below(install_path) is None ==> relative_dirs(dirs.push((dir, true)), install_path)
            is None,
{
    assert(dirs.push((dir, false)).drop_last() == dirs);
    assert(dirs.push((dir, true)).drop_last() == dirs);
}

/// One more source is added, after the others, to those that are kept, unless one of these lies at its
/// path.
pub proof fn law_one_more_added_source(
    kept: Seq<SourceView>,
    more: Seq<SourceView>,
    source: SourceView,
)
    ensures
        with_more(kept, Seq::empty()) == kept,
        (exists|i: int|
            0 <= i < with_more(kept, more).len() && (#[trigger] with_more(
                kept,
                more,
            )[i]).src.same(source.src)) ==> with_more(kept, more.push(source)) == with_more(
            kept,
            more,
        ),
        (forall|i: int|
            0 <= i < with_more(kept, more).len() ==> !(#[trigger] with_more(
                kept,
                more,
            )[i]).src.same(source.src)) ==> with_more(kept, more.push(source)) == with_more(
            kept,
            more,
        ).push(source),
{
    assert(more.push(source).drop_last() == more);
}

/// What has failed stays failed, whatever comes after it: a file of which a place has no directory, and
/// directories of which one that is there does not lie below the one that the package is installed in.
pub proof fn law_failures_stay(
    install_path: PathView,
    name: Seq<char>,
    places: Seq<Option<Seq<char>>>,
    place: Option<Seq<char>>,
    dirs: Seq<(PathView, bool)>,
    dir: (PathView, bool),
)
    ensures
        file_sources(install_path, name, places) is None ==> file_sources(
            install_path,
            name,
            places.push(place),
        ) is None,
        relative_dirs(dirs, install_path) is None ==> relative_dirs(dirs.push(dir), install_path)
            is None,
{
    assert(places.push(place).drop_last() == places);
    assert(dirs.push(dir).drop_last() == dirs);
}

} // verus!
