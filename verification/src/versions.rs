//! The versions of a tool: the tags of its repository, the versions that they stand for, and the
//! versions that a query asks for.
use vstd::prelude::*;

use crate::package;
use crate::package::AquaPackage;
use crate::pattern;
use crate::pattern::Pattern;
use crate::text;

verus! {

/// The releases of a repository are being listed.
pub struct AwaitReleases {
    pub repo: String,
}

/// The tags of a repository are being listed.
pub struct AwaitTags {}

/// What is to be done next to learn the tags of a package.
pub enum TagsStep<E> {
    /// List the releases of a repository.
    ListReleases { next: AwaitReleases },
    /// List the tags of a repository.
    ListTags { repo: String, next: AwaitTags },
    /// The tags are known, or cannot be.
    Finished(Result<Vec<String>, E>),
}

/// What is to be done next to learn the tags of a package.
pub enum TagsStepView<E> {
    ListReleases { repo: Seq<char> },
    ListTags { repo: Seq<char> },
    Finished(Result<Seq<Seq<char>>, E>),
}

impl<E> View for TagsStep<E> {
    type V = TagsStepView<E>;

    open spec fn view(&self) -> TagsStepView<E> {
        match *self {
            TagsStep::ListReleases { next } => TagsStepView::ListReleases { repo: next.repo@ },
            TagsStep::ListTags { repo, next } => TagsStepView::ListTags { repo: repo@ },
            TagsStep::Finished(Ok(tags)) => TagsStepView::Finished(Ok(text::texts(tags@))),
            TagsStep::Finished(Err(err)) => TagsStepView::Finished(Err(err)),
        }
    }
}

/// A package whose versions are its tags is asked for its tags, and any other for its releases.
pub open spec fn first_tags_step<E>(pkg: AquaPackage) -> TagsStepView<E> {
    let repo = package::repo_of(pkg.repo_owner@, pkg.repo_name@);
    if text::opt_text(pkg.version_source) == Some("github_tag"@) {
        TagsStepView::ListTags { repo }
    } else {
        TagsStepView::ListReleases { repo }
    }
}

/// A repository without releases is asked for its tags.
pub open spec fn after_releases<E>(
    repo: Seq<char>,
    reply: Result<Seq<Seq<char>>, E>,
) -> TagsStepView<E> {
    match reply {
        Err(err) => TagsStepView::Finished(Err(err)),
        Ok(tags) => if tags.len() == 0 {
            TagsStepView::ListTags { repo }
        } else {
            TagsStepView::Finished(Ok(tags))
        },
    }
}

/// Begins to learn the tags of a package.
pub fn get_tags<E>(pkg: &AquaPackage) -> (step: TagsStep<E>)
    ensures
        step@ == first_tags_step::<E>(*pkg),
{
    let repo = package::repo(pkg.repo_owner.as_str(), pkg.repo_name.as_str());
    if let Some(source) = &pkg.version_source {
        if text::same(source.as_str(), "github_tag") {
            return TagsStep::ListTags { repo, next: AwaitTags {  } };
        }
    }
    TagsStep::ListReleases { next: AwaitReleases { repo } }
}

impl AwaitReleases {
    /// Goes on with the tags of the releases.
    pub fn resume<E>(self, reply: Result<Vec<String>, E>) -> (step: TagsStep<E>)
        ensures
            step@ == after_releases(self.repo@, text::list_reply(reply)),
    {
        match reply {
            Err(err) => TagsStep::Finished(Err(err)),
            Ok(tags) => {
                assert(text::texts(tags@).len() == tags@.len());
                if tags.len() == 0 {
                    TagsStep::ListTags { repo: self.repo, next: AwaitTags {  } }
                } else {
                    TagsStep::Finished(Ok(tags))
                }
            },
        }
    }
}

impl AwaitTags {
    /// Goes on with the tags.
    pub fn resume<E>(self, reply: Result<Vec<String>, E>) -> (step: TagsStep<E>)
        ensures
            step@ == TagsStepView::<E>::Finished(text::list_reply(reply)),
    {
        TagsStep::Finished(reply)
    }
}

/// What comes back from outside while the tags of a package are learned.
pub struct TagsReplies<E> {
    pub releases: Result<Seq<Seq<char>>, E>,
    pub tags: Result<Seq<Seq<char>>, E>,
}

/// The step that follows when the present one is answered.
pub open spec fn tags_answered<E>(step: TagsStepView<E>, replies: TagsReplies<E>) -> TagsStepView<
    E,
> {
    match step {
        TagsStepView::ListReleases { repo } => after_releases(repo, replies.releases),
        TagsStepView::ListTags { repo } => TagsStepView::Finished(replies.tags),
        TagsStepView::Finished(outcome) => step,
    }
}

/// The tags of a package: those of the releases, or, where the package's versions are its tags or
/// there are no releases, those of the repository.
pub open spec fn tags_of<E>(pkg: AquaPackage, replies: TagsReplies<E>) -> Result<Seq<Seq<char>>, E> {
    let from_tags = text::opt_text(pkg.version_source) == Some("github_tag"@);
    let no_releases = replies.releases matches Ok(releases) && releases.len() == 0;
    if from_tags || no_releases {
        replies.tags
    } else {
        replies.releases
    }
}

/// After at most two answers the tags are known, or cannot be.
pub proof fn law_tags_of_a_package<E>(pkg: AquaPackage, replies: TagsReplies<E>)
    ensures
        tags_answered(tags_answered(first_tags_step::<E>(pkg), replies), replies)
            == TagsStepView::Finished(tags_of(pkg, replies)),
{
}

/// Whether a package names a repository.
pub open spec fn names_repo(pkg: AquaPackage) -> bool {
    pkg.repo_owner@.len() > 0 && pkg.repo_name@.len() > 0
}

/// Whether the versions of a package can be learned from its repository at all.
pub fn has_repo(pkg: &AquaPackage) -> (r: bool)
    ensures
        r == names_repo(*pkg),
{
    !pkg.repo_owner.as_str().is_empty() && !pkg.repo_name.as_str().is_empty()
}

/// A tag, and what the registry says of it.
pub struct TagReport<E> {
    pub tag: Seq<char>,
    /// Whether the package's filter accepts the tag, or that the filter cannot tell.
    pub accepted: Result<bool, E>,
    /// What the tags of this version's packages begin with.
    pub version_prefix: Option<Seq<char>>,
}

/// The version that a tag stands for: what follows the prefix, which the tag has to have, and then
/// a `v`, which it need not have.
pub open spec fn tag_version(tag: Seq<char>, prefix: Option<Seq<char>>) -> Option<Seq<char>> {
    let rest = match prefix {
        Some(prefix) => package::tail_after(tag, prefix),
        None => Some(tag),
    };
    match rest {
        Some(rest) => match package::tail_after(rest, "v"@) {
            Some(version) => Some(version),
            None => Some(rest),
        },
        None => None,
    }
}

/// The version of a tag with its tag, where the tag is accepted and stands for a version.
pub open spec fn listed_pair<E>(report: TagReport<E>) -> Seq<(Seq<char>, Seq<char>)> {
    let version = tag_version(report.tag, report.version_prefix);
    if report.accepted matches Ok(true) && version is Some {
        seq![(version->0, report.tag)]
    } else {
        Seq::empty()
    }
}

/// The versions of a list of tags, each with its tag, from the last tag to the first.
pub open spec fn listed_pairs<E>(reports: Seq<TagReport<E>>) -> Seq<(Seq<char>, Seq<char>)>
    decreases reports.len(),
{
    if reports.len() == 0 {
        Seq::empty()
    } else {
        listed_pair(reports.last()) + listed_pairs(reports.drop_last())
    }
}

/// The version that a tag stands for.
pub fn version_of_tag(tag: &str, prefix: &Option<String>) -> (r: Option<String>)
    ensures
        text::opt_text(r) == tag_version(tag@, text::opt_text(*prefix)),
{
    let rest = match prefix {
        Some(prefix) => match text::strip_prefix(tag, prefix.as_str()) {
            Some(rest) => rest,
            None => {
                return None;
            },
        },
        None => tag,
    };
    match text::strip_prefix(rest, "v") {
        Some(version) => Some(version.to_owned()),
        None => Some(rest.to_owned()),
    }
}

/// The releases of a package's repository are being listed.
pub struct AwaitTagReleases {
    pub releases: AwaitReleases,
}

/// The tags of a package's repository are being listed.
pub struct AwaitRepoTags {
    pub tags: AwaitTags,
}

/// Whether the package's filter accepts a tag is being asked.
pub struct AwaitFilter {
    pub tag: String,
    /// The tags before it, which come after it.
    pub rest: Vec<String>,
    /// The versions of the tags that came before.
    pub done: Vec<(String, String)>,
}

/// What the tags of the package at a tag begin with is being asked.
pub struct AwaitPrefix {
    pub tag: String,
    /// The tags before it, which come after it.
    pub rest: Vec<String>,
    /// The versions of the tags that came before.
    pub done: Vec<(String, String)>,
}

/// What is to be done next to learn the versions of a package, each with its tag.
pub enum VersionTagsStep<E> {
    /// List the releases of the repository that the state names.
    ListReleases { next: AwaitTagReleases },
    /// List the tags of a repository.
    ListTags { repo: String, next: AwaitRepoTags },
    /// Ask whether the package's filter accepts the tag that the state holds.
    Filter { next: AwaitFilter },
    /// Ask what the tags of the package begin with, at the tag that the state holds.
    Prefix { next: AwaitPrefix },
    /// The versions are known, or cannot be.
    Finished(Result<Vec<(String, String)>, E>),
}

/// What is to be done next to learn the versions of a package, each with its tag.
pub enum VersionTagsStepView<E> {
    ListReleases { repo: Seq<char> },
    ListTags { repo: Seq<char> },
    Filter { tag: Seq<char>, rest: Seq<Seq<char>>, done: Seq<(Seq<char>, Seq<char>)> },
    Prefix { tag: Seq<char>, rest: Seq<Seq<char>>, done: Seq<(Seq<char>, Seq<char>)> },
    Finished(Result<Seq<(Seq<char>, Seq<char>)>, E>),
}

impl<E> View for VersionTagsStep<E> {
    type V = VersionTagsStepView<E>;

    open spec fn view(&self) -> VersionTagsStepView<E> {
        match *self {
            VersionTagsStep::ListReleases { next } => VersionTagsStepView::ListReleases {
                repo: next.releases.repo@,
            },
            VersionTagsStep::ListTags { repo, next } => VersionTagsStepView::ListTags {
                repo: repo@,
            },
            VersionTagsStep::Filter { next } => VersionTagsStepView::Filter {
                tag: next.tag@,
                rest: text::texts(next.rest@),
                done: text::pairs(next.done@),
            },
            VersionTagsStep::Prefix { next } => VersionTagsStepView::Prefix {
                tag: next.tag@,
                rest: text::texts(next.rest@),
                done: text::pairs(next.done@),
            },
            VersionTagsStep::Finished(Ok(pairs)) => VersionTagsStepView::Finished(
                Ok(text::pairs(pairs@)),
            ),
            VersionTagsStep::Finished(Err(err)) => VersionTagsStepView::Finished(Err(err)),
        }
    }
}

/// The tags are taken from the last to the first.
pub open spec fn next_tag<E>(
    rest: Seq<Seq<char>>,
    done: Seq<(Seq<char>, Seq<char>)>,
) -> VersionTagsStepView<E> {
    if rest.len() == 0 {
        VersionTagsStepView::Finished(Ok(done))
    } else {
        VersionTagsStepView::Filter { tag: rest.last(), rest: rest.drop_last(), done }
    }
}

/// When the tags are known, the registry is asked of each of them.
pub open spec fn go_on_with_tags<E>(step: TagsStepView<E>) -> VersionTagsStepView<E> {
    match step {
        TagsStepView::ListReleases { repo } => VersionTagsStepView::ListReleases { repo },
        TagsStepView::ListTags { repo } => VersionTagsStepView::ListTags { repo },
        TagsStepView::Finished(Ok(tags)) => next_tag(tags, Seq::empty()),
        TagsStepView::Finished(Err(err)) => VersionTagsStepView::Finished(Err(err)),
    }
}

/// The versions of a package are those of its tags. A package without a repository has none, and one
/// that cannot be looked up is a failure.
pub open spec fn first_version_tags_step<E>(lookup: Result<AquaPackage, E>) -> VersionTagsStepView<
    E,
> {
    match lookup {
        Err(err) => VersionTagsStepView::Finished(Err(err)),
        Ok(pkg) => if names_repo(pkg) {
            go_on_with_tags(first_tags_step(pkg))
        } else {
            VersionTagsStepView::Finished(Ok(Seq::empty()))
        },
    }
}

/// What the tags begin with is asked of a tag that the filter accepts; any other is passed over.
pub open spec fn after_filter<E>(
    tag: Seq<char>,
    rest: Seq<Seq<char>>,
    done: Seq<(Seq<char>, Seq<char>)>,
    reply: Result<bool, E>,
) -> VersionTagsStepView<E> {
    match reply {
        Ok(true) => VersionTagsStepView::Prefix { tag, rest, done },
        _ => next_tag(rest, done),
    }
}

/// The version that a tag stands for comes after those of the later tags.
pub open spec fn after_prefix<E>(
    tag: Seq<char>,
    rest: Seq<Seq<char>>,
    done: Seq<(Seq<char>, Seq<char>)>,
    prefix: Option<Seq<char>>,
) -> VersionTagsStepView<E> {
    match tag_version(tag, prefix) {
        Some(version) => next_tag(rest, done.push((version, tag))),
        None => next_tag(rest, done),
    }
}

/// Begins to learn the versions of a package, each with its tag, from what the registry says of the
/// package.
pub fn version_tags_of<E>(lookup: Result<&AquaPackage, E>) -> (step: VersionTagsStep<E>)
    ensures
        step@ == first_version_tags_step(package::package_reply(lookup)),
{
    match lookup {
        Err(err) => VersionTagsStep::Finished(Err(err)),
        Ok(pkg) => {
            if has_repo(pkg) {
                return with_tags(get_tags(pkg));
            }
            let none: Vec<(String, String)> = Vec::new();
            assert(text::pairs(none@) == Seq::<(Seq<char>, Seq<char>)>::empty());
            VersionTagsStep::Finished(Ok(none))
        },
    }
}

/// Goes on with the tags, when they are known.
fn with_tags<E>(step: TagsStep<E>) -> (r: VersionTagsStep<E>)
    ensures
        r@ == go_on_with_tags(step@),
{
    match step {
        TagsStep::ListReleases { next } => VersionTagsStep::ListReleases {
            next: AwaitTagReleases { releases: next },
        },
        TagsStep::ListTags { repo, next } => VersionTagsStep::ListTags {
            repo,
            next: AwaitRepoTags { tags: next },
        },
        TagsStep::Finished(Ok(tags)) => {
            let none: Vec<(String, String)> = Vec::new();
            assert(text::pairs(none@) == Seq::<(Seq<char>, Seq<char>)>::empty());
            from_last_tag(tags, none)
        },
        TagsStep::Finished(Err(err)) => VersionTagsStep::Finished(Err(err)),
    }
}

/// Goes on to the last of the tags.
fn from_last_tag<E>(tags: Vec<String>, done: Vec<(String, String)>) -> (step: VersionTagsStep<E>)
    ensures
        step@ == next_tag::<E>(text::texts(tags@), text::pairs(done@)),
{
    let mut rest = tags;
    match rest.pop() {
        None => VersionTagsStep::Finished(Ok(done)),
        Some(tag) => {
            assert(text::texts(rest@) =~= text::texts(tags@).drop_last());
            VersionTagsStep::Filter { next: AwaitFilter { tag, rest, done } }
        },
    }
}

impl AwaitTagReleases {
    /// Goes on with the tags of the releases.
    pub fn resume<E>(self, reply: Result<Vec<String>, E>) -> (step: VersionTagsStep<E>)
        ensures
            step@ == go_on_with_tags(after_releases(self.releases.repo@, text::list_reply(reply))),
    {
        with_tags(self.releases.resume(reply))
    }
}

impl AwaitRepoTags {
    /// Goes on with the tags of the repository.
    pub fn resume<E>(self, reply: Result<Vec<String>, E>) -> (step: VersionTagsStep<E>)
        ensures
            step@ == go_on_with_tags(TagsStepView::<E>::Finished(text::list_reply(reply))),
    {
        with_tags(self.tags.resume(reply))
    }
}

impl AwaitFilter {
    /// Goes on with whether the filter accepts the tag, or that it cannot tell.
    pub fn resume<E>(self, reply: Result<bool, E>) -> (step: VersionTagsStep<E>)
        ensures
            step@ == after_filter(self.tag@, text::texts(self.rest@), text::pairs(self.done@), reply),
    {
        if let Ok(true) = reply {
            let next = AwaitPrefix { tag: self.tag, rest: self.rest, done: self.done };
            return VersionTagsStep::Prefix { next };
        }
        from_last_tag(self.rest, self.done)
    }
}

impl AwaitPrefix {
    /// Goes on with what the tags of the package begin with.
    pub fn resume<E>(self, prefix: &Option<String>) -> (step: VersionTagsStep<E>)
        ensures
            step@ == after_prefix::<E>(
                self.tag@,
                text::texts(self.rest@),
                text::pairs(self.done@),
                text::opt_text(*prefix),
            ),
    {
        let mut done = self.done;
        let ghost before = text::pairs(done@);
        if let Some(version) = version_of_tag(self.tag.as_str(), prefix) {
            done.push((version, self.tag));
            assert(text::pairs(done@) == before.push((version@, self.tag@)));
        }
        from_last_tag(self.rest, done)
    }
}

/// What comes back from outside while the versions of a package are learned.
pub struct VersionTagsReplies<E> {
    pub tags: TagsReplies<E>,
    /// Whether the package's filter accepts a tag.
    pub filter: spec_fn(Seq<char>) -> Result<bool, E>,
    /// What the tags of the package at a tag begin with.
    pub prefix: spec_fn(Seq<char>) -> Option<Seq<char>>,
}

/// The step that follows when the present one is answered.
pub open spec fn version_tags_answered<E>(
    step: VersionTagsStepView<E>,
    replies: VersionTagsReplies<E>,
) -> VersionTagsStepView<E> {
    match step {
        VersionTagsStepView::ListReleases { repo } => go_on_with_tags(
            after_releases(repo, replies.tags.releases),
        ),
        VersionTagsStepView::ListTags { repo } => go_on_with_tags(
            TagsStepView::Finished(replies.tags.tags),
        ),
        VersionTagsStepView::Filter { tag, rest, done } => after_filter(
            tag,
            rest,
            done,
            (replies.filter)(tag),
        ),
        VersionTagsStepView::Prefix { tag, rest, done } => after_prefix(
            tag,
            rest,
            done,
            (replies.prefix)(tag),
        ),
        VersionTagsStepView::Finished(outcome) => step,
    }
}

/// The step that is come to when `n` steps have been answered.
pub open spec fn version_tags_run<E>(
    step: VersionTagsStepView<E>,
    replies: VersionTagsReplies<E>,
    n: nat,
) -> VersionTagsStepView<E>
    decreases n,
{
    if n == 0 {
        step
    } else {
        version_tags_run(version_tags_answered(step, replies), replies, (n - 1) as nat)
    }
}

/// What the registry says of each tag.
pub open spec fn reports_of<E>(
    tags: Seq<Seq<char>>,
    replies: VersionTagsReplies<E>,
) -> Seq<TagReport<E>> {
    Seq::new(
        tags.len(),
        |i: int|
            TagReport {
                tag: tags[i],
                accepted: (replies.filter)(tags[i]),
                version_prefix: (replies.prefix)(tags[i]),
            },
    )
}

proof fn lemma_version_tags_stay<E>(
    outcome: Result<Seq<(Seq<char>, Seq<char>)>, E>,
    replies: VersionTagsReplies<E>,
    n: nat,
)
    ensures
        version_tags_run(VersionTagsStepView::Finished(outcome), replies, n)
            == VersionTagsStepView::Finished(outcome),
    decreases n,
{
    if n > 0 {
        lemma_version_tags_stay(outcome, replies, (n - 1) as nat);
    }
}

proof fn lemma_next_tag<E>(
    rest: Seq<Seq<char>>,
    done: Seq<(Seq<char>, Seq<char>)>,
    replies: VersionTagsReplies<E>,
    n: nat,
)
    requires
        n >= 2 * rest.len(),
    ensures
        version_tags_run(next_tag::<E>(rest, done), replies, n) == VersionTagsStepView::Finished(
            Ok::<Seq<(Seq<char>, Seq<char>)>, E>(done + listed_pairs(reports_of(rest, replies))),
        ),
    decreases rest.len(),
{
    let reports = reports_of(rest, replies);
    if rest.len() == 0 {
        assert(done + listed_pairs(reports) == done);
        lemma_version_tags_stay(Ok(done), replies, n);
    } else {
        let before = rest.drop_last();
        let one = listed_pair(reports.last());
        assert(reports.drop_last() == reports_of(before, replies));
        let later = listed_pairs(reports_of(before, replies));
        assert(done + (one + later) == done + one + later);
        let filtered = after_filter(rest.last(), before, done, (replies.filter)(rest.last()));
        assert(version_tags_run(next_tag::<E>(rest, done), replies, n) == version_tags_run(
            filtered,
            replies,
            (n - 1) as nat,
        ));
        if (replies.filter)(rest.last()) matches Ok(true) {
            let named = after_prefix::<E>(
                rest.last(),
                before,
                done,
                (replies.prefix)(rest.last()),
            );
            assert(version_tags_run(filtered, replies, (n - 1) as nat) == version_tags_run(
                named,
                replies,
                (n - 2) as nat,
            ));
            assert(named == next_tag::<E>(before, done + one)) by {
                if one.len() == 0 {
                    assert(done + one == done);
                } else {
                    assert(done + one == done.push(one[0]));
                }
            }
            lemma_next_tag(before, done + one, replies, (n - 2) as nat);
        } else {
            assert(done + one == done);
            lemma_next_tag(before, done, replies, (n - 1) as nat);
        }
    }
}

/// The versions of a package with a repository are those that its tags stand for, from the last tag
/// to the first, without the tags that the filter does not accept; they are known when its tags are
/// and each of them has been asked of.
pub proof fn law_versions_of_a_package<E>(
    pkg: AquaPackage,
    replies: VersionTagsReplies<E>,
    n: nat,
)
    requires
        names_repo(pkg),
        tags_of(pkg, replies.tags) matches Ok(tags) ==> n >= 2 + 2 * tags.len(),
        n >= 2,
    ensures
        version_tags_run(first_version_tags_step(Ok::<AquaPackage, E>(pkg)), replies, n)
            == VersionTagsStepView::Finished(
            match tags_of(pkg, replies.tags) {
                Ok(tags) => Ok(listed_pairs(reports_of(tags, replies))),
                Err(err) => Err(err),
            },
        ),
{
    let first = first_version_tags_step(Ok::<AquaPackage, E>(pkg));
    let second = version_tags_answered(first, replies);
    assert(version_tags_run(first, replies, n) == version_tags_run(
        second,
        replies,
        (n - 1) as nat,
    ));
    let third = version_tags_answered(second, replies);
    let known = go_on_with_tags(TagsStepView::<E>::Finished(tags_of(pkg, replies.tags)));
    match tags_of(pkg, replies.tags) {
        Ok(tags) => {
            let none = Seq::<(Seq<char>, Seq<char>)>::empty();
            let listed = listed_pairs(reports_of(tags, replies));
            assert(none + listed == listed);
            if second == known {
                lemma_next_tag(tags, none, replies, (n - 1) as nat);
            } else {
                assert(version_tags_run(second, replies, (n - 1) as nat) == version_tags_run(
                    third,
                    replies,
                    (n - 2) as nat,
                ));
                lemma_next_tag(tags, none, replies, (n - 2) as nat);
            }
        },
        Err(err) => {
            if second == known {
                lemma_version_tags_stay(Err(err), replies, (n - 1) as nat);
            } else {
                assert(version_tags_run(second, replies, (n - 1) as nat) == version_tags_run(
                    third,
                    replies,
                    (n - 2) as nat,
                ));
                lemma_version_tags_stay(Err(err), replies, (n - 2) as nat);
            }
        },
    }
}

/// A package without a repository has no versions, and nothing is asked of it.
pub proof fn law_no_repository_no_versions<E>(
    pkg: AquaPackage,
    replies: VersionTagsReplies<E>,
    n: nat,
)
    requires
        !names_repo(pkg),
    ensures
        version_tags_run(first_version_tags_step(Ok::<AquaPackage, E>(pkg)), replies, n)
            == VersionTagsStepView::<E>::Finished(Ok(Seq::empty())),
{
    lemma_version_tags_stay(Ok(Seq::empty()), replies, n);
}

/// Whether a version is offered: the registry says of it neither that it has no asset nor that
/// something is wrong with it. A version of which the registry cannot be asked is offered.
pub open spec fn is_offered<E>(lookup: Result<AquaPackage, E>) -> bool {
    match lookup {
        Ok(pkg) => !pkg.no_asset && pkg.error_message is None,
        Err(_) => true,
    }
}

/// The versions that are offered, in their order.
pub open spec fn offered<E>(
    pairs: Seq<(Seq<char>, Seq<char>)>,
    lookups: Seq<Result<AquaPackage, E>>,
) -> Seq<Seq<char>>
    decreases pairs.len(),
{
    if pairs.len() == 0 {
        Seq::empty()
    } else if is_offered(lookups[pairs.len() - 1]) {
        offered(pairs.drop_last(), lookups).push(pairs.last().0)
    } else {
        offered(pairs.drop_last(), lookups)
    }
}

/// The registry is being asked for the package at a version's tag.
pub struct AwaitLookup<'a> {
    pub version_tags: &'a Vec<(String, String)>,
    pub version: String,
    /// The index of the version that comes after it.
    pub index: usize,
    /// The versions before it that are offered.
    pub kept: Vec<String>,
}

/// What is to be done next to learn which versions are offered.
pub enum RemoteVersionsStep<'a> {
    /// Ask the registry for the package at a tag.
    Lookup { tag: String, next: AwaitLookup<'a> },
    /// The versions are known.
    Finished(Vec<String>),
}

/// What is to be done next to learn which versions are offered.
pub enum RemoteVersionsStepView {
    Lookup {
        tag: Seq<char>,
        pairs: Seq<(Seq<char>, Seq<char>)>,
        version: Seq<char>,
        index: nat,
        kept: Seq<Seq<char>>,
    },
    Finished(Seq<Seq<char>>),
}

impl<'a> View for RemoteVersionsStep<'a> {
    type V = RemoteVersionsStepView;

    open spec fn view(&self) -> RemoteVersionsStepView {
        match *self {
            RemoteVersionsStep::Lookup { tag, next } => RemoteVersionsStepView::Lookup {
                tag: tag@,
                pairs: text::pairs(next.version_tags@),
                version: next.version@,
                index: next.index as nat,
                kept: text::texts(next.kept@),
            },
            RemoteVersionsStep::Finished(versions) => RemoteVersionsStepView::Finished(
                text::texts(versions@),
            ),
        }
    }
}

/// The registry is asked of each version in its turn.
pub open spec fn next_lookup(
    pairs: Seq<(Seq<char>, Seq<char>)>,
    index: nat,
    kept: Seq<Seq<char>>,
) -> RemoteVersionsStepView {
    if index < pairs.len() {
        let (version, tag) = pairs[index as int];
        RemoteVersionsStepView::Lookup { tag, pairs, version, index: index + 1, kept }
    } else {
        RemoteVersionsStepView::Finished(kept)
    }
}

/// A version that is offered is kept.
pub open spec fn after_lookup<E>(
    pairs: Seq<(Seq<char>, Seq<char>)>,
    version: Seq<char>,
    index: nat,
    kept: Seq<Seq<char>>,
    reply: Result<AquaPackage, E>,
) -> RemoteVersionsStepView {
    if is_offered(reply) {
        next_lookup(pairs, index, kept.push(version))
    } else {
        next_lookup(pairs, index, kept)
    }
}

/// Begins to learn which of a package's versions are offered.
pub fn remote_versions<'a>(version_tags: &'a Vec<(String, String)>) -> (step: RemoteVersionsStep<'a>)
    ensures
        step@ == next_lookup(text::pairs(version_tags@), 0, Seq::empty()),
{
    let none: Vec<String> = Vec::new();
    assert(text::texts(none@) == Seq::<Seq<char>>::empty());
    from_version(version_tags, 0, none)
}

/// Goes on to a version, if there is one with this index.
fn from_version<'a>(
    version_tags: &'a Vec<(String, String)>,
    index: usize,
    kept: Vec<String>,
) -> (step: RemoteVersionsStep<'a>)
    ensures
        step@ == next_lookup(text::pairs(version_tags@), index as nat, text::texts(kept@)),
{
    if index < version_tags.len() {
        let version = version_tags[index].0.clone();
        let tag = version_tags[index].1.clone();
        let next = AwaitLookup { version_tags, version, index: index + 1, kept };
        RemoteVersionsStep::Lookup { tag, next }
    } else {
        RemoteVersionsStep::Finished(kept)
    }
}

impl<'a> AwaitLookup<'a> {
    /// Goes on with what the registry says of the package at the version's tag.
    pub fn resume<E>(self, reply: Result<&AquaPackage, E>) -> (step: RemoteVersionsStep<'a>)
        ensures
            step@ == after_lookup(
                text::pairs(self.version_tags@),
                self.version@,
                self.index as nat,
                text::texts(self.kept@),
                package::package_reply(reply),
            ),
    {
        let keep = match reply {
            Ok(pkg) => !pkg.no_asset && pkg.error_message.is_none(),
            Err(_) => true,
        };
        let mut kept = self.kept;
        let ghost before = text::texts(kept@);
        if keep {
            kept.push(self.version);
            assert(text::texts(kept@) == before.push(self.version@));
        }
        from_version(self.version_tags, self.index, kept)
    }
}

/// The step that is come to when `n` steps have been answered, where `lookups` says what the registry
/// says of the package at the tag of each version.
pub open spec fn remote_versions_run<E>(
    step: RemoteVersionsStepView,
    lookups: Seq<Result<AquaPackage, E>>,
    n: nat,
) -> RemoteVersionsStepView
    decreases n,
{
    if n == 0 {
        step
    } else {
        match step {
            RemoteVersionsStepView::Lookup { tag, pairs, version, index, kept } => {
                remote_versions_run(
                    after_lookup(pairs, version, index, kept, lookups[index - 1]),
                    lookups,
                    (n - 1) as nat,
                )
            },
            RemoteVersionsStepView::Finished(versions) => step,
        }
    }
}

proof fn lemma_remote_versions<E>(
    pairs: Seq<(Seq<char>, Seq<char>)>,
    lookups: Seq<Result<AquaPackage, E>>,
    index: nat,
)
    requires
        index <= pairs.len(),
    ensures
        remote_versions_run(
            next_lookup(pairs, index, offered(pairs.take(index as int), lookups)),
            lookups,
            (pairs.len() - index) as nat,
        ) == RemoteVersionsStepView::Finished(offered(pairs, lookups)),
    decreases pairs.len() - index,
{
    if index < pairs.len() {
        assert(pairs.take(index as int + 1).drop_last() == pairs.take(index as int));
        assert(pairs.take(index as int + 1).last() == pairs[index as int]);
        lemma_remote_versions(pairs, lookups, index + 1);
    } else {
        assert(pairs.take(index as int) == pairs);
    }
}

/// Which versions are offered is known when the registry has been asked of each of them: they are
/// those that the registry does not speak against, in their order.
pub proof fn law_offered_versions<E>(
    pairs: Seq<(Seq<char>, Seq<char>)>,
    lookups: Seq<Result<AquaPackage, E>>,
)
    ensures
        remote_versions_run(next_lookup(pairs, 0, Seq::empty()), lookups, pairs.len())
            == RemoteVersionsStepView::Finished(offered(pairs, lookups)),
{
    assert(pairs.take(0) == Seq::<(Seq<char>, Seq<char>)>::empty());
    lemma_remote_versions(pairs, lookups, 0);
}

/// The part of a pattern that stands for a query: any version with a digit for the latest one, and
/// else the query, character by character.
pub open spec fn query_pattern(query: Seq<char>) -> Seq<char> {
    if query == "latest"@ {
        "\\D*[0-9].*"@
    } else {
        pattern::escaped(query)
    }
}

/// The pattern of the versions that a query asks for: the query alone, or with more after a `-` or
/// a `.`.
pub open spec fn fuzzy_pattern(query: Seq<char>) -> Seq<char> {
    "^"@ + query_pattern(query) + "([-.].+)?$"@
}

/// Whether a version is what a query asks for, where `unstable` says whether the version is one that
/// is not stable, and `matched` whether the pattern of the query matches it.
pub open spec fn keeps(
    query: Seq<char>,
    version: Seq<char>,
    unstable: bool,
    matched: bool,
) -> bool {
    version == query_pattern(query) || !unstable && matched
}

/// Whether a version is what a query asks for.
pub fn keeps_version(query: &str, version: &str, unstable: bool, matched: bool) -> (r: bool)
    ensures
        r == keeps(query@, version@, unstable, matched),
{
    let part = query_part(query);
    text::same(part.as_str(), version) || !unstable && matched
}

/// The part of a pattern that stands for a query.
fn query_part(query: &str) -> (r: String)
    ensures
        r@ == query_pattern(query@),
{
    if text::same(query, "latest") {
        "\\D*[0-9].*".to_owned()
    } else {
        pattern::escape(query)
    }
}

/// Whether a version is what a query asks for, with the patterns applied to it.
pub open spec fn fuzzy_keeps(
    query: Seq<char>,
    version_regex: Seq<char>,
    version: Seq<char>,
) -> bool {
    keeps(
        query,
        version,
        pattern::regex_finds(version_regex, version),
        pattern::regex_finds(fuzzy_pattern(query), version),
    )
}

/// The versions that a query asks for, in their order. `version_regex` matches the versions that are
/// not stable.
pub fn fuzzy_match_filter(versions: &Vec<String>, query: &str, version_regex: &str) -> (r: Vec<
    String,
>)
    requires
        pattern::regex_compiles(fuzzy_pattern(query@)),
        pattern::regex_compiles(version_regex@),
    ensures
        text::texts(r@) == text::texts(versions@).filter(
            |version: Seq<char>| fuzzy_keeps(query@, version_regex@, version),
        ),
{
    let part = query_part(query);
    let wanted = "^".to_owned().concat(part.as_str()).concat("([-.].+)?$");
    let mut r: Vec<String> = Vec::new();
    if let Ok(wanted) = Pattern::compile(wanted.as_str()) {
        if let Ok(unstable) = Pattern::compile(version_regex) {
            let ghost all = text::texts(versions@);
            let ghost asked = |version: Seq<char>| fuzzy_keeps(query@, version_regex@, version);
            let mut i: usize = 0;
            assert(text::texts(r@) == all.take(0).filter(asked)) by {
                reveal(Seq::filter);
            }
            while i < versions.len()
                invariant
                    i <= versions@.len(),
                    all == text::texts(versions@),
                    asked == (|version: Seq<char>|
                        fuzzy_keeps(query@, version_regex@, version)),
                    wanted@ == fuzzy_pattern(query@),
                    unstable@ == version_regex@,
                    text::texts(r@) == all.take(i as int).filter(asked),
                decreases versions.len() - i,
            {
                let version = versions[i].as_str();
                let ghost before = text::texts(r@);
                proof {
                    reveal(Seq::filter);
                    assert(all.take(i + 1).drop_last() == all.take(i as int));
                    assert(all.take(i + 1).last() == version@);
                }
                if keeps_version(
                    query,
                    version,
                    unstable.is_match(version),
                    wanted.is_match(version),
                ) {
                    r.push(versions[i].clone());
                    assert(text::texts(r@) == before.push(version@));
                }
                i = i + 1;
            }
            assert(all.take(all.len() as int) == all);
        }
    }
    r
}

/// The versions that a query asks for, or nothing where the query or the pattern for versions that
/// are not stable makes no regular expression.
pub fn checked_fuzzy_match_filter(versions: &Vec<String>, query: &str, version_regex: &str) -> (r:
    Option<Vec<String>>)
    ensures
        r is Some <==> pattern::regex_compiles(fuzzy_pattern(query@)) && pattern::regex_compiles(
            version_regex@,
        ),
        r matches Some(kept) ==> text::texts(kept@) == text::texts(versions@).filter(
            |version: Seq<char>| fuzzy_keeps(query@, version_regex@, version),
        ),
{
    let part = query_part(query);
    let wanted = "^".to_owned().concat(part.as_str()).concat("([-.].+)?$");
    if Pattern::compile(wanted.as_str()).is_err() || Pattern::compile(version_regex).is_err() {
        return None;
    }
    Some(fuzzy_match_filter(versions, query, version_regex))
}

/// The tag of a version is the version again, after the prefix and, it may be, a `v`.
pub proof fn law_tag_of_version(tag: Seq<char>, prefix: Option<Seq<char>>)
    ensures
        tag_version(tag, prefix) matches Some(version) ==> {
            let prefix = match prefix {
                Some(prefix) => prefix,
                None => Seq::empty(),
            };
            tag == prefix + version || tag == prefix + "v"@ + version
        },
{
    if let Some(version) = tag_version(tag, prefix) {
        let before = match prefix {
            Some(prefix) => prefix,
            None => Seq::empty(),
        };
        let rest = tag.skip(before.len() as int);
        assert(tag == before + rest);
        if package::tail_after(rest, "v"@) is Some {
            assert(rest == "v"@ + version);
            assert(before + ("v"@ + version) == before + "v"@ + version);
        }
    }
}

/// Tags that come later are listed before those that come earlier, and what is listed of a tag does
/// not depend on the others.
pub proof fn law_later_tags_first<E>(earlier: Seq<TagReport<E>>, later: Seq<TagReport<E>>)
    ensures
        listed_pairs(earlier + later) == listed_pairs(later) + listed_pairs(earlier),
    decreases later.len(),
{
    if later.len() == 0 {
        assert(earlier + later == earlier);
    } else {
        assert((earlier + later).drop_last() == earlier + later.drop_last());
        assert((earlier + later).last() == later.last());
        law_later_tags_first(earlier, later.drop_last());
    }
}

/// A tag is listed with a version exactly where it is accepted and stands for that version.
pub proof fn law_listed_versions<E>(
    reports: Seq<TagReport<E>>,
    version: Seq<char>,
    tag: Seq<char>,
)
    ensures
        listed_pairs(reports).contains((version, tag)) <==> exists|i: int|
            0 <= i < reports.len() && (#[trigger] reports[i]).tag == tag && (
            reports[i].accepted matches Ok(true)) && tag_version(
                tag,
                reports[i].version_prefix,
            ) == Some(version),
    decreases reports.len(),
{
    if reports.len() > 0 {
        let rest = reports.drop_last();
        let one = listed_pair(reports.last());
        law_listed_versions(rest, version, tag);
        assert(listed_pairs(reports) == one + listed_pairs(rest));
        if listed_pairs(reports).contains((version, tag)) {
            let k = choose|k: int|
                0 <= k < listed_pairs(reports).len() && listed_pairs(reports)[k] == (version, tag);
            if k < one.len() {
                assert(reports[reports.len() - 1].tag == tag);
            } else {
                assert(listed_pairs(rest)[k - one.len()] == (version, tag));
                let i = choose|i: int|
                    0 <= i < rest.len() && (#[trigger] rest[i]).tag == tag && (
                    rest[i].accepted matches Ok(true)) && tag_version(
                        tag,
                        rest[i].version_prefix,
                    ) == Some(version);
                assert(reports[i] == rest[i]);
            }
        }
        if exists|i: int|
            0 <= i < reports.len() && (#[trigger] reports[i]).tag == tag && (
            reports[i].accepted matches Ok(true)) && tag_version(
                tag,
                reports[i].version_prefix,
            ) == Some(version) {
            let i = choose|i: int|
                0 <= i < reports.len() && (#[trigger] reports[i]).tag == tag && (
                reports[i].accepted matches Ok(true)) && tag_version(
                    tag,
                    reports[i].version_prefix,
                ) == Some(version);
            if i == reports.len() - 1 {
                assert(one[0] == (version, tag));
                assert(listed_pairs(reports)[0] == (version, tag));
            } else {
                assert(rest[i] == reports[i]);
                let k = choose|k: int|
                    0 <= k < listed_pairs(rest).len() && listed_pairs(rest)[k] == (version, tag);
                assert(listed_pairs(reports)[k + one.len()] == (version, tag));
            }
        }
    }
}

/// A query in which no character has a meaning of its own in a pattern asks for the version of that
/// name, be it stable or not.
pub proof fn law_query_names_a_version(query: Seq<char>, version_regex: Seq<char>)
    requires
        query != "latest"@,
        forall|i: int| 0 <= i < query.len() ==> !pattern::is_meta(#[trigger] query[i]),
    ensures
        fuzzy_keeps(query, version_regex, query),
{
    pattern::lemma_plain_text_escapes_to_itself(query);
}

/// A version that is not stable is not among the latest, unless it is spelled like the pattern for
/// them.
pub proof fn law_latest_is_stable(version_regex: Seq<char>, version: Seq<char>)
    requires
        pattern::regex_finds(version_regex, version),
        version != "\\D*[0-9].*"@,
    ensures
        !fuzzy_keeps("latest"@, version_regex, version),
{
}

/// The repository of a package is asked for its tags where the package's versions are its tags, and else
/// for its releases, and for its tags after all where it has no releases.
pub proof fn law_where_tags_are_sought<E>(
    pkg: AquaPackage,
    repo: Seq<char>,
    releases: Seq<Seq<char>>,
    err: E,
)
    ensures
        pkg.version_source matches Some(source) && source@ == "github_tag"@ ==> first_tags_step::<E>(
            pkg,
        ) == (TagsStepView::<E>::ListTags { repo: pkg.repo_owner@ + "/"@ + pkg.repo_name@ }),
        pkg.version_source is None || (pkg.version_source matches Some(source) && source@
            != "github_tag"@) ==> first_tags_step::<E>(pkg) == (TagsStepView::<E>::ListReleases {
            repo: pkg.repo_owner@ + "/"@ + pkg.repo_name@,
        }),
        releases.len() > 0 ==> after_releases(repo, Ok::<Seq<Seq<char>>, E>(releases))
            == TagsStepView::<E>::Finished(Ok(releases)),
        releases.len() == 0 ==> after_releases(repo, Ok::<Seq<Seq<char>>, E>(releases)) == (
        TagsStepView::<E>::ListTags { repo }),
        after_releases(repo, Err::<Seq<Seq<char>>, E>(err)) == TagsStepView::<E>::Finished(Err(err)),
{
}

/// A package that lacks the owner or the name of its repository has no versions; any other is asked for
/// its tags or its releases, and one that cannot be looked up is a failure.
pub proof fn law_packages_without_versions<E>(pkg: AquaPackage, err: E)
    ensures
        pkg.repo_owner@.len() == 0 || pkg.repo_name@.len() == 0 ==> first_version_tags_step(
            Ok::<AquaPackage, E>(pkg),
        ) == VersionTagsStepView::<E>::Finished(Ok(Seq::empty())),
        pkg.repo_owner@.len() > 0 && pkg.repo_name@.len() > 0 ==> {
            let repo = pkg.repo_owner@ + "/"@ + pkg.repo_name@;
            first_version_tags_step(Ok::<AquaPackage, E>(pkg)) == if text::opt_text(
                pkg.version_source,
            ) == Some("github_tag"@) {
                VersionTagsStepView::<E>::ListTags { repo }
            } else {
                VersionTagsStepView::<E>::ListReleases { repo }
            }
        },
        first_version_tags_step(Err::<AquaPackage, E>(err)) == VersionTagsStepView::<E>::Finished(
            Err(err),
        ),
{
}

/// The version of a tag is what follows the prefix and, where there is one, a `v`; a tag without the
/// prefix has no version.
pub proof fn law_version_of_a_tag(prefix: Seq<char>, rest: Seq<char>, tag: Seq<char>)
    ensures
        tag_version(prefix + "v"@ + rest, Some(prefix)) == Some(rest),
        !"v"@.is_prefix_of(rest) ==> tag_version(prefix + rest, Some(prefix)) == Some(rest),
        !prefix.is_prefix_of(tag) ==> tag_version(tag, Some(prefix)) is None,
        tag_version("v"@ + rest, None) == Some(rest),
        !"v"@.is_prefix_of(rest) ==> tag_version(rest, None) == Some(rest),
{
    let v = "v"@ + rest;
    assert(v.subrange(0, "v"@.len() as int) == "v"@);
    assert(v.skip("v"@.len() as int) == rest);
    let full = prefix + "v"@ + rest;
    assert(full.subrange(0, prefix.len() as int) == prefix);
    assert(full.skip(prefix.len() as int) == v);
    let plain = prefix + rest;
    assert(plain.subrange(0, prefix.len() as int) == prefix);
    assert(plain.skip(prefix.len() as int) == rest);
}

/// One more tag, after the others, puts its version before theirs where the filter accepts it and it
/// stands for a version, and else changes nothing.
pub proof fn law_one_more_tag<E>(reports: Seq<TagReport<E>>, report: TagReport<E>)
    ensures
        listed_pairs(Seq::<TagReport<E>>::empty()) == Seq::<(Seq<char>, Seq<char>)>::empty(),
        report.accepted matches Ok(true) ==> (tag_version(
            report.tag,
            report.version_prefix,
        ) matches Some(version) ==> listed_pairs(reports.push(report)) == seq![
            (version, report.tag),
        ] + listed_pairs(reports)),
        report.accepted matches Ok(true) && tag_version(report.tag, report.version_prefix) is None
            ==> listed_pairs(reports.push(report)) == listed_pairs(reports),
        !(report.accepted matches Ok(true)) ==> listed_pairs(reports.push(report)) == listed_pairs(
            reports,
        ),
{
    assert(reports.push(report).drop_last() == reports);
    assert(Seq::<(Seq<char>, Seq<char>)>::empty() + listed_pairs(reports) == listed_pairs(reports));
}

/// One more version is offered, after the others, exactly where the registry cannot be asked for its
/// package, or gives one that has an asset and no message of what is wrong with it, however the package
/// is published.
pub proof fn law_one_more_version<E>(
    pairs: Seq<(Seq<char>, Seq<char>)>,
    lookups: Seq<Result<AquaPackage, E>>,
    version: Seq<char>,
    tag: Seq<char>,
)
    requires
        lookups.len() > pairs.len(),
    ensures
        offered(Seq::empty(), lookups) == Seq::<Seq<char>>::empty(),
        lookups[pairs.len() as int] is Err ==> offered(pairs.push((version, tag)), lookups)
            == offered(pairs, lookups).push(version),
        lookups[pairs.len() as int] matches Ok(pkg) ==> !pkg.no_asset && pkg.error_message is None
            ==> offered(pairs.push((version, tag)), lookups) == offered(pairs, lookups).push(version),
        lookups[pairs.len() as int] matches Ok(pkg) ==> pkg.no_asset || pkg.error_message is Some
            ==> offered(pairs.push((version, tag)), lookups) == offered(pairs, lookups),
{
    assert(pairs.push((version, tag)).drop_last() == pairs);
}

/// The registry is asked of the versions in their order, of each at its own tag, and a version is kept
/// exactly where the registry cannot be asked, or gives a package that has an asset and no message of
/// what is wrong with it.
pub proof fn law_kept_version<E>(
    pairs: Seq<(Seq<char>, Seq<char>)>,
    version: Seq<char>,
    index: nat,
    kept: Seq<Seq<char>>,
    reply: Result<AquaPackage, E>,
)
    ensures
        ({
            let keeps = match reply {
                Ok(pkg) => !pkg.no_asset && pkg.error_message is None,
                Err(_) => true,
            };
            let now = if keeps {
                kept.push(version)
            } else {
                kept
            };
            after_lookup(pairs, version, index, kept, reply) == if index < pairs.len() {
                RemoteVersionsStepView::Lookup {
                    tag: pairs[index as int].1,
                    pairs,
                    version: pairs[index as int].0,
                    index: index + 1,
                    kept: now,
                }
            } else {
                RemoteVersionsStepView::Finished(now)
            }
        }),
{
}

/// Any query but `latest` asks for the version that is spelled like the query with its special
/// characters escaped, and for every stable version that `^query([-.].+)?$` matches, with the query
/// escaped: the query alone, or the query, a dash or a dot, and at least one more character.
pub proof fn law_asked_versions(query: Seq<char>, version_regex: Seq<char>, version: Seq<char>)
    requires
        query != "latest"@,
    ensures
        fuzzy_pattern(query) == "^"@ + pattern::escaped(query) + "([-.].+)?$"@,
        fuzzy_keeps(query, version_regex, version) <==> version == pattern::escaped(query)
            || !pattern::regex_finds(version_regex, version) && pattern::regex_finds(
            "^"@ + pattern::escaped(query) + "([-.].+)?$"@,
            version,
        ),
{
}

/// `latest` asks for every stable version with a digit in it.
pub proof fn law_latest_versions(version_regex: Seq<char>, version: Seq<char>)
    ensures
        fuzzy_pattern("latest"@) == "^"@ + "\\D*[0-9].*"@ + "([-.].+)?$"@,
        fuzzy_keeps("latest"@, version_regex, version) <==> version == "\\D*[0-9].*"@
            || !pattern::regex_finds(version_regex, version) && pattern::regex_finds(
            "^"@ + "\\D*[0-9].*"@ + "([-.].+)?$"@,
            version,
        ),
{
}

/// The version that a query names is kept in any case; any other is kept exactly where it is stable and
/// the pattern of the query matches it.
pub proof fn law_kept_by_the_patterns(
    query: Seq<char>,
    version: Seq<char>,
    unstable: bool,
    matched: bool,
)
    requires
        query != "latest"@,
    ensures
        version == pattern::escaped(query) ==> keeps(query, version, unstable, matched),
        version != pattern::escaped(query) ==> keeps(query, version, unstable, matched) == (matched
            && !unstable),
{
}

/// When the tags are known, the last of them is asked of first, and each is asked of only once. The filter
/// comes before the prefix; a tag that the filter does not accept, or cannot tell of, is passed over, and
/// so is one that stands for no version. When no tag is left, the versions that were found are told.
pub proof fn law_tags_in_turn<E>(
    repo: Seq<char>,
    tags: Seq<Seq<char>>,
    tag: Seq<char>,
    asked: Seq<char>,
    done: Seq<(Seq<char>, Seq<char>)>,
    version: Seq<char>,
    prefix: Option<Seq<char>>,
    err: E,
)
    ensures
        ({
            let ask = |done: Seq<(Seq<char>, Seq<char>)>|
                VersionTagsStepView::<E>::Filter { tag, rest: tags, done };
            let told = |done: Seq<(Seq<char>, Seq<char>)>|
                VersionTagsStepView::<E>::Finished(Ok(done));
            let none = Seq::<Seq<char>>::empty();
            let all = tags.push(tag);
            &&& go_on_with_tags(TagsStepView::<E>::Finished(Ok(all))) == ask(Seq::empty())
            &&& go_on_with_tags(TagsStepView::<E>::Finished(Ok(none))) == told(Seq::empty())
            &&& go_on_with_tags(TagsStepView::<E>::Finished(Err(err)))
                == VersionTagsStepView::<E>::Finished(Err(err))
            &&& go_on_with_tags(TagsStepView::<E>::ListTags { repo }) == (
            VersionTagsStepView::<E>::ListTags { repo })
            &&& go_on_with_tags(TagsStepView::<E>::ListReleases { repo }) == (
            VersionTagsStepView::<E>::ListReleases { repo })
            &&& after_filter(asked, all, done, Ok::<bool, E>(true)) == (
            VersionTagsStepView::<E>::Prefix { tag: asked, rest: all, done })
            &&& after_filter(asked, all, done, Ok::<bool, E>(false)) == ask(done)
            &&& after_filter(asked, all, done, Err::<bool, E>(err)) == ask(done)
            &&& after_filter(asked, none, done, Ok::<bool, E>(false)) == told(done)
            &&& after_filter(asked, none, done, Err::<bool, E>(err)) == told(done)
            &&& tag_version(asked, prefix) == Some(version) ==> {
                &&& after_prefix::<E>(asked, all, done, prefix) == ask(done.push((version, asked)))
                &&& after_prefix::<E>(asked, none, done, prefix) == told(
                    done.push((version, asked)),
                )
            }
            &&& tag_version(asked, prefix) is None ==> {
                &&& after_prefix::<E>(asked, all, done, prefix) == ask(done)
                &&& after_prefix::<E>(asked, none, done, prefix) == told(done)
            }
        }),
{
    assert(tags.push(tag).drop_last() == tags);
}

/// The first version is asked of at its own tag, with none kept; of a package without versions none is
/// offered.
pub proof fn law_first_lookup(pairs: Seq<(Seq<char>, Seq<char>)>, kept: Seq<Seq<char>>, index: nat)
    ensures
        index < pairs.len() ==> next_lookup(pairs, index, kept) == (
        RemoteVersionsStepView::Lookup {
            tag: pairs[index as int].1,
            pairs,
            version: pairs[index as int].0,
            index: index + 1,
            kept,
        }),
        index >= pairs.len() ==> next_lookup(pairs, index, kept) == RemoteVersionsStepView::Finished(
            kept,
        ),
{
}

/// Of the latest versions, too, only the stable ones that the pattern matches are kept, but for one that
/// is spelled like the part of the pattern that stands for them.
pub proof fn law_latest_kept_by_the_patterns(version: Seq<char>, unstable: bool, matched: bool)
    ensures
        version == "\\D*[0-9].*"@ ==> keeps("latest"@, version, unstable, matched),
        version != "\\D*[0-9].*"@ ==> keeps("latest"@, version, unstable, matched) == (matched
            && !unstable),
{
}

} // verus!
