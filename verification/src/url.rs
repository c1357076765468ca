//! Where the asset of a version is, and how it is downloaded.
use indexmap::IndexSet;
use vstd::prelude::*;

use crate::names;
use crate::package;
use crate::package::{AquaPackage, AquaPackageType};
use crate::paths::{HostPath, PathView};
use crate::release;
use crate::release::{AssetNotFound, GithubAsset, GithubAssetView};
use crate::text;

verus! {

/// Why the address of an asset cannot be told.
pub enum UrlError<E> {
    /// Something outside failed.
    Outside(E),
    /// The release has none of the assets that the package may have.
    AssetNotFound(AssetNotFound),
    /// Packages that are published in this way have no asset.
    UnsupportedType(String),
}

/// Why the address of an asset cannot be told.
pub enum UrlErrorView<E> {
    Outside(E),
    AssetNotFound { wanted: Seq<Seq<char>>, available: Seq<Seq<char>> },
    UnsupportedType(Seq<char>),
}

impl<E> View for UrlError<E> {
    type V = UrlErrorView<E>;

    open spec fn view(&self) -> UrlErrorView<E> {
        match *self {
            UrlError::Outside(err) => UrlErrorView::Outside(err),
            UrlError::AssetNotFound(err) => UrlErrorView::AssetNotFound {
                wanted: text::texts(err.wanted@),
                available: text::texts(err.available@),
            },
            UrlError::UnsupportedType(kind) => UrlErrorView::UnsupportedType(kind@),
        }
    }
}

/// The names that the asset may have are being rendered.
pub struct AwaitAssetNames {
    pub repo: String,
    pub v: String,
}

/// The release is being fetched.
pub struct AwaitRelease {
    pub wanted: IndexSet<String>,
}

/// The address is being rendered.
pub struct AwaitUrl {}

/// What is to be done next to learn the address of an asset.
pub enum UrlStep<E> {
    /// Render the names that the asset may have.
    AssetNames { next: AwaitAssetNames },
    /// Fetch the release of a version.
    Release { repo: String, v: String, next: AwaitRelease },
    /// Render the address.
    Url { next: AwaitUrl },
    /// The address is known, with whether the asset is known to be there; or it cannot be told.
    Finished(Result<(String, bool), UrlError<E>>),
}

/// What is to be done next to learn the address of an asset.
pub enum UrlStepView<E> {
    AssetNames { repo: Seq<char>, v: Seq<char> },
    Release { repo: Seq<char>, v: Seq<char>, wanted: Seq<Seq<char>> },
    Url,
    Finished(Result<(Seq<char>, bool), UrlErrorView<E>>),
}

impl<E> View for UrlStep<E> {
    type V = UrlStepView<E>;

    open spec fn view(&self) -> UrlStepView<E> {
        match *self {
            UrlStep::AssetNames { next } => UrlStepView::AssetNames {
                repo: next.repo@,
                v: next.v@,
            },
            UrlStep::Release { repo, v, next } => UrlStepView::Release {
                repo: repo@,
                v: v@,
                wanted: names::set_names(next.wanted),
            },
            UrlStep::Url { next } => UrlStepView::Url,
            UrlStep::Finished(Ok((url, checked))) => UrlStepView::Finished(Ok((url@, checked))),
            UrlStep::Finished(Err(err)) => UrlStepView::Finished(Err(err@)),
        }
    }
}

/// The address of the archive of a version.
pub open spec fn archive_url(pkg: AquaPackage, v: Seq<char>) -> Seq<char> {
    "https://github.com/"@ + package::repo_of(pkg.repo_owner@, pkg.repo_name@)
        + "/archive/refs/tags/"@ + v + ".tar.gz"@
}

/// How a package is published decides where its asset is sought.
pub open spec fn first_step<E>(pkg: AquaPackage, v: Seq<char>) -> UrlStepView<E> {
    match pkg.kind {
        AquaPackageType::GithubRelease => UrlStepView::AssetNames {
            repo: package::repo_of(pkg.repo_owner@, pkg.repo_name@),
            v,
        },
        AquaPackageType::GithubArchive => UrlStepView::Finished(Ok((archive_url(pkg, v), false))),
        AquaPackageType::GithubContent => UrlStepView::Finished(Ok((archive_url(pkg, v), false))),
        AquaPackageType::Http => UrlStepView::Url,
        AquaPackageType::Cargo => UrlStepView::Finished(
            Err(UrlErrorView::UnsupportedType("cargo"@)),
        ),
        AquaPackageType::GoInstall => UrlStepView::Finished(
            Err(UrlErrorView::UnsupportedType("go_install"@)),
        ),
        AquaPackageType::Other(kind) => UrlStepView::Finished(
            Err(UrlErrorView::UnsupportedType(kind@)),
        ),
    }
}

/// The names are sought in the release of the version.
pub open spec fn after_asset_names<E>(
    repo: Seq<char>,
    v: Seq<char>,
    reply: Result<Seq<Seq<char>>, E>,
) -> UrlStepView<E> {
    match reply {
        Err(err) => UrlStepView::Finished(Err(UrlErrorView::Outside(err))),
        Ok(wanted) => UrlStepView::Release { repo, v, wanted },
    }
}

/// The first asset with one of the names is the one; it is known to be there.
pub open spec fn after_release<E>(
    wanted: Seq<Seq<char>>,
    reply: Result<Seq<GithubAssetView>, E>,
) -> UrlStepView<E> {
    match reply {
        Err(err) => UrlStepView::Finished(Err(UrlErrorView::Outside(err))),
        Ok(assets) => match release::asset_url(assets, wanted) {
            Some(url) => UrlStepView::Finished(Ok((url, true))),
            None => UrlStepView::Finished(
                Err(
                    UrlErrorView::AssetNotFound { wanted, available: release::asset_names(assets) },
                ),
            ),
        },
    }
}

/// A rendered address may lead nowhere.
pub open spec fn after_url<E>(reply: Result<Seq<char>, E>) -> UrlStepView<E> {
    match reply {
        Err(err) => UrlStepView::Finished(Err(UrlErrorView::Outside(err))),
        Ok(url) => UrlStepView::Finished(Ok((url, false))),
    }
}

/// An answer that is a set of names, or a failure.
pub open spec fn names_reply<E>(reply: Result<IndexSet<String>, E>) -> Result<Seq<Seq<char>>, E> {
    match reply {
        Ok(set) => Ok(names::set_names(set)),
        Err(err) => Err(err),
    }
}

/// The address of the archive of a version.
pub fn github_archive_url(pkg: &AquaPackage, v: &str) -> (r: String)
    ensures
        r@ == archive_url(*pkg, v@),
{
    let repo = package::repo(pkg.repo_owner.as_str(), pkg.repo_name.as_str());
    "https://github.com/".to_owned().concat(repo.as_str()).concat("/archive/refs/tags/").concat(
        v,
    ).concat(".tar.gz")
}

/// Begins to learn the address of an asset among those of a release.
pub fn github_release_asset<E>(pkg: &AquaPackage, v: &str, wanted: IndexSet<String>) -> (step:
    UrlStep<E>)
    ensures
        step@ == (UrlStepView::<E>::Release {
            repo: package::repo_of(pkg.repo_owner@, pkg.repo_name@),
            v: v@,
            wanted: names::set_names(wanted),
        }),
{
    let repo = package::repo(pkg.repo_owner.as_str(), pkg.repo_name.as_str());
    UrlStep::Release { repo, v: v.to_owned(), next: AwaitRelease { wanted } }
}

/// Begins to learn the address of the asset of a version.
pub fn get_url<E>(pkg: &AquaPackage, v: &str) -> (step: UrlStep<E>)
    ensures
        step@ == first_step::<E>(*pkg, v@),
{
    match &pkg.kind {
        AquaPackageType::GithubRelease => {
            let repo = package::repo(pkg.repo_owner.as_str(), pkg.repo_name.as_str());
            UrlStep::AssetNames { next: AwaitAssetNames { repo, v: v.to_owned() } }
        },
        AquaPackageType::GithubArchive => UrlStep::Finished(
            Ok((github_archive_url(pkg, v), false)),
        ),
        AquaPackageType::GithubContent => UrlStep::Finished(
            Ok((github_archive_url(pkg, v), false)),
        ),
        AquaPackageType::Http => UrlStep::Url { next: AwaitUrl {  } },
        AquaPackageType::Cargo => UrlStep::Finished(
            Err(UrlError::UnsupportedType("cargo".to_owned())),
        ),
        AquaPackageType::GoInstall => UrlStep::Finished(
            Err(UrlError::UnsupportedType("go_install".to_owned())),
        ),
        AquaPackageType::Other(kind) => UrlStep::Finished(
            Err(UrlError::UnsupportedType(kind.clone())),
        ),
    }
}

impl AwaitAssetNames {
    /// Goes on with the names that the asset may have.
    pub fn resume<E>(self, reply: Result<IndexSet<String>, E>) -> (step: UrlStep<E>)
        ensures
            step@ == after_asset_names(self.repo@, self.v@, names_reply(reply)),
    {
        match reply {
            Err(err) => UrlStep::Finished(Err(UrlError::Outside(err))),
            Ok(wanted) => UrlStep::Release {
                repo: self.repo,
                v: self.v,
                next: AwaitRelease { wanted },
            },
        }
    }
}

impl AwaitRelease {
    /// Goes on with the assets of the release.
    pub fn resume<E>(self, reply: Result<Vec<GithubAsset>, E>) -> (step: UrlStep<E>)
        ensures
            step@ == after_release(names::set_names(self.wanted), release::assets_reply(reply)),
    {
        match reply {
            Err(err) => UrlStep::Finished(Err(UrlError::Outside(err))),
            Ok(assets) => match release::release_asset(&assets, &self.wanted) {
                Ok(url) => UrlStep::Finished(Ok((url, true))),
                Err(err) => UrlStep::Finished(Err(UrlError::AssetNotFound(err))),
            },
        }
    }
}

impl AwaitUrl {
    /// Goes on with the rendered address.
    pub fn resume<E>(self, reply: Result<String, E>) -> (step: UrlStep<E>)
        ensures
            step@ == after_url(text::text_reply(reply)),
    {
        match reply {
            Err(err) => UrlStep::Finished(Err(UrlError::Outside(err))),
            Ok(url) => UrlStep::Finished(Ok((url, false))),
        }
    }
}

/// What comes back from outside while the address of an asset is learned.
pub struct UrlReplies<E> {
    pub asset_names: Result<Seq<Seq<char>>, E>,
    pub release: Result<Seq<GithubAssetView>, E>,
    pub url: Result<Seq<char>, E>,
}

/// The step that follows when the present one is answered.
pub open spec fn answered<E>(step: UrlStepView<E>, replies: UrlReplies<E>) -> UrlStepView<E> {
    match step {
        UrlStepView::AssetNames { repo, v } => after_asset_names(repo, v, replies.asset_names),
        UrlStepView::Release { repo, v, wanted } => after_release(wanted, replies.release),
        UrlStepView::Url => after_url(replies.url),
        UrlStepView::Finished(outcome) => step,
    }
}

/// After at most two answers the address is known, or cannot be told. It is said to lead to the asset
/// exactly where it was found among the assets of the version's release; every other address is that
/// of the archive or the one that was rendered.
pub proof fn law_checked_address<E>(pkg: AquaPackage, v: Seq<char>, replies: UrlReplies<E>)
    ensures
        answered(answered(first_step::<E>(pkg, v), replies), replies) matches UrlStepView::Finished(
            outcome,
        ) && (outcome matches Ok((url, checked)) ==> if checked {
            &&& pkg.kind is GithubRelease
            &&& replies.asset_names matches Ok(wanted) && replies.release matches Ok(assets)
                && release::asset_url(assets, wanted) == Some(url)
        } else {
            ||| (pkg.kind is GithubArchive || pkg.kind is GithubContent) && url == archive_url(
                pkg,
                v,
            )
            ||| pkg.kind is Http && replies.url == Ok::<Seq<char>, E>(url)
        }),
{
}

/// What is said of a package that is published in a way that has no asset.
pub fn unsupported_type_message(kind: &str) -> (r: String)
    ensures
        r@ == "unsupported aqua package type: "@ + kind@,
{
    "unsupported aqua package type: ".to_owned().concat(kind)
}

/// Whether the file is there already is being looked up.
pub struct AwaitProbe {
    pub url: String,
    pub path: HostPath,
    pub filename: String,
}

/// The file is being downloaded.
pub struct AwaitFetch {}

/// What is to be done next to have a file.
pub enum DownloadStep<E> {
    /// Look whether the file that the state names is there.
    Probe { next: AwaitProbe },
    /// Say what is being done, and download the file.
    Fetch { message: String, url: String, path: HostPath, next: AwaitFetch },
    /// The file is there, or cannot be had.
    Finished(Result<(), E>),
}

/// What is to be done next to have a file.
pub enum DownloadStepView<E> {
    Probe { url: Seq<char>, path: PathView, filename: Seq<char> },
    Fetch { message: Seq<char>, url: Seq<char>, path: PathView },
    Finished(Result<(), E>),
}

impl<E> View for DownloadStep<E> {
    type V = DownloadStepView<E>;

    open spec fn view(&self) -> DownloadStepView<E> {
        match *self {
            DownloadStep::Probe { next } => DownloadStepView::Probe {
                url: next.url@,
                path: next.path@,
                filename: next.filename@,
            },
            DownloadStep::Fetch { message, url, path, next } => DownloadStepView::Fetch {
                message: message@,
                url: url@,
                path: path@,
            },
            DownloadStep::Finished(outcome) => DownloadStepView::Finished(outcome),
        }
    }
}

/// A file that is there is not downloaded again.
pub open spec fn after_probe<E>(
    url: Seq<char>,
    path: PathView,
    filename: Seq<char>,
    there: bool,
) -> DownloadStepView<E> {
    if there {
        DownloadStepView::Finished(Ok(()))
    } else {
        DownloadStepView::Fetch { message: "download "@ + filename, url, path }
    }
}

/// Begins to download a file, under its name, to where the downloads of a version are kept.
pub fn download<E>(download_path: &HostPath, url: &str, filename: &str) -> (step: DownloadStep<E>)
    ensures
        step@ == (DownloadStepView::<E>::Probe {
            url: url@,
            path: download_path@.join(filename@),
            filename: filename@,
        }),
{
    let path = download_path.join(filename);
    let next = AwaitProbe { url: url.to_owned(), path, filename: filename.to_owned() };
    DownloadStep::Probe { next }
}

impl AwaitProbe {
    /// Goes on with whether the file is there.
    pub fn resume<E>(self, there: bool) -> (step: DownloadStep<E>)
        ensures
            step@ == after_probe::<E>(self.url@, self.path@, self.filename@, there),
    {
        if there {
            return DownloadStep::Finished(Ok(()));
        }
        let message = "download ".to_owned().concat(self.filename.as_str());
        DownloadStep::Fetch { message, url: self.url, path: self.path, next: AwaitFetch {  } }
    }
}

impl AwaitFetch {
    /// Goes on when the file has been downloaded, or could not be.
    pub fn resume<E>(self, reply: Result<(), E>) -> (step: DownloadStep<E>)
        ensures
            step@ == DownloadStepView::<E>::Finished(reply),
    {
        DownloadStep::Finished(reply)
    }
}

/// How a package is published decides where its asset is sought: among the assets of the version's
/// release, as the archive of the version's tag, or at an address that is rendered.
pub proof fn law_where_assets_are_sought<E>(pkg: AquaPackage, v: Seq<char>)
    ensures
        pkg.kind is GithubRelease ==> first_step::<E>(pkg, v) == (UrlStepView::<E>::AssetNames {
            repo: pkg.repo_owner@ + "/"@ + pkg.repo_name@,
            v,
        }),
        pkg.kind is GithubArchive || pkg.kind is GithubContent ==> first_step::<E>(pkg, v)
            == UrlStepView::<E>::Finished(
            Ok(
                (
                    "https://github.com/"@ + (pkg.repo_owner@ + "/"@ + pkg.repo_name@)
                        + "/archive/refs/tags/"@ + v + ".tar.gz"@,
                    false,
                ),
            ),
        ),
        pkg.kind is Http ==> first_step::<E>(pkg, v) == UrlStepView::<E>::Url,
        pkg.kind is Cargo ==> first_step::<E>(pkg, v) == UrlStepView::<E>::Finished(
            Err(UrlErrorView::UnsupportedType("cargo"@)),
        ),
        pkg.kind is GoInstall ==> first_step::<E>(pkg, v) == UrlStepView::<E>::Finished(
            Err(UrlErrorView::UnsupportedType("go_install"@)),
        ),
        pkg.kind matches AquaPackageType::Other(kind) ==> first_step::<E>(pkg, v)
            == UrlStepView::<E>::Finished(Err(UrlErrorView::UnsupportedType(kind@))),
{
}

/// The names that the asset may have are sought in the release of the repository and the version; the
/// first asset of the release with one of the names is the one, and is known to be there. Where none has
/// one of the names, both the names and those of the assets are told.
pub proof fn law_asset_of_a_release<E>(
    repo: Seq<char>,
    v: Seq<char>,
    wanted: Seq<Seq<char>>,
    assets: Seq<GithubAssetView>,
    i: int,
)
    ensures
        after_asset_names(repo, v, Ok::<Seq<Seq<char>>, E>(wanted)) == (UrlStepView::<E>::Release {
            repo,
            v,
            wanted,
        }),
        0 <= i < assets.len() && wanted.contains(assets[i].name) && (forall|j: int|
            0 <= j < i ==> !wanted.contains((#[trigger] assets[j]).name)) ==> after_release(
            wanted,
            Ok::<Seq<GithubAssetView>, E>(assets),
        ) == UrlStepView::<E>::Finished(Ok((assets[i].browser_download_url, true))),
        (forall|j: int| 0 <= j < assets.len() ==> !wanted.contains((#[trigger] assets[j]).name))
            ==> after_release(wanted, Ok::<Seq<GithubAssetView>, E>(assets))
            == UrlStepView::<E>::Finished(
            Err(
                UrlErrorView::AssetNotFound {
                    wanted,
                    available: Seq::new(assets.len(), |j: int| assets[j].name),
                },
            ),
        ),
{
    release::law_first_wanted_asset(assets, wanted);
    assert(release::asset_names(assets) =~= Seq::new(assets.len(), |j: int| assets[j].name));
    if 0 <= i < assets.len() && wanted.contains(assets[i].name) && (forall|j: int|
        0 <= j < i ==> !wanted.contains((#[trigger] assets[j]).name)) {
        let url = release::asset_url(assets, wanted)->0;
        let k = choose|k: int|
            0 <= k < assets.len() && (#[trigger] assets[k]).browser_download_url == url
                && wanted.contains(assets[k].name) && forall|j: int|
                0 <= j < k ==> !wanted.contains((#[trigger] assets[j]).name);
        assert(k == i);
    }
}

/// A rendered address is taken as it is, and is not known to lead to the asset; whatever fails outside
/// is handed on.
pub proof fn law_rendered_address<E>(
    repo: Seq<char>,
    v: Seq<char>,
    wanted: Seq<Seq<char>>,
    url: Seq<char>,
    err: E,
)
    ensures
        after_url(Ok::<Seq<char>, E>(url)) == UrlStepView::<E>::Finished(Ok((url, false))),
        after_url(Err::<Seq<char>, E>(err)) == UrlStepView::<E>::Finished(
            Err(UrlErrorView::Outside(err)),
        ),
        after_asset_names(repo, v, Err::<Seq<Seq<char>>, E>(err)) == UrlStepView::<E>::Finished(
            Err(UrlErrorView::Outside(err)),
        ),
        after_release(wanted, Err::<Seq<GithubAssetView>, E>(err))
            == UrlStepView::<E>::Finished(Err(UrlErrorView::Outside(err))),
{
}

/// A file that is there is taken as it is; another is downloaded from its address to its path.
pub proof fn law_downloaded_once<E>(url: Seq<char>, path: PathView, filename: Seq<char>)
    ensures
        after_probe::<E>(url, path, filename, true) == DownloadStepView::<E>::Finished(Ok(())),
        after_probe::<E>(url, path, filename, false) == (DownloadStepView::<E>::Fetch {
            message: "download "@ + filename,
            url,
            path,
        }),
{
}

} // verus!
