//! The assets of a release.
use indexmap::IndexSet;
use vstd::prelude::*;

use crate::names;
use crate::text;

verus! {

/// An asset of a release.
pub struct GithubAsset {
    pub name: String,
    pub browser_download_url: String,
}

/// An asset of a release.
pub struct GithubAssetView {
    pub name: Seq<char>,
    pub browser_download_url: Seq<char>,
}

impl View for GithubAsset {
    type V = GithubAssetView;

    open spec fn view(&self) -> GithubAssetView {
        GithubAssetView { name: self.name@, browser_download_url: self.browser_download_url@ }
    }
}

/// The assets of a release, in their order.
pub open spec fn assets_view(assets: Seq<GithubAsset>) -> Seq<GithubAssetView> {
    Seq::new(assets.len(), |i: int| assets[i]@)
}

/// An answer that is the assets of a release, or a failure.
pub open spec fn assets_reply<E>(reply: Result<Vec<GithubAsset>, E>) -> Result<
    Seq<GithubAssetView>,
    E,
> {
    match reply {
        Ok(assets) => Ok(assets_view(assets@)),
        Err(err) => Err(err),
    }
}

/// The address of the first asset that has one of the names.
pub open spec fn asset_url(assets: Seq<GithubAssetView>, wanted: Seq<Seq<char>>) -> Option<Seq<char>>
    decreases assets.len(),
{
    if assets.len() == 0 {
        None
    } else if wanted.contains(assets[0].name) {
        Some(assets[0].browser_download_url)
    } else {
        asset_url(assets.skip(1), wanted)
    }
}

/// The address of the first asset that has the name.
pub fn find_asset(assets: &Vec<GithubAsset>, name: &str) -> (r: Option<String>)
    ensures
        text::opt_text(r) == asset_url(assets_view(assets@), seq![name@]),
{
    let ghost all = assets_view(assets@);
    let ghost wanted = seq![name@];
    let mut i: usize = 0;
    assert(all.skip(0) == all);
    while i < assets.len()
        invariant
            i <= assets@.len(),
            all == assets_view(assets@),
            wanted == seq![name@],
            asset_url(all, wanted) == asset_url(all.skip(i as int), wanted),
        decreases assets.len() - i,
    {
        proof {
            assert(all.skip(i as int)[0] == assets@[i as int]@);
            assert(all.skip(i as int).skip(1) == all.skip(i + 1));
            assert(wanted[0] == name@);
            assert(wanted.contains(assets@[i as int].name@) <==> assets@[i as int].name@ == name@);
        }
        if text::same(assets[i].name.as_str(), name) {
            return Some(assets[i].browser_download_url.clone());
        }
        i = i + 1;
    }
    None
}

/// A release that has none of the assets that were looked for.
pub struct AssetNotFound {
    pub wanted: Vec<String>,
    pub available: Vec<String>,
}

/// The names of the assets of a release.
pub open spec fn asset_names(assets: Seq<GithubAssetView>) -> Seq<Seq<char>> {
    Seq::new(assets.len(), |i: int| assets[i].name)
}

/// What is said of a release that has none of the assets that were looked for.
pub open spec fn asset_not_found_text(
    wanted: Seq<Seq<char>>,
    available: Seq<Seq<char>>,
) -> Seq<char> {
    "no asset found: "@ + names::joined(wanted, ", "@) + "\nAvailable assets:\n"@ + names::joined(
        available,
        "\n"@,
    )
}

impl AssetNotFound {
    /// What is said of a release that has none of the assets that were looked for.
    pub fn message(&self) -> (r: String)
        ensures
            r@ == asset_not_found_text(text::texts(self.wanted@), text::texts(self.available@)),
    {
        let wanted = names::join(&self.wanted, ", ");
        let available = names::join(&self.available, "\n");
        "no asset found: ".to_owned().concat(wanted.as_str()).concat(
            "\nAvailable assets:\n",
        ).concat(available.as_str())
    }
}

/// The address of the first asset of a release that has one of the wanted names; failing that, the
/// wanted names and those of the assets.
pub fn release_asset(assets: &Vec<GithubAsset>, wanted: &IndexSet<String>) -> (r: Result<
    String,
    AssetNotFound,
>)
    ensures
        r is Ok <==> asset_url(assets_view(assets@), names::set_names(*wanted)) is Some,
        r matches Ok(url) ==> asset_url(assets_view(assets@), names::set_names(*wanted)) == Some(
            url@,
        ),
        r matches Err(err) ==> text::texts(err.wanted@) == names::set_names(*wanted),
        r matches Err(err) ==> text::texts(err.available@) == asset_names(assets_view(assets@)),
{
    let ghost all = assets_view(assets@);
    let ghost set = names::set_names(*wanted);
    let mut available: Vec<String> = Vec::new();
    let mut i: usize = 0;
    assert(all.skip(0) == all);
    while i < assets.len()
        invariant
            i <= assets@.len(),
            all == assets_view(assets@),
            set == names::set_names(*wanted),
            available@.len() == i,
            forall|j: int| 0 <= j < i ==> (#[trigger] available@[j])@ == assets@[j].name@,
            asset_url(all, set) == asset_url(all.skip(i as int), set),
        decreases assets.len() - i,
    {
        proof {
            assert(all.skip(i as int)[0] == assets@[i as int]@);
            assert(all.skip(i as int).skip(1) == all.skip(i + 1));
        }
        if names::set_contains(wanted, assets[i].name.as_str()) {
            return Ok(assets[i].browser_download_url.clone());
        }
        available.push(assets[i].name.clone());
        i = i + 1;
    }
    assert(text::texts(available@) =~= asset_names(all));
    Err(AssetNotFound { wanted: names::set_to_list(wanted), available })
}

/// The address that is found is that of an asset with a wanted name, and no asset before it has one;
/// none is found exactly where no asset has a wanted name.
pub proof fn law_first_wanted_asset(assets: Seq<GithubAssetView>, wanted: Seq<Seq<char>>)
    ensures
        asset_url(assets, wanted) is None <==> forall|i: int|
            0 <= i < assets.len() ==> !wanted.contains((#[trigger] assets[i]).name),
        asset_url(assets, wanted) matches Some(url) ==> exists|i: int|
            0 <= i < assets.len() && (#[trigger] assets[i]).browser_download_url == url
                && wanted.contains(assets[i].name) && forall|j: int|
                0 <= j < i ==> !wanted.contains((#[trigger] assets[j]).name),
    decreases assets.len(),
{
    if assets.len() > 0 {
        let rest = assets.skip(1);
        law_first_wanted_asset(rest, wanted);
        if wanted.contains(assets[0].name) {
            assert(assets[0].browser_download_url == asset_url(assets, wanted)->0);
        } else if let Some(url) = asset_url(rest, wanted) {
            let i = choose|i: int|
                0 <= i < rest.len() && (#[trigger] rest[i]).browser_download_url == url
                    && wanted.contains(rest[i].name) && forall|j: int|
                    0 <= j < i ==> !wanted.contains((#[trigger] rest[j]).name);
            assert(assets[i + 1] == rest[i]);
            assert forall|j: int| 0 <= j < i + 1 implies !wanted.contains(
                (#[trigger] assets[j]).name,
            ) by {
                if j > 0 {
                    assert(assets[j] == rest[j - 1]);
                }
            }
        } else {
            assert forall|i: int| 0 <= i < assets.len() implies !wanted.contains(
                (#[trigger] assets[i]).name,
            ) by {
                if i > 0 {
                    assert(assets[i] == rest[i - 1]);
                }
            }
        }
    }
}

/// What is said of a release that has none of the assets that were looked for names the ones that were
/// looked for, and those that there are, one on each line.
pub proof fn law_words_of_a_missing_asset(wanted: Seq<Seq<char>>, assets: Seq<GithubAssetView>)
    ensures
        asset_not_found_text(wanted, asset_names(assets)) == "no asset found: "@ + names::joined(
            wanted,
            ", "@,
        ) + "\nAvailable assets:\n"@ + names::joined(
            Seq::new(assets.len(), |i: int| assets[i].name),
            "\n"@,
        ),
{
    assert(asset_names(assets) =~= Seq::new(assets.len(), |i: int| assets[i].name));
}

/// The first asset of exactly the name is the one that is found; without one, none is.
pub proof fn law_asset_of_that_name(
    before: Seq<GithubAssetView>,
    found: GithubAssetView,
    after: Seq<GithubAssetView>,
)
    requires
        forall|i: int| 0 <= i < before.len() ==> (#[trigger] before[i]).name != found.name,
    ensures
        asset_url(before + (seq![found] + after), seq![found.name]) == Some(
            found.browser_download_url,
        ),
        asset_url(before, seq![found.name]) is None,
    decreases before.len(),
{
    let all = before + (seq![found] + after);
    let wanted = seq![found.name];
    assert(wanted[0] == found.name);
    if before.len() == 0 {
        assert(all[0] == found);
        assert(wanted.contains(all[0].name));
    } else {
        let rest = before.skip(1);
        assert(all[0] == before[0]);
        assert(!wanted.contains(before[0].name));
        assert(all.skip(1) == rest + (seq![found] + after));
        assert forall|i: int| 0 <= i < rest.len() implies (#[trigger] rest[i]).name
            != found.name by {
            assert(rest[i] == before[i + 1]);
        }
        law_asset_of_that_name(rest, found, after);
    }
}

} // verus!
