//! The version of a tool that is being installed, and what a lockfile holds of it.
use vstd::prelude::*;

use crate::paths::{HostPath, PathView};
use crate::text;

verus! {

/// What a lockfile holds of a tool on one platform.
pub struct PlatformInfo {
    pub url: Option<String>,
    pub checksum: Option<String>,
}

/// What a lockfile holds of a tool on one platform.
pub struct PlatformInfoView {
    pub url: Option<Seq<char>>,
    pub checksum: Option<Seq<char>>,
}

impl View for PlatformInfo {
    type V = PlatformInfoView;

    open spec fn view(&self) -> PlatformInfoView {
        PlatformInfoView { url: text::opt_text(self.url), checksum: text::opt_text(self.checksum) }
    }
}

/// What a lockfile holds of a platform before anything is known of it.
pub open spec fn no_info() -> PlatformInfoView {
    PlatformInfoView { url: None, checksum: None }
}

/// A platform of a lockfile.
pub struct LockEntry {
    pub key: String,
    pub info: PlatformInfo,
}

/// The platforms of a tool in a lockfile. No platform occurs twice.
pub struct LockPlatforms {
    entries: Vec<LockEntry>,
}

spec fn distinct(entries: Seq<LockEntry>) -> bool {
    forall|i: int, j: int|
        0 <= i < j < entries.len() ==> (#[trigger] entries[i]).key@ != (#[trigger] entries[j]).key@
}

spec fn as_map(entries: Seq<LockEntry>) -> Map<Seq<char>, PlatformInfoView>
    decreases entries.len(),
{
    if entries.len() == 0 {
        Map::empty()
    } else {
        as_map(entries.drop_last()).insert(entries.last().key@, entries.last().info@)
    }
}

proof fn lemma_as_map(entries: Seq<LockEntry>)
    requires
        distinct(entries),
    ensures
        forall|k: Seq<char>| #[trigger]
            as_map(entries).contains_key(k) <==> exists|i: int|
                0 <= i < entries.len() && (#[trigger] entries[i]).key@ == k,
        forall|i: int|
            0 <= i < entries.len() ==> as_map(entries)[(#[trigger] entries[i]).key@]
                == entries[i].info@,
    decreases entries.len(),
{
    if entries.len() > 0 {
        let rest = entries.drop_last();
        assert forall|i: int, j: int| 0 <= i < j < rest.len() implies (#[trigger] rest[i]).key@ != (
        #[trigger] rest[j]).key@ by {
            assert(rest[i] == entries[i] && rest[j] == entries[j]);
        }
        lemma_as_map(rest);
        assert forall|k: Seq<char>| #[trigger]
            as_map(entries).contains_key(k) implies exists|i: int|
            0 <= i < entries.len() && (#[trigger] entries[i]).key@ == k by {
            if k == entries.last().key@ {
                assert(entries[entries.len() - 1].key@ == k);
            } else {
                assert(as_map(rest).contains_key(k));
                let i = choose|i: int| 0 <= i < rest.len() && (#[trigger] rest[i]).key@ == k;
                assert(entries[i].key@ == k);
            }
        }
        assert forall|i: int| 0 <= i < entries.len() implies as_map(entries).contains_key(
            (#[trigger] entries[i]).key@,
        ) && as_map(entries)[entries[i].key@] == entries[i].info@ by {
            if i < rest.len() {
                assert(rest[i] == entries[i]);
                assert(as_map(rest).contains_key(rest[i].key@));
                assert(entries[i].key@ != entries[entries.len() - 1].key@);
            }
        }
    }
}

impl View for LockPlatforms {
    type V = Map<Seq<char>, PlatformInfoView>;

    closed spec fn view(&self) -> Map<Seq<char>, PlatformInfoView> {
        as_map(self.entries@)
    }
}

impl LockPlatforms {
    #[verifier::type_invariant]
    spec fn no_platform_twice(self) -> bool {
        distinct(self.entries@)
    }

    /// A lockfile that holds nothing of a tool.
    pub fn new() -> (r: LockPlatforms)
        ensures
            r@ == Map::<Seq<char>, PlatformInfoView>::empty(),
    {
        LockPlatforms { entries: Vec::new() }
    }

    /// Where a platform stands among the entries.
    #[verifier::loop_isolation(false)]
    fn position(&self, key: &str) -> (r: Option<usize>)
        ensures
            r matches Some(i) ==> i < self.entries@.len() && self.entries@[i as int].key@ == key@,
            r is Some <==> self@.contains_key(key@),
            r matches Some(i) ==> self@[key@] == self.entries@[i as int].info@,
    {
        proof {
            use_type_invariant(self);
            lemma_as_map(self.entries@);
        }
        let mut i: usize = 0;
        while i < self.entries.len()
            invariant
                i <= self.entries.len(),
                forall|j: int| 0 <= j < i ==> (#[trigger] self.entries@[j]).key@ != key@,
            decreases self.entries.len() - i,
        {
            if text::same(self.entries[i].key.as_str(), key) {
                return Some(i);
            }
            i = i + 1;
        }
        None
    }

    /// What the lockfile holds of a platform.
    pub fn get(&self, key: &str) -> (r: Option<&PlatformInfo>)
        ensures
            r is Some <==> self@.contains_key(key@),
            r matches Some(info) ==> info@ == self@[key@],
    {
        match self.position(key) {
            Some(i) => Some(&self.entries[i].info),
            None => None,
        }
    }

    /// The lockfile with other information of a platform.
    pub fn insert(self, key: &str, info: PlatformInfo) -> (r: LockPlatforms)
        ensures
            r@ == self@.insert(key@, info@),
    {
        let place = self.position(key);
        proof {
            use_type_invariant(&self);
            lemma_as_map(self.entries@);
        }
        let ghost before = self.entries@;
        let mut entries = self.entries;
        match place {
            Some(i) => {
                entries.set(i, LockEntry { key: key.to_owned(), info });
            },
            None => {
                entries.push(LockEntry { key: key.to_owned(), info });
            },
        }
        proof {
            if place is None {
                assert forall|i: int| 0 <= i < before.len() implies (#[trigger] before[i]).key@
                    != key@ by {
                    assert(as_map(before).contains_key(before[i].key@));
                }
                assert(entries@.drop_last() == before);
            } else {
                let at = place->0 as int;
                assert forall|i: int, j: int| 0 <= i < j < entries@.len() implies (
                #[trigger] entries@[i]).key@ != (#[trigger] entries@[j]).key@ by {
                    assert(before[i].key@ != before[j].key@);
                }
                lemma_as_map(entries@);
                let m = as_map(before).insert(key@, info@);
                assert forall|k: Seq<char>| #[trigger]
                    as_map(entries@).contains_key(k) <==> m.contains_key(k) by {
                    if as_map(entries@).contains_key(k) {
                        let i = choose|i: int|
                            0 <= i < entries@.len() && (#[trigger] entries@[i]).key@ == k;
                        assert(before[i].key@ == k);
                    }
                    if m.contains_key(k) && k != key@ {
                        let i = choose|i: int|
                            0 <= i < before.len() && (#[trigger] before[i]).key@ == k;
                        assert(entries@[i].key@ == k);
                    }
                    if k == key@ {
                        assert(entries@[at].key@ == k);
                    }
                }
                assert forall|k: Seq<char>| #[trigger]
                    as_map(entries@).contains_key(k) implies as_map(entries@)[k] == m[k] by {
                    let i = choose|i: int|
                        0 <= i < entries@.len() && (#[trigger] entries@[i]).key@ == k;
                    if i != at {
                        assert(before[i] == entries@[i]);
                        assert(before[at].key@ == key@);
                    }
                }
                assert(as_map(entries@) =~= m);
            }
        }
        LockPlatforms { entries }
    }

    /// The platforms that the lockfile holds, each with what it holds of it, in no particular order.
    pub fn into_entries(self) -> (r: Vec<LockEntry>)
        ensures
            forall|i: int, j: int| 0 <= i < j < r@.len() ==> (#[trigger] r@[i]).key@ != (
            #[trigger] r@[j]).key@,
            forall|i: int|
                0 <= i < r@.len() ==> self@.contains_key((#[trigger] r@[i]).key@)
                    && self@[r@[i].key@] == r@[i].info@,
            forall|k: Seq<char>| #[trigger]
                self@.contains_key(k) ==> exists|i: int|
                    0 <= i < r@.len() && (#[trigger] r@[i]).key@ == k,
    {
        proof {
            use_type_invariant(&self);
            lemma_as_map(self.entries@);
        }
        self.entries
    }
}

/// What a lockfile holds of a platform, or that nothing is known of it.
pub open spec fn info_of(
    platforms: Map<Seq<char>, PlatformInfoView>,
    key: Seq<char>,
) -> PlatformInfoView {
    if platforms.contains_key(key) {
        platforms[key]
    } else {
        no_info()
    }
}

/// A lockfile with the platform in it, if only with nothing known of it.
pub open spec fn with_entry(
    platforms: Map<Seq<char>, PlatformInfoView>,
    key: Seq<char>,
) -> Map<Seq<char>, PlatformInfoView> {
    platforms.insert(key, info_of(platforms, key))
}

/// A lockfile with the address of a platform's asset.
pub open spec fn with_url(
    platforms: Map<Seq<char>, PlatformInfoView>,
    key: Seq<char>,
    url: Seq<char>,
) -> Map<Seq<char>, PlatformInfoView> {
    platforms.insert(
        key,
        PlatformInfoView { url: Some(url), checksum: info_of(platforms, key).checksum },
    )
}

/// A lockfile with the checksum of a platform's asset.
pub open spec fn with_checksum(
    platforms: Map<Seq<char>, PlatformInfoView>,
    key: Seq<char>,
    checksum: Seq<char>,
) -> Map<Seq<char>, PlatformInfoView> {
    platforms.insert(
        key,
        PlatformInfoView { url: info_of(platforms, key).url, checksum: Some(checksum) },
    )
}

impl LockPlatforms {
    /// What the lockfile holds of a platform, or that nothing is known of it.
    pub fn info(&self, key: &str) -> (r: PlatformInfo)
        ensures
            r@ == info_of(self@, key@),
    {
        match self.get(key) {
            Some(info) => PlatformInfo { url: info.url.clone(), checksum: info.checksum.clone() },
            None => PlatformInfo { url: None, checksum: None },
        }
    }

    /// Puts the platform into the lockfile, if only with nothing known of it.
    pub fn ensure_entry(self, key: &str) -> (r: LockPlatforms)
        ensures
            r@ == with_entry(self@, key@),
    {
        let info = self.info(key);
        self.insert(key, info)
    }

    /// Records the address of the platform's asset.
    pub fn set_url(self, key: &str, url: String) -> (r: LockPlatforms)
        ensures
            r@ == with_url(self@, key@, url@),
    {
        let info = self.info(key);
        self.insert(key, PlatformInfo { url: Some(url), checksum: info.checksum })
    }

    /// Records the checksum of the platform's asset.
    pub fn set_checksum(self, key: &str, checksum: String) -> (r: LockPlatforms)
        ensures
            r@ == with_checksum(self@, key@, checksum@),
    {
        let info = self.info(key);
        self.insert(key, PlatformInfo { url: info.url, checksum: Some(checksum) })
    }
}

/// A version of a tool, where it is kept, and what a lockfile holds of it.
pub struct ToolVersion {
    pub version: String,
    pub lock_platforms: LockPlatforms,
    pub install_path: HostPath,
    pub download_path: HostPath,
    pub cache_path: HostPath,
}

/// A version of a tool, where it is kept, and what a lockfile holds of it.
pub struct ToolVersionView {
    pub version: Seq<char>,
    pub lock_platforms: Map<Seq<char>, PlatformInfoView>,
    pub install_path: PathView,
    pub download_path: PathView,
    pub cache_path: PathView,
}

impl View for ToolVersion {
    type V = ToolVersionView;

    open spec fn view(&self) -> ToolVersionView {
        ToolVersionView {
            version: self.version@,
            lock_platforms: self.lock_platforms@,
            install_path: self.install_path@,
            download_path: self.download_path@,
            cache_path: self.cache_path@,
        }
    }
}

/// An answer that is a version of a tool, or a failure.
pub open spec fn version_reply<E>(reply: Result<ToolVersion, E>) -> Result<ToolVersionView, E> {
    match reply {
        Ok(tv) => Ok(tv@),
        Err(err) => Err(err),
    }
}

/// Recording an address leaves the checksum of the platform, and all that is held of other platforms,
/// as they were.
pub proof fn law_recorded_url(
    platforms: Map<Seq<char>, PlatformInfoView>,
    key: Seq<char>,
    url: Seq<char>,
    other: Seq<char>,
)
    ensures
        with_url(platforms, key, url).contains_key(key),
        with_url(platforms, key, url)[key].url == Some(url),
        platforms.contains_key(key) ==> with_url(platforms, key, url)[key].checksum
            == platforms[key].checksum,
        !platforms.contains_key(key) ==> with_url(platforms, key, url)[key].checksum is None,
        other != key ==> with_url(platforms, key, url).contains_key(other)
            == platforms.contains_key(other),
        other != key && platforms.contains_key(other) ==> with_url(platforms, key, url)[other]
            == platforms[other],
{
}

/// Recording a checksum leaves the address of the platform's asset, and all that is held of other
/// platforms, as they were.
pub proof fn law_recorded_checksum(
    platforms: Map<Seq<char>, PlatformInfoView>,
    key: Seq<char>,
    checksum: Seq<char>,
    other: Seq<char>,
)
    ensures
        with_checksum(platforms, key, checksum).contains_key(key),
        with_checksum(platforms, key, checksum)[key].checksum == Some(checksum),
        platforms.contains_key(key) ==> with_checksum(platforms, key, checksum)[key].url
            == platforms[key].url,
        !platforms.contains_key(key) ==> with_checksum(platforms, key, checksum)[key].url is None,
        other != key ==> with_checksum(platforms, key, checksum).contains_key(other)
            == platforms.contains_key(other),
        other != key && platforms.contains_key(other) ==> with_checksum(
            platforms,
            key,
            checksum,
        )[other] == platforms[other],
{
}

/// A platform that the lockfile has keeps what is held of it; one that it lacks is put into it with
/// nothing known of it.
pub proof fn law_entry(platforms: Map<Seq<char>, PlatformInfoView>, key: Seq<char>)
    ensures
        platforms.contains_key(key) ==> with_entry(platforms, key) == platforms,
        platforms.contains_key(key) ==> info_of(platforms, key) == platforms[key],
        !platforms.contains_key(key) ==> with_entry(platforms, key) == platforms.insert(
            key,
            PlatformInfoView { url: None, checksum: None },
        ),
        !platforms.contains_key(key) ==> info_of(platforms, key).url is None && info_of(
            platforms,
            key,
        ).checksum is None,
{
    if platforms.contains_key(key) {
        assert(platforms.insert(key, platforms[key]) =~= platforms);
    }
}

} // verus!
