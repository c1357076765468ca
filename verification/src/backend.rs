//! The backend of a tool that is installed from the aqua registry.
use vstd::prelude::*;

use crate::package::AquaPackage;
use crate::paths::{HostPath, PathView};
use crate::text;

verus! {

/// The kinds of backend that a tool can come from, as far as this crate has them.
#[derive(Clone, Copy)]
pub enum BackendType {
    Aqua,
}

/// How the user names a tool.
pub struct BackendArg {
    /// The name of the tool in the registry of its backend.
    pub tool_name: String,
    /// The backend and the tool, with a colon between them.
    pub full: String,
    /// Where what is known of the tool is kept.
    pub cache_path: HostPath,
}

/// A tool of the program's own registry, with the backends that it can be installed by.
pub struct RegistryTool {
    pub short: String,
    /// Each backend and the tool's name there, with a colon between them.
    pub backends: Vec<String>,
}

/// The backend of a tool.
pub struct AquaBackend {
    pub ba: BackendArg,
    /// The name of the tool's package.
    pub id: String,
    /// Where the versions of the tool are kept.
    pub version_tags_cache: HostPath,
}

/// What follows the first colon, or the whole text.
pub open spec fn requested_id(full: Seq<char>) -> Seq<char> {
    match text::tail_after_first(full, ':') {
        Some(id) => id,
        None => full,
    }
}

/// The name of a tool's package among its backends: that of the first aqua backend.
pub open spec fn aqua_name(backends: Seq<Seq<char>>) -> Option<Seq<char>>
    decreases backends.len(),
{
    if backends.len() == 0 {
        None
    } else if "aqua:"@.is_prefix_of(backends[0]) {
        Some(backends[0].skip("aqua:"@.len() as int))
    } else {
        aqua_name(backends.skip(1))
    }
}

/// The backends of a tool; nothing for a tool that the registry does not have.
pub open spec fn backends_of(registry: Seq<RegistryTool>, short: Seq<char>) -> Option<Seq<Seq<char>>>
    decreases registry.len(),
{
    if registry.len() == 0 {
        None
    } else if registry[0].short@ == short {
        Some(text::texts(registry[0].backends@))
    } else {
        backends_of(registry.skip(1), short)
    }
}

/// The package of a tool: the one that the user names, if that is the name of a package, which has a
/// slash; else the one that the registry gives the tool; failing that, what the user names.
pub open spec fn package_id(full: Seq<char>, registry: Seq<RegistryTool>) -> Seq<char> {
    let id = requested_id(full);
    if id.contains('/') {
        id
    } else {
        match backends_of(registry, id) {
            Some(backends) => match aqua_name(backends) {
                Some(name) => name,
                None => id,
            },
            None => id,
        }
    }
}

/// Whether the package of a tool is known: the user names one, or the registry has one.
pub open spec fn is_known(full: Seq<char>, registry: Seq<RegistryTool>) -> bool {
    let id = requested_id(full);
    id.contains('/') || (backends_of(registry, id) matches Some(backends) && aqua_name(
        backends,
    ) is Some)
}

/// The name of a tool's package among its backends.
fn find_aqua_name(backends: &Vec<String>) -> (r: Option<String>)
    ensures
        text::opt_text(r) == aqua_name(text::texts(backends@)),
{
    let ghost all = text::texts(backends@);
    let mut i: usize = 0;
    assert(all.skip(0) == all);
    while i < backends.len()
        invariant
            i <= backends@.len(),
            all == text::texts(backends@),
            aqua_name(all) == aqua_name(all.skip(i as int)),
        decreases backends.len() - i,
    {
        proof {
            assert(all.skip(i as int)[0] == backends@[i as int]@);
            assert(all.skip(i as int).skip(1) == all.skip(i + 1));
        }
        if let Some(name) = text::strip_prefix(backends[i].as_str(), "aqua:") {
            return Some(name.to_owned());
        }
        i = i + 1;
    }
    None
}

/// The package that the registry gives a tool.
fn find_package(registry: &Vec<RegistryTool>, short: &str) -> (r: Option<String>)
    ensures
        text::opt_text(r) == match backends_of(registry@, short@) {
            Some(backends) => aqua_name(backends),
            None => None,
        },
{
    let mut i: usize = 0;
    assert(registry@.skip(0) == registry@);
    while i < registry.len()
        invariant
            i <= registry@.len(),
            backends_of(registry@, short@) == backends_of(registry@.skip(i as int), short@),
        decreases registry.len() - i,
    {
        proof {
            assert(registry@.skip(i as int)[0] == registry@[i as int]);
            assert(registry@.skip(i as int).skip(1) == registry@.skip(i + 1));
        }
        if text::same(registry[i].short.as_str(), short) {
            return find_aqua_name(&registry[i].backends);
        }
        i = i + 1;
    }
    None
}

/// Whether a text holds a slash.
fn has_slash(s: &str) -> (r: bool)
    ensures
        r == s@.contains('/'),
{
    let text = text::chars(s);
    let mut i: usize = 0;
    while i < text.len()
        invariant
            i <= text@.len(),
            text@ == s@,
            forall|j: int| 0 <= j < i ==> s@[j] != '/',
        decreases text.len() - i,
    {
        if text[i] == '/' {
            return true;
        }
        i = i + 1;
    }
    false
}

impl AquaBackend {
    /// The backend of the tool that the user names, with whether its package is known. `registry` is
    /// the program's own registry of tools.
    pub fn from_arg(ba: BackendArg, registry: &Vec<RegistryTool>) -> (r: (AquaBackend, bool))
        ensures
            r.0.ba == ba,
            r.0.id@ == package_id(ba.full@, registry@),
            r.0.version_tags_cache@ == ba.cache_path@.join("version_tags.msgpack.z"@),
            r.1 == is_known(ba.full@, registry@),
    {
        let id = match text::after_first(ba.full.as_str(), ':') {
            Some(id) => id.to_owned(),
            None => ba.full.clone(),
        };
        let version_tags_cache = ba.cache_path.join("version_tags.msgpack.z");
        if has_slash(id.as_str()) {
            return (AquaBackend { ba, id, version_tags_cache }, true);
        }
        match find_package(registry, id.as_str()) {
            Some(name) => (AquaBackend { ba, id: name, version_tags_cache }, true),
            None => (AquaBackend { ba, id, version_tags_cache }, false),
        }
    }

    /// The kind of the backend.
    pub fn get_type(&self) -> (r: BackendType)
        ensures
            r == BackendType::Aqua,
    {
        BackendType::Aqua
    }

    /// How the user names the tool.
    pub fn ba(&self) -> (r: &BackendArg)
        ensures
            *r == self.ba,
    {
        &self.ba
    }

    /// The tools that the backend makes use of where they are installed.
    pub fn get_optional_dependencies(&self) -> (r: Vec<String>)
        ensures
            text::texts(r@) == seq!["cosign"@, "slsa-verifier"@],
    {
        let mut r: Vec<String> = Vec::new();
        r.push("cosign".to_owned());
        r.push("slsa-verifier".to_owned());
        assert(text::texts(r@) =~= seq!["cosign"@, "slsa-verifier"@]);
        r
    }
}

/// The description of a tool, from what the registry says of its package; a package that cannot be
/// had has none.
pub fn description<E>(lookup: Result<AquaPackage, E>) -> (r: Option<String>)
    ensures
        text::opt_text(r) == match lookup {
            Ok(pkg) => text::opt_text(pkg.description),
            Err(_) => None,
        },
{
    match lookup {
        Ok(pkg) => pkg.description,
        Err(_) => None,
    }
}

/// Where the directories that hold the programs of a version are kept.
pub fn bin_paths_cache(cache_path: &HostPath) -> (r: HostPath)
    ensures
        r@ == cache_path@.join("bin_paths.msgpack.z"@),
{
    cache_path.join("bin_paths.msgpack.z")
}

/// A user who names a package, with or without the backend before it, gets that package.
pub proof fn law_named_package(full: Seq<char>, registry: Seq<RegistryTool>)
    requires
        requested_id(full).contains('/'),
    ensures
        package_id(full, registry) == requested_id(full),
        is_known(full, registry),
{
}

/// The backend before the first colon is not part of what the user names, and everything after it is; a
/// text without a colon is all of it what the user names.
pub proof fn law_backend_is_left_out(backend: Seq<char>, id: Seq<char>)
    requires
        !backend.contains(':'),
    ensures
        requested_id(backend + seq![':'] + id) == id,
        !id.contains(':') ==> requested_id(id) == id,
{
    lemma_tail_after_first(backend, id);
    if !id.contains(':') {
        lemma_no_tail(id);
    }
}

proof fn lemma_no_tail(s: Seq<char>)
    requires
        !s.contains(':'),
    ensures
        text::tail_after_first(s, ':') is None,
    decreases s.len(),
{
    if s.len() > 0 {
        assert(s.contains(s[0]));
        assert forall|i: int| 0 <= i < s.skip(1).len() implies s.skip(1)[i] != ':' by {
            assert(s.contains(s[i + 1]));
        }
        lemma_no_tail(s.skip(1));
    }
}

proof fn lemma_tail_after_first(before: Seq<char>, after: Seq<char>)
    requires
        !before.contains(':'),
    ensures
        text::tail_after_first(before + seq![':'] + after, ':') == Some(after),
    decreases before.len(),
{
    let s = before + seq![':'] + after;
    if before.len() == 0 {
        assert(s[0] == ':');
        assert(s.skip(1) == after);
    } else {
        assert(s[0] == before[0]);
        assert(before.contains(before[0]));
        assert forall|i: int| 0 <= i < before.skip(1).len() implies before.skip(1)[i] != ':' by {
            assert(before.contains(before[i + 1]));
        }
        assert(s.skip(1) == before.skip(1) + seq![':'] + after);
        lemma_tail_after_first(before.skip(1), after);
    }
}

proof fn lemma_aqua_name(others: Seq<Seq<char>>, name: Seq<char>, more: Seq<Seq<char>>)
    requires
        forall|i: int| 0 <= i < others.len() ==> !"aqua:"@.is_prefix_of(#[trigger] others[i]),
    ensures
        aqua_name(others) is None,
        aqua_name(others + (seq!["aqua:"@ + name] + more)) == Some(name),
    decreases others.len(),
{
    let all = others + (seq!["aqua:"@ + name] + more);
    if others.len() == 0 {
        assert(all[0] == "aqua:"@ + name);
        assert(all[0].subrange(0, "aqua:"@.len() as int) == "aqua:"@);
        assert(all[0].skip("aqua:"@.len() as int) == name);
    } else {
        let rest = others.skip(1);
        assert(all[0] == others[0]);
        assert(all.skip(1) == rest + (seq!["aqua:"@ + name] + more));
        assert forall|i: int| 0 <= i < rest.len() implies !"aqua:"@.is_prefix_of(
            #[trigger] rest[i],
        ) by {
            assert(rest[i] == others[i + 1]);
        }
        lemma_aqua_name(rest, name, more);
    }
}

proof fn lemma_backends_of(before: Seq<RegistryTool>, tool: RegistryTool, after: Seq<RegistryTool>)
    requires
        forall|i: int| 0 <= i < before.len() ==> (#[trigger] before[i]).short@ != tool.short@,
    ensures
        backends_of(before, tool.short@) is None,
        backends_of(before + (seq![tool] + after), tool.short@) == Some(
            text::texts(tool.backends@),
        ),
    decreases before.len(),
{
    let all = before + (seq![tool] + after);
    if before.len() == 0 {
        assert(all[0] == tool);
    } else {
        let rest = before.skip(1);
        assert(all[0] == before[0]);
        assert(all.skip(1) == rest + (seq![tool] + after));
        assert forall|i: int| 0 <= i < rest.len() implies (#[trigger] rest[i]).short@
            != tool.short@ by {
            assert(rest[i] == before[i + 1]);
        }
        lemma_backends_of(rest, tool, after);
    }
}

/// A user who names a tool without a slash gets the package of the first aqua backend that the registry
/// has for the first tool of exactly that name.
pub proof fn law_package_of_a_tool(
    full: Seq<char>,
    before: Seq<RegistryTool>,
    tool: RegistryTool,
    after: Seq<RegistryTool>,
    others: Seq<Seq<char>>,
    name: Seq<char>,
    more: Seq<Seq<char>>,
)
    requires
        requested_id(full) == tool.short@,
        !tool.short@.contains('/'),
        forall|i: int| 0 <= i < before.len() ==> (#[trigger] before[i]).short@ != tool.short@,
        text::texts(tool.backends@) == others + (seq!["aqua:"@ + name] + more),
        forall|i: int| 0 <= i < others.len() ==> !"aqua:"@.is_prefix_of(#[trigger] others[i]),
    ensures
        package_id(full, before + (seq![tool] + after)) == name,
        is_known(full, before + (seq![tool] + after)),
{
    lemma_backends_of(before, tool, after);
    lemma_aqua_name(others, name, more);
}

/// A name without a slash stands for itself, and is not known, where the registry has no tool of that
/// name, or the first tool of that name has no aqua backend.
pub proof fn law_unknown_tool(
    full: Seq<char>,
    before: Seq<RegistryTool>,
    tool: RegistryTool,
    after: Seq<RegistryTool>,
)
    requires
        requested_id(full) == tool.short@,
        !tool.short@.contains('/'),
        forall|i: int| 0 <= i < before.len() ==> (#[trigger] before[i]).short@ != tool.short@,
        forall|i: int|
            0 <= i < tool.backends@.len() ==> !"aqua:"@.is_prefix_of(
                (#[trigger] tool.backends@[i])@,
            ),
    ensures
        package_id(full, before) == tool.short@,
        !is_known(full, before),
        package_id(full, before + (seq![tool] + after)) == tool.short@,
        !is_known(full, before + (seq![tool] + after)),
{
    let backends = text::texts(tool.backends@);
    lemma_backends_of(before, tool, after);
    assert forall|i: int| 0 <= i < backends.len() implies !"aqua:"@.is_prefix_of(
        #[trigger] backends[i],
    ) by {
        assert(backends[i] == tool.backends@[i]@);
    }
    lemma_aqua_name(backends, Seq::empty(), Seq::empty());
}

} // verus!
