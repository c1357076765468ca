use aqua_backend::package::{AquaPackage, AquaPackageType};
use aqua_backend::versions::{
    checked_fuzzy_match_filter, fuzzy_match_filter, get_tags, has_repo, keeps_version,
    remote_versions, version_of_tag, version_tags_of, RemoteVersionsStep, TagsStep,
    VersionTagsStep,
};

const UNSTABLE: &str = "(?i)(^Available versions:|-src|-dev|-latest|-stm|[-\\.]rc|-milestone|-alpha|-beta|[-\\.]pre|-next|snapshot|master)";

fn package() -> AquaPackage {
    AquaPackage {
        kind: AquaPackageType::GithubRelease,
        repo_owner: "cli".to_string(),
        repo_name: "tool".to_string(),
        name: None,
        path: None,
        description: None,
        version_prefix: None,
        version_source: None,
        no_asset: false,
        error_message: None,
        supported_envs: Vec::new(),
        files: Vec::new(),
        complete_windows_ext: false,
        checksum: None,
        minisign: None,
        slsa_provenance: None,
    }
}

fn strings(list: &[&str]) -> Vec<String> {
    list.iter().map(|s| s.to_string()).collect()
}

/// Learns the versions of a package whose releases have these tags, and lists what is asked.
fn listed(tags: &[&str]) -> (Vec<String>, Vec<(String, String)>) {
    let mut asked = Vec::new();
    let mut step = version_tags_of::<String>(Ok(&package()));
    loop {
        step = match step {
            VersionTagsStep::ListReleases { next } => {
                assert_eq!(next.releases.repo, "cli/tool");
                next.resume(Ok(strings(tags)))
            }
            VersionTagsStep::ListTags { .. } => panic!("there are releases"),
            VersionTagsStep::Filter { next } => {
                asked.push(format!("filter {}", next.tag));
                let accepted = match next.tag.as_str() {
                    "nightly" => Ok(false),
                    "broken" => Err("no filter".to_string()),
                    _ => Ok(true),
                };
                next.resume(accepted)
            }
            VersionTagsStep::Prefix { next } => {
                asked.push(format!("prefix {}", next.tag));
                let prefix = if next.tag == "v2.0" { None } else { Some("cli-".to_string()) };
                next.resume(&prefix)
            }
            VersionTagsStep::Finished(Ok(pairs)) => return (asked, pairs),
            VersionTagsStep::Finished(Err(_)) => panic!("nothing has failed"),
        };
    }
}

fn pair(version: &str, tag: &str) -> (String, String) {
    (version.to_string(), tag.to_string())
}

#[test]
fn releases_are_listed_first() {
    let next = match get_tags::<String>(&package()) {
        TagsStep::ListReleases { next } => next,
        _ => panic!("the releases were not asked for"),
    };
    assert_eq!(next.repo, "cli/tool");
    match next.resume::<String>(Ok(strings(&["v1", "v2"]))) {
        TagsStep::Finished(Ok(tags)) => assert_eq!(tags, ["v1", "v2"]),
        _ => panic!("the tags are known"),
    }
}

#[test]
fn tags_are_listed_where_there_are_no_releases() {
    let next = match get_tags::<String>(&package()) {
        TagsStep::ListReleases { next } => next,
        _ => panic!("the releases were not asked for"),
    };
    let next = match next.resume::<String>(Ok(Vec::new())) {
        TagsStep::ListTags { repo, next } => {
            assert_eq!(repo, "cli/tool");
            next
        }
        _ => panic!("the tags were not asked for"),
    };
    match next.resume::<String>(Ok(strings(&["1"]))) {
        TagsStep::Finished(Ok(tags)) => assert_eq!(tags, ["1"]),
        _ => panic!("the tags are known"),
    }
}

#[test]
fn tags_are_listed_where_the_package_says_so() {
    let mut pkg = package();
    pkg.version_source = Some("github_tag".to_string());
    match get_tags::<String>(&pkg) {
        TagsStep::ListTags { repo, next } => {
            assert_eq!(repo, "cli/tool");
            match next.resume(Err("offline".to_string())) {
                TagsStep::Finished(Err(err)) => assert_eq!(err, "offline"),
                _ => panic!("the failure was lost"),
            }
        }
        _ => panic!("the tags were not asked for"),
    }
}

#[test]
fn a_failure_to_list_the_releases_is_handed_on() {
    match get_tags::<String>(&package()) {
        TagsStep::ListReleases { next } => match next.resume(Err("offline".to_string())) {
            TagsStep::Finished(Err(err)) => assert_eq!(err, "offline"),
            _ => panic!("the failure was lost"),
        },
        _ => panic!("the releases were not asked for"),
    }
}

#[test]
fn a_repository_has_an_owner_and_a_name() {
    assert!(has_repo(&package()));
    let mut pkg = package();
    pkg.repo_owner = String::new();
    assert!(!has_repo(&pkg));
    let mut pkg = package();
    pkg.repo_name = String::new();
    assert!(!has_repo(&pkg));
}

#[test]
fn version_of_a_tag_has_neither_prefix_nor_v() {
    assert_eq!(version_of_tag("v1.2.3", &None), Some("1.2.3".to_string()));
    assert_eq!(version_of_tag("1.2.3", &None), Some("1.2.3".to_string()));
    assert_eq!(version_of_tag("vv1", &None), Some("v1".to_string()));
    let prefix = Some("cli-".to_string());
    assert_eq!(version_of_tag("cli-v1.2", &prefix), Some("1.2".to_string()));
    assert_eq!(version_of_tag("cli-1.2", &prefix), Some("1.2".to_string()));
    assert_eq!(version_of_tag("v1.2", &prefix), None);
}

#[test]
fn later_tags_are_listed_first() {
    let (asked, pairs) = listed(&["v2.0", "nightly", "broken", "v1.0", "cli-v0.9"]);
    assert_eq!(pairs, vec![pair("0.9", "cli-v0.9"), pair("2.0", "v2.0")]);
    let expected = [
        "filter cli-v0.9",
        "prefix cli-v0.9",
        "filter v1.0",
        "prefix v1.0",
        "filter broken",
        "filter nightly",
        "filter v2.0",
        "prefix v2.0",
    ];
    assert_eq!(asked, expected);
}

#[test]
fn without_a_repository_there_are_no_versions() {
    let mut pkg = package();
    pkg.repo_owner = String::new();
    let step = version_tags_of::<String>(Ok(&pkg));
    assert!(matches!(step, VersionTagsStep::Finished(Ok(pairs)) if pairs.is_empty()));
}

#[test]
fn a_package_that_cannot_be_looked_up_is_a_failure() {
    let step = version_tags_of::<String>(Err("offline".to_string()));
    assert!(matches!(step, VersionTagsStep::Finished(Err(err)) if err == "offline"));
}

#[test]
fn versions_come_from_the_tags_where_there_are_no_releases() {
    let next = match version_tags_of::<String>(Ok(&package())) {
        VersionTagsStep::ListReleases { next } => next,
        _ => panic!("the releases were not asked for"),
    };
    let next = match next.resume::<String>(Ok(Vec::new())) {
        VersionTagsStep::ListTags { repo, next } => {
            assert_eq!(repo, "cli/tool");
            next
        }
        _ => panic!("the tags were not asked for"),
    };
    match next.resume::<String>(Ok(strings(&["v1"]))) {
        VersionTagsStep::Filter { next } => assert_eq!(next.tag, "v1"),
        _ => panic!("the tag was not asked of"),
    }
}

#[test]
fn versions_without_assets_are_not_offered() {
    let mut no_asset = package();
    no_asset.no_asset = true;
    let mut broken = package();
    broken.error_message = Some("broken".to_string());
    let tags = vec![pair("1", "v1"), pair("2", "v2"), pair("3", "v3"), pair("4", "v4")];
    let mut step = remote_versions(&tags);
    let offered = loop {
        step = match step {
            RemoteVersionsStep::Lookup { tag, next } => match tag.as_str() {
                "v1" => next.resume::<String>(Ok(&package())),
                "v2" => next.resume::<String>(Ok(&no_asset)),
                "v3" => next.resume::<String>(Ok(&broken)),
                _ => next.resume(Err("offline".to_string())),
            },
            RemoteVersionsStep::Finished(versions) => break versions,
        };
    };
    assert_eq!(offered, ["1", "4"]);
}

#[test]
fn a_query_asks_for_the_versions_that_go_on_from_it() {
    let versions = strings(&["1", "1.0", "1.0.1", "1.0-rc1", "1-2", "10.0", "v1.0", "2.0"]);
    assert_eq!(fuzzy_match_filter(&versions, "1", UNSTABLE), ["1", "1.0", "1.0.1", "1-2"]);
    assert_eq!(fuzzy_match_filter(&versions, "1.0", UNSTABLE), ["1.0", "1.0.1"]);
}

#[test]
fn the_latest_version_is_stable_and_has_a_digit() {
    let versions = strings(&["1.0", "nightly", "v2.0", "2.0-beta.1", "tool-3"]);
    let latest = fuzzy_match_filter(&versions, "latest", UNSTABLE);
    assert_eq!(latest, ["1.0", "v2.0", "tool-3"]);
}

#[test]
fn a_query_names_an_unstable_version() {
    let versions = strings(&["master", "1.0"]);
    assert_eq!(fuzzy_match_filter(&versions, "master", UNSTABLE), ["master"]);
}

#[test]
fn characters_of_a_query_have_no_meaning_of_their_own() {
    let versions = strings(&["1x0", "1.0", "1.0+b"]);
    assert_eq!(fuzzy_match_filter(&versions, "1.0", "^$"), ["1.0"]);
    assert_eq!(fuzzy_match_filter(&versions, "1.0+b", "^$"), ["1.0+b"]);
    assert!(fuzzy_match_filter(&versions, ".*", "^$").is_empty());
}

#[test]
fn patterns_decide_but_for_the_version_that_is_named() {
    assert!(keeps_version("1", "1", true, false));
    assert!(keeps_version("1", "1.0", false, true));
    assert!(!keeps_version("1", "1.0", true, true));
    assert!(!keeps_version("1", "2.0", false, false));
    assert!(!keeps_version("1.0", "1.0", true, true));
    assert!(keeps_version("1.0", "1\\.0", true, false));
}

#[test]
fn the_pattern_for_unstable_versions_must_be_a_regular_expression() {
    let versions = strings(&["1.0"]);
    assert_eq!(checked_fuzzy_match_filter(&versions, "1.0", "("), None);
    assert_eq!(checked_fuzzy_match_filter(&versions, "1.0", "-rc"), Some(strings(&["1.0"])));
}
