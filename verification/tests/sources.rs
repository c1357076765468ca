use aqua_backend::package::{AquaFile, AquaPackage, AquaPackageType};
use aqua_backend::paths::HostPath;
use aqua_backend::sources::{
    bin_dirs, relative_bin_dirs, src_versions, srcs, Source, SourcesError, SourcesStep,
};

fn package(version_prefix: Option<&str>, files: &[&str]) -> AquaPackage {
    AquaPackage {
        kind: AquaPackageType::GithubRelease,
        repo_owner: "cli".to_string(),
        repo_name: "tool".to_string(),
        name: None,
        path: None,
        description: None,
        version_prefix: version_prefix.map(|prefix| prefix.to_string()),
        version_source: None,
        no_asset: false,
        error_message: None,
        supported_envs: Vec::new(),
        files: files.iter().map(|name| AquaFile { name: name.to_string() }).collect(),
        complete_windows_ext: false,
        checksum: None,
        minisign: None,
        slsa_provenance: None,
    }
}

fn places(list: &[Option<&str>]) -> Result<Vec<Option<String>>, String> {
    Ok(list.iter().map(|place| place.map(|place| place.to_string())).collect())
}

/// Learns the sources of a package of version 1 in `/i`.
fn sources_of(
    pkg: &AquaPackage,
    rendered: Vec<Result<Vec<Option<String>>, String>>,
) -> Result<Vec<Source>, SourcesError<String>> {
    let mut rendered = rendered.into_iter();
    let mut step = srcs::<String>(pkg, "1", &HostPath::new("/i"));
    let mut index = 0;
    loop {
        step = match step {
            SourcesStep::Place { file, versions, next } => {
                assert_eq!(file, index);
                assert_eq!(versions, src_versions(pkg, "1"));
                index += 1;
                match rendered.next() {
                    Some(reply) => next.resume(reply),
                    None => panic!("no more files"),
                }
            }
            SourcesStep::Finished(outcome) => return outcome,
        };
    }
}

fn source(src: &str, dst: &str) -> Source {
    Source { src: HostPath::new(src), dst: HostPath::new(dst) }
}

fn shown(sources: &[Source]) -> Vec<(&str, &str)> {
    sources.iter().map(|source| (source.src.as_str(), source.dst.as_str())).collect()
}

fn dirs(list: &[(&str, bool)]) -> Vec<(HostPath, bool)> {
    list.iter().map(|(dir, there)| (HostPath::new(dir), *there)).collect()
}

fn texts(list: &[HostPath]) -> Vec<&str> {
    list.iter().map(|dir| dir.as_str()).collect()
}

#[test]
fn places_are_rendered_for_the_names_of_the_version() {
    assert_eq!(src_versions(&package(None, &[]), "1.0"), ["1.0", "v1.0"]);
    assert_eq!(src_versions(&package(Some("cli-"), &[]), "1.0"), ["cli-1.0"]);
}

#[test]
fn files_lie_below_the_installed_package() {
    let rendered = vec![
        places(&[Some("tool-1/bin/t"), Some("tool-v1/bin/t")]),
        places(&[None, Some("x")]),
    ];
    let found = match sources_of(&package(None, &["tool", "extra"]), rendered) {
        Ok(found) => found,
        Err(_) => panic!("the files have their places"),
    };
    let expected = vec![
        ("/i/tool-1/bin/t", "/i/tool-1/bin/tool"),
        ("/i/tool-v1/bin/t", "/i/tool-v1/bin/tool"),
        ("/i/x", "/i/extra"),
    ];
    assert_eq!(shown(&found), expected);
}

#[test]
fn a_place_counts_once() {
    let rendered = vec![places(&[Some("a"), Some("./a")]), places(&[Some("a"), Some("b")])];
    let found = match sources_of(&package(None, &["x", "y"]), rendered) {
        Ok(found) => found,
        Err(_) => panic!("the files have their places"),
    };
    assert_eq!(shown(&found), [("/i/a", "/i/x"), ("/i/b", "/i/y")]);
}

#[test]
fn a_place_that_cannot_be_rendered_is_an_error() {
    let rendered = vec![places(&[Some("a")]), Err("no template".to_string())];
    let r = sources_of(&package(None, &["x", "y"]), rendered);
    assert!(matches!(r, Err(SourcesError::Outside(err)) if err == "no template"));
}

#[test]
fn a_place_without_a_directory_is_an_error() {
    let r = sources_of(&package(None, &["x"]), vec![places(&[Some("/")])]);
    assert!(matches!(r, Err(SourcesError::NoParent)));
}

#[test]
fn programs_lie_in_the_directories_of_the_files() {
    let install_path = HostPath::new("/i");
    let sources = vec![
        source("/i/a/s", "/i/a/x"),
        source("/i/b/s", "/i/b/y"),
        source("/i/a/t", "/i/a//z"),
    ];
    let found = bin_dirs(&sources, &install_path).map(|found| texts(&found).join(" "));
    assert_eq!(found, Some("/i/a /i/b".to_string()));
    let alone = bin_dirs(&Vec::new(), &install_path).map(|found| texts(&found).join(" "));
    assert_eq!(alone, Some("/i".to_string()));
    assert!(bin_dirs(&vec![source("/i/a", "/")], &install_path).is_none());
}

#[test]
fn directories_that_are_there_are_kept_below_the_package() {
    let install_path = HostPath::new("/i");
    let all = dirs(&[("/i/a", true), ("/i/b", false), ("/i", true)]);
    match relative_bin_dirs(&all, &install_path) {
        Some(found) => assert_eq!(texts(&found), ["a", ""]),
        None => panic!("the directories lie below the package"),
    }
    assert!(relative_bin_dirs(&dirs(&[("/j", true)]), &install_path).is_none());
    assert!(relative_bin_dirs(&dirs(&[("/j", false)]), &install_path).is_some());
}
