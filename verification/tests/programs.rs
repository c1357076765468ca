use aqua_backend::package::{AquaFile, AquaPackage, AquaPackageType};
use aqua_backend::paths::HostPath;
use aqua_backend::programs::{list_bin_paths, BinPathsError, BinPathsStep};

fn package(files: &[&str]) -> AquaPackage {
    AquaPackage {
        kind: AquaPackageType::GithubRelease,
        repo_owner: "cli".to_string(),
        repo_name: "tool".to_string(),
        name: None,
        path: None,
        description: None,
        version_prefix: None,
        version_source: None,
        no_asset: false,
        error_message: None,
        supported_envs: Vec::new(),
        files: files.iter().map(|name| AquaFile { name: name.to_string() }).collect(),
        complete_windows_ext: false,
        checksum: None,
        minisign: None,
        slsa_provenance: None,
    }
}

/// Lists the directories of version 1 in `/i`, whose files lie at these places, and what is asked for.
fn listed(
    pkg: &AquaPackage,
    places: &[&str],
    missing: &str,
    known: Option<Vec<HostPath>>,
) -> (Vec<String>, Result<Vec<String>, BinPathsError<String>>) {
    let mut asked = Vec::new();
    let mut step = list_bin_paths::<String>("1", &HostPath::new("/i"), known);
    loop {
        step = match step {
            BinPathsStep::Package { versions, next } => {
                asked.push(format!("package {}", versions.join(" ")));
                next.resume(Ok(pkg))
            }
            BinPathsStep::Place { file, versions, next } => {
                asked.push(format!("place {file} for {}", versions.join(" ")));
                next.resume(Ok(vec![Some(places[file].to_string())]))
            }
            BinPathsStep::Probe { next } => {
                asked.push(format!("probe {}", next.dir.as_str()));
                let there = next.dir.as_str() != missing;
                next.resume(there)
            }
            BinPathsStep::Finished(outcome) => {
                let shown =
                    outcome.map(|dirs| dirs.iter().map(|dir| dir.as_str().to_string()).collect());
                return (asked, shown);
            }
        };
    }
}

#[test]
fn programs_lie_in_the_directories_that_are_there() {
    let pkg = package(&["a", "b", "c"]);
    let (asked, found) = listed(&pkg, &["bin/x", "lib/y", "bin/z"], "/i/lib", None);
    let expected = [
        "package 1",
        "place 0 for 1 v1",
        "place 1 for 1 v1",
        "place 2 for 1 v1",
        "probe /i/bin",
        "probe /i/lib",
    ];
    assert_eq!(asked, expected);
    assert!(matches!(found, Ok(dirs) if dirs == ["bin"]));
}

#[test]
fn a_package_without_files_has_its_own_directory() {
    let (asked, found) = listed(&package(&[]), &[], "", None);
    assert_eq!(asked, ["package 1", "probe /i"]);
    assert!(matches!(found, Ok(dirs) if dirs == [""]));
}

#[test]
fn what_is_known_is_told_without_asking() {
    let pkg = package(&["a"]);
    let (_, found) = listed(&pkg, &["bin/x"], "", None);
    let told: Vec<HostPath> = match &found {
        Ok(dirs) => dirs.iter().map(|dir| HostPath::new(dir)).collect(),
        Err(_) => panic!("the directories are known"),
    };
    let (asked, again) = listed(&package(&["b"]), &["other/x"], "", Some(told));
    assert!(asked.is_empty());
    assert!(matches!(again, Ok(dirs) if dirs == ["bin"]));
}

#[test]
fn a_version_that_cannot_be_looked_up_has_no_listing() {
    match list_bin_paths::<String>("1", &HostPath::new("/i"), None) {
        BinPathsStep::Package { next, .. } => {
            let step = next.resume(Err("offline".to_string()));
            let failed = matches!(
                step,
                BinPathsStep::Finished(Err(BinPathsError::Outside(err))) if err == "offline"
            );
            assert!(failed);
        }
        _ => panic!("the registry was not asked"),
    }
}

#[test]
fn files_must_lie_in_directories_below_the_version() {
    let pkg = package(&["a"]);
    let (_, found) = listed(&pkg, &["/"], "", None);
    assert!(matches!(found, Err(BinPathsError::NoParent)));
    let (_, found) = listed(&pkg, &["/elsewhere/x"], "", None);
    assert!(matches!(found, Err(BinPathsError::NotBelow)));
    let (_, found) = listed(&pkg, &["/elsewhere/x"], "/elsewhere", None);
    assert!(matches!(found, Ok(dirs) if dirs.is_empty()));
}
