use aqua_backend::package::{AquaPackage, AquaPackageType};
use aqua_backend::paths::HostPath;
use aqua_backend::release::{find_asset, release_asset, GithubAsset};
use aqua_backend::url::{
    download, get_url, github_archive_url, github_release_asset, unsupported_type_message,
    DownloadStep, UrlError, UrlStep,
};
use indexmap::IndexSet;

fn package(kind: AquaPackageType) -> AquaPackage {
    AquaPackage {
        kind,
        repo_owner: "cli".to_string(),
        repo_name: "tool".to_string(),
        name: None,
        path: None,
        description: None,
        version_prefix: None,
        version_source: None,
        no_asset: false,
        error_message: None,
        supported_envs: Vec::new(),
        files: Vec::new(),
        complete_windows_ext: false,
        checksum: None,
        minisign: None,
        slsa_provenance: None,
    }
}

fn asset(name: &str) -> GithubAsset {
    GithubAsset {
        name: name.to_string(),
        browser_download_url: format!("https://x.dev/{name}"),
    }
}

fn names(list: &[&str]) -> IndexSet<String> {
    list.iter().map(|name| name.to_string()).collect()
}

#[test]
fn the_first_asset_of_the_release_that_is_wanted_is_taken() {
    let assets = vec![asset("a.zip"), asset("b.tar.gz"), asset("c.zip")];
    let found = release_asset(&assets, &names(&["c.zip", "b.tar.gz"]));
    assert!(matches!(found, Ok(url) if url == "https://x.dev/b.tar.gz"));
    assert_eq!(find_asset(&assets, "c.zip"), Some("https://x.dev/c.zip".to_string()));
    assert_eq!(find_asset(&assets, "d.zip"), None);
}

#[test]
fn a_release_without_the_asset_says_what_it_has() {
    let assets = vec![asset("a.zip"), asset("b.zip")];
    match release_asset(&assets, &names(&["x.zip", "y.zip", "x.zip"])) {
        Ok(_) => panic!("there is no such asset"),
        Err(err) => {
            assert_eq!(err.wanted, ["x.zip", "y.zip"]);
            assert_eq!(
                err.message(),
                "no asset found: x.zip, y.zip\nAvailable assets:\na.zip\nb.zip"
            );
        }
    }
}

#[test]
fn archives_are_those_of_the_tag() {
    let url = "https://github.com/cli/tool/archive/refs/tags/v1.0.tar.gz";
    assert_eq!(github_archive_url(&package(AquaPackageType::GithubArchive), "v1.0"), url);
    for kind in [AquaPackageType::GithubArchive, AquaPackageType::GithubContent] {
        match get_url::<String>(&package(kind), "v1.0") {
            UrlStep::Finished(Ok(found)) => assert_eq!(found, (url.to_string(), false)),
            _ => panic!("the address is known"),
        }
    }
}

#[test]
fn assets_of_a_release_are_known_to_be_there() {
    let next = match get_url::<String>(&package(AquaPackageType::GithubRelease), "v1") {
        UrlStep::AssetNames { next } => next,
        _ => panic!("the names were not asked for"),
    };
    let next = match next.resume::<String>(Ok(names(&["a.zip"]))) {
        UrlStep::Release { repo, v, next } => {
            assert_eq!((repo.as_str(), v.as_str()), ("cli/tool", "v1"));
            next
        }
        _ => panic!("the release was not asked for"),
    };
    match next.resume::<String>(Ok(vec![asset("a.zip")])) {
        UrlStep::Finished(Ok(found)) => {
            assert_eq!(found, ("https://x.dev/a.zip".to_string(), true));
        }
        _ => panic!("the address is known"),
    }
}

#[test]
fn an_asset_that_is_not_there_is_an_error() {
    let pkg = package(AquaPackageType::GithubRelease);
    let next = match github_release_asset::<String>(&pkg, "v1", names(&["a.zip"])) {
        UrlStep::Release { repo, v, next } => {
            assert_eq!((repo.as_str(), v.as_str()), ("cli/tool", "v1"));
            next
        }
        _ => panic!("the release was not asked for"),
    };
    let step = next.resume::<String>(Ok(vec![asset("b.zip")]));
    assert!(matches!(step, UrlStep::Finished(Err(UrlError::AssetNotFound(_)))));
}

#[test]
fn addresses_of_their_own_are_rendered() {
    let next = match get_url::<String>(&package(AquaPackageType::Http), "v1") {
        UrlStep::Url { next } => next,
        _ => panic!("the address was not asked for"),
    };
    match next.resume::<String>(Ok("https://y.dev/t.zip".to_string())) {
        UrlStep::Finished(Ok(found)) => {
            assert_eq!(found, ("https://y.dev/t.zip".to_string(), false));
        }
        _ => panic!("the address is known"),
    }
}

#[test]
fn failures_outside_are_handed_on() {
    match get_url::<String>(&package(AquaPackageType::Http), "v1") {
        UrlStep::Url { next } => {
            let step = next.resume(Err("no template".to_string()));
            let outside = matches!(
                step,
                UrlStep::Finished(Err(UrlError::Outside(err))) if err == "no template"
            );
            assert!(outside);
        }
        _ => panic!("the address was not asked for"),
    }
    match get_url::<String>(&package(AquaPackageType::GithubRelease), "v1") {
        UrlStep::AssetNames { next } => {
            let step = next.resume(Err("no template".to_string()));
            assert!(matches!(step, UrlStep::Finished(Err(UrlError::Outside(_)))));
        }
        _ => panic!("the names were not asked for"),
    }
}

#[test]
fn other_packages_have_no_address() {
    match get_url::<String>(&package(AquaPackageType::Other("go_build".to_string())), "v1") {
        UrlStep::Finished(Err(UrlError::UnsupportedType(kind))) => {
            assert_eq!(kind, "go_build");
            assert_eq!(
                unsupported_type_message(&kind),
                "unsupported aqua package type: go_build"
            );
        }
        _ => panic!("the package has no address"),
    }
}

#[test]
fn a_file_that_is_there_is_not_downloaded_again() {
    match download::<String>(&HostPath::new("/d"), "https://x.dev/a.zip", "a.zip") {
        DownloadStep::Probe { next } => {
            assert_eq!(next.path.as_str(), "/d/a.zip");
            assert!(matches!(next.resume::<String>(true), DownloadStep::Finished(Ok(()))));
        }
        _ => panic!("the file was not looked for"),
    }
}

#[test]
fn a_file_that_is_not_there_is_downloaded() {
    match download::<String>(&HostPath::new("/d"), "https://x.dev/a.zip", "a.zip") {
        DownloadStep::Probe { next } => match next.resume::<String>(false) {
            DownloadStep::Fetch { message, url, path, next } => {
                assert_eq!(message, "download a.zip");
                assert_eq!(url, "https://x.dev/a.zip");
                assert_eq!(path.as_str(), "/d/a.zip");
                let step = next.resume(Err("offline".to_string()));
                assert!(matches!(step, DownloadStep::Finished(Err(err)) if err == "offline"));
            }
            _ => panic!("the file was not fetched"),
        },
        _ => panic!("the file was not looked for"),
    }
}
