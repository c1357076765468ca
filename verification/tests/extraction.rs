use aqua_backend::extraction::{
    install, unpack, unsupported_format_message, ExtractError, ExtractStep, FileOp,
};
use aqua_backend::package::{AquaFile, AquaPackage, AquaPackageType};
use aqua_backend::paths::HostPath;
use aqua_backend::platform::Target;

fn target(windows: bool) -> Target {
    Target {
        target_os: if windows { "windows" } else { "linux" }.to_string(),
        target_arch: "x86_64".to_string(),
        os_name: if windows { "windows" } else { "linux" }.to_string(),
        arch_name: "amd64".to_string(),
        windows,
    }
}

fn package(kind: AquaPackageType, files: &[&str]) -> AquaPackage {
    AquaPackage {
        kind,
        repo_owner: "cli".to_string(),
        repo_name: "repo".to_string(),
        name: None,
        path: None,
        description: None,
        version_prefix: None,
        version_source: None,
        no_asset: false,
        error_message: None,
        supported_envs: Vec::new(),
        files: files.iter().map(|name| AquaFile { name: name.to_string() }).collect(),
        complete_windows_ext: true,
        checksum: None,
        minisign: None,
        slsa_provenance: None,
    }
}

fn shown(op: &FileOp) -> String {
    match op {
        FileOp::CreateDir { path } => format!("mkdir {}", path.as_str()),
        FileOp::Copy { from, to } => format!("cp {} {}", from.as_str(), to.as_str()),
        FileOp::MakeExecutable { path } => format!("chmod {}", path.as_str()),
        FileOp::Untar { archive, to, format, strip_components } => {
            let (archive, to) = (archive.as_str(), to.as_str());
            format!("{format} {archive} {to} {strip_components}")
        }
        FileOp::Unzip { archive, to } => format!("unzip {} {}", archive.as_str(), to.as_str()),
        FileOp::UnGz { archive, to } => format!("ungz {} {}", archive.as_str(), to.as_str()),
        FileOp::UnXz { archive, to } => format!("unxz {} {}", archive.as_str(), to.as_str()),
        FileOp::UnZst { archive, to } => format!("unzst {} {}", archive.as_str(), to.as_str()),
        FileOp::UnBz2 { archive, to } => format!("unbz2 {} {}", archive.as_str(), to.as_str()),
        FileOp::UnDmg { archive, to } => format!("undmg {} {}", archive.as_str(), to.as_str()),
        FileOp::UnPkg { archive, to } => format!("unpkg {} {}", archive.as_str(), to.as_str()),
        FileOp::Symlink { target, link } => format!("ln {} {}", target.as_str(), link.as_str()),
    }
}

fn unpacked(pkg: &AquaPackage, windows: bool, format: &str) -> Vec<String> {
    let (archive, install_path) = (HostPath::new("/d/a"), HostPath::new("/i"));
    match unpack(pkg, &target(windows), format, &archive, &install_path) {
        Some(ops) => ops.iter().map(shown).collect(),
        None => panic!("the format is supported"),
    }
}

/// Runs an extraction in which nothing fails, and lists what is done.
fn extracted(
    pkg: &AquaPackage,
    windows: bool,
    place: &str,
    src_there: bool,
    dst_there: bool,
) -> (Vec<String>, Result<(), ExtractError<String>>) {
    let target = target(windows);
    let (install_path, download_path) = (HostPath::new("/i"), HostPath::new("/d"));
    let mut done = Vec::new();
    let mut step =
        install::<String>(pkg, &target, "1", "v1", "a.zip", &install_path, &download_path);
    loop {
        step = match step {
            ExtractStep::Remove { message, path, next } => {
                done.push(message);
                done.push(format!("rm {}", path.as_str()));
                next.resume(Ok(()))
            }
            ExtractStep::Format { next } => next.resume(Ok("zip".to_string())),
            ExtractStep::Unpack { op, next } => {
                done.push(shown(&op));
                next.resume(Ok(()))
            }
            ExtractStep::Place { file, versions, next } => {
                done.push(format!("place {file} for {}", versions.join(" ")));
                next.resume(Ok(vec![Some(place.to_string())]))
            }
            ExtractStep::Probe { next } => next.resume(src_there, dst_there),
            ExtractStep::Link { op, next } => {
                done.push(shown(&op));
                next.resume(Ok(()))
            }
            ExtractStep::Finished(end) => return (done, end),
        };
    }
}

#[test]
fn archives_of_a_repository_are_untarred() {
    let archive = package(AquaPackageType::GithubArchive, &[]);
    assert_eq!(unpacked(&archive, false, "raw"), ["raw /d/a /i 0"]);
    let content = package(AquaPackageType::GithubContent, &[]);
    assert_eq!(unpacked(&content, false, "zip"), ["zip /d/a /i 1"]);
}

#[test]
fn archives_are_unpacked_by_their_format() {
    let pkg = package(AquaPackageType::GithubRelease, &["tool"]);
    assert_eq!(unpacked(&pkg, false, "tar.gz"), ["tar.gz /d/a /i 0"]);
    assert_eq!(unpacked(&pkg, false, "zip"), ["unzip /d/a /i"]);
    assert_eq!(unpacked(&pkg, false, "dmg"), ["undmg /d/a /i"]);
    assert_eq!(unpacked(&pkg, false, "pkg"), ["unpkg /d/a /i"]);
}

#[test]
fn packed_programs_are_made_executable() {
    let pkg = package(AquaPackageType::GithubRelease, &["tool", "other"]);
    for (format, op) in [("gz", "ungz"), ("xz", "unxz"), ("zst", "unzst"), ("bz2", "unbz2")] {
        let expected =
            ["mkdir /i".to_string(), format!("{op} /d/a /i/tool"), "chmod /i/tool".to_string()];
        assert_eq!(unpacked(&pkg, false, format), expected);
    }
    let raw = ["mkdir /i", "cp /d/a /i/tool", "chmod /i/tool"];
    assert_eq!(unpacked(&pkg, false, "raw"), raw);
}

#[test]
fn programs_have_the_name_of_the_file_the_package_or_the_repository() {
    let mut pkg = package(AquaPackageType::Http, &[]);
    assert_eq!(unpacked(&pkg, false, "raw")[2], "chmod /i/repo");
    pkg.name = Some("owner/nested/named".to_string());
    assert_eq!(unpacked(&pkg, false, "raw")[2], "chmod /i/named");
}

#[test]
fn programs_of_windows_get_an_extension() {
    let mut pkg = package(AquaPackageType::Http, &["tool.bin"]);
    assert_eq!(unpacked(&pkg, true, "raw")[2], "chmod /i/tool.exe");
    pkg.complete_windows_ext = false;
    assert_eq!(unpacked(&pkg, true, "raw")[2], "chmod /i/tool.bin");
}

#[test]
fn other_formats_are_not_supported() {
    let pkg = package(AquaPackageType::GithubRelease, &["tool"]);
    let (archive, install_path) = (HostPath::new("/d/a"), HostPath::new("/i"));
    assert!(unpack(&pkg, &target(false), "rar", &archive, &install_path).is_none());
    assert_eq!(unsupported_format_message("rar"), "unsupported format: rar");
    let target = target(false);
    let step = install::<String>(&pkg, &target, "1", "v1", "a.rar", &install_path, &archive);
    let next = match step {
        ExtractStep::Remove { next, .. } => next,
        _ => panic!("nothing was removed"),
    };
    match next.resume::<String>(Ok(())) {
        ExtractStep::Format { next } => {
            let step = next.resume::<String>(Ok("rar".to_string()));
            let refused = matches!(
                step,
                ExtractStep::Finished(Err(ExtractError::UnsupportedFormat(format))) if format == "rar"
            );
            assert!(refused);
        }
        _ => panic!("the format was not asked for"),
    }
}

#[test]
fn files_get_their_names() {
    let pkg = package(AquaPackageType::GithubRelease, &["tool"]);
    let (done, end) = extracted(&pkg, false, "bin/tool-linux", true, false);
    let expected = [
        "extract a.zip",
        "rm /i",
        "unzip /d/a.zip /i",
        "place 0 for 1 v1",
        "ln ./tool-linux /i/bin/tool",
    ];
    assert_eq!(done, expected);
    assert!(end.is_ok());
    let (done, _) = extracted(&pkg, true, "bin/tool-win", true, false);
    assert_eq!(done[4], "cp /i/bin/tool-win /i/bin/tool");
}

#[test]
fn files_that_have_their_names_are_left_alone() {
    let pkg = package(AquaPackageType::GithubRelease, &["tool"]);
    for (place, src_there, dst_there) in
        [("bin/tool", true, false), ("bin/x", false, false), ("bin/x", true, true)]
    {
        let (done, end) = extracted(&pkg, false, place, src_there, dst_there);
        assert_eq!(done.len(), 4);
        assert!(end.is_ok());
    }
}

#[test]
fn files_need_a_directory_and_a_name() {
    let pkg = package(AquaPackageType::GithubRelease, &["tool"]);
    let (_, end) = extracted(&pkg, false, "/", true, false);
    assert!(matches!(end, Err(ExtractError::NoParent)));
    let (_, end) = extracted(&pkg, false, "bin/..", true, false);
    assert!(matches!(end, Err(ExtractError::NoFileName)));
}

#[test]
fn failures_end_the_extraction() {
    let pkg = package(AquaPackageType::GithubRelease, &["tool"]);
    let target = target(false);
    let (install_path, download_path) = (HostPath::new("/i"), HostPath::new("/d"));
    match install::<String>(&pkg, &target, "1", "v1", "a.zip", &install_path, &download_path) {
        ExtractStep::Remove { next, .. } => {
            let step = next.resume(Err("busy".to_string()));
            let busy = matches!(
                step,
                ExtractStep::Finished(Err(ExtractError::Outside(err))) if err == "busy"
            );
            assert!(busy);
        }
        _ => panic!("nothing was removed"),
    }
}

#[test]
fn each_file_is_placed_in_its_turn() {
    let pkg = package(AquaPackageType::GithubRelease, &["a", "b"]);
    let (done, end) = extracted(&pkg, false, "bin/x", true, false);
    assert_eq!(&done[3..], ["place 0 for 1 v1", "place 1 for 1 v1", "ln ./x /i/bin/a"]);
    assert!(end.is_ok());
    let (done, end) = extracted(&package(AquaPackageType::Http, &[]), false, "x", true, false);
    assert_eq!(done.len(), 3);
    assert!(end.is_ok());
}
