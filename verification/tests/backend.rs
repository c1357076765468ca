use aqua_backend::backend::{
    bin_paths_cache, description, AquaBackend, BackendArg, BackendType, RegistryTool,
};
use aqua_backend::command::CommandLine;
use aqua_backend::package::{AquaPackage, AquaPackageType};
use aqua_backend::paths::HostPath;

fn arg(full: &str) -> BackendArg {
    BackendArg {
        tool_name: "tool".to_string(),
        full: full.to_string(),
        cache_path: HostPath::new("/c"),
    }
}

fn registry() -> Vec<RegistryTool> {
    vec![
        RegistryTool { short: "plain".to_string(), backends: vec!["asdf:x/y".to_string()] },
        RegistryTool {
            short: "gh".to_string(),
            backends: vec!["ubi:cli/cli".to_string(), "aqua:cli/cli".to_string()],
        },
    ]
}

#[test]
fn packages_are_named_by_owner_and_name() {
    let (backend, known) = AquaBackend::from_arg(arg("aqua:BurntSushi/ripgrep"), &registry());
    assert_eq!(backend.id, "BurntSushi/ripgrep");
    assert!(known);
    let (backend, known) = AquaBackend::from_arg(arg("BurntSushi/ripgrep"), &registry());
    assert_eq!(backend.id, "BurntSushi/ripgrep");
    assert!(known);
}

#[test]
fn short_names_are_those_of_the_registry() {
    let (backend, known) = AquaBackend::from_arg(arg("aqua:gh"), &registry());
    assert_eq!(backend.id, "cli/cli");
    assert!(known);
}

#[test]
fn unknown_short_names_stay_as_they_are() {
    for name in ["plain", "nothing"] {
        let (backend, known) = AquaBackend::from_arg(arg(&format!("aqua:{name}")), &registry());
        assert_eq!(backend.id, name);
        assert!(!known);
    }
}

#[test]
fn a_backend_keeps_what_it_was_made_with() {
    let (backend, _) = AquaBackend::from_arg(arg("aqua:a/b"), &registry());
    assert_eq!(backend.ba().full, "aqua:a/b");
    assert!(matches!(backend.get_type(), BackendType::Aqua));
    assert_eq!(backend.get_optional_dependencies(), ["cosign", "slsa-verifier"]);
    assert_eq!(backend.version_tags_cache.as_str(), "/c/version_tags.msgpack.z");
    assert_eq!(bin_paths_cache(&HostPath::new("/c/1.0")).as_str(), "/c/1.0/bin_paths.msgpack.z");
}

#[test]
fn a_tool_is_described_by_its_package() {
    let pkg = AquaPackage {
        kind: AquaPackageType::Http,
        repo_owner: String::new(),
        repo_name: String::new(),
        name: None,
        path: None,
        description: Some("a tool".to_string()),
        version_prefix: None,
        version_source: None,
        no_asset: false,
        error_message: None,
        supported_envs: Vec::new(),
        files: Vec::new(),
        complete_windows_ext: false,
        checksum: None,
        minisign: None,
        slsa_provenance: None,
    };
    assert_eq!(description::<String>(Ok(pkg)), Some("a tool".to_string()));
    assert_eq!(description::<String>(Err("offline".to_string())), None);
}

#[test]
fn commands_keep_the_order_of_their_arguments() {
    let more = vec!["b".to_string(), "c".to_string()];
    let command = CommandLine::new("p".to_string()).arg("a").args(&more).env("K", "v");
    assert_eq!(command.program, "p");
    assert_eq!(command.args, ["a", "b", "c"]);
    assert_eq!(command.envs, [("K".to_string(), "v".to_string())]);
}
