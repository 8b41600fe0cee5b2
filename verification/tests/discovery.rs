use mac_k3d::config::DependencySource;
use mac_k3d::prepare::discovery::{
    default_entry, docker_tool, first_present, java_from_home, lolbench_candidates,
    select_checkouts, to_dependencies_config, version_flag, version_line, which,
    which_candidates, DiscoveredDeps, DiscoveredTool,
};
use mac_k3d::prepare::facts::PathFacts;
use mac_k3d::prepare::install::tool_to_entry;

#[test]
fn which_finds_common_tools_or_none() {
    let path: Option<&str> = Some("/opt/homebrew/bin:/usr/local/bin:/usr/bin");
    let _ = which("k3d", path, &PathFacts::new());
}

#[test]
fn which_takes_first_existing_directory() {
    let mut f = PathFacts::new();
    f.add_existing("/opt/homebrew/bin/k3d".to_string());
    f.add_existing("/usr/local/bin/k3d".to_string());
    assert_eq!(
        which("k3d", Some("/usr/bin:/usr/local/bin:/opt/homebrew/bin"), &f),
        Some("/usr/local/bin/k3d".to_string())
    );
    assert_eq!(which("k3d", None, &f), None);
    assert_eq!(which("helm", Some("/usr/bin"), &f), None);
    assert_eq!(which_candidates("/a:/b/", "x"), vec!["/a/x", "/b/x"]);
    assert_eq!(
        first_present(&vec!["/x".to_string(), "/y".to_string()], &f),
        None
    );
}

#[test]
fn describe_lists_known_parts() {
    let t = DiscoveredTool {
        binary: "/usr/local/bin/docker".to_string(),
        app: Some("/Applications/Docker.app".to_string()),
        version_hint: Some("Docker version 27.0".to_string()),
    };
    assert_eq!(
        t.describe(),
        "binary: /usr/local/bin/docker, app: /Applications/Docker.app, version: Docker version 27.0"
    );
    let u = DiscoveredTool { binary: "/bin/k3d".to_string(), app: None, version_hint: None };
    assert_eq!(u.describe(), "binary: /bin/k3d");
}

#[test]
fn found_tools_are_used_and_missing_ones_installed() {
    let t = DiscoveredTool { binary: "/bin/k3d".to_string(), app: None, version_hint: None };
    let e = default_entry(&Some(t.duplicate()));
    let f = tool_to_entry(&t);
    assert_eq!(e.source, DependencySource::Existing);
    assert_eq!(e.binary, f.binary);
    assert_eq!(e.app, f.app);
    let m = default_entry(&None);
    assert_eq!(m.source, DependencySource::Install);
    assert_eq!(m.binary, None);

    let mut deps = DiscoveredDeps::default();
    deps.kubectl = Some(t);
    let c = to_dependencies_config(&deps);
    assert_eq!(c.kubectl.binary.as_deref(), Some("/bin/k3d"));
    assert_eq!(c.docker.source, DependencySource::Install);
    assert!(deps.get("kubectl").is_some());
    assert!(deps.get("docker").is_none());
    assert!(deps.get("unknown").is_none());
}

#[test]
fn docker_found_from_bundle_or_cli() {
    assert!(docker_tool(false, None).is_none());
    let a = docker_tool(true, None).unwrap();
    assert_eq!(a.binary, "/usr/local/bin/docker");
    assert_eq!(a.app.as_deref(), Some("/Applications/Docker.app"));
    let b = docker_tool(false, Some("/opt/homebrew/bin/docker".to_string())).unwrap();
    assert_eq!(b.binary, "/opt/homebrew/bin/docker");
    assert_eq!(b.app, None);
}

#[test]
fn version_flags_and_lines() {
    assert_eq!(version_flag("docker"), "--version");
    assert_eq!(version_flag("java"), "--version");
    assert_eq!(version_flag("harbor"), "--version");
    assert_eq!(version_flag("k3d"), "version");
    assert_eq!(version_line("k3d version v5.7.4\r\nk3s version v1.30\n", ""), Some("k3d version v5.7.4".to_string()));
    assert_eq!(version_line("", "  openjdk 21  \nmore"), Some("openjdk 21".to_string()));
    assert_eq!(version_line("", ""), None);
}

#[test]
fn java_from_java_home() {
    let t = java_from_home("/Library/Java/Home\n", true).unwrap();
    assert_eq!(t.binary, "/Library/Java/Home/bin/java");
    assert_eq!(t.version_hint.as_deref(), Some("/Library/Java/Home"));
    assert!(java_from_home("/x", false).is_none());
}

#[test]
fn lolbench_checkouts_are_unique() {
    let c = lolbench_candidates(Some("/Users/ci"), &vec!["/Volumes/A".to_string()]);
    assert_eq!(
        c,
        vec![
            "/Users/ci/github/LoLBench-Preview",
            "/Users/ci/src/LoLBench-Preview",
            "/Users/ci/LoLBench-Preview",
            "/Volumes/A/github/LoLBench-Preview"
        ]
    );
    let cands = vec!["/a".to_string(), "/b".to_string(), "/a".to_string(), "/c".to_string()];
    assert_eq!(select_checkouts(&cands, &vec![true, false, true, true]), vec!["/a", "/c"]);
}
