use mac_k3d::prepare::discovery::{discover_all, scan_probe_paths, scanned_tool_names, VersionFacts};
use mac_k3d::prepare::facts::PathFacts;
use mac_k3d::prepare::install::{install_commands, installed_entry, record_installed};
use mac_k3d::config::DependenciesConfig;
use mac_k3d::config::DependencySource;
use mac_k3d::Error;

fn known(paths: &[&str]) -> PathFacts {
    let mut f = PathFacts::new();
    for p in paths {
        f.add_existing(p.to_string());
    }
    f
}

const PATH: &str = "/usr/bin:/opt/homebrew/bin";

#[test]
fn scan_reads_path_versions_and_java_home() {
    let facts = known(&[
        "/opt/homebrew/bin/k3d",
        "/opt/homebrew/bin/kubectl",
        "/usr/bin/uv",
        "/Applications/Docker.app",
        "/opt/homebrew/bin/docker",
        "/Library/Java/jdk/Contents/Home/bin/java",
    ]);
    let versions = VersionFacts {
        binaries: vec!["/opt/homebrew/bin/k3d".to_string()],
        lines: vec!["k3d version v5.7.4".to_string()],
    };
    let deps = discover_all(Some(PATH), &facts, &versions, Some("/Library/Java/jdk/Contents/Home\n"));
    let k3d = deps.k3d.unwrap();
    assert_eq!(k3d.binary, "/opt/homebrew/bin/k3d");
    assert_eq!(k3d.version_hint.as_deref(), Some("k3d version v5.7.4"));
    assert!(deps.kubectl.unwrap().version_hint.is_none());
    assert!(deps.helm.is_none());
    assert!(deps.harbor.is_none());
    assert!(deps.pipx.is_none());
    assert_eq!(deps.uv.unwrap().binary, "/usr/bin/uv");
    let docker = deps.docker.unwrap();
    assert_eq!(docker.binary, "/opt/homebrew/bin/docker");
    assert_eq!(docker.app.as_deref(), Some("/Applications/Docker.app"));
    let java = deps.java.unwrap();
    assert_eq!(java.binary, "/Library/Java/jdk/Contents/Home/bin/java");
    assert_eq!(java.version_hint.as_deref(), Some("/Library/Java/jdk/Contents/Home"));
}

#[test]
fn empty_system_finds_nothing() {
    let deps = discover_all(None, &PathFacts::new(), &VersionFacts::new(), None);
    assert!(deps.docker.is_none() && deps.k3d.is_none() && deps.java.is_none());
    let bundle_only = known(&["/Applications/Docker.app"]);
    let deps = discover_all(None, &bundle_only, &VersionFacts::new(), Some("/jdk"));
    assert_eq!(deps.docker.unwrap().binary, "/usr/local/bin/docker");
    assert!(deps.java.is_none());
}

#[test]
fn probe_paths_cover_every_tool() {
    let p = scan_probe_paths(Some("/a:/b"));
    assert_eq!(p.len(), 9 * 2 + 3);
    assert_eq!(p[0], "/a/docker");
    assert_eq!(p[1], "/b/docker");
    assert_eq!(p[17], "/b/brew");
    assert_eq!(p[20], "/Applications/Docker.app");
    assert_eq!(scan_probe_paths(None).len(), 3);
    assert_eq!(scanned_tool_names().len(), 8);
}

#[test]
fn version_lookup_takes_first_record() {
    let v = VersionFacts {
        binaries: vec!["/x".to_string(), "/x".to_string()],
        lines: vec!["one".to_string(), "two".to_string()],
    };
    assert_eq!(v.lookup("/x").as_deref(), Some("one"));
    assert_eq!(v.lookup("/y"), None);
}

#[test]
fn install_plans() {
    let brew = known(&["/opt/homebrew/bin/brew"]);
    let c = install_commands("k3d", Some(PATH), &brew).unwrap();
    assert_eq!(c.len(), 1);
    assert_eq!(c[0].program, "brew");
    assert_eq!(c[0].args, vec!["install", "k3d"]);
    let c = install_commands("docker", Some(PATH), &brew).unwrap();
    assert_eq!(c[0].args, vec!["install", "--cask", "docker"]);
    match install_commands("helm", Some(PATH), &PathFacts::new()) {
        Err(Error::DependencyMissing(m)) => assert_eq!(m, "Homebrew not found; install helm manually"),
        _ => panic!("expected a missing Homebrew"),
    }
    match install_commands("terraform", Some(PATH), &brew) {
        Err(Error::Config(m)) => assert_eq!(m, "unknown dependency for install: terraform"),
        _ => panic!("expected an unknown dependency"),
    }
    let c = install_commands("harbor", Some(PATH), &brew).unwrap();
    assert_eq!(c.len(), 2);
    assert_eq!(c[0].args, vec!["install", "uv"]);
    assert_eq!(c[1].program, "uv");
    let c = install_commands("harbor", Some(PATH), &known(&["/usr/bin/pipx"])).unwrap();
    assert_eq!(c[0].program, "pipx");
    let c = install_commands("harbor", Some(PATH), &known(&["/usr/bin/uv", "/usr/bin/pipx"])).unwrap();
    assert_eq!(c[0].args, vec!["tool", "install", "harbor"]);
    match install_commands("harbor", None, &brew) {
        Err(Error::DependencyMissing(m)) => assert_eq!(m, "harbor: need uv, pipx, or Homebrew to install"),
        _ => panic!("expected no installer"),
    }
}

#[test]
fn entry_after_install() {
    let facts = known(&["/opt/homebrew/bin/helm"]);
    let deps = discover_all(Some(PATH), &facts, &VersionFacts::new(), None);
    let e = installed_entry("helm", &deps).unwrap();
    assert_eq!(e.source, DependencySource::Existing);
    assert_eq!(e.binary.as_deref(), Some("/opt/homebrew/bin/helm"));
    match installed_entry("k3d", &deps) {
        Err(Error::DependencyMissing(m)) => assert_eq!(m, "k3d installed but binary not found on PATH"),
        _ => panic!("expected a missing binary"),
    }
}

#[test]
fn recorded_installs_leave_nothing_pending() {
    let facts = known(&["/opt/homebrew/bin/helm", "/opt/homebrew/bin/k3d"]);
    let scan = discover_all(Some(PATH), &facts, &VersionFacts::new(), None);
    let mut deps = DependenciesConfig::default();
    record_installed(&mut deps, "helm", &scan).unwrap();
    record_installed(&mut deps, "k3d", &scan).unwrap();
    assert_eq!(deps.helm.binary.as_deref(), Some("/opt/homebrew/bin/helm"));
    assert_eq!(deps.k3d.source, DependencySource::Existing);
    assert_eq!(mac_k3d::prepare::wizard::pending_installs(&deps), vec!["docker", "kubectl"]);
    match record_installed(&mut deps, "docker", &scan) {
        Err(Error::DependencyMissing(m)) => assert_eq!(m, "docker installed but binary not found on PATH"),
        _ => panic!("expected a missing binary"),
    }
    assert_eq!(deps.docker.source, DependencySource::Install);
}
