use mac_k3d::cli::JenkinsMode;
use mac_k3d::config::{
    default_ports, DependenciesConfig, DependencyEntry, DependencySource, NodeRole, PortMapping,
    StorageConfig,
};
use mac_k3d::platform::ensure_macos;
use mac_k3d::{Error, MacK3dConfig};

#[test]
fn defaults() {
    let c = MacK3dConfig::default();
    assert_eq!(c.role, NodeRole::Standalone);
    assert_eq!(c.cluster.name, "mac-k3d");
    assert_eq!(c.cluster.agents, 0);
    assert_eq!(
        c.cluster.ports,
        vec![PortMapping { host: 8080, container: 80 }, PortMapping { host: 8443, container: 443 }]
    );
    assert_eq!(default_ports().len(), 2);
    assert!(!c.jenkins.enabled);
    assert_eq!(c.jenkins.namespace, "jenkins");
    assert_eq!(c.jenkins.release_name, "jenkins");
    assert_eq!(c.jenkins.host_port, 9080);
    assert_eq!(c.docker.startup_timeout_secs, 120);
    assert!(c.storage.base_dir.is_none());
    assert_eq!(c.dependencies.helm.source, DependencySource::Install);
}

#[test]
fn storage_resolution() {
    let mut s = StorageConfig::default();
    assert_eq!(s.docker_dir(), None);
    s.base_dir = Some("/Volumes/Data/mac-k3d".to_string());
    assert_eq!(s.docker_dir(), Some("/Volumes/Data/mac-k3d/docker".to_string()));
    assert_eq!(s.k3d_dir(), Some("/Volumes/Data/mac-k3d/k3d".to_string()));
    assert_eq!(s.jenkins_dir(), Some("/Volumes/Data/mac-k3d/jenkins".to_string()));
    assert_eq!(s.downloads_dir(), Some("/Volumes/Data/mac-k3d/downloads".to_string()));
    s.k3d = Some("/fast/k3d".to_string());
    assert_eq!(s.k3d_dir(), Some("/fast/k3d".to_string()));
    assert_eq!(s.resolve("x", &None), Some("/Volumes/Data/mac-k3d/x".to_string()));
}

#[test]
fn config_locations() {
    assert_eq!(MacK3dConfig::config_dir(Some("/Users/ci")), "/Users/ci/.config/mac-k3d");
    assert_eq!(MacK3dConfig::config_dir(None), ".mac-k3d");
    assert_eq!(
        MacK3dConfig::default_config_path(Some("/Users/ci")),
        "/Users/ci/.config/mac-k3d/config.yaml"
    );
    assert_eq!(MacK3dConfig::state_dir(Some("/Users/ci")), "/Users/ci/.local/state/mac-k3d");
    assert_eq!(MacK3dConfig::config_file(Some("/tmp/x.yaml"), Some("/Users/ci")), "/tmp/x.yaml");
    assert_eq!(
        MacK3dConfig::config_file(None, Some("/Users/ci")),
        "/Users/ci/.config/mac-k3d/config.yaml"
    );
}

#[test]
fn jenkins_flag_overrides_one_run() {
    let mut c = MacK3dConfig::default();
    c.apply_jenkins_mode(JenkinsMode::InCluster);
    assert!(c.jenkins.enabled);
    assert_eq!(c.cluster.name, "mac-k3d");
    c.apply_jenkins_mode(JenkinsMode::Skip);
    assert!(!c.jenkins.enabled);
}

#[test]
fn set_replaces_one_entry() {
    let mut d = DependenciesConfig::default();
    let e = DependencyEntry {
        source: DependencySource::Existing,
        binary: Some("/opt/homebrew/bin/k3d".to_string()),
        app: None,
    };
    d.set("k3d", e);
    assert_eq!(d.k3d.source, DependencySource::Existing);
    assert_eq!(d.k3d.binary.as_deref(), Some("/opt/homebrew/bin/k3d"));
    assert_eq!(d.docker.source, DependencySource::Install);
    d.set("unknown", DependencyEntry { source: DependencySource::Skip, binary: None, app: None });
    assert_eq!(d.helm.source, DependencySource::Install);
    let names: Vec<&str> = d.entries().iter().map(|(n, _)| *n).collect();
    assert_eq!(names, vec!["docker", "k3d", "kubectl", "helm"]);
    let copy = d.k3d.duplicate();
    assert_eq!(copy.binary, d.k3d.binary);
}

#[test]
fn macos_only() {
    assert!(ensure_macos(true).is_ok());
    let e = ensure_macos(false).unwrap_err();
    assert!(matches!(e, Error::UnsupportedPlatform));
    assert_eq!(e.to_string(), "mac-k3d supports macOS only");
}

#[test]
fn error_messages() {
    assert_eq!(Error::Config("bad".to_string()).to_string(), "configuration error: bad");
    assert_eq!(Error::Validation("x; y".to_string()).to_string(), "validation failed: x; y");
    assert_eq!(Error::DependencyMissing("helm".to_string()).to_string(), "missing dependency: helm");
    assert_eq!(
        Error::CommandFailed { cmd: "k3d cluster list".to_string(), source: "exit 1".to_string() }
            .to_string(),
        "command `k3d cluster list` failed: exit 1"
    );
}
