use mac_k3d::config::{DependencyEntry, DependencySource, MacK3dConfig};
use mac_k3d::prepare::facts::PathFacts;
use mac_k3d::prepare::{probe_paths, required_dependencies, validate};
use mac_k3d::Error;

fn existing(bin: &str) -> DependencyEntry {
    DependencyEntry { source: DependencySource::Existing, binary: Some(bin.to_string()), app: None }
}

fn facts_with(paths: &[&str]) -> PathFacts {
    let mut f = PathFacts::new();
    for p in paths {
        f.add_existing(p.to_string());
    }
    f
}

#[test]
fn validate_default_config_flags_install() {
    let config = MacK3dConfig::default();
    let err = validate(&config, &PathFacts::new()).unwrap_err();
    assert!(err.to_string().contains("validation failed"));
}

#[test]
fn validate_default_config_lists_each_problem() {
    let config = MacK3dConfig::default();
    match validate(&config, &PathFacts::new()) {
        Err(Error::Validation(m)) => assert_eq!(
            m,
            "docker is marked for install; run `mac-k3d prepare` to install; \
k3d is marked for install; run `mac-k3d prepare` to install; \
kubectl is marked for install; run `mac-k3d prepare` to install"
        ),
        other => panic!("unexpected {:?}", other),
    }
}

fn good_config() -> MacK3dConfig {
    let mut c = MacK3dConfig::default();
    c.dependencies.docker = existing("/usr/local/bin/docker");
    c.dependencies.k3d = existing("/opt/homebrew/bin/k3d");
    c.dependencies.kubectl = existing("/opt/homebrew/bin/kubectl");
    c
}

#[test]
fn validate_passes_when_binaries_exist() {
    let c = good_config();
    let f = facts_with(&["/usr/local/bin/docker", "/opt/homebrew/bin/k3d", "/opt/homebrew/bin/kubectl"]);
    assert!(validate(&c, &f).is_ok());
}

#[test]
fn validate_reports_missing_binary_and_bad_name() {
    let mut c = good_config();
    c.cluster.name = "Bad_Name".to_string();
    let f = facts_with(&["/usr/local/bin/docker", "/opt/homebrew/bin/k3d"]);
    match validate(&c, &f) {
        Err(Error::Validation(m)) => assert_eq!(
            m,
            "kubectl binary not found: /opt/homebrew/bin/kubectl; \
invalid cluster name 'Bad_Name': use lowercase letters, digits, and hyphens"
        ),
        other => panic!("unexpected {:?}", other),
    }
}

#[test]
fn validate_helm_required_only_with_jenkins() {
    let mut c = good_config();
    let f = facts_with(&["/usr/local/bin/docker", "/opt/homebrew/bin/k3d", "/opt/homebrew/bin/kubectl"]);
    c.dependencies.helm = DependencyEntry { source: DependencySource::Skip, binary: None, app: None };
    assert!(validate(&c, &f).is_ok());
    c.jenkins.enabled = true;
    match validate(&c, &f) {
        Err(Error::Validation(m)) => assert_eq!(m, "helm is required but set to skip"),
        other => panic!("unexpected {:?}", other),
    }
}

#[test]
fn validate_storage_and_docker_app() {
    let mut c = good_config();
    c.storage.base_dir = Some("/Volumes/Data/mac-k3d".to_string());
    c.dependencies.docker.app = Some("/Applications/Docker.app".to_string());
    c.dependencies.kubectl = DependencyEntry { source: DependencySource::Existing, binary: None, app: None };
    let f = facts_with(&["/usr/local/bin/docker", "/opt/homebrew/bin/k3d", "/Volumes/Data/mac-k3d"]);
    match validate(&c, &f) {
        Err(Error::Validation(m)) => assert_eq!(
            m,
            "storage base_dir not writable: /Volumes/Data/mac-k3d; \
Docker.app not found: /Applications/Docker.app; \
kubectl has source=existing but no binary path"
        ),
        other => panic!("unexpected {:?}", other),
    }
    let mut f2 = facts_with(&["/usr/local/bin/docker", "/opt/homebrew/bin/k3d", "/Volumes/Data/mac-k3d", "/Applications/Docker.app"]);
    f2.add_writable("/Volumes/Data/mac-k3d".to_string());
    match validate(&c, &f2) {
        Err(Error::Validation(m)) => assert_eq!(m, "kubectl has source=existing but no binary path"),
        other => panic!("unexpected {:?}", other),
    }
}

#[test]
fn required_dependencies_follow_jenkins() {
    let mut c = MacK3dConfig::default();
    assert_eq!(required_dependencies(&c), vec!["docker", "k3d", "kubectl"]);
    c.jenkins.enabled = true;
    assert_eq!(required_dependencies(&c), vec!["docker", "k3d", "kubectl", "helm"]);
}

#[test]
fn probe_paths_lists_existing_entries() {
    let mut c = good_config();
    c.storage.base_dir = Some("/data".to_string());
    c.dependencies.docker.app = Some("/Applications/Docker.app".to_string());
    assert_eq!(
        probe_paths(&c),
        vec![
            "/data",
            "/usr/local/bin/docker",
            "/Applications/Docker.app",
            "/opt/homebrew/bin/k3d",
            "/opt/homebrew/bin/kubectl"
        ]
    );
}
