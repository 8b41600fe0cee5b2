use mac_k3d::config::{DependencyEntry, DependencySource, NodeRole};
use mac_k3d::prepare::discovery::DiscoveredTool;
use mac_k3d::prepare::volumes::VolumeCandidate;
use mac_k3d::prepare::wizard::{
    asks_jenkins_port, custom_path, default_cluster_name, dependency_choice, dependency_options,
    dependency_outcome, existing_config_action, pending_installs, role_for_selection,
    skipped_helm_entry, storage_choice, storage_dirs, storage_menu, summary_lines,
    wizard_config, DependencyChoice, ExistingConfigAction, MacRole, WizardAnswers,
};
use mac_k3d::Error;

fn install() -> DependencyEntry {
    DependencyEntry { source: DependencySource::Install, binary: None, app: None }
}

#[test]
fn menu_selections() {
    assert_eq!(existing_config_action(0), ExistingConfigAction::RerunWizard);
    assert_eq!(existing_config_action(1), ExistingConfigAction::ValidateOnly);
    assert_eq!(existing_config_action(2), ExistingConfigAction::Cancel);
    assert_eq!(role_for_selection(0), MacRole::Standalone);
    assert_eq!(role_for_selection(1), MacRole::Controller);
    assert_eq!(role_for_selection(2), MacRole::Worker);
}

#[test]
fn dependency_menus() {
    assert_eq!(
        dependency_options(true, true, true),
        vec![
            "Use this installation (recommended)",
            "Specify a different binary path",
            "Install via Homebrew (not recommended if already installed)"
        ]
    );
    assert_eq!(
        dependency_options(false, false, false),
        vec!["Install via Homebrew", "Specify path to existing binary", "Skip"]
    );
    assert_eq!(dependency_choice(true, true, 0), DependencyChoice::UseFound);
    assert_eq!(dependency_choice(true, true, 2), DependencyChoice::Install);
    assert_eq!(dependency_choice(true, false, 3), DependencyChoice::Skip);
    assert_eq!(dependency_choice(false, true, 0), DependencyChoice::Install);
    assert_eq!(dependency_choice(false, true, 1), DependencyChoice::EnterPath);
    assert_eq!(dependency_choice(false, true, 2), DependencyChoice::Refuse);
}

#[test]
fn dependency_outcomes() {
    let found = Some(DiscoveredTool {
        binary: "/usr/local/bin/docker".into(),
        app: Some("/Applications/Docker.app".into()),
        version_hint: None,
    });
    let e = dependency_outcome("Docker Desktop", &found, true, DependencyChoice::UseFound, "", false).unwrap();
    assert_eq!(e.binary.as_deref(), Some("/usr/local/bin/docker"));
    let i = dependency_outcome("Docker Desktop", &None, true, DependencyChoice::Install, "", false).unwrap();
    assert_eq!(i.source, DependencySource::Install);
    assert_eq!(i.app.as_deref(), Some("/Applications/Docker.app"));
    let p = dependency_outcome("k3d", &None, false, DependencyChoice::EnterPath, " /x/k3d ", true).unwrap();
    assert_eq!(p.binary.as_deref(), Some("/x/k3d"));
    assert!(matches!(
        dependency_outcome("k3d", &None, false, DependencyChoice::Cancel, "", false),
        Err(Error::Cancelled)
    ));
    match dependency_outcome("k3d", &None, false, DependencyChoice::Refuse, "", false) {
        Err(Error::Validation(m)) => assert_eq!(m, "k3d is required"),
        _ => panic!(),
    }
    let h = skipped_helm_entry(&found);
    assert_eq!(h.source, DependencySource::Skip);
    assert_eq!(h.binary.as_deref(), Some("/usr/local/bin/docker"));
}

#[test]
fn storage_questions() {
    let v = vec![VolumeCandidate {
        mount_point: "/".into(),
        available_bytes: 2048,
        suggested_base: "/Users/ci/mac-k3d".into(),
    }];
    assert_eq!(storage_menu(&v), vec!["/ (2.0 KB free) (recommended)", "Enter custom path"]);
    assert_eq!(storage_choice(&v, 0).as_deref(), Some("/Users/ci/mac-k3d"));
    assert_eq!(storage_choice(&v, 1), None);
    assert_eq!(custom_path("  /data  ").unwrap(), "/data");
    match custom_path("   ") {
        Err(Error::Validation(m)) => assert_eq!(m, "path cannot be empty"),
        _ => panic!(),
    }
}

#[test]
fn cluster_defaults() {
    assert_eq!(default_cluster_name(MacRole::Controller), "ci-controller");
    assert_eq!(default_cluster_name(MacRole::Worker), "ci-worker");
    assert_eq!(default_cluster_name(MacRole::Standalone), "mac-k3d");
    assert!(asks_jenkins_port(MacRole::Controller));
    assert!(!asks_jenkins_port(MacRole::Worker));
}

#[test]
fn wizard_builds_config() {
    let c = wizard_config(WizardAnswers {
        base_dir: "/data".into(),
        role: MacRole::Controller,
        docker: install(),
        k3d: install(),
        kubectl: install(),
        helm: install(),
        cluster_name: "ci-controller".into(),
        agents: 2,
        jenkins_port: 9090,
    });
    assert_eq!(c.role, NodeRole::Controller);
    assert!(c.jenkins.enabled);
    assert_eq!(c.jenkins.host_port, 9090);
    assert_eq!(c.storage.docker.as_deref(), Some("/data/docker"));
    assert_eq!(c.storage.downloads.as_deref(), Some("/data/downloads"));
    assert_eq!(
        storage_dirs(&c.storage),
        vec!["/data", "/data/docker", "/data/k3d", "/data/jenkins", "/data/downloads"]
    );
    assert_eq!(pending_installs(&c.dependencies), vec!["docker", "k3d", "kubectl", "helm"]);
    let s = summary_lines(&c, MacRole::Controller);
    assert_eq!(
        s,
        vec![
            "\n--- Configuration summary ---\n",
            "  Storage base:   /data",
            "  Role:           Controller",
            "  Cluster:        ci-controller (2 agents)",
            "  Jenkins:        enabled on port 9090",
            "  Docker:        install via Homebrew",
            "  k3d:        install via Homebrew",
            "  kubectl:        install via Homebrew",
            "  helm:        install via Homebrew",
            "",
        ]
    );
}
