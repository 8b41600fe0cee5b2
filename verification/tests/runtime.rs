use mac_k3d::config::{DependencyEntry, DependencySource, MacK3dConfig};
use mac_k3d::runtime::docker::{open_desktop_args, quit_args, status_from, DockerStatus};
use mac_k3d::runtime::jenkins::{admin_password_args, repo_add_args, ui_url, upgrade_args};
use mac_k3d::runtime::k3d::{cluster_info, create_args, merge_kubeconfig_args, ClusterState};
use mac_k3d::runtime::kubectl::{
    context_name, current_context_from, get_secret_args, phase_from_output, use_context_args,
};
use mac_k3d::runtime::{poll_step, PollAction, Tools};
use mac_k3d::Error;

#[test]
fn display_status() {
    assert_eq!(DockerStatus::Running.to_string(), "running");
    assert_eq!(DockerStatus::Stopped.to_string(), "stopped");
}

#[test]
fn context_name_prefixed() {
    assert_eq!(context_name("mac-k3d"), "k3d-mac-k3d");
}

#[test]
fn docker_status_and_commands() {
    assert_eq!(status_from(true, false, false), DockerStatus::Running);
    assert_eq!(status_from(false, true, false), DockerStatus::Stopped);
    assert_eq!(status_from(false, false, false), DockerStatus::Missing);
    assert_eq!(DockerStatus::Missing.to_string(), "not installed");
    assert_eq!(open_desktop_args("/Applications/Docker.app", true), vec!["-a", "/Applications/Docker.app"]);
    assert_eq!(open_desktop_args("/Applications/Docker.app", false), vec!["-a", "Docker"]);
    assert_eq!(quit_args(), vec!["-e", "quit app \"Docker\""]);
}

#[test]
fn waiting_ends() {
    assert_eq!(poll_step(true, 500_000, 1000), PollAction::Ready);
    assert_eq!(poll_step(false, 1000, 1000), PollAction::TimedOut);
    assert_eq!(poll_step(false, 999, 1000), PollAction::Wait);
}

#[test]
fn kubectl_commands() {
    assert_eq!(use_context_args("dev"), vec!["config", "use-context", "k3d-dev"]);
    assert_eq!(
        get_secret_args("jenkins", "jenkins", "jenkins-admin-password"),
        vec![
            "get",
            "secret",
            "jenkins",
            "-n",
            "jenkins",
            "-o",
            "go-template={{ index .data \"jenkins-admin-password\" | base64decode }}"
        ]
    );
    assert_eq!(current_context_from(Some("k3d-dev\n")).as_deref(), Some("k3d-dev"));
    assert_eq!(phase_from_output(Some("Running\n")).as_deref(), Some("Running"));
    assert_eq!(phase_from_output(Some("  \n")), None);
    assert_eq!(phase_from_output(None), None);
}

#[test]
fn jenkins_commands() {
    let c = MacK3dConfig::default();
    assert_eq!(ui_url(&c), "http://localhost:9080");
    assert_eq!(repo_add_args(), vec!["repo", "add", "jenkins", "https://charts.jenkins.io", "--force-update"]);
    assert_eq!(
        upgrade_args(&c),
        vec![
            "upgrade",
            "--install",
            "jenkins",
            "jenkins/jenkins",
            "--namespace",
            "jenkins",
            "--create-namespace",
            "--set",
            "controller.serviceType=LoadBalancer",
            "--wait",
            "--timeout",
            "10m"
        ]
    );
    assert_eq!(admin_password_args(&c)[2], "jenkins");
}

#[test]
fn k3d_commands_and_listing() {
    let c = MacK3dConfig::default();
    assert_eq!(
        create_args(&c),
        vec![
            "cluster",
            "create",
            "mac-k3d",
            "--agents",
            "0",
            "-p",
            "8080:80@loadbalancer",
            "-p",
            "8443:443@loadbalancer",
            "--wait"
        ]
    );
    assert_eq!(
        merge_kubeconfig_args("mac-k3d"),
        vec!["kubeconfig", "merge", "mac-k3d", "--kubeconfig-merge-default", "--kubeconfig-switch-context"]
    );
    let out = "other   1/1   0/0   true\nmac-k3d   1/1   2/2   true\n";
    let i = cluster_info(out, "mac-k3d");
    assert_eq!(i.state, ClusterState::Running);
    assert_eq!(i.servers, 1);
    assert_eq!(i.agents, 2);
    assert_eq!(cluster_info("mac-k3d 0/1 0/0 true\n", "mac-k3d").state, ClusterState::Stopped);
    assert_eq!(cluster_info("", "mac-k3d").state, ClusterState::Missing);
}

#[test]
fn tools_from_config() {
    let mut c = MacK3dConfig::default();
    let t = Tools::from_config(&c).unwrap();
    assert_eq!(t.docker, "docker");
    assert_eq!(t.docker_app, "/Applications/Docker.app");
    assert_eq!(t.helm.as_deref(), Some("helm"));
    c.dependencies.kubectl = DependencyEntry {
        source: DependencySource::Existing,
        binary: Some("/opt/homebrew/bin/kubectl".into()),
        app: None,
    };
    c.dependencies.helm = DependencyEntry { source: DependencySource::Skip, binary: None, app: None };
    let t = Tools::from_config(&c).unwrap();
    assert_eq!(t.kubectl, "/opt/homebrew/bin/kubectl");
    match t.helm_required() {
        Err(Error::DependencyMissing(m)) => assert_eq!(m, "helm is required for Jenkins but set to skip"),
        _ => panic!(),
    }
    c.dependencies.k3d = DependencyEntry { source: DependencySource::Skip, binary: None, app: None };
    match Tools::from_config(&c) {
        Err(Error::DependencyMissing(m)) => assert_eq!(m, "k3d is set to skip"),
        _ => panic!(),
    }
}
