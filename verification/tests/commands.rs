use mac_k3d::cli::JenkinsMode;
use mac_k3d::commands::{
    after_existing_config, clean_plan, clean_warning, cluster_status_line, cluster_step,
    config_plan, context_status_line, default_log_level, docker_status_line, docker_step,
    docker_wait_secs, jenkins_password_lines, jenkins_status_line, prepare_step, start_state_text, status_without_tools,
    start_next, teardown_plan, CleanArgs, ClusterStep, ConfigArgs, DockerStep, PrepareArgs,
    PrepareStep, PurgeTarget, StartAction, StartArgs, StartEvent, StartStage, TeardownArgs,
};
use mac_k3d::config::NodeRole;
use mac_k3d::prepare::wizard::ExistingConfigAction;
use mac_k3d::runtime::docker::DockerStatus;
use mac_k3d::runtime::k3d::{ClusterInfo, ClusterState};
use mac_k3d::{Error, MacK3dConfig};

fn args(interactive: bool, non_interactive: bool, init_config: bool) -> PrepareArgs {
    PrepareArgs { interactive, non_interactive, init_config, disk_min_gb: 0 }
}

#[test]
fn prepare_steps() {
    assert_eq!(prepare_step(&args(false, true, false), true, true), PrepareStep::ValidateOnly);
    assert_eq!(prepare_step(&args(true, true, true), false, false), PrepareStep::ValidateOnly);
    assert_eq!(prepare_step(&args(false, false, true), false, true), PrepareStep::WriteDefault);
    assert_eq!(prepare_step(&args(false, false, true), true, true), PrepareStep::KeepExisting);
    assert_eq!(prepare_step(&args(false, false, false), true, true), PrepareStep::AskExisting);
    assert_eq!(prepare_step(&args(true, false, false), true, true), PrepareStep::RunWizard);
    assert_eq!(prepare_step(&args(false, false, false), false, true), PrepareStep::RunWizard);
    assert_eq!(prepare_step(&args(false, false, false), true, false), PrepareStep::ValidateExisting);
    assert_eq!(prepare_step(&args(false, false, false), false, false), PrepareStep::ValidateExisting);
}

#[test]
fn prepare_rerun_writes_nothing_without_terminal() {
    // Re-running prepare in CI (no terminal) on an existing configuration only validates.
    let first = prepare_step(&args(false, false, false), false, false);
    assert_eq!(first, PrepareStep::ValidateExisting);
    let again = prepare_step(&args(false, false, true), true, false);
    assert_eq!(again, PrepareStep::KeepExisting);
}

#[test]
fn existing_config_answers() {
    assert!(matches!(
        after_existing_config(ExistingConfigAction::ValidateOnly),
        Ok(PrepareStep::ValidateOnly)
    ));
    assert!(matches!(
        after_existing_config(ExistingConfigAction::RerunWizard),
        Ok(PrepareStep::RunWizard)
    ));
    let e = after_existing_config(ExistingConfigAction::Cancel).unwrap_err();
    assert!(matches!(e, Error::Cancelled));
    assert_eq!(e.to_string(), "cancelled by user");
}

#[test]
fn start_steps_are_idempotent() {
    assert_eq!(docker_step(DockerStatus::Running, false), DockerStep::AlreadyRunning);
    assert_eq!(docker_step(DockerStatus::Stopped, false), DockerStep::Open { wait: true });
    assert_eq!(docker_step(DockerStatus::Missing, true), DockerStep::Open { wait: false });
    assert_eq!(cluster_step(ClusterState::Missing), ClusterStep::Create);
    assert_eq!(cluster_step(ClusterState::Stopped), ClusterStep::Start);
    assert_eq!(cluster_step(ClusterState::Running), ClusterStep::AlreadyRunning);
    let s = StartArgs { jenkins: Some(JenkinsMode::Skip), no_wait_docker: true };
    assert!(s.no_wait_docker);
}

#[test]
fn docker_wait_is_at_least_one_second() {
    let mut c = MacK3dConfig::default();
    assert_eq!(docker_wait_secs(&c), 120);
    c.docker.startup_timeout_secs = 0;
    assert_eq!(docker_wait_secs(&c), 1);
}

#[test]
fn config_plans() {
    let mut c = MacK3dConfig::default();
    let a = ConfigArgs { no_merge_kubeconfig: false, show_jenkins: false, skip_agent: false };
    let p = config_plan(&a, true, &c);
    assert!(p.merge_kubeconfig && p.wait_api && !p.worker_notice && !p.show_jenkins && !p.ensure_agent);
    let n = ConfigArgs { no_merge_kubeconfig: true, show_jenkins: true, skip_agent: false };
    let p = config_plan(&n, true, &c);
    assert!(!p.merge_kubeconfig && p.wait_api && p.show_jenkins);
    let p = config_plan(&n, false, &c);
    assert!(!p.merge_kubeconfig && !p.wait_api);
    c.role = NodeRole::Worker;
    let p = config_plan(&a, false, &c);
    assert!(!p.merge_kubeconfig && !p.wait_api && p.worker_notice && p.ensure_agent);
    let skip = ConfigArgs { no_merge_kubeconfig: false, show_jenkins: false, skip_agent: true };
    assert!(!config_plan(&skip, false, &c).ensure_agent);
    c.jenkins.enabled = true;
    assert!(config_plan(&a, true, &c).show_jenkins);
}

#[test]
fn teardown_keeps_configuration() {
    let p = teardown_plan(&TeardownArgs { stop_docker: false }, ClusterState::Running);
    assert!(p.stop_cluster && !p.quit_docker);
    let p = teardown_plan(&TeardownArgs { stop_docker: true }, ClusterState::Stopped);
    assert!(!p.stop_cluster && p.quit_docker);
}

#[test]
fn clean_needs_confirmation() {
    assert!(clean_plan(&CleanArgs { purge_config: true, yes: false }, None, Some("/Users/ci")).is_none());
    let p = clean_plan(&CleanArgs { purge_config: false, yes: true }, None, Some("/Users/ci")).unwrap();
    assert!(p.delete_cluster);
    assert_eq!(p.remove_state_dir.as_deref(), Some("/Users/ci/.local/state/mac-k3d"));
    assert!(p.purge.is_none());
    let p = clean_plan(&CleanArgs { purge_config: true, yes: true }, None, Some("/Users/ci")).unwrap();
    match p.purge {
        Some(PurgeTarget::Dir(d)) => assert_eq!(d, "/Users/ci/.config/mac-k3d"),
        _ => panic!("expected the configuration directory"),
    }
    let p = clean_plan(&CleanArgs { purge_config: true, yes: true }, Some("/tmp/c.yaml"), None).unwrap();
    assert!(p.remove_state_dir.is_none());
    match p.purge {
        Some(PurgeTarget::File(f)) => assert_eq!(f, "/tmp/c.yaml"),
        _ => panic!("expected the given file"),
    }
    let c = MacK3dConfig::default();
    assert_eq!(clean_warning(&c), "clean will delete cluster mac-k3d; re-run with --yes to confirm");
}

#[test]
fn status_lines() {
    let mut c = MacK3dConfig::default();
    assert_eq!(start_state_text(&c), "cluster: mac-k3d\njenkins_enabled: false\n");
    assert_eq!(docker_status_line(DockerStatus::Running), "Docker Desktop:  running");
    let info = ClusterInfo { state: ClusterState::Running, servers: 1, agents: 2 };
    assert_eq!(cluster_status_line("mac-k3d", info), "k3d cluster:     mac-k3d (running, 1 server, 2 agents)");
    assert_eq!(context_status_line(Some("k3d-mac-k3d")), "kubectl context: k3d-mac-k3d");
    assert_eq!(context_status_line(None), "kubectl context: (unavailable)");
    assert_eq!(jenkins_status_line(&c, None), "Jenkins:         disabled");
    let lines = status_without_tools(&Error::DependencyMissing("k3d".to_string()), &c);
    assert_eq!(
        lines,
        vec![
            "Tools:           missing dependency: k3d",
            "Cluster:         mac-k3d",
            "Jenkins:         disabled"
        ]
    );
    c.jenkins.enabled = true;
    assert_eq!(start_state_text(&c), "cluster: mac-k3d\njenkins_enabled: true\n");
    assert_eq!(
        jenkins_status_line(&c, Some("Running")),
        "Jenkins:         enabled, pod Running, http://localhost:9080"
    );
    assert_eq!(
        jenkins_status_line(&c, None),
        "Jenkins:         enabled, pod unknown, http://localhost:9080"
    );
}

#[test]
fn log_levels() {
    assert_eq!(default_log_level(0), "warn");
    assert_eq!(default_log_level(1), "info");
    assert_eq!(default_log_level(2), "debug");
    assert_eq!(default_log_level(7), "debug");
}

fn run_start(events: &[StartEvent], no_wait: bool, jenkins: bool) -> Vec<StartAction> {
    let mut stage = StartStage::Idle;
    let mut actions = Vec::new();
    for e in events {
        let (next, action) = start_next(stage, *e, no_wait, jenkins);
        stage = next;
        actions.push(action);
    }
    actions
}

#[test]
fn second_start_changes_nothing() {
    let events = [
        StartEvent::Begun,
        StartEvent::Docker(DockerStatus::Running),
        StartEvent::Cluster(ClusterState::Running),
        StartEvent::ContextSelected(true),
        StartEvent::StateRecorded,
    ];
    assert_eq!(
        run_start(&events, false, false),
        vec![
            StartAction::CheckDocker,
            StartAction::InspectCluster,
            StartAction::SelectContext,
            StartAction::RecordState,
            StartAction::Finish
        ]
    );
}

#[test]
fn first_start_opens_creates_and_deploys() {
    let events = [
        StartEvent::Begun,
        StartEvent::Docker(DockerStatus::Stopped),
        StartEvent::DockerUp,
        StartEvent::Cluster(ClusterState::Missing),
        StartEvent::ClusterUp,
        StartEvent::ContextSelected(false),
        StartEvent::KubeconfigMerged,
        StartEvent::ContextSelected(true),
        StartEvent::JenkinsInstalled,
        StartEvent::StateRecorded,
    ];
    assert_eq!(
        run_start(&events, false, true),
        vec![
            StartAction::CheckDocker,
            StartAction::OpenDocker { wait: true },
            StartAction::InspectCluster,
            StartAction::CreateCluster,
            StartAction::SelectContext,
            StartAction::MergeKubeconfig,
            StartAction::SelectContext,
            StartAction::InstallJenkins,
            StartAction::RecordState,
            StartAction::Finish
        ]
    );
}

#[test]
fn start_stops_when_context_cannot_be_selected() {
    let events = [
        StartEvent::Begun,
        StartEvent::Docker(DockerStatus::Running),
        StartEvent::Cluster(ClusterState::Stopped),
        StartEvent::ClusterUp,
        StartEvent::ContextSelected(false),
        StartEvent::KubeconfigMerged,
        StartEvent::ContextSelected(false),
    ];
    let actions = run_start(&events, true, false);
    assert_eq!(actions[2], StartAction::StartCluster);
    assert_eq!(actions.last(), Some(&StartAction::Stop));
    assert_eq!(start_next(StartStage::Idle, StartEvent::ClusterUp, false, false), (StartStage::Finished, StartAction::Stop));
}

#[test]
fn admin_password_or_hint() {
    let c = MacK3dConfig::default();
    assert_eq!(
        jenkins_password_lines(&c, Some("s3cret")),
        vec!["Jenkins admin user: admin", "Jenkins admin password: s3cret"]
    );
    let hint = "Could not read Jenkins admin password yet. Try:\n  kubectl get secret jenkins -n jenkins -o jsonpath='{.data.jenkins-admin-password}' | base64 -d";
    assert_eq!(jenkins_password_lines(&c, Some("")), vec![hint]);
    assert_eq!(jenkins_password_lines(&c, None), vec![hint]);
}
