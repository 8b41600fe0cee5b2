use vstd::prelude::*;

use crate::cli::JenkinsMode;
use crate::config::{config_dir_spec, opt_str, state_dir_spec, MacK3dConfig, NodeRole};
use crate::error::Error;
use crate::prepare::wizard::ExistingConfigAction;
use crate::runtime::docker::DockerStatus;
use crate::runtime::jenkins::{ui_url, ui_url_spec};
use crate::runtime::k3d::{ClusterInfo, ClusterState};
use crate::text::{concat, concat3, decimal, decimal_string, owned, push_string, views};

verus! {

/// Flags of `prepare`.
#[derive(Debug)]
pub struct PrepareArgs {
    /// Run the interactive wizard.
    pub interactive: bool,
    /// Validate the existing configuration only; no prompts or writes.
    pub non_interactive: bool,
    /// Write the default configuration if none exists.
    pub init_config: bool,
    /// Minimum free disk in GB; 0 means the role's default.
    pub disk_min_gb: u64,
}

/// Flags of `start`.
#[derive(Debug)]
pub struct StartArgs {
    /// Jenkins deployment for this run, overriding the configuration.
    pub jenkins: Option<JenkinsMode>,
    /// Do not wait for Docker Desktop.
    pub no_wait_docker: bool,
}

/// Flags of `config`.
#[derive(Debug)]
pub struct ConfigArgs {
    /// Do not merge the kubeconfig into `~/.kube/config`.
    pub no_merge_kubeconfig: bool,
    /// Print the Jenkins URL and admin password.
    pub show_jenkins: bool,
    /// Worker: skip the Jenkins agent step.
    pub skip_agent: bool,
}

/// Flags of `teardown`.
#[derive(Debug)]
pub struct TeardownArgs {
    /// Also quit Docker Desktop.
    pub stop_docker: bool,
}

/// Flags of `clean`.
#[derive(Debug)]
pub struct CleanArgs {
    /// Remove the configuration too.
    pub purge_config: bool,
    /// Confirm the deletion.
    pub yes: bool,
}

/// What `prepare` does.
#[derive(Clone, Copy, Debug, PartialEq, Eq, Structural)]
pub enum PrepareStep {
    /// Validate the loaded configuration; write nothing.
    ValidateOnly,
    /// Write the default configuration.
    WriteDefault,
    /// A configuration exists; leave it.
    KeepExisting,
    /// Ask what to do with the existing configuration.
    AskExisting,
    /// Run the wizard, write its configuration and validate it.
    RunWizard,
    /// Validate the existing configuration.
    ValidateExisting,
}

/// The first step of `prepare`.
pub open spec fn prepare_step_spec(
    interactive: bool,
    non_interactive: bool,
    init_config: bool,
    config_exists: bool,
    is_tty: bool,
) -> PrepareStep {
    if non_interactive {
        PrepareStep::ValidateOnly
    } else if init_config {
        if config_exists {
            PrepareStep::KeepExisting
        } else {
            PrepareStep::WriteDefault
        }
    } else if config_exists && is_tty && !interactive {
        PrepareStep::AskExisting
    } else if interactive || (is_tty && !config_exists) {
        PrepareStep::RunWizard
    } else {
        PrepareStep::ValidateExisting
    }
}

/// The first step of `prepare`, from its flags, whether the configuration file
/// exists and whether standard input is a terminal.
pub fn prepare_step(args: &PrepareArgs, config_exists: bool, is_tty: bool) -> (r: PrepareStep)
    ensures
        r == prepare_step_spec(
            args.interactive,
            args.non_interactive,
            args.init_config,
            config_exists,
            is_tty,
        ),
{
    if args.non_interactive {
        PrepareStep::ValidateOnly
    } else if args.init_config {
        if config_exists {
            PrepareStep::KeepExisting
        } else {
            PrepareStep::WriteDefault
        }
    } else if config_exists && is_tty && !args.interactive {
        PrepareStep::AskExisting
    } else if args.interactive || (is_tty && !config_exists) {
        PrepareStep::RunWizard
    } else {
        PrepareStep::ValidateExisting
    }
}

/// The step after the user answered what to do with the existing configuration.
pub fn after_existing_config(action: ExistingConfigAction) -> (r: Result<PrepareStep, Error>)
    ensures
        action == ExistingConfigAction::ValidateOnly ==> r == Ok::<PrepareStep, Error>(
            PrepareStep::ValidateOnly,
        ),
        action == ExistingConfigAction::RerunWizard ==> r == Ok::<PrepareStep, Error>(
            PrepareStep::RunWizard,
        ),
        action == ExistingConfigAction::Cancel ==> r matches Err(Error::Cancelled),
{
    match action {
        ExistingConfigAction::ValidateOnly => Ok(PrepareStep::ValidateOnly),
        ExistingConfigAction::RerunWizard => Ok(PrepareStep::RunWizard),
        ExistingConfigAction::Cancel => Err(Error::Cancelled),
    }
}

/// Whether a step writes the configuration file.
pub open spec fn writes_config(step: PrepareStep) -> bool {
    step == PrepareStep::WriteDefault || step == PrepareStep::RunWizard
}

/// `prepare` is safe to re-run: `--non-interactive` never writes, `--init-config`
/// never overwrites an existing file, and without a terminal nothing is written
/// over an existing configuration unless `-i` asks for the wizard.
pub proof fn lemma_prepare_idempotent(
    interactive: bool,
    non_interactive: bool,
    init_config: bool,
    config_exists: bool,
    is_tty: bool,
)
    ensures
        non_interactive ==> !writes_config(
            prepare_step_spec(interactive, non_interactive, init_config, config_exists, is_tty),
        ),
        init_config && config_exists ==> !writes_config(
            prepare_step_spec(interactive, non_interactive, init_config, config_exists, is_tty),
        ),
        config_exists && !is_tty && !interactive ==> !writes_config(
            prepare_step_spec(interactive, non_interactive, init_config, config_exists, is_tty),
        ),
{
}

/// What `start` does about Docker Desktop.
#[derive(Clone, Copy, Debug, PartialEq, Eq, Structural)]
pub enum DockerStep {
    /// It runs already.
    AlreadyRunning,
    /// Open it, then wait for it unless told not to.
    Open { wait: bool },
}

/// What `start` does about Docker Desktop: open it unless it runs.
pub open spec fn docker_step_spec(status: DockerStatus, no_wait_docker: bool) -> DockerStep {
    if status == DockerStatus::Running {
        DockerStep::AlreadyRunning
    } else {
        DockerStep::Open { wait: !no_wait_docker }
    }
}

/// What `start` does about Docker Desktop.
pub fn docker_step(status: DockerStatus, no_wait_docker: bool) -> (r: DockerStep)
    ensures
        r == docker_step_spec(status, no_wait_docker),
{
    match status {
        DockerStatus::Running => DockerStep::AlreadyRunning,
        _ => DockerStep::Open { wait: !no_wait_docker },
    }
}

/// How long to wait for Docker Desktop: the configured time, at least one second.
pub fn docker_wait_secs(config: &MacK3dConfig) -> (r: u64)
    ensures
        r == if config.docker.startup_timeout_secs >= 1 {
            config.docker.startup_timeout_secs
        } else {
            1
        },
{
    if config.docker.startup_timeout_secs >= 1 {
        config.docker.startup_timeout_secs
    } else {
        1
    }
}

/// What `start` does about the cluster.
#[derive(Clone, Copy, Debug, PartialEq, Eq, Structural)]
pub enum ClusterStep {
    Create,
    Start,
    AlreadyRunning,
}

/// What `start` does about the cluster: create a missing one, start a stopped one.
pub open spec fn cluster_step_spec(state: ClusterState) -> ClusterStep {
    match state {
        ClusterState::Missing => ClusterStep::Create,
        ClusterState::Stopped => ClusterStep::Start,
        ClusterState::Running => ClusterStep::AlreadyRunning,
    }
}

/// What `start` does about the cluster.
pub fn cluster_step(state: ClusterState) -> (r: ClusterStep)
    ensures
        r == cluster_step_spec(state),
{
    match state {
        ClusterState::Missing => ClusterStep::Create,
        ClusterState::Stopped => ClusterStep::Start,
        ClusterState::Running => ClusterStep::AlreadyRunning,
    }
}

/// Where a `start` run stands.
#[derive(Clone, Copy, Debug, PartialEq, Eq, Structural)]
pub enum StartStage {
    /// Nothing done yet.
    Idle,
    /// Waiting for Docker Desktop's status.
    Docker,
    /// Docker Desktop is being opened (and waited for).
    DockerStarting,
    /// Waiting for the cluster's state.
    Cluster,
    /// The cluster is being created or started.
    ClusterStarting,
    /// The kubectl context is being selected.
    Context,
    /// The kubeconfig is being merged after the context could not be selected.
    ContextMerging,
    /// The context is being selected again after the merge.
    ContextRetry,
    /// Jenkins is being installed or upgraded.
    Jenkins,
    /// The state file is being written.
    Record,
    /// The run is over.
    Finished,
}

/// What happened since the last action of a `start` run.
#[derive(Clone, Copy, Debug, PartialEq, Eq, Structural)]
pub enum StartEvent {
    /// The run begins.
    Begun,
    /// Docker Desktop's status.
    Docker(DockerStatus),
    /// Docker Desktop was opened (and is ready, unless the wait was skipped).
    DockerUp,
    /// The cluster's state.
    Cluster(ClusterState),
    /// The cluster was created or started.
    ClusterUp,
    /// Whether selecting the kubectl context succeeded.
    ContextSelected(bool),
    /// The kubeconfig was merged.
    KubeconfigMerged,
    /// Jenkins was installed or upgraded.
    JenkinsInstalled,
    /// The state file was written.
    StateRecorded,
}

/// What a `start` run asks its caller to do next.
#[derive(Clone, Copy, Debug, PartialEq, Eq, Structural)]
pub enum StartAction {
    /// Report Docker Desktop's status.
    CheckDocker,
    /// Open Docker Desktop, wait for it when `wait`, then report `DockerUp`.
    OpenDocker { wait: bool },
    /// Report the cluster's state.
    InspectCluster,
    /// Create the cluster, then report `ClusterUp`.
    CreateCluster,
    /// Start the cluster, then report `ClusterUp`.
    StartCluster,
    /// Select the cluster's kubectl context and report whether that worked.
    SelectContext,
    /// Merge the cluster's kubeconfig, then report `KubeconfigMerged`.
    MergeKubeconfig,
    /// Install or upgrade Jenkins, then report `JenkinsInstalled`.
    InstallJenkins,
    /// Write the state file, then report `StateRecorded`.
    RecordState,
    /// The run succeeded.
    Finish,
    /// The run cannot go on: the last step failed, or the event does not fit the stage.
    Stop,
}

/// After the context is selected: Jenkins when it is enabled, then the state file.
pub open spec fn after_context(jenkins: bool) -> (StartStage, StartAction) {
    if jenkins {
        (StartStage::Jenkins, StartAction::InstallJenkins)
    } else {
        (StartStage::Record, StartAction::RecordState)
    }
}

/// One step of `start`: Docker Desktop is opened unless it runs, the cluster is
/// created when missing and started when stopped, the context is selected (merging
/// the kubeconfig and trying once more if that fails), Jenkins is deployed when
/// enabled, and the state is recorded.
pub open spec fn start_next_spec(
    stage: StartStage,
    event: StartEvent,
    no_wait_docker: bool,
    jenkins: bool,
) -> (StartStage, StartAction) {
    match (stage, event) {
        (StartStage::Idle, StartEvent::Begun) => (StartStage::Docker, StartAction::CheckDocker),
        (StartStage::Docker, StartEvent::Docker(status)) => match docker_step_spec(
            status,
            no_wait_docker,
        ) {
            DockerStep::AlreadyRunning => (StartStage::Cluster, StartAction::InspectCluster),
            DockerStep::Open { wait } => (StartStage::DockerStarting, StartAction::OpenDocker { wait }),
        },
        (StartStage::DockerStarting, StartEvent::DockerUp) => (
            StartStage::Cluster,
            StartAction::InspectCluster,
        ),
        (StartStage::Cluster, StartEvent::Cluster(state)) => match cluster_step_spec(state) {
            ClusterStep::Create => (StartStage::ClusterStarting, StartAction::CreateCluster),
            ClusterStep::Start => (StartStage::ClusterStarting, StartAction::StartCluster),
            ClusterStep::AlreadyRunning => (StartStage::Context, StartAction::SelectContext),
        },
        (StartStage::ClusterStarting, StartEvent::ClusterUp) => (
            StartStage::Context,
            StartAction::SelectContext,
        ),
        (StartStage::Context, StartEvent::ContextSelected(ok)) => if ok {
            after_context(jenkins)
        } else {
            (StartStage::ContextMerging, StartAction::MergeKubeconfig)
        },
        (StartStage::ContextMerging, StartEvent::KubeconfigMerged) => (
            StartStage::ContextRetry,
            StartAction::SelectContext,
        ),
        (StartStage::ContextRetry, StartEvent::ContextSelected(ok)) => if ok {
            after_context(jenkins)
        } else {
            (StartStage::Finished, StartAction::Stop)
        },
        (StartStage::Jenkins, StartEvent::JenkinsInstalled) => (
            StartStage::Record,
            StartAction::RecordState,
        ),
        (StartStage::Record, StartEvent::StateRecorded) => (StartStage::Finished, StartAction::Finish),
        _ => (StartStage::Finished, StartAction::Stop),
    }
}

/// One step of `start`: the next stage and action after `event`.
pub fn start_next(stage: StartStage, event: StartEvent, no_wait_docker: bool, jenkins: bool) -> (r: (
    StartStage,
    StartAction,
))
    ensures
        r == start_next_spec(stage, event, no_wait_docker, jenkins),
{
    let after = if jenkins {
        (StartStage::Jenkins, StartAction::InstallJenkins)
    } else {
        (StartStage::Record, StartAction::RecordState)
    };
    match (stage, event) {
        (StartStage::Idle, StartEvent::Begun) => (StartStage::Docker, StartAction::CheckDocker),
        (StartStage::Docker, StartEvent::Docker(status)) => match docker_step(status, no_wait_docker) {
            DockerStep::AlreadyRunning => (StartStage::Cluster, StartAction::InspectCluster),
            DockerStep::Open { wait } => (StartStage::DockerStarting, StartAction::OpenDocker { wait }),
        },
        (StartStage::DockerStarting, StartEvent::DockerUp) => (
            StartStage::Cluster,
            StartAction::InspectCluster,
        ),
        (StartStage::Cluster, StartEvent::Cluster(state)) => match cluster_step(state) {
            ClusterStep::Create => (StartStage::ClusterStarting, StartAction::CreateCluster),
            ClusterStep::Start => (StartStage::ClusterStarting, StartAction::StartCluster),
            ClusterStep::AlreadyRunning => (StartStage::Context, StartAction::SelectContext),
        },
        (StartStage::ClusterStarting, StartEvent::ClusterUp) => (
            StartStage::Context,
            StartAction::SelectContext,
        ),
        (StartStage::Context, StartEvent::ContextSelected(ok)) => if ok {
            after
        } else {
            (StartStage::ContextMerging, StartAction::MergeKubeconfig)
        },
        (StartStage::ContextMerging, StartEvent::KubeconfigMerged) => (
            StartStage::ContextRetry,
            StartAction::SelectContext,
        ),
        (StartStage::ContextRetry, StartEvent::ContextSelected(ok)) => if ok {
            after
        } else {
            (StartStage::Finished, StartAction::Stop)
        },
        (StartStage::Jenkins, StartEvent::JenkinsInstalled) => (
            StartStage::Record,
            StartAction::RecordState,
        ),
        (StartStage::Record, StartEvent::StateRecorded) => (StartStage::Finished, StartAction::Finish),
        _ => (StartStage::Finished, StartAction::Stop),
    }
}

/// The actions of a `start` run that meets `events` from `stage`, in order.
pub open spec fn start_run(
    stage: StartStage,
    events: Seq<StartEvent>,
    no_wait_docker: bool,
    jenkins: bool,
) -> Seq<StartAction>
    decreases events.len(),
{
    if events.len() == 0 {
        Seq::empty()
    } else {
        let (next, action) = start_next_spec(stage, events[0], no_wait_docker, jenkins);
        seq![action] + start_run(next, events.drop_first(), no_wait_docker, jenkins)
    }
}

/// Whether an action changes Docker Desktop or the cluster.
pub open spec fn changes_environment(a: StartAction) -> bool {
    a is OpenDocker || a == StartAction::CreateCluster || a == StartAction::StartCluster
}

/// The events of a `start` run on a Mac where Docker Desktop and the cluster run:
/// the context is selected at once, or (`merged`) only after the first try failed
/// and the kubeconfig was merged.
pub open spec fn running_events(jenkins: bool, merged: bool) -> Seq<StartEvent> {
    let head = seq![
        StartEvent::Begun,
        StartEvent::Docker(DockerStatus::Running),
        StartEvent::Cluster(ClusterState::Running),
    ];
    let context = if merged {
        seq![
            StartEvent::ContextSelected(false),
            StartEvent::KubeconfigMerged,
            StartEvent::ContextSelected(true),
        ]
    } else {
        seq![StartEvent::ContextSelected(true)]
    };
    let tail = if jenkins {
        seq![StartEvent::JenkinsInstalled, StartEvent::StateRecorded]
    } else {
        seq![StartEvent::StateRecorded]
    };
    head + context + tail
}

/// The actions of a second `start`: check Docker Desktop and the cluster, select
/// the context (merging the kubeconfig and selecting again when needed), upgrade
/// Jenkins when it is enabled, record the state.
pub open spec fn running_actions(jenkins: bool, merged: bool) -> Seq<StartAction> {
    let head = seq![StartAction::CheckDocker, StartAction::InspectCluster, StartAction::SelectContext];
    let context = if merged {
        seq![StartAction::MergeKubeconfig, StartAction::SelectContext]
    } else {
        Seq::empty()
    };
    let tail = if jenkins {
        seq![StartAction::InstallJenkins, StartAction::RecordState, StartAction::Finish]
    } else {
        seq![StartAction::RecordState, StartAction::Finish]
    };
    head + context + tail
}

/// A second `start` is a no-op aside from the Helm upgrade when Jenkins is enabled:
/// once Docker Desktop and the cluster run, the run only checks them, selects the
/// context (merging the kubeconfig first if selecting failed), deploys Jenkins if
/// enabled and records the state; nothing is opened, created or started.
pub proof fn lemma_start_idempotent(no_wait_docker: bool, jenkins: bool, merged: bool)
    ensures
        start_run(StartStage::Idle, running_events(jenkins, merged), no_wait_docker, jenkins)
            == running_actions(jenkins, merged),
        forall|i: int|
            0 <= i < running_actions(jenkins, merged).len() ==> !changes_environment(
                #[trigger] running_actions(jenkins, merged)[i],
            ),
{
    let ev = running_events(jenkins, merged);
    reveal_with_fuel(start_run, 9);
    let r = start_run(StartStage::Idle, ev, no_wait_docker, jenkins);
    assert(r =~= running_actions(jenkins, merged));
}

/// A `start` run finishes only right after the state was recorded, and deploys
/// Jenkins only when it is enabled.
pub proof fn lemma_start_finishes_after_record(
    stage: StartStage,
    event: StartEvent,
    no_wait_docker: bool,
    jenkins: bool,
)
    ensures
        start_next_spec(stage, event, no_wait_docker, jenkins).1 == StartAction::Finish ==> (stage
            == StartStage::Record && event == StartEvent::StateRecorded),
        start_next_spec(stage, event, no_wait_docker, jenkins).1 == StartAction::InstallJenkins
            ==> jenkins,
{
}

/// What `config` does.
#[derive(Clone, Copy, Debug, PartialEq, Eq, Structural)]
pub struct ConfigPlan {
    /// Merge the cluster's kubeconfig and select its context.
    pub merge_kubeconfig: bool,
    /// Wait for the Kubernetes API.
    pub wait_api: bool,
    /// Say that a worker without a cluster skips the kubeconfig.
    pub worker_notice: bool,
    /// Print the Jenkins URL and admin password.
    pub show_jenkins: bool,
    /// Ensure the Jenkins agent of a worker.
    pub ensure_agent: bool,
}

/// What `config` does: with the cluster present, merge (unless told not to) and
/// wait for the API; a worker without a cluster only says so; otherwise merge and
/// wait unless told not to merge.
pub open spec fn config_plan_spec(
    no_merge: bool,
    show_jenkins: bool,
    skip_agent: bool,
    has_cluster: bool,
    role: NodeRole,
    jenkins_enabled: bool,
) -> ConfigPlan {
    let worker = role == NodeRole::Worker;
    ConfigPlan {
        merge_kubeconfig: if has_cluster {
            !no_merge
        } else {
            !worker && !no_merge
        },
        wait_api: if has_cluster {
            true
        } else {
            !worker && !no_merge
        },
        worker_notice: !has_cluster && worker,
        show_jenkins: jenkins_enabled || show_jenkins,
        ensure_agent: worker && !skip_agent,
    }
}

/// Where the cluster exists, `config` merges its kubeconfig unless told not to and
/// waits for the API, whatever the Mac's role; the role matters only without a
/// cluster, where a worker neither merges nor waits.
pub proof fn lemma_config_plan_with_cluster(
    no_merge: bool,
    show_jenkins: bool,
    skip_agent: bool,
    role: NodeRole,
    jenkins_enabled: bool,
)
    ensures
        config_plan_spec(no_merge, show_jenkins, skip_agent, true, role, jenkins_enabled).merge_kubeconfig
            == !no_merge,
        config_plan_spec(no_merge, show_jenkins, skip_agent, true, role, jenkins_enabled).wait_api,
        !config_plan_spec(no_merge, show_jenkins, skip_agent, true, role, jenkins_enabled).worker_notice,
        !config_plan_spec(
            no_merge,
            show_jenkins,
            skip_agent,
            false,
            NodeRole::Worker,
            jenkins_enabled,
        ).merge_kubeconfig,
        !config_plan_spec(
            no_merge,
            show_jenkins,
            skip_agent,
            false,
            NodeRole::Worker,
            jenkins_enabled,
        ).wait_api,
        role != NodeRole::Worker ==> config_plan_spec(
            no_merge,
            show_jenkins,
            skip_agent,
            false,
            role,
            jenkins_enabled,
        ).merge_kubeconfig == !no_merge,
{
}

/// What `config` does.
pub fn config_plan(args: &ConfigArgs, has_cluster: bool, config: &MacK3dConfig) -> (r: ConfigPlan)
    ensures
        r == config_plan_spec(
            args.no_merge_kubeconfig,
            args.show_jenkins,
            args.skip_agent,
            has_cluster,
            config.role,
            config.jenkins.enabled,
        ),
        has_cluster ==> r.merge_kubeconfig == !args.no_merge_kubeconfig && r.wait_api,
{
    proof {
        lemma_config_plan_with_cluster(
            args.no_merge_kubeconfig,
            args.show_jenkins,
            args.skip_agent,
            config.role,
            config.jenkins.enabled,
        );
    }
    let worker = config.role == NodeRole::Worker;
    let (merge, wait) = if has_cluster {
        (!args.no_merge_kubeconfig, true)
    } else if worker {
        (false, false)
    } else {
        (!args.no_merge_kubeconfig, !args.no_merge_kubeconfig)
    };
    ConfigPlan {
        merge_kubeconfig: merge,
        wait_api: wait,
        worker_notice: !has_cluster && worker,
        show_jenkins: config.jenkins.enabled || args.show_jenkins,
        ensure_agent: worker && !args.skip_agent,
    }
}

/// What `config` prints of the Jenkins admin password, given what reading the secret
/// gave (none when it failed): the user and the password, or how to read it by hand.
pub fn jenkins_password_lines(config: &MacK3dConfig, password: Option<&str>) -> (r: Vec<String>)
    ensures
        views(r@) == match password {
            Some(p) => if p@.len() > 0 {
                seq!["Jenkins admin user: admin"@, "Jenkins admin password: "@ + p@]
            } else {
                seq![password_hint_spec(config)]
            },
            None => seq![password_hint_spec(config)],
        },
{
    let mut v: Vec<String> = Vec::new();
    match password {
        Some(p) => {
            if p.unicode_len() > 0 {
                push_string(&mut v, owned("Jenkins admin user: admin"));
                push_string(&mut v, concat("Jenkins admin password: ", p));
                return v;
            }
        },
        None => {},
    }
    push_string(&mut v, password_hint(config));
    v
}

/// How to read the admin password by hand.
pub open spec fn password_hint_spec(config: &MacK3dConfig) -> Seq<char> {
    "Could not read Jenkins admin password yet. Try:\n  kubectl get secret "@
        + config.jenkins.release_name@ + " -n "@ + config.jenkins.namespace@
        + " -o jsonpath='{.data.jenkins-admin-password}' | base64 -d"@
}

fn password_hint(config: &MacK3dConfig) -> (r: String)
    ensures
        r@ == password_hint_spec(config),
{
    let mut s = concat3(
        "Could not read Jenkins admin password yet. Try:\n  kubectl get secret ",
        config.jenkins.release_name.as_str(),
        " -n ",
    );
    s.append(config.jenkins.namespace.as_str());
    s.append(" -o jsonpath='{.data.jenkins-admin-password}' | base64 -d");
    s
}

/// What `teardown` does: stop a running cluster, and quit Docker Desktop if asked;
/// configuration and state stay.
#[derive(Clone, Copy, Debug, PartialEq, Eq, Structural)]
pub struct TeardownPlan {
    pub stop_cluster: bool,
    pub quit_docker: bool,
}

/// What `teardown` does.
pub fn teardown_plan(args: &TeardownArgs, state: ClusterState) -> (r: TeardownPlan)
    ensures
        r == (TeardownPlan {
            stop_cluster: state == ClusterState::Running,
            quit_docker: args.stop_docker,
        }),
{
    TeardownPlan { stop_cluster: state == ClusterState::Running, quit_docker: args.stop_docker }
}

/// What `--purge-config` removes.
#[derive(Debug)]
pub enum PurgeTarget {
    /// The file given with `-c`.
    File(String),
    /// The whole default configuration directory.
    Dir(String),
}

/// What `clean --yes` removes.
#[derive(Debug)]
pub struct CleanPlan {
    /// Delete the k3d cluster.
    pub delete_cluster: bool,
    /// The shared state directory, removed only with the default configuration.
    pub remove_state_dir: Option<String>,
    /// The configuration to purge.
    pub purge: Option<PurgeTarget>,
}

/// What `clean` does; none without `--yes` (it only warns then).
pub fn clean_plan(args: &CleanArgs, explicit_config: Option<&str>, home: Option<&str>) -> (r: Option<
    CleanPlan,
>)
    ensures
        !args.yes ==> r is None,
        args.yes ==> (r matches Some(p) && p.delete_cluster && match explicit_config {
            Some(f) => p.remove_state_dir is None && (if args.purge_config {
                p.purge matches Some(PurgeTarget::File(x)) && x@ == f@
            } else {
                p.purge is None
            }),
            None => (p.remove_state_dir matches Some(d) && d@ == state_dir_spec(opt_str(home))) && (
            if args.purge_config {
                p.purge matches Some(PurgeTarget::Dir(x)) && x@ == config_dir_spec(opt_str(home))
            } else {
                p.purge is None
            }),
        }),
{
    if !args.yes {
        return None;
    }
    match explicit_config {
        Some(f) => Some(
            CleanPlan {
                delete_cluster: true,
                remove_state_dir: None,
                purge: if args.purge_config {
                    Some(PurgeTarget::File(owned(f)))
                } else {
                    None
                },
            },
        ),
        None => Some(
            CleanPlan {
                delete_cluster: true,
                remove_state_dir: Some(MacK3dConfig::state_dir(home)),
                purge: if args.purge_config {
                    Some(PurgeTarget::Dir(MacK3dConfig::config_dir(home)))
                } else {
                    None
                },
            },
        ),
    }
}

/// The warning of `clean` without `--yes`.
pub fn clean_warning(config: &MacK3dConfig) -> (r: String)
    ensures
        r@ == "clean will delete cluster "@ + config.cluster.name@
            + "; re-run with --yes to confirm"@,
{
    concat3("clean will delete cluster ", config.cluster.name.as_str(), "; re-run with --yes to confirm")
}

/// The state that `start` records: the cluster and whether Jenkins was deployed.
pub fn start_state_text(config: &MacK3dConfig) -> (r: String)
    ensures
        r@ == "cluster: "@ + config.cluster.name@ + "\njenkins_enabled: "@ + (if config.jenkins.enabled {
            "true"@
        } else {
            "false"@
        }) + "\n"@,
{
    let mut s = concat3("cluster: ", config.cluster.name.as_str(), "\njenkins_enabled: ");
    if config.jenkins.enabled {
        s.append("true");
    } else {
        s.append("false");
    }
    s.append("\n");
    s
}

/// `status` when the tools cannot be resolved: the error, the cluster, and Jenkins.
pub fn status_without_tools(err: &Error, config: &MacK3dConfig) -> (r: Vec<String>)
    ensures
        views(r@) == seq![
            "Tools:           "@ + err.message(),
            "Cluster:         "@ + config.cluster.name@,
            "Jenkins:         "@ + if config.jenkins.enabled {
                "enabled (tools missing)"@
            } else {
                "disabled"@
            },
        ],
{
    let mut v: Vec<String> = Vec::new();
    let m = err.to_string();
    push_string(&mut v, concat("Tools:           ", m.as_str()));
    push_string(&mut v, concat("Cluster:         ", config.cluster.name.as_str()));
    if config.jenkins.enabled {
        push_string(&mut v, concat("Jenkins:         ", "enabled (tools missing)"));
    } else {
        push_string(&mut v, concat("Jenkins:         ", "disabled"));
    }
    v
}

/// The Docker line of `status`.
pub fn docker_status_line(status: DockerStatus) -> (r: String)
    ensures
        r@ == "Docker Desktop:  "@ + status.text(),
{
    let t = status.to_string();
    concat("Docker Desktop:  ", t.as_str())
}

/// The cluster line of `status`: name, state and node counts.
pub fn cluster_status_line(name: &str, info: ClusterInfo) -> (r: String)
    ensures
        r@ == "k3d cluster:     "@ + name@ + " ("@ + info.state.text() + ", "@ + decimal(
            info.servers as nat,
        ) + " server, "@ + decimal(info.agents as nat) + " agents)"@,
{
    let st = info.state.to_string();
    let servers = decimal_string(info.servers as u64);
    let agents = decimal_string(info.agents as u64);
    let mut s = concat3("k3d cluster:     ", name, " (");
    s.append(st.as_str());
    s.append(", ");
    s.append(servers.as_str());
    s.append(" server, ");
    s.append(agents.as_str());
    s.append(" agents)");
    s
}

/// The kubectl line of `status`.
pub fn context_status_line(context: Option<&str>) -> (r: String)
    ensures
        r@ == "kubectl context: "@ + match context {
            Some(c) => c@,
            None => "(unavailable)"@,
        },
{
    match context {
        Some(c) => concat("kubectl context: ", c),
        None => concat("kubectl context: ", "(unavailable)"),
    }
}

/// The Jenkins line of `status`: the pod phase (`unknown` when unreadable) and URL.
pub fn jenkins_status_line(config: &MacK3dConfig, phase: Option<&str>) -> (r: String)
    ensures
        config.jenkins.enabled ==> r@ == "Jenkins:         enabled, pod "@ + match phase {
            Some(p) => p@,
            None => "unknown"@,
        } + ", "@ + ui_url_spec(config),
        !config.jenkins.enabled ==> r@ == "Jenkins:         disabled"@,
{
    if config.jenkins.enabled {
        let mut s = owned("Jenkins:         enabled, pod ");
        match phase {
            Some(p) => s.append(p),
            None => s.append("unknown"),
        }
        s.append(", ");
        let u = ui_url(config);
        s.append(u.as_str());
        s
    } else {
        owned("Jenkins:         disabled")
    }
}

/// The log level when `RUST_LOG` is not set: `warn`, `info` with `-v`, `debug` with more.
pub fn default_log_level(verbosity: u8) -> (r: String)
    ensures
        verbosity == 0 ==> r@ == "warn"@,
        verbosity == 1 ==> r@ == "info"@,
        verbosity >= 2 ==> r@ == "debug"@,
{
    match verbosity {
        0 => owned("warn"),
        1 => owned("info"),
        _ => owned("debug"),
    }
}

} // verus!
