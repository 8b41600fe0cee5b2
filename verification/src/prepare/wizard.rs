use vstd::prelude::*;

use crate::config::{
    default_ports, default_ports_spec, resolve_spec, ClusterConfig, DependenciesConfig,
    DependencyEntry, DependencySource, DepsView, DockerConfig, EntryView, JenkinsConfig,
    MacK3dConfig, NodeRole, StorageConfig,
};
use crate::error::Error;
use crate::prepare::discovery::{opt_tool, tool_entry_spec, DiscoveredTool, ToolView};
use crate::prepare::install::{entry_from_path, tool_to_entry};
use crate::prepare::volumes::VolumeCandidate;
use crate::text::{
    concat, concat3, decimal, decimal_string, join_path, join_path_spec, opt_view, owned,
    push_str, push_string, trim, trim_spec, views,
};

verus! {

/// The role this Mac is set up for.
#[derive(Clone, Copy, Debug, PartialEq, Eq, Structural)]
pub enum MacRole {
    Standalone,
    Controller,
    Worker,
}

/// What to do when a configuration already exists.
#[derive(Clone, Copy, Debug, PartialEq, Eq, Structural)]
pub enum ExistingConfigAction {
    RerunWizard,
    ValidateOnly,
    Cancel,
}

/// The choices offered when a configuration exists; the second is the default.
pub fn existing_config_options() -> (r: Vec<String>)
    ensures
        views(r@) == seq![
            "Re-run wizard (overwrite config)"@,
            "Validate existing config only"@,
            "Cancel"@,
        ],
{
    let mut v: Vec<String> = Vec::new();
    push_str(&mut v, "Re-run wizard (overwrite config)");
    push_str(&mut v, "Validate existing config only");
    push_str(&mut v, "Cancel");
    v
}

/// The action of the chosen menu entry.
pub fn existing_config_action(selection: usize) -> (r: ExistingConfigAction)
    ensures
        r == (if selection == 0 {
            ExistingConfigAction::RerunWizard
        } else if selection == 1 {
            ExistingConfigAction::ValidateOnly
        } else {
            ExistingConfigAction::Cancel
        }),
{
    if selection == 0 {
        ExistingConfigAction::RerunWizard
    } else if selection == 1 {
        ExistingConfigAction::ValidateOnly
    } else {
        ExistingConfigAction::Cancel
    }
}

/// The role choices; the first is the default.
pub fn role_options() -> (r: Vec<String>)
    ensures
        views(r@) == seq![
            "Local development only (no Jenkins)"@,
            "CI controller (Jenkins in k3d)"@,
            "CI worker (Jenkins agent only)"@,
        ],
{
    let mut v: Vec<String> = Vec::new();
    push_str(&mut v, "Local development only (no Jenkins)");
    push_str(&mut v, "CI controller (Jenkins in k3d)");
    push_str(&mut v, "CI worker (Jenkins agent only)");
    v
}

/// The role of the chosen menu entry.
pub fn role_for_selection(selection: usize) -> (r: MacRole)
    ensures
        r == (if selection == 1 {
            MacRole::Controller
        } else if selection == 2 {
            MacRole::Worker
        } else {
            MacRole::Standalone
        }),
{
    if selection == 1 {
        MacRole::Controller
    } else if selection == 2 {
        MacRole::Worker
    } else {
        MacRole::Standalone
    }
}

/// The node role that a Mac role is stored as.
pub open spec fn node_role_spec(role: MacRole) -> NodeRole {
    match role {
        MacRole::Standalone => NodeRole::Standalone,
        MacRole::Controller => NodeRole::Controller,
        MacRole::Worker => NodeRole::Worker,
    }
}

/// The storage menu: each volume's label, the first marked as recommended, then a
/// custom-path entry.
pub open spec fn storage_menu_spec(volumes: Seq<VolumeCandidate>) -> Seq<Seq<char>> {
    Seq::new(
        volumes.len(),
        |i: int|
            if i == 0 {
                volumes[i].label_spec() + " (recommended)"@
            } else {
                volumes[i].label_spec()
            },
    ).push("Enter custom path"@)
}

/// The storage menu.
pub fn storage_menu(volumes: &Vec<VolumeCandidate>) -> (r: Vec<String>)
    ensures
        views(r@) == storage_menu_spec(volumes@),
{
    let mut items: Vec<String> = Vec::new();
    let mut i: usize = 0;
    while i < volumes.len()
        invariant
            i <= volumes.len(),
            views(items@) =~= Seq::new(
                i as nat,
                |k: int|
                    if k == 0 {
                        volumes@[k].label_spec() + " (recommended)"@
                    } else {
                        volumes@[k].label_spec()
                    },
            ),
        decreases volumes.len() - i,
    {
        let label = volumes[i].display_label();
        let ghost prev = views(items@);
        if i == 0 {
            items.push(concat(label.as_str(), " (recommended)"));
        } else {
            items.push(label);
        }
        assert(views(items@) =~= prev.push(
            if i == 0 {
                volumes@[i as int].label_spec() + " (recommended)"@
            } else {
                volumes@[i as int].label_spec()
            },
        ));
        i = i + 1;
    }
    push_str(&mut items, "Enter custom path");
    items
}

/// The base directory of the chosen volume; none when the custom entry was chosen.
pub fn storage_choice(volumes: &Vec<VolumeCandidate>, selection: usize) -> (r: Option<String>)
    ensures
        selection < volumes.len() ==> (r matches Some(b) && b@
            == volumes@[selection as int].suggested_base@),
        selection >= volumes.len() ==> r is None,
{
    if selection < volumes.len() {
        Some(volumes[selection].suggested_base.clone())
    } else {
        None
    }
}

/// A path the user typed: trimmed, and not empty.
pub fn custom_path(input: &str) -> (r: Result<String, Error>)
    ensures
        trim_spec(input@).len() > 0 ==> (r matches Ok(p) && p@ == trim_spec(input@)),
        trim_spec(input@).len() == 0 ==> (r matches Err(Error::Validation(m)) && m@
            == "path cannot be empty"@),
{
    let p = trim(input);
    if p.unicode_len() == 0 {
        return Err(Error::Validation(owned("path cannot be empty")));
    }
    Ok(p)
}

/// The choice made for one tool.
#[derive(Clone, Copy, Debug, PartialEq, Eq, Structural)]
pub enum DependencyChoice {
    /// Use the discovered installation.
    UseFound,
    /// Ask for a binary path.
    EnterPath,
    /// Install with Homebrew.
    Install,
    /// Not needed.
    Skip,
    /// The user backed out.
    Cancel,
    /// A required tool was declined.
    Refuse,
}

/// The menu for one tool, depending on whether it was found.
pub open spec fn dependency_options_spec(found: bool, required: bool, is_docker: bool) -> Seq<
    Seq<char>,
> {
    let base = if found {
        seq![
            "Use this installation (recommended)"@,
            "Specify a different binary path"@,
            if is_docker {
                "Install via Homebrew (not recommended if already installed)"@
            } else {
                "Install via Homebrew"@
            },
        ]
    } else {
        seq!["Install via Homebrew"@, "Specify path to existing binary"@]
    };
    if required {
        base
    } else {
        base.push("Skip"@)
    }
}

/// The menu for one tool; the first entry is the default.
pub fn dependency_options(found: bool, required: bool, is_docker: bool) -> (r: Vec<String>)
    ensures
        views(r@) == dependency_options_spec(found, required, is_docker),
{
    let mut v: Vec<String> = Vec::new();
    if found {
        push_str(&mut v, "Use this installation (recommended)");
        push_str(&mut v, "Specify a different binary path");
        if is_docker {
            push_str(&mut v, "Install via Homebrew (not recommended if already installed)");
        } else {
            push_str(&mut v, "Install via Homebrew");
        }
    } else {
        push_str(&mut v, "Install via Homebrew");
        push_str(&mut v, "Specify path to existing binary");
    }
    if !required {
        push_str(&mut v, "Skip");
    }
    v
}

/// The choice behind a menu entry.
pub open spec fn dependency_choice_spec(found: bool, required: bool, selection: usize) -> DependencyChoice {
    if found {
        if selection == 0 {
            DependencyChoice::UseFound
        } else if selection == 1 {
            DependencyChoice::EnterPath
        } else if selection == 2 {
            DependencyChoice::Install
        } else if !required {
            DependencyChoice::Skip
        } else {
            DependencyChoice::Cancel
        }
    } else {
        if selection == 0 {
            DependencyChoice::Install
        } else if selection == 1 {
            DependencyChoice::EnterPath
        } else if !required {
            DependencyChoice::Skip
        } else {
            DependencyChoice::Refuse
        }
    }
}

/// The choice behind a menu entry.
pub fn dependency_choice(found: bool, required: bool, selection: usize) -> (r: DependencyChoice)
    ensures
        r == dependency_choice_spec(found, required, selection),
{
    if found {
        if selection == 0 {
            DependencyChoice::UseFound
        } else if selection == 1 {
            DependencyChoice::EnterPath
        } else if selection == 2 {
            DependencyChoice::Install
        } else if !required {
            DependencyChoice::Skip
        } else {
            DependencyChoice::Cancel
        }
    } else {
        if selection == 0 {
            DependencyChoice::Install
        } else if selection == 1 {
            DependencyChoice::EnterPath
        } else if !required {
            DependencyChoice::Skip
        } else {
            DependencyChoice::Refuse
        }
    }
}

/// The app bundle recorded for a tool: Docker Desktop's for docker.
pub open spec fn app_for(is_docker: bool) -> Option<Seq<char>> {
    if is_docker {
        Some("/Applications/Docker.app"@)
    } else {
        None
    }
}

fn app_bundle(is_docker: bool) -> (r: Option<String>)
    ensures
        opt_view(r) == app_for(is_docker),
{
    if is_docker {
        Some(owned("/Applications/Docker.app"))
    } else {
        None
    }
}

/// The entry that one tool's answers give.
///
/// `path_input` is the binary path the user typed for `EnterPath` (ignored
/// otherwise), and `path_exists` whether its trimmed form exists.
pub open spec fn dependency_outcome_spec(
    label: Seq<char>,
    tool: Option<crate::prepare::discovery::ToolView>,
    is_docker: bool,
    choice: DependencyChoice,
    path_input: Seq<char>,
    path_exists: bool,
) -> Result<EntryView, Seq<char>> {
    match choice {
        DependencyChoice::UseFound => match tool {
            Some(t) => Ok(tool_entry_spec(t)),
            None => Err("cancelled"@),
        },
        DependencyChoice::EnterPath => if path_exists {
            Ok(
                EntryView {
                    source: DependencySource::Existing,
                    binary: Some(trim_spec(path_input)),
                    app: app_for(is_docker),
                },
            )
        } else {
            Err("binary not found: "@ + trim_spec(path_input))
        },
        DependencyChoice::Install => Ok(
            EntryView { source: DependencySource::Install, binary: None, app: app_for(is_docker) },
        ),
        DependencyChoice::Skip => Ok(
            EntryView { source: DependencySource::Skip, binary: None, app: None },
        ),
        DependencyChoice::Cancel => Err("cancelled"@),
        DependencyChoice::Refuse => Err(label + " is required"@),
    }
}

/// The entry that one tool's answers give: the chosen installation, a typed binary
/// (which must exist), Homebrew installation, or skip. Backing out is `Cancelled`;
/// declining a required tool that was not found is a validation error.
pub fn dependency_outcome(
    label: &str,
    tool: &Option<DiscoveredTool>,
    is_docker: bool,
    choice: DependencyChoice,
    path_input: &str,
    path_exists: bool,
) -> (r: Result<DependencyEntry, Error>)
    ensures
        match dependency_outcome_spec(
            label@,
            opt_tool(*tool),
            is_docker,
            choice,
            path_input@,
            path_exists,
        ) {
            Ok(e) => r matches Ok(x) && x@ == e,
            Err(m) => if choice == DependencyChoice::EnterPath {
                r matches Err(Error::Validation(x)) && x@ == m
            } else if choice == DependencyChoice::Refuse {
                r matches Err(Error::Validation(x)) && x@ == m
            } else {
                r matches Err(Error::Cancelled)
            },
        },
{
    match choice {
        DependencyChoice::UseFound => match tool {
            Some(t) => Ok(tool_to_entry(t)),
            None => Err(Error::Cancelled),
        },
        DependencyChoice::EnterPath => {
            let p = trim(path_input);
            entry_from_path(p, app_bundle(is_docker), path_exists)
        },
        DependencyChoice::Install => Ok(
            DependencyEntry {
                source: DependencySource::Install,
                binary: None,
                app: app_bundle(is_docker),
            },
        ),
        DependencyChoice::Skip => Ok(
            DependencyEntry { source: DependencySource::Skip, binary: None, app: None },
        ),
        DependencyChoice::Cancel => Err(Error::Cancelled),
        DependencyChoice::Refuse => Err(Error::Validation(concat(label, " is required"))),
    }
}

/// The helm entry of a Mac without Jenkins: skipped, keeping a discovered binary.
pub fn skipped_helm_entry(helm: &Option<DiscoveredTool>) -> (r: DependencyEntry)
    ensures
        r@ == (EntryView {
            source: DependencySource::Skip,
            binary: match opt_tool(*helm) {
                Some(t) => Some(t.binary),
                None => None,
            },
            app: None,
        }),
{
    DependencyEntry {
        source: DependencySource::Skip,
        binary: match helm {
            Some(t) => Some(t.binary.clone()),
            None => None,
        },
        app: None,
    }
}

/// The cluster name proposed for a role.
pub open spec fn default_cluster_name_spec(role: MacRole) -> Seq<char> {
    match role {
        MacRole::Controller => "ci-controller"@,
        MacRole::Worker => "ci-worker"@,
        MacRole::Standalone => "mac-k3d"@,
    }
}

/// The cluster name proposed for a role.
pub fn default_cluster_name(role: MacRole) -> (r: String)
    ensures
        r@ == default_cluster_name_spec(role),
{
    match role {
        MacRole::Controller => owned("ci-controller"),
        MacRole::Worker => owned("ci-worker"),
        MacRole::Standalone => owned("mac-k3d"),
    }
}

/// Whether the wizard asks for the Jenkins UI port (only a controller hosts Jenkins).
pub fn asks_jenkins_port(role: MacRole) -> (r: bool)
    ensures
        r == (role == MacRole::Controller),
{
    match role {
        MacRole::Controller => true,
        _ => false,
    }
}

/// The Jenkins UI port proposed, and used when it is not asked.
pub const DEFAULT_JENKINS_PORT: u16 = 9080;

/// Storage under one base directory: the base, and `docker`, `k3d`, `jenkins`,
/// `downloads` inside it.
pub fn storage_under(base: &str) -> (r: StorageConfig)
    ensures
        opt_view(r.base_dir) == Some(base@),
        opt_view(r.docker) == Some(join_path_spec(base@, "docker"@)),
        opt_view(r.k3d) == Some(join_path_spec(base@, "k3d"@)),
        opt_view(r.jenkins) == Some(join_path_spec(base@, "jenkins"@)),
        opt_view(r.downloads) == Some(join_path_spec(base@, "downloads"@)),
{
    StorageConfig {
        base_dir: Some(owned(base)),
        docker: Some(join_path(base, "docker")),
        k3d: Some(join_path(base, "k3d")),
        jenkins: Some(join_path(base, "jenkins")),
        downloads: Some(join_path(base, "downloads")),
    }
}

/// The answers of the wizard, gathered.
#[derive(Debug)]
pub struct WizardAnswers {
    pub base_dir: String,
    pub role: MacRole,
    pub docker: DependencyEntry,
    pub k3d: DependencyEntry,
    pub kubectl: DependencyEntry,
    pub helm: DependencyEntry,
    pub cluster_name: String,
    pub agents: u8,
    pub jenkins_port: u16,
}

/// The configuration that the wizard's answers give: Jenkins exactly on a
/// controller, storage under the chosen base, the default ports and timeout.
pub fn wizard_config(answers: WizardAnswers) -> (r: MacK3dConfig)
    ensures
        r.role == node_role_spec(answers.role),
        r.cluster.name@ == answers.cluster_name@,
        r.cluster.agents == answers.agents,
        r.cluster.ports@ == default_ports_spec(),
        r.jenkins.enabled == (answers.role == MacRole::Controller),
        r.jenkins.namespace@ == "jenkins"@,
        r.jenkins.release_name@ == "jenkins"@,
        r.jenkins.host_port == answers.jenkins_port,
        r.docker.startup_timeout_secs == 120,
        opt_view(r.storage.base_dir) == Some(answers.base_dir@),
        opt_view(r.storage.docker) == Some(join_path_spec(answers.base_dir@, "docker"@)),
        opt_view(r.storage.k3d) == Some(join_path_spec(answers.base_dir@, "k3d"@)),
        opt_view(r.storage.jenkins) == Some(join_path_spec(answers.base_dir@, "jenkins"@)),
        opt_view(r.storage.downloads) == Some(join_path_spec(answers.base_dir@, "downloads"@)),
        r.dependencies.docker@ == answers.docker@,
        r.dependencies.k3d@ == answers.k3d@,
        r.dependencies.kubectl@ == answers.kubectl@,
        r.dependencies.helm@ == answers.helm@,
{
    let storage = storage_under(answers.base_dir.as_str());
    let role = match answers.role {
        MacRole::Standalone => NodeRole::Standalone,
        MacRole::Controller => NodeRole::Controller,
        MacRole::Worker => NodeRole::Worker,
    };
    let enabled = match answers.role {
        MacRole::Controller => true,
        _ => false,
    };
    MacK3dConfig {
        role,
        cluster: ClusterConfig {
            name: answers.cluster_name,
            agents: answers.agents,
            ports: default_ports(),
        },
        jenkins: JenkinsConfig {
            enabled,
            namespace: owned("jenkins"),
            release_name: owned("jenkins"),
            host_port: answers.jenkins_port,
        },
        docker: DockerConfig { startup_timeout_secs: 120 },
        storage,
        dependencies: DependenciesConfig {
            docker: answers.docker,
            k3d: answers.k3d,
            kubectl: answers.kubectl,
            helm: answers.helm,
        },
    }
}

/// How a role is shown.
pub open spec fn role_name_spec(role: MacRole) -> Seq<char> {
    match role {
        MacRole::Standalone => "Standalone"@,
        MacRole::Controller => "Controller"@,
        MacRole::Worker => "Worker"@,
    }
}

/// How a role is shown.
pub fn role_name(role: MacRole) -> (r: String)
    ensures
        r@ == role_name_spec(role),
{
    match role {
        MacRole::Standalone => owned("Standalone"),
        MacRole::Controller => owned("Controller"),
        MacRole::Worker => owned("Worker"),
    }
}

/// How a tool entry is described in the summary.
pub open spec fn dependency_detail_spec(e: EntryView) -> Seq<char> {
    match e.source {
        DependencySource::Existing => match e.binary {
            Some(b) => "existing ("@ + b + ")"@,
            None => "existing"@,
        },
        DependencySource::Install => "install via Homebrew"@,
        DependencySource::Skip => "skip"@,
    }
}

/// How a tool entry is described in the summary.
pub fn dependency_detail(entry: &DependencyEntry) -> (r: String)
    ensures
        r@ == dependency_detail_spec(entry@),
{
    match entry.source {
        DependencySource::Existing => match &entry.binary {
            Some(b) => concat3("existing (", b.as_str(), ")"),
            None => owned("existing"),
        },
        DependencySource::Install => owned("install via Homebrew"),
        DependencySource::Skip => owned("skip"),
    }
}

/// The summary shown before the configuration is written, one line per entry.
pub open spec fn summary_spec(config: &MacK3dConfig, role: MacRole) -> Seq<Seq<char>> {
    let head = seq!["\n--- Configuration summary ---\n"@];
    let head = match config.storage.base_dir {
        Some(b) => head.push("  Storage base:   "@ + b@),
        None => head,
    };
    head + seq![
        "  Role:           "@ + role_name_spec(role),
        "  Cluster:        "@ + config.cluster.name@ + " ("@ + decimal(config.cluster.agents as nat)
            + " agents)"@,
        "  Jenkins:        "@ + if config.jenkins.enabled {
            "enabled on port "@ + decimal(config.jenkins.host_port as nat)
        } else {
            "disabled"@
        },
        "  Docker:        "@ + dependency_detail_spec(config.dependencies.docker@),
        "  k3d:        "@ + dependency_detail_spec(config.dependencies.k3d@),
        "  kubectl:        "@ + dependency_detail_spec(config.dependencies.kubectl@),
        "  helm:        "@ + dependency_detail_spec(config.dependencies.helm@),
        Seq::<char>::empty(),
    ]
}

/// The summary shown before the configuration is written.
pub fn summary_lines(config: &MacK3dConfig, role: MacRole) -> (r: Vec<String>)
    ensures
        views(r@) == summary_spec(config, role),
{
    let mut v: Vec<String> = Vec::new();
    push_str(&mut v, "\n--- Configuration summary ---\n");
    if let Some(b) = &config.storage.base_dir {
        push_string(&mut v, concat("  Storage base:   ", b.as_str()));
    }
    let rn = role_name(role);
    push_string(&mut v, concat("  Role:           ", rn.as_str()));
    let agents = decimal_string(config.cluster.agents as u64);
    let mut c = concat3("  Cluster:        ", config.cluster.name.as_str(), " (");
    c.append(agents.as_str());
    c.append(" agents)");
    push_string(&mut v, c);
    if config.jenkins.enabled {
        let port = decimal_string(config.jenkins.host_port as u64);
        push_string(&mut v, concat3("  Jenkins:        ", "enabled on port ", port.as_str()));
        assert(("  Jenkins:        "@ + "enabled on port "@) + port@ =~= "  Jenkins:        "@ + (
        "enabled on port "@ + port@));
    } else {
        push_string(&mut v, concat("  Jenkins:        ", "disabled"));
    }
    let d = dependency_detail(&config.dependencies.docker);
    push_string(&mut v, concat("  Docker:        ", d.as_str()));
    let d = dependency_detail(&config.dependencies.k3d);
    push_string(&mut v, concat("  k3d:        ", d.as_str()));
    let d = dependency_detail(&config.dependencies.kubectl);
    push_string(&mut v, concat("  kubectl:        ", d.as_str()));
    let d = dependency_detail(&config.dependencies.helm);
    push_string(&mut v, concat("  helm:        ", d.as_str()));
    let empty = String::new();
    assert(empty@ == Seq::<char>::empty());
    push_string(&mut v, empty);
    assert(views(v@) =~= summary_spec(config, role));
    v
}

/// The storage directories to create: the base, then each resolved directory.
pub open spec fn storage_dirs_spec(s: &StorageConfig) -> Seq<Seq<char>> {
    let base = opt_view(s.base_dir);
    let opt = |o: Option<Seq<char>>| match o {
        Some(p) => seq![p],
        None => Seq::<Seq<char>>::empty(),
    };
    opt(base) + opt(resolve_spec(base, "docker"@, opt_view(s.docker))) + opt(
        resolve_spec(base, "k3d"@, opt_view(s.k3d)),
    ) + opt(resolve_spec(base, "jenkins"@, opt_view(s.jenkins))) + opt(
        resolve_spec(base, "downloads"@, opt_view(s.downloads)),
    )
}

fn push_opt(v: &mut Vec<String>, o: Option<String>)
    ensures
        views(final(v)@) == views(old(v)@) + match opt_view(o) {
            Some(p) => seq![p],
            None => Seq::<Seq<char>>::empty(),
        },
{
    let ghost before = views(v@);
    match o {
        Some(p) => {
            v.push(p);
        },
        None => {},
    }
    assert(views(v@) =~= before + match opt_view(o) {
        Some(p) => seq![p],
        None => Seq::<Seq<char>>::empty(),
    });
}

/// The storage directories to create.
pub fn storage_dirs(storage: &StorageConfig) -> (r: Vec<String>)
    ensures
        views(r@) == storage_dirs_spec(storage),
{
    let mut dirs: Vec<String> = Vec::new();
    push_opt(&mut dirs, crate::text::copy_opt(&storage.base_dir));
    push_opt(&mut dirs, storage.docker_dir());
    push_opt(&mut dirs, storage.k3d_dir());
    push_opt(&mut dirs, storage.jenkins_dir());
    push_opt(&mut dirs, storage.downloads_dir());
    assert(views(dirs@) =~= storage_dirs_spec(storage));
    dirs
}

/// The tools of `d` marked for installation, in the order docker, k3d, kubectl, helm.
pub open spec fn pending_view(d: DepsView) -> Seq<Seq<char>> {
    let one = |name: Seq<char>, e: EntryView|
        if e.source == DependencySource::Install {
            seq![name]
        } else {
            Seq::<Seq<char>>::empty()
        };
    one("docker"@, d.docker) + one("k3d"@, d.k3d) + one("kubectl"@, d.kubectl) + one("helm"@, d.helm)
}

/// The tools marked for installation, in the order docker, k3d, kubectl, helm.
pub open spec fn pending_spec(d: &DependenciesConfig) -> Seq<Seq<char>> {
    pending_view(d@)
}

/// `d` after each tool of `names`, in order, was set to the entry of the tool that
/// a scan after its installation found (`found`).
pub open spec fn installed_all(
    d: DepsView,
    names: Seq<Seq<char>>,
    found: spec_fn(Seq<char>) -> ToolView,
) -> DepsView
    decreases names.len(),
{
    if names.len() == 0 {
        d
    } else {
        installed_all(
            d.with(names[0], tool_entry_spec(found(names[0]))),
            names.drop_first(),
            found,
        )
    }
}

/// Where a tool's source ends after the installs: taken from the scan when the tool
/// was among `names`, else unchanged.
proof fn lemma_installed_all_sources(
    d: DepsView,
    names: Seq<Seq<char>>,
    found: spec_fn(Seq<char>) -> ToolView,
)
    ensures
        installed_all(d, names, found).docker.source == if names.contains("docker"@) {
            DependencySource::Existing
        } else {
            d.docker.source
        },
        installed_all(d, names, found).k3d.source == if names.contains("k3d"@) {
            DependencySource::Existing
        } else {
            d.k3d.source
        },
        installed_all(d, names, found).kubectl.source == if names.contains("kubectl"@) {
            DependencySource::Existing
        } else {
            d.kubectl.source
        },
        installed_all(d, names, found).helm.source == if names.contains("helm"@) {
            DependencySource::Existing
        } else {
            d.helm.source
        },
    decreases names.len(),
{
    if names.len() > 0 {
        let rest = names.drop_first();
        lemma_installed_all_sources(
            d.with(names[0], tool_entry_spec(found(names[0]))),
            rest,
            found,
        );
        assert forall|x: Seq<char>| names.contains(x) <==> (names[0] == x || rest.contains(x)) by {
            if names.contains(x) && names[0] != x {
                let i = choose|i: int| 0 <= i < names.len() && names[i] == x;
                assert(rest[i - 1] == x);
            }
            if rest.contains(x) {
                let i = choose|i: int| 0 <= i < rest.len() && rest[i] == x;
                assert(names[i + 1] == x);
            }
            if names[0] == x {
                assert(names.contains(x));
            }
        }
    }
}

/// After the wizard installs every tool marked for installation and takes the
/// entry that a scan found for it (see `installed_entry` and
/// `DependenciesConfig::set`), no tool is left to install.
pub proof fn lemma_installs_leave_nothing_pending(
    d: DepsView,
    found: spec_fn(Seq<char>) -> ToolView,
)
    ensures
        pending_view(installed_all(d, pending_view(d), found)).len() == 0,
{
    let p = pending_view(d);
    lemma_installed_all_sources(d, p, found);
    let one = |name: Seq<char>, e: EntryView|
        if e.source == DependencySource::Install {
            seq![name]
        } else {
            Seq::<Seq<char>>::empty()
        };
    let a = one("docker"@, d.docker);
    let b = one("k3d"@, d.k3d);
    let c = one("kubectl"@, d.kubectl);
    let h = one("helm"@, d.helm);
    assert(p == a + b + c + h);
    if d.docker.source == DependencySource::Install {
        assert(p[0] == "docker"@);
    }
    if d.k3d.source == DependencySource::Install {
        assert(p[a.len() as int] == "k3d"@);
    }
    if d.kubectl.source == DependencySource::Install {
        assert(p[(a.len() + b.len()) as int] == "kubectl"@);
    }
    if d.helm.source == DependencySource::Install {
        assert(p[(a.len() + b.len() + c.len()) as int] == "helm"@);
    }
}

/// The tools marked for installation.
pub fn pending_installs(deps: &DependenciesConfig) -> (r: Vec<String>)
    ensures
        views(r@) == pending_spec(deps),
{
    let mut v: Vec<String> = Vec::new();
    if deps.docker.source == DependencySource::Install {
        push_str(&mut v, "docker");
    }
    if deps.k3d.source == DependencySource::Install {
        push_str(&mut v, "k3d");
    }
    if deps.kubectl.source == DependencySource::Install {
        push_str(&mut v, "kubectl");
    }
    if deps.helm.source == DependencySource::Install {
        push_str(&mut v, "helm");
    }
    assert(views(v@) =~= pending_spec(deps));
    v
}

} // verus!
