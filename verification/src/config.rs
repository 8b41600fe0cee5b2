use vstd::prelude::*;

use crate::cli::JenkinsMode;
use crate::text::{copy_opt, join_path, join_path_spec, opt_view, owned, str_eq};

verus! {

/// How an external tool is obtained.
#[derive(Clone, Copy, Debug, PartialEq, Eq, Structural)]
pub enum DependencySource {
    /// Use the discovered or given binary.
    Existing,
    /// Install it with Homebrew.
    Install,
    /// Not required on this Mac.
    Skip,
}

impl Default for DependencySource {
    fn default() -> (r: Self)
        ensures
            r == DependencySource::Install,
    {
        DependencySource::Install
    }
}

/// The role of this Mac.
#[derive(Clone, Copy, Debug, PartialEq, Eq, Structural)]
pub enum NodeRole {
    /// Local development only.
    Standalone,
    /// Hosts Jenkins in its k3d cluster.
    Controller,
    /// Runs a Jenkins agent.
    Worker,
}

impl Default for NodeRole {
    fn default() -> (r: Self)
        ensures
            r == NodeRole::Standalone,
    {
        NodeRole::Standalone
    }
}

/// Where large artifacts and caches are stored.
#[derive(Debug)]
pub struct StorageConfig {
    /// Root directory on the chosen volume.
    pub base_dir: Option<String>,
    /// Docker image and layer data.
    pub docker: Option<String>,
    /// k3d cluster and image cache.
    pub k3d: Option<String>,
    /// Jenkins charts, plugins and data.
    pub jenkins: Option<String>,
    /// Large downloads.
    pub downloads: Option<String>,
}

/// How one external tool is resolved.
#[derive(Debug)]
pub struct DependencyEntry {
    /// Discovered/given, installed, or skipped.
    pub source: DependencySource,
    /// Path to the binary when the source is `Existing`.
    pub binary: Option<String>,
    /// Application bundle (Docker Desktop only).
    pub app: Option<String>,
}

/// The abstract value of a [`DependencyEntry`].
pub struct EntryView {
    pub source: DependencySource,
    pub binary: Option<Seq<char>>,
    pub app: Option<Seq<char>>,
}

impl View for DependencyEntry {
    type V = EntryView;

    open spec fn view(&self) -> EntryView {
        EntryView { source: self.source, binary: opt_view(self.binary), app: opt_view(self.app) }
    }
}

/// How each external tool is resolved.
#[derive(Debug)]
pub struct DependenciesConfig {
    pub docker: DependencyEntry,
    pub k3d: DependencyEntry,
    pub kubectl: DependencyEntry,
    pub helm: DependencyEntry,
}

/// The abstract value of a [`DependenciesConfig`].
pub struct DepsView {
    pub docker: EntryView,
    pub k3d: EntryView,
    pub kubectl: EntryView,
    pub helm: EntryView,
}

impl View for DependenciesConfig {
    type V = DepsView;

    open spec fn view(&self) -> DepsView {
        DepsView { docker: self.docker@, k3d: self.k3d@, kubectl: self.kubectl@, helm: self.helm@ }
    }
}

impl DepsView {
    /// The entry of the tool `name` replaced by `e`; other names change nothing.
    pub open spec fn with(self, name: Seq<char>, e: EntryView) -> DepsView {
        DepsView {
            docker: if name == "docker"@ { e } else { self.docker },
            k3d: if name == "k3d"@ { e } else { self.k3d },
            kubectl: if name == "kubectl"@ { e } else { self.kubectl },
            helm: if name == "helm"@ { e } else { self.helm },
        }
    }
}

/// One host port mapped to the cluster load balancer.
#[derive(Clone, Copy, Debug, PartialEq, Eq, Structural)]
pub struct PortMapping {
    pub host: u16,
    pub container: u16,
}

/// The k3d cluster.
#[derive(Debug)]
pub struct ClusterConfig {
    /// k3d cluster name.
    pub name: String,
    /// Agent nodes besides the server node.
    pub agents: u8,
    /// Host ports mapped to the load balancer.
    pub ports: Vec<PortMapping>,
}

/// The in-cluster Jenkins deployment.
#[derive(Debug)]
pub struct JenkinsConfig {
    pub enabled: bool,
    pub namespace: String,
    pub release_name: String,
    /// Host port of the Jenkins UI.
    pub host_port: u16,
}

/// Docker Desktop handling.
#[derive(Clone, Copy, Debug, PartialEq, Eq, Structural)]
pub struct DockerConfig {
    /// How long to wait for Docker Desktop to become ready.
    pub startup_timeout_secs: u64,
}

/// The whole configuration, as stored in `config.yaml`.
#[derive(Debug)]
pub struct MacK3dConfig {
    pub role: NodeRole,
    pub cluster: ClusterConfig,
    pub jenkins: JenkinsConfig,
    pub docker: DockerConfig,
    pub storage: StorageConfig,
    pub dependencies: DependenciesConfig,
}

/// The port mappings of a new configuration: 8080 to 80 and 8443 to 443.
pub open spec fn default_ports_spec() -> Seq<PortMapping> {
    seq![PortMapping { host: 8080, container: 80 }, PortMapping { host: 8443, container: 443 }]
}

/// The port mappings of a new configuration.
pub fn default_ports() -> (r: Vec<PortMapping>)
    ensures
        r@ == default_ports_spec(),
{
    let mut v: Vec<PortMapping> = Vec::new();
    v.push(PortMapping { host: 8080, container: 80 });
    v.push(PortMapping { host: 8443, container: 443 });
    assert(v@ =~= default_ports_spec());
    v
}

impl Default for StorageConfig {
    fn default() -> (r: Self)
        ensures
            r.base_dir is None,
            r.docker is None,
            r.k3d is None,
            r.jenkins is None,
            r.downloads is None,
    {
        StorageConfig { base_dir: None, docker: None, k3d: None, jenkins: None, downloads: None }
    }
}

impl Default for DependencyEntry {
    fn default() -> (r: Self)
        ensures
            r@ == (EntryView { source: DependencySource::Install, binary: None, app: None }),
    {
        DependencyEntry { source: DependencySource::Install, binary: None, app: None }
    }
}

impl DependencyEntry {
    /// A copy of the entry.
    pub fn duplicate(&self) -> (r: Self)
        ensures
            r@ == self@,
    {
        DependencyEntry {
            source: self.source,
            binary: copy_opt(&self.binary),
            app: copy_opt(&self.app),
        }
    }
}

impl Default for DependenciesConfig {
    fn default() -> (r: Self)
        ensures
            r.docker@ == (EntryView { source: DependencySource::Install, binary: None, app: None }),
            r.k3d@ == (EntryView { source: DependencySource::Install, binary: None, app: None }),
            r.kubectl@ == (EntryView { source: DependencySource::Install, binary: None, app: None }),
            r.helm@ == (EntryView { source: DependencySource::Install, binary: None, app: None }),
    {
        DependenciesConfig {
            docker: DependencyEntry::default(),
            k3d: DependencyEntry::default(),
            kubectl: DependencyEntry::default(),
            helm: DependencyEntry::default(),
        }
    }
}

impl MacK3dConfig {
    /// The values of a configuration that nobody wrote: cluster `mac-k3d` with no
    /// agents and the two default port mappings, Jenkins disabled in namespace and
    /// release `jenkins` on port 9080, a 120 s Docker timeout, no storage paths, and
    /// every tool to be installed.
    pub open spec fn is_default(&self) -> bool {
        &&& self.role == NodeRole::Standalone
        &&& self.cluster.name@ == "mac-k3d"@
        &&& self.cluster.agents == 0
        &&& self.cluster.ports@ == default_ports_spec()
        &&& !self.jenkins.enabled
        &&& self.jenkins.namespace@ == "jenkins"@
        &&& self.jenkins.release_name@ == "jenkins"@
        &&& self.jenkins.host_port == 9080
        &&& self.docker.startup_timeout_secs == 120
        &&& self.storage.base_dir is None
        &&& self.storage.docker is None
        &&& self.storage.k3d is None
        &&& self.storage.jenkins is None
        &&& self.storage.downloads is None
        &&& self.dependencies.docker@ == (EntryView { source: DependencySource::Install, binary: None, app: None })
        &&& self.dependencies.k3d@ == (EntryView { source: DependencySource::Install, binary: None, app: None })
        &&& self.dependencies.kubectl@ == (EntryView { source: DependencySource::Install, binary: None, app: None })
        &&& self.dependencies.helm@ == (EntryView { source: DependencySource::Install, binary: None, app: None })
    }
}

impl Default for MacK3dConfig {
    fn default() -> (r: Self)
        ensures
            r.is_default(),
    {
        MacK3dConfig {
            role: NodeRole::Standalone,
            cluster: ClusterConfig { name: owned("mac-k3d"), agents: 0, ports: default_ports() },
            jenkins: JenkinsConfig {
                enabled: false,
                namespace: owned("jenkins"),
                release_name: owned("jenkins"),
                host_port: 9080,
            },
            docker: DockerConfig { startup_timeout_secs: 120 },
            storage: StorageConfig::default(),
            dependencies: DependenciesConfig::default(),
        }
    }
}

/// A storage path: the explicit one if set, else `base_dir/sub` if a base is set.
pub open spec fn resolve_spec(
    base_dir: Option<Seq<char>>,
    sub: Seq<char>,
    explicit: Option<Seq<char>>,
) -> Option<Seq<char>> {
    match explicit {
        Some(e) => Some(e),
        None => match base_dir {
            Some(b) => Some(join_path_spec(b, sub)),
            None => None,
        },
    }
}

impl StorageConfig {
    /// Resolve a storage path: explicit override, or `base_dir/<sub>`, or none.
    pub fn resolve(&self, sub: &str, explicit: &Option<String>) -> (r: Option<String>)
        ensures
            opt_view(r) == resolve_spec(opt_view(self.base_dir), sub@, opt_view(*explicit)),
    {
        match explicit {
            Some(e) => Some(e.clone()),
            None => match &self.base_dir {
                Some(b) => Some(join_path(b.as_str(), sub)),
                None => None,
            },
        }
    }

    pub fn docker_dir(&self) -> (r: Option<String>)
        ensures
            opt_view(r) == resolve_spec(opt_view(self.base_dir), "docker"@, opt_view(self.docker)),
    {
        self.resolve("docker", &self.docker)
    }

    pub fn k3d_dir(&self) -> (r: Option<String>)
        ensures
            opt_view(r) == resolve_spec(opt_view(self.base_dir), "k3d"@, opt_view(self.k3d)),
    {
        self.resolve("k3d", &self.k3d)
    }

    pub fn jenkins_dir(&self) -> (r: Option<String>)
        ensures
            opt_view(r) == resolve_spec(opt_view(self.base_dir), "jenkins"@, opt_view(self.jenkins)),
    {
        self.resolve("jenkins", &self.jenkins)
    }

    pub fn downloads_dir(&self) -> (r: Option<String>)
        ensures
            opt_view(r) == resolve_spec(
                opt_view(self.base_dir),
                "downloads"@,
                opt_view(self.downloads),
            ),
    {
        self.resolve("downloads", &self.downloads)
    }
}

/// `$HOME/.config/mac-k3d`, or `.mac-k3d` without a home directory.
pub open spec fn config_dir_spec(home: Option<Seq<char>>) -> Seq<char> {
    match home {
        Some(h) => join_path_spec(join_path_spec(h, ".config"@), "mac-k3d"@),
        None => ".mac-k3d"@,
    }
}

/// `$HOME/.local/state/mac-k3d`, or `.mac-k3d` without a home directory.
pub open spec fn state_dir_spec(home: Option<Seq<char>>) -> Seq<char> {
    match home {
        Some(h) => join_path_spec(join_path_spec(join_path_spec(h, ".local"@), "state"@), "mac-k3d"@),
        None => ".mac-k3d"@,
    }
}

/// The view of an optional string slice.
pub open spec fn opt_str(o: Option<&str>) -> Option<Seq<char>> {
    match o {
        Some(s) => Some(s@),
        None => None,
    }
}

impl MacK3dConfig {
    /// The configuration directory under the home directory `home`.
    pub fn config_dir(home: Option<&str>) -> (r: String)
        ensures
            r@ == config_dir_spec(opt_str(home)),
    {
        match home {
            Some(h) => {
                let c = join_path(h, ".config");
                join_path(c.as_str(), "mac-k3d")
            },
            None => owned(".mac-k3d"),
        }
    }

    /// `config.yaml` in the configuration directory.
    pub fn default_config_path(home: Option<&str>) -> (r: String)
        ensures
            r@ == join_path_spec(config_dir_spec(opt_str(home)), "config.yaml"@),
    {
        let d = Self::config_dir(home);
        join_path(d.as_str(), "config.yaml")
    }

    /// The state directory under the home directory `home`.
    pub fn state_dir(home: Option<&str>) -> (r: String)
        ensures
            r@ == state_dir_spec(opt_str(home)),
    {
        match home {
            Some(h) => {
                let a = join_path(h, ".local");
                let b = join_path(a.as_str(), "state");
                join_path(b.as_str(), "mac-k3d")
            },
            None => owned(".mac-k3d"),
        }
    }

    /// The file that `load` and `save` use: the given one, else the default path.
    pub fn config_file(explicit: Option<&str>, home: Option<&str>) -> (r: String)
        ensures
            r@ == match explicit {
                Some(p) => p@,
                None => join_path_spec(config_dir_spec(opt_str(home)), "config.yaml"@),
            },
    {
        match explicit {
            Some(p) => owned(p),
            None => Self::default_config_path(home),
        }
    }

    /// Set whether Jenkins is deployed from the `--jenkins` flag of one run.
    pub fn apply_jenkins_mode(&mut self, mode: JenkinsMode)
        ensures
            final(self).jenkins.enabled == (mode == JenkinsMode::InCluster),
            final(self).role == old(self).role,
            final(self).cluster == old(self).cluster,
            final(self).jenkins.namespace == old(self).jenkins.namespace,
            final(self).jenkins.release_name == old(self).jenkins.release_name,
            final(self).jenkins.host_port == old(self).jenkins.host_port,
            final(self).docker == old(self).docker,
            final(self).storage == old(self).storage,
            final(self).dependencies == old(self).dependencies,
    {
        self.jenkins.enabled = match mode {
            JenkinsMode::InCluster => true,
            JenkinsMode::Skip => false,
        };
    }
}

impl DependenciesConfig {
    /// Replace the entry of the tool `name`; other names change nothing.
    pub fn set(&mut self, name: &str, entry: DependencyEntry)
        ensures
            final(self).docker@ == if name@ == "docker"@ { entry@ } else { old(self).docker@ },
            final(self).k3d@ == if name@ == "k3d"@ { entry@ } else { old(self).k3d@ },
            final(self).kubectl@ == if name@ == "kubectl"@ { entry@ } else { old(self).kubectl@ },
            final(self).helm@ == if name@ == "helm"@ { entry@ } else { old(self).helm@ },
            final(self)@ == old(self)@.with(name@, entry@),
    {
        proof {
            reveal_strlit("docker");
            reveal_strlit("k3d");
            reveal_strlit("kubectl");
            reveal_strlit("helm");
            assert("docker"@.len() == 6);
            assert("k3d"@.len() == 3);
            assert("kubectl"@.len() == 7);
            assert("helm"@.len() == 4);
        }
        if str_eq(name, "docker") {
            self.docker = entry;
        } else if str_eq(name, "k3d") {
            self.k3d = entry;
        } else if str_eq(name, "kubectl") {
            self.kubectl = entry;
        } else if str_eq(name, "helm") {
            self.helm = entry;
        }
    }

    /// The four tools with their names, in the order docker, k3d, kubectl, helm.
    pub fn entries(&self) -> (r: [(&'static str, &DependencyEntry); 4])
        ensures
            r@[0].0@ == "docker"@ && r@[0].1 == &self.docker,
            r@[1].0@ == "k3d"@ && r@[1].1 == &self.k3d,
            r@[2].0@ == "kubectl"@ && r@[2].1 == &self.kubectl,
            r@[3].0@ == "helm"@ && r@[3].1 == &self.helm,
    {
        [("docker", &self.docker), ("k3d", &self.k3d), ("kubectl", &self.kubectl), ("helm", &self.helm)]
    }
}

} // verus!
