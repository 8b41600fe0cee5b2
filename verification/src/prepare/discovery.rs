use vstd::prelude::*;

use crate::config::{opt_str, DependenciesConfig, DependencyEntry, DependencySource, EntryView};
use crate::prepare::facts::PathFacts;
use crate::prepare::path_env::dedupe;
use crate::text::{
    concat, contains_string, copy_opt, first_line, first_line_spec, join_path, join_path_spec,
    join_spec, join_with, opt_view, owned, push_str, split_on, split_spec, str_eq, trim,
    trim_spec, views,
};

verus! {

/// A tool found on this Mac.
#[derive(Debug)]
pub struct DiscoveredTool {
    pub binary: String,
    pub app: Option<String>,
    pub version_hint: Option<String>,
}

/// The abstract value of a [`DiscoveredTool`].
pub struct ToolView {
    pub binary: Seq<char>,
    pub app: Option<Seq<char>>,
    pub version_hint: Option<Seq<char>>,
}

impl View for DiscoveredTool {
    type V = ToolView;

    open spec fn view(&self) -> ToolView {
        ToolView {
            binary: self.binary@,
            app: opt_view(self.app),
            version_hint: opt_view(self.version_hint),
        }
    }
}

/// The view of an optional tool.
pub open spec fn opt_tool(t: Option<DiscoveredTool>) -> Option<ToolView> {
    match t {
        Some(t) => Some(t@),
        None => None,
    }
}

/// What a scan of the system found.
#[derive(Debug)]
pub struct DiscoveredDeps {
    pub docker: Option<DiscoveredTool>,
    pub k3d: Option<DiscoveredTool>,
    pub kubectl: Option<DiscoveredTool>,
    pub helm: Option<DiscoveredTool>,
    pub harbor: Option<DiscoveredTool>,
    pub java: Option<DiscoveredTool>,
    pub uv: Option<DiscoveredTool>,
    pub pipx: Option<DiscoveredTool>,
}

impl Default for DiscoveredDeps {
    fn default() -> (r: Self)
        ensures
            r.docker is None && r.k3d is None && r.kubectl is None && r.helm is None
                && r.harbor is None && r.java is None && r.uv is None && r.pipx is None,
    {
        DiscoveredDeps {
            docker: None,
            k3d: None,
            kubectl: None,
            helm: None,
            harbor: None,
            java: None,
            uv: None,
            pipx: None,
        }
    }
}

impl DiscoveredTool {
    /// A copy of the tool.
    pub fn duplicate(&self) -> (r: Self)
        ensures
            r@ == self@,
    {
        DiscoveredTool {
            binary: self.binary.clone(),
            app: copy_opt(&self.app),
            version_hint: copy_opt(&self.version_hint),
        }
    }

    /// `binary: <path>`, then `app: <path>` and `version: <v>` when known, joined by `, `.
    pub open spec fn describe_spec(&self) -> Seq<char> {
        join_spec(self.describe_parts(), ", "@)
    }

    /// The pieces of the description.
    pub open spec fn describe_parts(&self) -> Seq<Seq<char>> {
        let parts = seq!["binary: "@ + self.binary@];
        let parts = match self.app {
            Some(a) => parts.push("app: "@ + a@),
            None => parts,
        };
        match self.version_hint {
            Some(v) => parts.push("version: "@ + v@),
            None => parts,
        }
    }

    /// A one-line description of the tool.
    pub fn describe(&self) -> (r: String)
        ensures
            r@ == self.describe_spec(),
    {
        let mut parts: Vec<String> = Vec::new();
        parts.push(concat("binary: ", self.binary.as_str()));
        if let Some(app) = &self.app {
            parts.push(concat("app: ", app.as_str()));
        }
        if let Some(v) = &self.version_hint {
            parts.push(concat("version: ", v.as_str()));
        }
        assert(views(parts@) =~= self.describe_parts());
        join_with(&parts, ", ")
    }
}

/// The entry that a discovered tool gives: use its binary (and app bundle).
pub open spec fn tool_entry_spec(t: ToolView) -> EntryView {
    EntryView { source: DependencySource::Existing, binary: Some(t.binary), app: t.app }
}

/// The entry for a tool that may have been found: use it, else install it.
pub open spec fn default_entry_spec(t: Option<ToolView>) -> EntryView {
    match t {
        Some(t) => tool_entry_spec(t),
        None => EntryView { source: DependencySource::Install, binary: None, app: None },
    }
}

/// The entry for a tool that may have been found: use it, else install it.
pub fn default_entry(tool: &Option<DiscoveredTool>) -> (r: DependencyEntry)
    ensures
        r@ == default_entry_spec(opt_tool(*tool)),
{
    match tool {
        Some(t) => DependencyEntry {
            source: DependencySource::Existing,
            binary: Some(t.binary.clone()),
            app: copy_opt(&t.app),
        },
        None => DependencyEntry { source: DependencySource::Install, binary: None, app: None },
    }
}

/// The dependency section for what a scan found.
pub fn to_dependencies_config(deps: &DiscoveredDeps) -> (r: DependenciesConfig)
    ensures
        r.docker@ == default_entry_spec(opt_tool(deps.docker)),
        r.k3d@ == default_entry_spec(opt_tool(deps.k3d)),
        r.kubectl@ == default_entry_spec(opt_tool(deps.kubectl)),
        r.helm@ == default_entry_spec(opt_tool(deps.helm)),
{
    DependenciesConfig {
        docker: default_entry(&deps.docker),
        k3d: default_entry(&deps.k3d),
        kubectl: default_entry(&deps.kubectl),
        helm: default_entry(&deps.helm),
    }
}

impl DiscoveredDeps {
    /// The tool named `name`, if it is one of the scanned tools and was found.
    pub open spec fn get_spec(&self, name: Seq<char>) -> Option<ToolView> {
        if name == "docker"@ {
            opt_tool(self.docker)
        } else if name == "k3d"@ {
            opt_tool(self.k3d)
        } else if name == "kubectl"@ {
            opt_tool(self.kubectl)
        } else if name == "helm"@ {
            opt_tool(self.helm)
        } else if name == "harbor"@ {
            opt_tool(self.harbor)
        } else if name == "java"@ {
            opt_tool(self.java)
        } else {
            None
        }
    }

    /// The tool named `name`, if it is one of the scanned tools and was found.
    pub fn get(&self, name: &str) -> (r: Option<DiscoveredTool>)
        ensures
            opt_tool(r) == self.get_spec(name@),
    {
        let t = if str_eq(name, "docker") {
            &self.docker
        } else if str_eq(name, "k3d") {
            &self.k3d
        } else if str_eq(name, "kubectl") {
            &self.kubectl
        } else if str_eq(name, "helm") {
            &self.helm
        } else if str_eq(name, "harbor") {
            &self.harbor
        } else if str_eq(name, "java") {
            &self.java
        } else {
            return None;
        };
        match t {
            Some(t) => Some(t.duplicate()),
            None => None,
        }
    }
}

/// Where Docker Desktop's bundle is looked for.
pub open spec fn docker_app_path() -> Seq<char> {
    "/Applications/Docker.app"@
}

/// The Docker CLI found: on `PATH`, else in a Homebrew location; Docker Desktop is
/// reported with its bundle when the bundle exists, and a bundle without a CLI
/// still counts, with the CLI where Docker Desktop links it.
pub open spec fn docker_tool_spec(app_exists: bool, binary: Option<Seq<char>>) -> Option<ToolView> {
    match binary {
        Some(b) => Some(
            ToolView {
                binary: b,
                app: if app_exists {
                    Some(docker_app_path())
                } else {
                    None
                },
                version_hint: None,
            },
        ),
        None => if app_exists {
            Some(
                ToolView {
                    binary: "/usr/local/bin/docker"@,
                    app: Some(docker_app_path()),
                    version_hint: None,
                },
            )
        } else {
            None
        },
    }
}

/// Docker from what was found of the bundle and the CLI.
pub fn docker_tool(app_exists: bool, binary: Option<String>) -> (r: Option<DiscoveredTool>)
    ensures
        opt_tool(r) == docker_tool_spec(app_exists, opt_view(binary)),
{
    let app = if app_exists {
        Some(owned("/Applications/Docker.app"))
    } else {
        None
    };
    match binary {
        Some(b) => Some(DiscoveredTool { binary: b, app, version_hint: None }),
        None => if app_exists {
            Some(
                DiscoveredTool {
                    binary: owned("/usr/local/bin/docker"),
                    app,
                    version_hint: None,
                },
            )
        } else {
            None
        },
    }
}

/// Where the Docker CLI is looked for when it is not on `PATH`.
pub fn docker_fallback_paths() -> (r: Vec<String>)
    ensures
        views(r@) == seq!["/usr/local/bin/docker"@, "/opt/homebrew/bin/docker"@],
{
    let mut v: Vec<String> = Vec::new();
    push_str(&mut v, "/usr/local/bin/docker");
    push_str(&mut v, "/opt/homebrew/bin/docker");
    v
}

/// The first candidate known to exist.
pub open spec fn first_present_spec(cands: Seq<Seq<char>>, facts: &PathFacts) -> Option<Seq<char>>
    decreases cands.len(),
{
    if cands.len() == 0 {
        None
    } else if facts.is_present(cands[0]) {
        Some(cands[0])
    } else {
        first_present_spec(cands.drop_first(), facts)
    }
}

/// The first candidate known to exist.
pub fn first_present(cands: &Vec<String>, facts: &PathFacts) -> (r: Option<String>)
    ensures
        opt_view(r) == first_present_spec(views(cands@), facts),
{
    let mut i: usize = 0;
    assert(views(cands@).skip(0) =~= views(cands@));
    while i < cands.len()
        invariant
            i <= cands.len(),
            first_present_spec(views(cands@), facts) == first_present_spec(
                views(cands@).skip(i as int),
                facts,
            ),
        decreases cands.len() - i,
    {
        let ghost rest = views(cands@).skip(i as int);
        assert(rest[0] == cands@[i as int]@);
        if facts.path_exists(cands[i].as_str()) {
            return Some(cands[i].clone());
        }
        assert(rest.drop_first() =~= views(cands@).skip(i + 1));
        i = i + 1;
    }
    None
}

/// Where `name` would be on `PATH`: each `PATH` directory joined with the name.
pub open spec fn which_candidates_spec(path_var: Seq<char>, name: Seq<char>) -> Seq<Seq<char>> {
    split_spec(path_var, ':').map_values(|d: Seq<char>| join_path_spec(d, name))
}

/// Where `name` would be on `PATH`, in search order.
pub fn which_candidates(path_var: &str, name: &str) -> (r: Vec<String>)
    ensures
        views(r@) == which_candidates_spec(path_var@, name@),
{
    let dirs = split_on(path_var, ':');
    let mut r: Vec<String> = Vec::new();
    let mut i: usize = 0;
    while i < dirs.len()
        invariant
            views(dirs@) == split_spec(path_var@, ':'),
            i <= dirs.len(),
            views(r@) =~= views(dirs@).take(i as int).map_values(
                |d: Seq<char>| join_path_spec(d, name@),
            ),
        decreases dirs.len() - i,
    {
        let ghost prev = views(r@);
        r.push(join_path(dirs[i].as_str(), name));
        assert(views(r@) =~= prev.push(join_path_spec(dirs@[i as int]@, name@)));
        assert(views(dirs@).take(i + 1).map_values(|d: Seq<char>| join_path_spec(d, name@))
            =~= views(dirs@).take(i as int).map_values(|d: Seq<char>| join_path_spec(d, name@)).push(
            join_path_spec(dirs@[i as int]@, name@),
        ));
        i = i + 1;
    }
    assert(views(dirs@).take(dirs.len() as int) =~= views(dirs@));
    r
}

/// Where `name` is on `PATH`: the first candidate known to exist.
pub fn which(name: &str, path_var: Option<&str>, facts: &PathFacts) -> (r: Option<String>)
    ensures
        opt_view(r) == match path_var {
            Some(p) => first_present_spec(which_candidates_spec(p@, name@), facts),
            None => None,
        },
{
    match path_var {
        Some(p) => {
            let cands = which_candidates(p, name);
            first_present(&cands, facts)
        },
        None => None,
    }
}

/// The flag that prints a tool's version.
pub open spec fn version_flag_spec(name: Seq<char>) -> Seq<char> {
    if name == "docker"@ || name == "java"@ || name == "harbor"@ {
        "--version"@
    } else {
        "version"@
    }
}

/// The flag that prints a tool's version.
pub fn version_flag(name: &str) -> (r: String)
    ensures
        r@ == version_flag_spec(name@),
{
    if str_eq(name, "docker") || str_eq(name, "java") || str_eq(name, "harbor") {
        owned("--version")
    } else {
        owned("version")
    }
}

/// The version line: the first line of standard output, else of standard error, trimmed.
pub open spec fn version_line_spec(stdout: Seq<char>, stderr: Seq<char>) -> Option<Seq<char>> {
    match first_line_spec(stdout) {
        Some(l) => Some(trim_spec(l)),
        None => match first_line_spec(stderr) {
            Some(l) => Some(trim_spec(l)),
            None => None,
        },
    }
}

/// The version of a tool from the output of its successful version command.
pub fn version_line(stdout: &str, stderr: &str) -> (r: Option<String>)
    ensures
        opt_view(r) == version_line_spec(stdout@, stderr@),
{
    match first_line(stdout) {
        Some(l) => Some(trim(l.as_str())),
        None => match first_line(stderr) {
            Some(l) => Some(trim(l.as_str())),
            None => None,
        },
    }
}

/// Where Java is inside a `java_home` directory.
pub fn java_binary_in(java_home: &str) -> (r: String)
    ensures
        r@ == join_path_spec(java_home@, "bin/java"@),
{
    join_path(java_home, "bin/java")
}

/// Java from `/usr/libexec/java_home`: its output trimmed is the home, and the tool is
/// reported when `bin/java` exists there, with the home as version hint.
pub fn java_from_home(home_output: &str, binary_exists: bool) -> (r: Option<DiscoveredTool>)
    ensures
        binary_exists ==> opt_tool(r) == Some(
            ToolView {
                binary: join_path_spec(trim_spec(home_output@), "bin/java"@),
                app: None,
                version_hint: Some(trim_spec(home_output@)),
            },
        ),
        !binary_exists ==> r is None,
{
    if !binary_exists {
        return None;
    }
    let home = trim(home_output);
    let binary = java_binary_in(home.as_str());
    Some(DiscoveredTool { binary, app: None, version_hint: Some(home) })
}

/// Where a LoLBench-Preview checkout is looked for: three places in the home
/// directory, then `github/LoLBench-Preview` on each mounted volume.
pub open spec fn lolbench_candidates_spec(home: Option<Seq<char>>, volumes: Seq<Seq<char>>) -> Seq<
    Seq<char>,
> {
    let in_home = match home {
        Some(h) => seq![
            join_path_spec(h, "github/LoLBench-Preview"@),
            join_path_spec(h, "src/LoLBench-Preview"@),
            join_path_spec(h, "LoLBench-Preview"@),
        ],
        None => Seq::empty(),
    };
    in_home + volumes.map_values(|v: Seq<char>| join_path_spec(v, "github/LoLBench-Preview"@))
}

/// Where a LoLBench-Preview checkout is looked for.
pub fn lolbench_candidates(home: Option<&str>, volumes: &Vec<String>) -> (r: Vec<String>)
    ensures
        views(r@) == lolbench_candidates_spec(
            match home {
                Some(h) => Some(h@),
                None => None,
            },
            views(volumes@),
        ),
{
    let mut r: Vec<String> = Vec::new();
    if let Some(h) = home {
        r.push(join_path(h, "github/LoLBench-Preview"));
        r.push(join_path(h, "src/LoLBench-Preview"));
        r.push(join_path(h, "LoLBench-Preview"));
    }
    let ghost start = views(r@);
    let mut i: usize = 0;
    while i < volumes.len()
        invariant
            i <= volumes.len(),
            views(r@) =~= start + views(volumes@).take(i as int).map_values(
                |v: Seq<char>| join_path_spec(v, "github/LoLBench-Preview"@),
            ),
        decreases volumes.len() - i,
    {
        let ghost prev = views(r@);
        r.push(join_path(volumes[i].as_str(), "github/LoLBench-Preview"));
        assert(views(r@) =~= prev.push(join_path_spec(volumes@[i as int]@, "github/LoLBench-Preview"@)));
        assert(views(volumes@).take(i + 1).map_values(
            |v: Seq<char>| join_path_spec(v, "github/LoLBench-Preview"@),
        ) =~= views(volumes@).take(i as int).map_values(
            |v: Seq<char>| join_path_spec(v, "github/LoLBench-Preview"@),
        ).push(join_path_spec(volumes@[i as int]@, "github/LoLBench-Preview"@)));
        i = i + 1;
    }
    assert(views(volumes@).take(volumes.len() as int) =~= views(volumes@));
    r
}

/// The candidates marked as checkouts.
pub open spec fn marked(cands: Seq<Seq<char>>, is_checkout: Seq<bool>) -> Seq<Seq<char>>
    decreases cands.len(),
{
    if cands.len() == 0 {
        Seq::empty()
    } else {
        let r = marked(cands.drop_last(), is_checkout);
        if is_checkout[cands.len() - 1] {
            r.push(cands.last())
        } else {
            r
        }
    }
}

/// The checkouts among the candidates, each once, in search order. A candidate is a
/// checkout when it has `harbor_tasks/` or `scripts/run_task.sh`.
pub fn select_checkouts(cands: &Vec<String>, is_checkout: &Vec<bool>) -> (r: Vec<String>)
    requires
        is_checkout.len() == cands.len(),
    ensures
        views(r@) == dedupe(marked(views(cands@), is_checkout@)),
{
    let mut found: Vec<String> = Vec::new();
    let mut i: usize = 0;
    while i < cands.len()
        invariant
            is_checkout.len() == cands.len(),
            i <= cands.len(),
            views(found@) == dedupe(marked(views(cands@).take(i as int), is_checkout@)),
        decreases cands.len() - i,
    {
        let ghost before = views(cands@).take(i as int);
        let ghost after = views(cands@).take(i + 1);
        assert(after.drop_last() =~= before);
        assert(after.last() == cands@[i as int]@);
        if is_checkout[i] {
            let ghost m = marked(before, is_checkout@);
            assert(marked(after, is_checkout@) == m.push(cands@[i as int]@));
            assert(m.push(cands@[i as int]@).drop_last() =~= m);
            if !contains_string(&found, cands[i].as_str()) {
                found.push(cands[i].clone());
                assert(views(found@) =~= dedupe(m).push(cands@[i as int]@));
            }
        } else {
            assert(marked(after, is_checkout@) == marked(before, is_checkout@));
        }
        i = i + 1;
    }
    assert(views(cands@).take(cands.len() as int) =~= views(cands@));
    found
}

/// The version lines that the located tools printed, by binary path. Gathered by
/// the caller, which runs each binary with its [`version_flag`].
#[derive(Debug)]
pub struct VersionFacts {
    pub binaries: Vec<String>,
    pub lines: Vec<String>,
}

/// The line recorded for `binary`: the first one recorded for it.
pub open spec fn lookup_spec(binaries: Seq<Seq<char>>, lines: Seq<Seq<char>>, binary: Seq<char>) -> Option<
    Seq<char>,
>
    decreases binaries.len(),
{
    if binaries.len() == 0 || lines.len() == 0 {
        None
    } else if binaries[0] == binary {
        Some(lines[0])
    } else {
        lookup_spec(binaries.drop_first(), lines.drop_first(), binary)
    }
}

impl VersionFacts {
    /// The version line recorded for `binary`, if any.
    pub open spec fn version_of(&self, binary: Seq<char>) -> Option<Seq<char>> {
        lookup_spec(views(self.binaries@), views(self.lines@), binary)
    }

    /// No version known.
    pub fn new() -> (r: Self)
        ensures
            forall|b: Seq<char>| r.version_of(b) is None,
    {
        VersionFacts { binaries: Vec::new(), lines: Vec::new() }
    }

    /// The version line recorded for `binary`, if any.
    pub fn lookup(&self, binary: &str) -> (r: Option<String>)
        ensures
            opt_view(r) == self.version_of(binary@),
    {
        let mut i: usize = 0;
        assert(views(self.binaries@).skip(0) =~= views(self.binaries@));
        assert(views(self.lines@).skip(0) =~= views(self.lines@));
        while i < self.binaries.len() && i < self.lines.len()
            invariant
                i <= self.binaries.len(),
                i <= self.lines.len(),
                self.version_of(binary@) == lookup_spec(
                    views(self.binaries@).skip(i as int),
                    views(self.lines@).skip(i as int),
                    binary@,
                ),
            decreases self.binaries.len() - i,
        {
            let ghost bs = views(self.binaries@).skip(i as int);
            let ghost ls = views(self.lines@).skip(i as int);
            assert(bs[0] == self.binaries@[i as int]@);
            assert(ls[0] == self.lines@[i as int]@);
            if str_eq(self.binaries[i].as_str(), binary) {
                return Some(self.lines[i].clone());
            }
            assert(bs.drop_first() =~= views(self.binaries@).skip(i + 1));
            assert(ls.drop_first() =~= views(self.lines@).skip(i + 1));
            i = i + 1;
        }
        assert(views(self.binaries@).skip(i as int).len() == 0 || views(self.lines@).skip(
            i as int,
        ).len() == 0);
        None
    }
}

/// Where `name` is on `PATH`, if anywhere.
pub open spec fn which_spec(name: Seq<char>, path_var: Option<Seq<char>>, facts: &PathFacts) -> Option<
    Seq<char>,
> {
    match path_var {
        Some(p) => first_present_spec(which_candidates_spec(p, name), facts),
        None => None,
    }
}

/// A tool on `PATH`, with the version line its binary printed.
pub open spec fn on_path_spec(
    name: Seq<char>,
    path_var: Option<Seq<char>>,
    facts: &PathFacts,
    versions: &VersionFacts,
) -> Option<ToolView> {
    match which_spec(name, path_var, facts) {
        Some(b) => Some(ToolView { binary: b, app: None, version_hint: versions.version_of(b) }),
        None => None,
    }
}

/// Docker: the CLI on `PATH`, else in a Homebrew location, with Docker Desktop's bundle.
pub open spec fn scanned_docker_spec(path_var: Option<Seq<char>>, facts: &PathFacts) -> Option<
    ToolView,
> {
    let binary = match which_spec("docker"@, path_var, facts) {
        Some(b) => Some(b),
        None => first_present_spec(
            seq!["/usr/local/bin/docker"@, "/opt/homebrew/bin/docker"@],
            facts,
        ),
    };
    docker_tool_spec(facts.is_present(docker_app_path()), binary)
}

/// Java: on `PATH`, else under the home that `/usr/libexec/java_home` printed.
pub open spec fn scanned_java_spec(
    path_var: Option<Seq<char>>,
    facts: &PathFacts,
    versions: &VersionFacts,
    java_home: Option<Seq<char>>,
) -> Option<ToolView> {
    match which_spec("java"@, path_var, facts) {
        Some(b) => on_path_spec("java"@, path_var, facts, versions),
        None => match java_home {
            Some(h) => if facts.is_present(join_path_spec(trim_spec(h), "bin/java"@)) {
                Some(
                    ToolView {
                        binary: join_path_spec(trim_spec(h), "bin/java"@),
                        app: None,
                        version_hint: Some(trim_spec(h)),
                    },
                )
            } else {
                None
            },
            None => None,
        },
    }
}

/// A tool that may be on `PATH`, with its version.
fn discover_on_path(name: &str, path_var: Option<&str>, facts: &PathFacts, versions: &VersionFacts) -> (r:
    Option<DiscoveredTool>)
    ensures
        opt_tool(r) == on_path_spec(name@, opt_str(path_var), facts, versions),
{
    match which(name, path_var, facts) {
        Some(b) => {
            let v = versions.lookup(b.as_str());
            Some(DiscoveredTool { binary: b, app: None, version_hint: v })
        },
        None => None,
    }
}

/// Docker Desktop and its CLI.
fn discover_docker(path_var: Option<&str>, facts: &PathFacts) -> (r: Option<DiscoveredTool>)
    ensures
        opt_tool(r) == scanned_docker_spec(opt_str(path_var), facts),
{
    let app_exists = facts.path_exists("/Applications/Docker.app");
    proof {
        reveal_strlit("/Applications/Docker.app");
    }
    let binary = match which("docker", path_var, facts) {
        Some(b) => Some(b),
        None => {
            let fallbacks = docker_fallback_paths();
            first_present(&fallbacks, facts)
        },
    };
    docker_tool(app_exists, binary)
}

/// Java on `PATH`, else from `java_home`'s output.
fn discover_java(
    path_var: Option<&str>,
    facts: &PathFacts,
    versions: &VersionFacts,
    java_home: Option<&str>,
) -> (r: Option<DiscoveredTool>)
    ensures
        opt_tool(r) == scanned_java_spec(opt_str(path_var), facts, versions, opt_str(java_home)),
{
    if which("java", path_var, facts).is_some() {
        return discover_on_path("java", path_var, facts, versions);
    }
    match java_home {
        Some(h) => {
            let home = trim(h);
            let binary = java_binary_in(home.as_str());
            let exists = facts.path_exists(binary.as_str());
            java_from_home(h, exists)
        },
        None => None,
    }
}

/// The tools that a scan of the system finds, from what is known of it: the paths
/// that exist, the version lines the located binaries printed, and the output of
/// `/usr/libexec/java_home` when it succeeded. The scan changes nothing.
pub fn discover_all(
    path_var: Option<&str>,
    facts: &PathFacts,
    versions: &VersionFacts,
    java_home: Option<&str>,
) -> (r: DiscoveredDeps)
    ensures
        opt_tool(r.docker) == scanned_docker_spec(opt_str(path_var), facts),
        which_spec("docker"@, opt_str(path_var), facts) matches Some(b) ==> (r.docker matches Some(
            t,
        ) && t.binary@ == b),
        opt_tool(r.k3d) == on_path_spec("k3d"@, opt_str(path_var), facts, versions),
        opt_tool(r.kubectl) == on_path_spec("kubectl"@, opt_str(path_var), facts, versions),
        opt_tool(r.helm) == on_path_spec("helm"@, opt_str(path_var), facts, versions),
        opt_tool(r.harbor) == on_path_spec("harbor"@, opt_str(path_var), facts, versions),
        opt_tool(r.java) == scanned_java_spec(
            opt_str(path_var),
            facts,
            versions,
            opt_str(java_home),
        ),
        opt_tool(r.uv) == on_path_spec("uv"@, opt_str(path_var), facts, versions),
        opt_tool(r.pipx) == on_path_spec("pipx"@, opt_str(path_var), facts, versions),
{
    proof {
        lemma_docker_from_path_first(opt_str(path_var), facts);
    }
    DiscoveredDeps {
        docker: discover_docker(path_var, facts),
        k3d: discover_on_path("k3d", path_var, facts, versions),
        kubectl: discover_on_path("kubectl", path_var, facts, versions),
        helm: discover_on_path("helm", path_var, facts, versions),
        harbor: discover_on_path("harbor", path_var, facts, versions),
        java: discover_java(path_var, facts, versions, java_home),
        uv: discover_on_path("uv", path_var, facts, versions),
        pipx: discover_on_path("pipx", path_var, facts, versions),
    }
}

/// The tools that a scan looks for on `PATH`.
pub open spec fn scanned_names() -> Seq<Seq<char>> {
    seq!["docker"@, "k3d"@, "kubectl"@, "helm"@, "harbor"@, "java"@, "uv"@, "pipx"@]
}

/// The tools that a scan looks for on `PATH`, in scan order.
pub fn scanned_tool_names() -> (r: Vec<String>)
    ensures
        views(r@) == scanned_names(),
{
    let mut v: Vec<String> = Vec::new();
    push_str(&mut v, "docker");
    push_str(&mut v, "k3d");
    push_str(&mut v, "kubectl");
    push_str(&mut v, "helm");
    push_str(&mut v, "harbor");
    push_str(&mut v, "java");
    push_str(&mut v, "uv");
    push_str(&mut v, "pipx");
    v
}

/// The paths whose existence a scan reads: each scanned tool's place in each `PATH`
/// directory, the Homebrew places of the Docker CLI, and Docker Desktop's bundle.
pub open spec fn scan_probe_spec(path_var: Option<Seq<char>>) -> Seq<Seq<char>> {
    let on_path = match path_var {
        Some(p) => which_candidates_spec(p, "docker"@) + which_candidates_spec(p, "k3d"@)
            + which_candidates_spec(p, "kubectl"@) + which_candidates_spec(p, "helm"@)
            + which_candidates_spec(p, "harbor"@) + which_candidates_spec(p, "java"@)
            + which_candidates_spec(p, "uv"@) + which_candidates_spec(p, "pipx"@)
            + which_candidates_spec(p, "brew"@),
        None => Seq::empty(),
    };
    on_path + seq!["/usr/local/bin/docker"@, "/opt/homebrew/bin/docker"@, docker_app_path()]
}

fn append_candidates(v: &mut Vec<String>, path_var: &str, name: &str)
    ensures
        views(final(v)@) == views(old(v)@) + which_candidates_spec(path_var@, name@),
{
    let ghost before = views(v@);
    let mut c = which_candidates(path_var, name);
    let ghost added = views(c@);
    v.append(&mut c);
    assert(views(v@) =~= before + added);
}

/// The paths whose existence a scan reads, for the caller to probe.
pub fn scan_probe_paths(path_var: Option<&str>) -> (r: Vec<String>)
    ensures
        views(r@) == scan_probe_spec(opt_str(path_var)),
{
    let mut v: Vec<String> = Vec::new();
    if let Some(p) = path_var {
        append_candidates(&mut v, p, "docker");
        append_candidates(&mut v, p, "k3d");
        append_candidates(&mut v, p, "kubectl");
        append_candidates(&mut v, p, "helm");
        append_candidates(&mut v, p, "harbor");
        append_candidates(&mut v, p, "java");
        append_candidates(&mut v, p, "uv");
        append_candidates(&mut v, p, "pipx");
        append_candidates(&mut v, p, "brew");
    }
    let ghost mid = views(v@);
    push_str(&mut v, "/usr/local/bin/docker");
    push_str(&mut v, "/opt/homebrew/bin/docker");
    push_str(&mut v, "/Applications/Docker.app");
    assert(views(v@) =~= mid + seq![
        "/usr/local/bin/docker"@,
        "/opt/homebrew/bin/docker"@,
        docker_app_path(),
    ]);
    v
}

/// The first present candidate depends only on whether the candidates exist.
proof fn lemma_first_present_reads(cands: Seq<Seq<char>>, a: &PathFacts, b: &PathFacts)
    requires
        forall|p: Seq<char>| cands.contains(p) ==> a.is_present(p) == b.is_present(p),
    ensures
        first_present_spec(cands, a) == first_present_spec(cands, b),
    decreases cands.len(),
{
    if cands.len() > 0 {
        assert(cands.contains(cands[0]));
        let rest = cands.drop_first();
        assert forall|p: Seq<char>| rest.contains(p) implies a.is_present(p) == b.is_present(p) by {
            let i = choose|i: int| 0 <= i < rest.len() && rest[i] == p;
            assert(cands[i + 1] == p);
        }
        lemma_first_present_reads(rest, a, b);
    }
}

/// What one piece of a flattened sequence holds, the flattened sequence holds.
proof fn lemma_flatten_contains(parts: Seq<Seq<Seq<char>>>, i: int, p: Seq<char>)
    requires
        0 <= i < parts.len(),
        parts[i].contains(p),
    ensures
        parts.flatten().contains(p),
    decreases parts.len(),
{
    let f = parts.flatten();
    assert(f == parts.first() + parts.drop_first().flatten());
    if i == 0 {
        let k = choose|k: int| 0 <= k < parts[0].len() && parts[0][k] == p;
        assert(f[k] == p);
    } else {
        lemma_flatten_contains(parts.drop_first(), i - 1, p);
        let rest = parts.drop_first().flatten();
        let k = choose|k: int| 0 <= k < rest.len() && rest[k] == p;
        assert(f[parts.first().len() + k] == p);
    }
}

/// The tools whose places on `PATH` a scan probes.
pub open spec fn probed_names() -> Seq<Seq<char>> {
    scanned_names().push("brew"@)
}

/// The places on `PATH` that a scan probes, tool by tool.
spec fn path_probes(path_var: Option<Seq<char>>) -> Seq<Seq<char>> {
    match path_var {
        Some(pv) => probed_names().map_values(|n: Seq<char>| which_candidates_spec(pv, n)).flatten(),
        None => Seq::empty(),
    }
}

proof fn lemma_probe_layout(path_var: Option<Seq<char>>)
    ensures
        scan_probe_spec(path_var) == path_probes(path_var) + seq![
            "/usr/local/bin/docker"@,
            "/opt/homebrew/bin/docker"@,
            docker_app_path(),
        ],
{
    if let Some(pv) = path_var {
        let parts = probed_names().map_values(|n: Seq<char>| which_candidates_spec(pv, n));
        assert(parts.flatten() =~= which_candidates_spec(pv, "docker"@) + which_candidates_spec(pv, "k3d"@)
            + which_candidates_spec(pv, "kubectl"@) + which_candidates_spec(pv, "helm"@)
            + which_candidates_spec(pv, "harbor"@) + which_candidates_spec(pv, "java"@)
            + which_candidates_spec(pv, "uv"@) + which_candidates_spec(pv, "pipx"@)
            + which_candidates_spec(pv, "brew"@)) by {
            reveal_with_fuel(Seq::flatten, 10);
        }
    }
    assert(scan_probe_spec(path_var) =~= path_probes(path_var) + seq![
        "/usr/local/bin/docker"@,
        "/opt/homebrew/bin/docker"@,
        docker_app_path(),
    ]);
}

/// Where a probed tool is found on `PATH` depends only on the probed places.
proof fn lemma_which_reads(path_var: Option<Seq<char>>, a: &PathFacts, b: &PathFacts, name: Seq<char>)
    requires
        probed_names().contains(name),
        forall|p: Seq<char>| #[trigger]
            path_probes(path_var).contains(p) ==> a.is_present(p) == b.is_present(p),
    ensures
        which_spec(name, path_var, a) == which_spec(name, path_var, b),
{
    if let Some(pv) = path_var {
        let parts = probed_names().map_values(|n: Seq<char>| which_candidates_spec(pv, n));
        let i = choose|i: int| 0 <= i < probed_names().len() && probed_names()[i] == name;
        assert forall|p: Seq<char>| which_candidates_spec(pv, name).contains(p) implies a.is_present(p)
            == b.is_present(p) by {
            lemma_flatten_contains(parts, i, p);
            assert(path_probes(path_var).contains(p));
        }
        lemma_first_present_reads(which_candidates_spec(pv, name), a, b);
    }
}

/// A scan reads the file system only at [`scan_probe_paths`] and, when
/// `java_home` answered, at `bin/java` under the home it printed: two views of the
/// file system that agree there find the same tools.
pub proof fn lemma_scan_reads_probe_paths(
    path_var: Option<Seq<char>>,
    a: &PathFacts,
    b: &PathFacts,
    versions: &VersionFacts,
    java_home: Option<Seq<char>>,
)
    requires
        forall|p: Seq<char>| #[trigger]
            scan_probe_spec(path_var).contains(p) ==> a.is_present(p) == b.is_present(p),
        match java_home {
            Some(h) => a.is_present(join_path_spec(trim_spec(h), "bin/java"@)) == b.is_present(
                join_path_spec(trim_spec(h), "bin/java"@),
            ),
            None => true,
        },
    ensures
        scanned_docker_spec(path_var, a) == scanned_docker_spec(path_var, b),
        forall|name: Seq<char>| #[trigger]
            scanned_names().contains(name) ==> on_path_spec(name, path_var, a, versions)
                == on_path_spec(name, path_var, b, versions),
        scanned_java_spec(path_var, a, versions, java_home) == scanned_java_spec(
            path_var,
            b,
            versions,
            java_home,
        ),
{
    lemma_probe_layout(path_var);
    let all = scan_probe_spec(path_var);
    let on_path = path_probes(path_var);
    assert forall|p: Seq<char>| #[trigger] on_path.contains(p) implies a.is_present(p) == b.is_present(p) by {
        let k = choose|k: int| 0 <= k < on_path.len() && on_path[k] == p;
        assert(all[k] == p);
        assert(all.contains(p));
    }
    let fallbacks = seq!["/usr/local/bin/docker"@, "/opt/homebrew/bin/docker"@];
    assert forall|p: Seq<char>| fallbacks.contains(p) implies a.is_present(p) == b.is_present(p) by {
        let k = choose|k: int| 0 <= k < fallbacks.len() && fallbacks[k] == p;
        assert(all[on_path.len() + k] == p);
        assert(all.contains(p));
    }
    lemma_first_present_reads(fallbacks, a, b);
    assert(all[on_path.len() + 2int] == docker_app_path());
    assert(all.contains(docker_app_path()));
    assert(probed_names()[0] == "docker"@);
    lemma_which_reads(path_var, a, b, "docker"@);
    assert(probed_names()[5] == "java"@);
    lemma_which_reads(path_var, a, b, "java"@);
    assert forall|name: Seq<char>| #[trigger] scanned_names().contains(name) implies on_path_spec(
        name,
        path_var,
        a,
        versions,
    ) == on_path_spec(name, path_var, b, versions) by {
        let i = choose|i: int| 0 <= i < scanned_names().len() && scanned_names()[i] == name;
        assert(probed_names()[i] == name);
        lemma_which_reads(path_var, a, b, name);
    }
}

/// The first present candidate is a candidate, and present.
proof fn lemma_first_present_is_present(cands: Seq<Seq<char>>, facts: &PathFacts)
    ensures
        first_present_spec(cands, facts) matches Some(x) ==> facts.is_present(x) && cands.contains(x),
        first_present_spec(cands, facts) is None ==> forall|i: int|
            0 <= i < cands.len() ==> !facts.is_present(#[trigger] cands[i]),
    decreases cands.len(),
{
    if cands.len() > 0 {
        lemma_first_present_is_present(cands.drop_first(), facts);
        if let Some(x) = first_present_spec(cands.drop_first(), facts) {
            let i = choose|i: int| 0 <= i < cands.drop_first().len() && cands.drop_first()[i] == x;
            assert(cands[i + 1] == x);
        }
        assert(cands[0] == cands[0]);
        assert forall|i: int| 0 < i < cands.len() implies cands[i] == cands.drop_first()[i - 1] by {}
    }
}

/// Docker is taken from `PATH` first: when the CLI is on `PATH`, that is the binary
/// reported, with the bundle when it exists. A reported binary exists, except the
/// link Docker Desktop makes, reported only when the bundle exists and no CLI is on
/// `PATH` or in the Homebrew places.
pub proof fn lemma_docker_from_path_first(path_var: Option<Seq<char>>, facts: &PathFacts)
    ensures
        which_spec("docker"@, path_var, facts) matches Some(b) ==> (scanned_docker_spec(
            path_var,
            facts,
        ) matches Some(t) && t.binary == b && t.app == (if facts.is_present(
            "/Applications/Docker.app"@,
        ) {
            Some("/Applications/Docker.app"@)
        } else {
            None
        })),
        scanned_docker_spec(path_var, facts) matches Some(t) ==> facts.is_present(t.binary) || (
        t.binary == "/usr/local/bin/docker"@ && which_spec("docker"@, path_var, facts) is None
            && !facts.is_present("/usr/local/bin/docker"@) && !facts.is_present(
            "/opt/homebrew/bin/docker"@,
        ) && facts.is_present("/Applications/Docker.app"@)),
        scanned_docker_spec(path_var, facts) is None ==> !facts.is_present(
            "/Applications/Docker.app"@,
        ),
{
    let fallbacks = seq!["/usr/local/bin/docker"@, "/opt/homebrew/bin/docker"@];
    lemma_first_present_is_present(fallbacks, facts);
    if let Some(p) = path_var {
        lemma_first_present_is_present(which_candidates_spec(p, "docker"@), facts);
    }
    assert(fallbacks[0] == "/usr/local/bin/docker"@);
    assert(fallbacks[1] == "/opt/homebrew/bin/docker"@);
}

} // verus!
