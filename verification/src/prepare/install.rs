use vstd::prelude::*;

use crate::config::{DependenciesConfig, DependencyEntry, DependencySource, EntryView};
use crate::error::Error;
use crate::config::opt_str;
use crate::prepare::discovery::{
    first_present_spec, tool_entry_spec, which, which_candidates_spec, which_spec, DiscoveredDeps,
    DiscoveredTool,
};
use crate::prepare::facts::PathFacts;
use crate::text::{
    concat, concat3, copy_opt, join_spec, join_with, opt_view, owned, push_str, str_eq, views,
};

verus! {

/// How a tool gets installed.
#[derive(Debug)]
pub enum InstallMethod {
    /// Harbor, which is a Python tool (see [`harbor_route`]).
    Harbor,
    /// `brew` with these arguments.
    Brew(Vec<String>),
}

/// The Homebrew arguments that install the tool `name`, if it is one that can be installed.
pub open spec fn brew_args_spec(name: Seq<char>) -> Option<Seq<Seq<char>>> {
    if name == "java"@ {
        Some(seq!["install"@, "--cask"@, "temurin"@])
    } else if name == "docker"@ {
        Some(seq!["install"@, "--cask"@, "docker"@])
    } else if name == "k3d"@ || name == "kubectl"@ || name == "helm"@ {
        Some(seq!["install"@, name])
    } else {
        None
    }
}

/// The Homebrew installs: k3d, kubectl and helm are formulae installed by name;
/// only Docker Desktop and Java (Temurin) are casks; no other tool is installed
/// with Homebrew.
pub proof fn lemma_brew_args(name: Seq<char>)
    ensures
        brew_args_spec("k3d"@) == Some(seq!["install"@, "k3d"@]),
        brew_args_spec("kubectl"@) == Some(seq!["install"@, "kubectl"@]),
        brew_args_spec("helm"@) == Some(seq!["install"@, "helm"@]),
        brew_args_spec("docker"@) == Some(seq!["install"@, "--cask"@, "docker"@]),
        brew_args_spec("java"@) == Some(seq!["install"@, "--cask"@, "temurin"@]),
        brew_args_spec(name) is Some ==> name == "k3d"@ || name == "kubectl"@ || name == "helm"@
            || name == "docker"@ || name == "java"@,
        (brew_args_spec(name) matches Some(a) && a.contains("--cask"@)) ==> name == "docker"@
            || name == "java"@,
{
    reveal_strlit("k3d");
    reveal_strlit("kubectl");
    reveal_strlit("helm");
    reveal_strlit("docker");
    reveal_strlit("java");
    reveal_strlit("--cask");
    reveal_strlit("install");
    assert("k3d"@.len() == 3 && "kubectl"@.len() == 7 && "helm"@.len() == 4);
    assert("docker"@.len() == 6 && "java"@.len() == 4 && "--cask"@.len() == 6);
    assert("helm"@[0] != "java"@[0]);
    assert("k3d"@ != "java"@ && "k3d"@ != "docker"@);
    assert("kubectl"@ != "java"@ && "kubectl"@ != "docker"@);
    assert("helm"@ != "java"@ && "helm"@ != "docker"@);
    assert("docker"@ != "java"@);
    if name == "k3d"@ || name == "kubectl"@ || name == "helm"@ {
        let a = seq!["install"@, name];
        assert(brew_args_spec(name) == Some(a));
        assert(a[0] != "--cask"@);
        assert(name != "--cask"@);
        assert forall|i: int| 0 <= i < a.len() implies a[i] != "--cask"@ by {}
    }
}

/// How to install the dependency `name`; other names are refused.
pub fn install_method(name: &str) -> (r: Result<InstallMethod, Error>)
    ensures
        name@ == "harbor"@ ==> r matches Ok(InstallMethod::Harbor),
        name@ != "harbor"@ ==> match brew_args_spec(name@) {
            Some(args) => r matches Ok(InstallMethod::Brew(v)) && views(v@) == args,
            None => r matches Err(Error::Config(m)) && m@ == "unknown dependency for install: "@
                + name@,
        },
{
    if str_eq(name, "harbor") {
        return Ok(InstallMethod::Harbor);
    }
    let mut v: Vec<String> = Vec::new();
    if str_eq(name, "java") {
        push_str(&mut v, "install");
        push_str(&mut v, "--cask");
        push_str(&mut v, "temurin");
    } else if str_eq(name, "docker") {
        push_str(&mut v, "install");
        push_str(&mut v, "--cask");
        push_str(&mut v, "docker");
    } else if str_eq(name, "k3d") || str_eq(name, "kubectl") || str_eq(name, "helm") {
        push_str(&mut v, "install");
        push_str(&mut v, name);
    } else {
        return Err(Error::Config(concat("unknown dependency for install: ", name)));
    }
    Ok(InstallMethod::Brew(v))
}

/// How Harbor gets installed.
#[derive(Clone, Copy, Debug, PartialEq, Eq, Structural)]
pub enum HarborRoute {
    /// `uv tool install harbor`.
    Uv,
    /// `pipx install harbor`.
    Pipx,
    /// `brew install uv`, then `uv tool install harbor`.
    BrewThenUv,
}

/// The first installer available: uv, then pipx, then Homebrew (to get uv).
pub fn harbor_route(uv: bool, pipx: bool, brew: bool) -> (r: Result<HarborRoute, Error>)
    ensures
        uv ==> r == Ok::<HarborRoute, Error>(HarborRoute::Uv),
        !uv && pipx ==> r == Ok::<HarborRoute, Error>(HarborRoute::Pipx),
        !uv && !pipx && brew ==> r == Ok::<HarborRoute, Error>(HarborRoute::BrewThenUv),
        !uv && !pipx && !brew ==> (r matches Err(Error::DependencyMissing(m)) && m@
            == "harbor: need uv, pipx, or Homebrew to install"@),
{
    if uv {
        Ok(HarborRoute::Uv)
    } else if pipx {
        Ok(HarborRoute::Pipx)
    } else if brew {
        Ok(HarborRoute::BrewThenUv)
    } else {
        Err(Error::DependencyMissing(owned("harbor: need uv, pipx, or Homebrew to install")))
    }
}

/// One command to run: a program and its arguments.
#[derive(Debug)]
pub struct CommandLine {
    pub program: String,
    pub args: Vec<String>,
}

fn command(program: &str, a: &str, b: &str, c: Option<&str>) -> (r: CommandLine)
    ensures
        r.program@ == program@,
        views(r.args@) == match c {
            Some(c) => seq![a@, b@, c@],
            None => seq![a@, b@],
        },
{
    let mut args: Vec<String> = Vec::new();
    push_str(&mut args, a);
    push_str(&mut args, b);
    if let Some(c) = c {
        push_str(&mut args, c);
    }
    CommandLine { program: owned(program), args }
}

/// The commands of a Harbor installation route, in order.
pub fn harbor_commands(route: HarborRoute) -> (r: Vec<CommandLine>)
    ensures
        route == HarborRoute::Uv ==> r.len() == 1 && r@[0].program@ == "uv"@ && views(r@[0].args@)
            == seq!["tool"@, "install"@, "harbor"@],
        route == HarborRoute::Pipx ==> r.len() == 1 && r@[0].program@ == "pipx"@ && views(
            r@[0].args@,
        ) == seq!["install"@, "harbor"@],
        route == HarborRoute::BrewThenUv ==> r.len() == 2 && r@[0].program@ == "brew"@ && views(
            r@[0].args@,
        ) == seq!["install"@, "uv"@] && r@[1].program@ == "uv"@ && views(r@[1].args@) == seq![
            "tool"@,
            "install"@,
            "harbor"@,
        ],
{
    let mut v: Vec<CommandLine> = Vec::new();
    match route {
        HarborRoute::Uv => {
            v.push(command("uv", "tool", "install", Some("harbor")));
        },
        HarborRoute::Pipx => {
            v.push(command("pipx", "install", "harbor", None));
        },
        HarborRoute::BrewThenUv => {
            v.push(command("brew", "install", "uv", None));
            v.push(command("uv", "tool", "install", Some("harbor")));
        },
    }
    v
}

/// How a command shows in errors: the program and its arguments, separated by spaces.
pub open spec fn command_text_spec(program: Seq<char>, args: Seq<Seq<char>>) -> Seq<char> {
    program + " "@ + join_spec(args, " "@)
}

/// The error when a command could not run or failed; `reason` says why.
pub fn command_failed(program: &str, args: &Vec<String>, reason: &str) -> (r: Error)
    ensures
        r matches Error::CommandFailed { cmd, source } && cmd@ == command_text_spec(
            program@,
            views(args@),
        ) && source@ == reason@,
{
    let joined = join_with(args, " ");
    Error::CommandFailed { cmd: concat3(program, " ", joined.as_str()), source: owned(reason) }
}

/// The error when Homebrew is needed but missing.
pub fn brew_missing_error(name: &str) -> (r: Error)
    ensures
        r matches Error::DependencyMissing(m) && m@ == "Homebrew not found; install "@ + name@
            + " manually"@,
{
    Error::DependencyMissing(concat3("Homebrew not found; install ", name, " manually"))
}

/// The error when an installed tool still cannot be found.
pub fn not_found_after_install_error(name: &str) -> (r: Error)
    ensures
        r matches Error::DependencyMissing(m) && m@ == name@ + " installed but binary not found on PATH"@,
{
    Error::DependencyMissing(concat(name, " installed but binary not found on PATH"))
}

/// Whether Homebrew is on `PATH`.
pub fn brew_available(path_var: Option<&str>, facts: &PathFacts) -> (r: bool)
    ensures
        r == match path_var {
            Some(p) => first_present_spec(which_candidates_spec(p@, "brew"@), facts) is Some,
            None => false,
        },
{
    which("brew", path_var, facts).is_some()
}

/// The entry that uses a discovered tool.
pub fn tool_to_entry(tool: &DiscoveredTool) -> (r: DependencyEntry)
    ensures
        r@ == tool_entry_spec(tool@),
{
    DependencyEntry {
        source: DependencySource::Existing,
        binary: Some(tool.binary.clone()),
        app: copy_opt(&tool.app),
    }
}

/// The entry for a binary the user named; it must exist.
pub fn entry_from_path(path: String, app: Option<String>, path_exists: bool) -> (r: Result<
    DependencyEntry,
    Error,
>)
    ensures
        path_exists ==> (r matches Ok(e) && e@ == EntryView {
            source: DependencySource::Existing,
            binary: Some(path@),
            app: opt_view(app),
        }),
        !path_exists ==> (r matches Err(Error::Validation(m)) && m@ == "binary not found: "@
            + path@),
{
    if !path_exists {
        return Err(Error::Validation(concat("binary not found: ", path.as_str())));
    }
    Ok(DependencyEntry { source: DependencySource::Existing, binary: Some(path), app })
}

/// The commands that install `name`, in order: Harbor by the first installer found
/// (uv, pipx, or Homebrew to get uv), every other known tool with Homebrew. Fails for
/// an unknown name, for Harbor without any installer, and without Homebrew for the rest.
pub fn install_commands(name: &str, path_var: Option<&str>, facts: &PathFacts) -> (r: Result<
    Vec<CommandLine>,
    Error,
>)
    ensures
        name@ == "harbor"@ ==> {
            let uv = which_spec("uv"@, opt_str(path_var), facts) is Some;
            let pipx = which_spec("pipx"@, opt_str(path_var), facts) is Some;
            let brew = which_spec("brew"@, opt_str(path_var), facts) is Some;
            &&& uv ==> (r matches Ok(v) && v.len() == 1 && v@[0].program@ == "uv"@ && views(
                v@[0].args@,
            ) == seq!["tool"@, "install"@, "harbor"@])
            &&& !uv && pipx ==> (r matches Ok(v) && v.len() == 1 && v@[0].program@ == "pipx"@
                && views(v@[0].args@) == seq!["install"@, "harbor"@])
            &&& !uv && !pipx && brew ==> (r matches Ok(v) && v.len() == 2 && v@[0].program@
                == "brew"@ && views(v@[0].args@) == seq!["install"@, "uv"@] && v@[1].program@
                == "uv"@ && views(v@[1].args@) == seq!["tool"@, "install"@, "harbor"@])
            &&& !uv && !pipx && !brew ==> (r matches Err(Error::DependencyMissing(m)) && m@
                == "harbor: need uv, pipx, or Homebrew to install"@)
        },
        name@ != "harbor"@ ==> match brew_args_spec(name@) {
            Some(args) => if which_spec("brew"@, opt_str(path_var), facts) is Some {
                r matches Ok(v) && v.len() == 1 && v@[0].program@ == "brew"@ && views(v@[0].args@)
                    == args
            } else {
                r matches Err(Error::DependencyMissing(m)) && m@ == "Homebrew not found; install "@
                    + name@ + " manually"@
            },
            None => r matches Err(Error::Config(m)) && m@ == "unknown dependency for install: "@
                + name@,
        },
{
    match install_method(name) {
        Err(e) => Err(e),
        Ok(InstallMethod::Harbor) => {
            let uv = which("uv", path_var, facts).is_some();
            let pipx = which("pipx", path_var, facts).is_some();
            let brew = brew_available(path_var, facts);
            match harbor_route(uv, pipx, brew) {
                Ok(route) => Ok(harbor_commands(route)),
                Err(e) => Err(e),
            }
        },
        Ok(InstallMethod::Brew(args)) => {
            if !brew_available(path_var, facts) {
                return Err(brew_missing_error(name));
            }
            let mut v: Vec<CommandLine> = Vec::new();
            v.push(CommandLine { program: owned("brew"), args });
            Ok(v)
        },
    }
}

/// The entry for `name` after it was installed: the tool that a new scan found,
/// or an error when the scan still does not find it.
pub fn installed_entry(name: &str, scan: &DiscoveredDeps) -> (r: Result<DependencyEntry, Error>)
    ensures
        match scan.get_spec(name@) {
            Some(t) => r matches Ok(e) && e@ == tool_entry_spec(t),
            None => r matches Err(Error::DependencyMissing(m)) && m@ == name@
                + " installed but binary not found on PATH"@,
        },
{
    match scan.get(name) {
        Some(t) => Ok(tool_to_entry(&t)),
        None => Err(not_found_after_install_error(name)),
    }
}

/// Take the entry of `name` from the scan made after installing it: the entry that
/// uses the found tool replaces the old one, or nothing changes and an error says
/// the tool is still missing.
pub fn record_installed(deps: &mut DependenciesConfig, name: &str, scan: &DiscoveredDeps) -> (r:
    Result<(), Error>)
    ensures
        match scan.get_spec(name@) {
            Some(t) => r is Ok && final(deps)@ == old(deps)@.with(name@, tool_entry_spec(t)),
            None => r matches Err(Error::DependencyMissing(m)) && m@ == name@
                + " installed but binary not found on PATH"@ && final(deps)@ == old(deps)@,
        },
{
    match installed_entry(name, scan) {
        Ok(e) => {
            deps.set(name, e);
            Ok(())
        },
        Err(e) => Err(e),
    }
}

} // verus!
