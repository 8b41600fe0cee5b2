pub mod docker;
pub mod jenkins;
pub mod k3d;
pub mod kubectl;

use vstd::prelude::*;

use crate::config::{DependencyEntry, DependencySource, MacK3dConfig};
use crate::error::Error;
use crate::text::{concat, decimal, decimal_string, owned, views};

verus! {

/// One step of waiting for a service.
#[derive(Clone, Copy, Debug, PartialEq, Eq, Structural)]
pub enum PollAction {
    /// The service answered.
    Ready,
    /// Not yet; sleep and ask again.
    Wait,
    /// The time is up.
    TimedOut,
}

/// What to do after one readiness probe, `elapsed_ms` after waiting began.
pub fn poll_step(ready: bool, elapsed_ms: u64, timeout_ms: u64) -> (r: PollAction)
    ensures
        ready ==> r == PollAction::Ready,
        !ready && elapsed_ms >= timeout_ms ==> r == PollAction::TimedOut,
        !ready && elapsed_ms < timeout_ms ==> r == PollAction::Wait,
{
    if ready {
        PollAction::Ready
    } else if elapsed_ms >= timeout_ms {
        PollAction::TimedOut
    } else {
        PollAction::Wait
    }
}

/// Seconds between two readiness probes.
pub const POLL_INTERVAL_SECS: u64 = 2;

/// The error when a service did not become ready: `<what> within <secs>s`.
pub fn timeout_error(what: &str, timeout_secs: u64) -> (r: Error)
    ensures
        r matches Error::Validation(m) && m@ == what@ + " within "@ + decimal(timeout_secs as nat)
            + "s"@,
{
    let mut m = concat(what, " within ");
    let n = decimal_string(timeout_secs);
    m.append(n.as_str());
    m.append("s");
    Error::Validation(m)
}

/// The binaries of the external tools.
#[derive(Debug)]
pub struct Tools {
    pub docker: String,
    pub docker_app: String,
    pub k3d: String,
    pub kubectl: String,
    /// None when helm is skipped.
    pub helm: Option<String>,
}

/// The binary for one required tool: the given path when one is set, else the
/// tool's name (looked up on `PATH`); a skipped tool cannot be used.
pub open spec fn tool_path_spec(entry: &DependencyEntry, name: Seq<char>) -> Result<Seq<char>, Seq<char>> {
    match entry.source {
        DependencySource::Skip => Err(name + " is set to skip"@),
        _ => match entry.binary {
            Some(b) => Ok(b@),
            None => Ok(name),
        },
    }
}

/// Whether the tool `name` resolves to the binary `p`.
pub open spec fn resolves_to(entry: &DependencyEntry, name: Seq<char>, p: Seq<char>) -> bool {
    tool_path_spec(entry, name) == Ok::<Seq<char>, Seq<char>>(p)
}

fn tool_path(entry: &DependencyEntry, name: &str) -> (r: Result<String, Error>)
    ensures
        match tool_path_spec(entry, name@) {
            Ok(p) => r matches Ok(s) && s@ == p,
            Err(m) => r matches Err(Error::DependencyMissing(e)) && e@ == m,
        },
{
    match entry.source {
        DependencySource::Skip => Err(Error::DependencyMissing(concat(name, " is set to skip"))),
        _ => match &entry.binary {
            Some(b) => Ok(b.clone()),
            None => Ok(owned(name)),
        },
    }
}

/// Where Docker Desktop is installed unless the configuration says otherwise.
pub open spec fn default_docker_app() -> Seq<char> {
    "/Applications/Docker.app"@
}

impl Tools {
    /// Resolve the tool binaries of a configuration.
    pub fn from_config(config: &MacK3dConfig) -> (r: Result<Tools, Error>)
        ensures
            r is Ok <==> (tool_path_spec(&config.dependencies.docker, "docker"@) is Ok
                && tool_path_spec(&config.dependencies.k3d, "k3d"@) is Ok && tool_path_spec(
                &config.dependencies.kubectl,
                "kubectl"@,
            ) is Ok),
            r matches Ok(t) ==> {
                &&& resolves_to(&config.dependencies.docker, "docker"@, t.docker@)
                &&& resolves_to(&config.dependencies.k3d, "k3d"@, t.k3d@)
                &&& resolves_to(&config.dependencies.kubectl, "kubectl"@, t.kubectl@)
                &&& t.docker_app@ == match config.dependencies.docker.app {
                    Some(a) => a@,
                    None => default_docker_app(),
                }
                &&& match config.dependencies.helm.source {
                    DependencySource::Skip => t.helm is None,
                    _ => t.helm matches Some(h) && resolves_to(&config.dependencies.helm, "helm"@, h@),
                }
            },
            match tool_path_spec(&config.dependencies.docker, "docker"@) {
                Err(m) => r matches Err(Error::DependencyMissing(e)) && e@ == m,
                Ok(_) => match tool_path_spec(&config.dependencies.k3d, "k3d"@) {
                    Err(m) => r matches Err(Error::DependencyMissing(e)) && e@ == m,
                    Ok(_) => match tool_path_spec(&config.dependencies.kubectl, "kubectl"@) {
                        Err(m) => r matches Err(Error::DependencyMissing(e)) && e@ == m,
                        Ok(_) => r is Ok,
                    },
                },
            },
    {
        let docker = tool_path(&config.dependencies.docker, "docker")?;
        let k3d = tool_path(&config.dependencies.k3d, "k3d")?;
        let kubectl = tool_path(&config.dependencies.kubectl, "kubectl")?;
        let helm = match config.dependencies.helm.source {
            DependencySource::Skip => None,
            _ => match tool_path(&config.dependencies.helm, "helm") {
                Ok(h) => Some(h),
                Err(_) => None,
            },
        };
        let docker_app = match &config.dependencies.docker.app {
            Some(a) => a.clone(),
            None => owned("/Applications/Docker.app"),
        };
        Ok(Tools { docker, docker_app, k3d, kubectl, helm })
    }

    /// The helm binary, which Jenkins needs.
    pub fn helm_required(&self) -> (r: Result<String, Error>)
        ensures
            self.helm matches Some(h) ==> (r matches Ok(s) && s@ == h@),
            self.helm is None ==> (r matches Err(Error::DependencyMissing(m)) && m@
                == "helm is required for Jenkins but set to skip"@),
    {
        match &self.helm {
            Some(h) => Ok(h.clone()),
            None => Err(Error::DependencyMissing(owned("helm is required for Jenkins but set to skip"))),
        }
    }
}

} // verus!
