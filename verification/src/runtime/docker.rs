use vstd::prelude::*;

use crate::error::Error;
use crate::runtime::timeout_error;
use crate::text::{decimal, owned, push_str, views};

verus! {

/// Whether Docker Desktop answers.
#[derive(Clone, Copy, Debug, PartialEq, Eq, Structural)]
pub enum DockerStatus {
    Running,
    Stopped,
    Missing,
}

impl DockerStatus {
    /// How the status is shown.
    pub open spec fn text(self) -> Seq<char> {
        match self {
            DockerStatus::Running => "running"@,
            DockerStatus::Stopped => "stopped"@,
            DockerStatus::Missing => "not installed"@,
        }
    }

    /// How the status is shown.
    pub fn to_string(&self) -> (r: String)
        ensures
            r@ == self.text(),
    {
        match self {
            DockerStatus::Running => owned("running"),
            DockerStatus::Stopped => owned("stopped"),
            DockerStatus::Missing => owned("not installed"),
        }
    }
}

/// The status from a `docker info` probe: running when it succeeded, else stopped
/// when Docker Desktop or the CLI is installed, else missing.
pub fn status_from(info_ok: bool, desktop_app_exists: bool, docker_exists: bool) -> (r: DockerStatus)
    ensures
        r == (if info_ok {
            DockerStatus::Running
        } else if desktop_app_exists || docker_exists {
            DockerStatus::Stopped
        } else {
            DockerStatus::Missing
        }),
{
    if info_ok {
        return DockerStatus::Running;
    }
    if desktop_app_exists || docker_exists {
        DockerStatus::Stopped
    } else {
        DockerStatus::Missing
    }
}

/// The probe whose success means Docker is running: `docker info`.
pub fn info_args() -> (r: Vec<String>)
    ensures
        views(r@) == seq!["info"@],
{
    let mut v: Vec<String> = Vec::new();
    push_str(&mut v, "info");
    v
}

/// `open -a <app>` when the bundle exists, else `open -a Docker`.
pub fn open_desktop_args(app: &str, app_exists: bool) -> (r: Vec<String>)
    ensures
        views(r@) == seq!["-a"@, if app_exists { app@ } else { "Docker"@ }],
{
    let mut v: Vec<String> = Vec::new();
    push_str(&mut v, "-a");
    if app_exists {
        push_str(&mut v, app);
    } else {
        push_str(&mut v, "Docker");
    }
    v
}

/// `osascript -e 'quit app "Docker"'`.
pub fn quit_args() -> (r: Vec<String>)
    ensures
        views(r@) == seq!["-e"@, "quit app \"Docker\""@],
{
    let mut v: Vec<String> = Vec::new();
    push_str(&mut v, "-e");
    push_str(&mut v, "quit app \"Docker\"");
    v
}

/// The error when Docker Desktop did not answer in time.
pub fn not_ready_error(timeout_secs: u64) -> (r: Error)
    ensures
        r matches Error::Validation(m) && m@ == "Docker Desktop did not become ready"@ + " within "@
            + decimal(timeout_secs as nat) + "s"@,
{
    timeout_error("Docker Desktop did not become ready", timeout_secs)
}

} // verus!
