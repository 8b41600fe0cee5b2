use vstd::prelude::*;

use crate::config::MacK3dConfig;
use crate::runtime::kubectl::{get_secret_args, secret_template_spec};
use crate::text::{concat, decimal, decimal_string, push_str, views};

verus! {

/// The Helm repository that serves the Jenkins chart.
pub open spec fn helm_repo_name() -> Seq<char> {
    "jenkins"@
}

/// Where the Jenkins chart is published.
pub open spec fn helm_repo_url() -> Seq<char> {
    "https://charts.jenkins.io"@
}

/// `helm repo add jenkins https://charts.jenkins.io --force-update`.
pub fn repo_add_args() -> (r: Vec<String>)
    ensures
        views(r@) == seq!["repo"@, "add"@, helm_repo_name(), helm_repo_url(), "--force-update"@],
{
    let mut v: Vec<String> = Vec::new();
    push_str(&mut v, "repo");
    push_str(&mut v, "add");
    push_str(&mut v, "jenkins");
    push_str(&mut v, "https://charts.jenkins.io");
    push_str(&mut v, "--force-update");
    v
}

/// `helm repo update jenkins`.
pub fn repo_update_args() -> (r: Vec<String>)
    ensures
        views(r@) == seq!["repo"@, "update"@, helm_repo_name()],
{
    let mut v: Vec<String> = Vec::new();
    push_str(&mut v, "repo");
    push_str(&mut v, "update");
    push_str(&mut v, "jenkins");
    v
}

/// `helm upgrade --install <release> jenkins/jenkins --namespace <ns>
/// --create-namespace --set controller.serviceType=LoadBalancer --wait --timeout 10m`.
pub fn upgrade_args(config: &MacK3dConfig) -> (r: Vec<String>)
    ensures
        views(r@) == seq![
            "upgrade"@,
            "--install"@,
            config.jenkins.release_name@,
            "jenkins/jenkins"@,
            "--namespace"@,
            config.jenkins.namespace@,
            "--create-namespace"@,
            "--set"@,
            "controller.serviceType=LoadBalancer"@,
            "--wait"@,
            "--timeout"@,
            "10m"@,
        ],
{
    let mut v: Vec<String> = Vec::new();
    push_str(&mut v, "upgrade");
    push_str(&mut v, "--install");
    push_str(&mut v, config.jenkins.release_name.as_str());
    push_str(&mut v, "jenkins/jenkins");
    push_str(&mut v, "--namespace");
    push_str(&mut v, config.jenkins.namespace.as_str());
    push_str(&mut v, "--create-namespace");
    push_str(&mut v, "--set");
    push_str(&mut v, "controller.serviceType=LoadBalancer");
    push_str(&mut v, "--wait");
    push_str(&mut v, "--timeout");
    push_str(&mut v, "10m");
    v
}

/// The kubectl query for the initial admin password: key `jenkins-admin-password`
/// of the secret named after the release, in the Jenkins namespace.
pub fn admin_password_args(config: &MacK3dConfig) -> (r: Vec<String>)
    ensures
        views(r@) == seq![
            "get"@,
            "secret"@,
            config.jenkins.release_name@,
            "-n"@,
            config.jenkins.namespace@,
            "-o"@,
            "go-template="@ + secret_template_spec("jenkins-admin-password"@),
        ],
{
    get_secret_args(
        config.jenkins.namespace.as_str(),
        config.jenkins.release_name.as_str(),
        "jenkins-admin-password",
    )
}

/// The Jenkins UI address: `http://localhost:<host_port>`.
pub open spec fn ui_url_spec(config: &MacK3dConfig) -> Seq<char> {
    "http://localhost:"@ + decimal(config.jenkins.host_port as nat)
}

/// The Jenkins UI address.
pub fn ui_url(config: &MacK3dConfig) -> (r: String)
    ensures
        r@ == ui_url_spec(config),
{
    let port = decimal_string(config.jenkins.host_port as u64);
    concat("http://localhost:", port.as_str())
}

} // verus!
