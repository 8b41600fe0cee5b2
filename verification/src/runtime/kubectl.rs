use vstd::prelude::*;

use crate::error::Error;
use crate::runtime::timeout_error;
use crate::text::{concat, concat3, decimal, push_str, trim, trim_spec, views};

verus! {

/// The kubectl context that k3d creates for `cluster`.
pub open spec fn context_name_spec(cluster: Seq<char>) -> Seq<char> {
    "k3d-"@ + cluster
}

/// The kubectl context that k3d creates for `cluster`.
pub fn context_name(cluster: &str) -> (r: String)
    ensures
        r@ == context_name_spec(cluster@),
{
    concat("k3d-", cluster)
}

/// `kubectl config use-context k3d-<cluster>`.
pub fn use_context_args(cluster: &str) -> (r: Vec<String>)
    ensures
        views(r@) == seq!["config"@, "use-context"@, context_name_spec(cluster@)],
{
    let mut v: Vec<String> = Vec::new();
    push_str(&mut v, "config");
    push_str(&mut v, "use-context");
    let c = context_name(cluster);
    push_str(&mut v, c.as_str());
    v
}

/// `kubectl config current-context`.
pub fn current_context_args() -> (r: Vec<String>)
    ensures
        views(r@) == seq!["config"@, "current-context"@],
{
    let mut v: Vec<String> = Vec::new();
    push_str(&mut v, "config");
    push_str(&mut v, "current-context");
    v
}

/// The current context from the output of a successful `current-context`.
pub fn current_context_from(stdout: Option<&str>) -> (r: Option<String>)
    ensures
        match stdout {
            Some(out) => r matches Some(c) && c@ == trim_spec(out@),
            None => r is None,
        },
{
    match stdout {
        Some(out) => Some(trim(out)),
        None => None,
    }
}

/// `kubectl cluster-info`, whose success means the API answers.
pub fn cluster_info_args() -> (r: Vec<String>)
    ensures
        views(r@) == seq!["cluster-info"@],
{
    let mut v: Vec<String> = Vec::new();
    push_str(&mut v, "cluster-info");
    v
}

/// The error when the Kubernetes API did not answer in time.
pub fn api_not_ready_error(timeout_secs: u64) -> (r: Error)
    ensures
        r matches Error::Validation(m) && m@ == "Kubernetes API was not ready"@ + " within "@
            + decimal(timeout_secs as nat) + "s"@,
{
    timeout_error("Kubernetes API was not ready", timeout_secs)
}

/// The go-template that prints the decoded value of `key` in a secret.
pub open spec fn secret_template_spec(key: Seq<char>) -> Seq<char> {
    "{{ index .data \""@ + key + "\" | base64decode }}"@
}

/// `kubectl get secret <secret> -n <namespace> -o go-template=<template>`.
pub fn get_secret_args(namespace: &str, secret: &str, key: &str) -> (r: Vec<String>)
    ensures
        views(r@) == seq![
            "get"@,
            "secret"@,
            secret@,
            "-n"@,
            namespace@,
            "-o"@,
            "go-template="@ + secret_template_spec(key@),
        ],
{
    let mut v: Vec<String> = Vec::new();
    push_str(&mut v, "get");
    push_str(&mut v, "secret");
    push_str(&mut v, secret);
    push_str(&mut v, "-n");
    push_str(&mut v, namespace);
    push_str(&mut v, "-o");
    let t = concat3("{{ index .data \"", key, "\" | base64decode }}");
    let o = concat("go-template=", t.as_str());
    push_str(&mut v, o.as_str());
    v
}

/// The secret value from the command's output.
pub fn secret_value(stdout: &str) -> (r: String)
    ensures
        r@ == trim_spec(stdout@),
{
    trim(stdout)
}

/// The label of the Jenkins controller pod.
pub open spec fn controller_selector() -> Seq<char> {
    "app.kubernetes.io/component=jenkins-controller"@
}

/// `kubectl get pods -n <namespace> -l <controller> -o jsonpath=...phase`.
pub fn jenkins_pod_phase_args(namespace: &str) -> (r: Vec<String>)
    ensures
        views(r@) == seq![
            "get"@,
            "pods"@,
            "-n"@,
            namespace@,
            "-l"@,
            controller_selector(),
            "-o"@,
            "jsonpath={.items[0].status.phase}"@,
        ],
{
    let mut v: Vec<String> = Vec::new();
    push_str(&mut v, "get");
    push_str(&mut v, "pods");
    push_str(&mut v, "-n");
    push_str(&mut v, namespace);
    push_str(&mut v, "-l");
    push_str(&mut v, "app.kubernetes.io/component=jenkins-controller");
    push_str(&mut v, "-o");
    push_str(&mut v, "jsonpath={.items[0].status.phase}");
    v
}

/// The pod phase from the output of a successful query; none when it is blank.
pub fn phase_from_output(stdout: Option<&str>) -> (r: Option<String>)
    ensures
        match stdout {
            Some(out) => if trim_spec(out@).len() == 0 {
                r is None
            } else {
                r matches Some(p) && p@ == trim_spec(out@)
            },
            None => r is None,
        },
{
    match stdout {
        Some(out) => {
            let phase = trim(out);
            if phase.unicode_len() == 0 {
                None
            } else {
                Some(phase)
            }
        },
        None => None,
    }
}

} // verus!
