use vstd::prelude::*;

use crate::config::opt_str;
use crate::error::Error;
use crate::prepare::volumes::{format_bytes, format_bytes_spec, GB};
use crate::prepare::wizard::MacRole;
use crate::text::{
    concat, concat3, decimal, decimal_string, opt_view, owned, parse_u32, parse_u32_spec, trim,
    trim_spec,
};

verus! {

/// What `Path::parent` gives for a path: the path without its last component, or
/// nothing for a root or empty path.
pub uninterp spec fn path_parent(p: Seq<char>) -> Option<Seq<char>>;

/// `Path::new(p).parent()`.
#[verifier::external_body]
fn parent_of(p: &str) -> (r: Option<String>)
    ensures
        opt_view(r) == path_parent(p@),
{
    std::path::Path::new(p).parent().map(|q| q.to_string_lossy().into_owned())
}

/// A core count read from one `sysctl` query: its trimmed output as a `u32`, when
/// that parses and is not zero.
pub open spec fn count_spec(out: Option<Seq<char>>) -> Option<u32> {
    match out {
        Some(o) => match parse_u32_spec(trim_spec(o)) {
            Some(n) => if n > 0 {
                Some(n)
            } else {
                None
            },
            None => None,
        },
        None => None,
    }
}

/// The logical CPU count from `sysctl -n hw.logicalcpu`, else from
/// `sysctl -n hw.ncpu`, else 1; a query that reports no core counts as unreadable.
pub open spec fn cpu_cores_spec(logical: Option<Seq<char>>, ncpu: Option<Seq<char>>) -> u32 {
    match count_spec(logical) {
        Some(n) => n,
        None => match count_spec(ncpu) {
            Some(n) => n,
            None => 1,
        },
    }
}

fn parse_count(out: Option<&str>) -> (r: Option<u32>)
    ensures
        r == count_spec(opt_str(out)),
{
    match out {
        Some(o) => {
            let t = trim(o);
            match parse_u32(t.as_str()) {
                Some(n) => if n > 0 {
                    Some(n)
                } else {
                    None
                },
                None => None,
            }
        },
        None => None,
    }
}

/// The logical CPU count for `CPU_CORES` registration, from the output of the two
/// `sysctl` queries (none when a query could not run); always at least one.
pub fn logical_cpu_cores(logical: Option<&str>, ncpu: Option<&str>) -> (r: u32)
    ensures
        r == cpu_cores_spec(opt_str(logical), opt_str(ncpu)),
        r >= 1,
{
    match parse_count(logical) {
        Some(n) => n,
        None => match parse_count(ncpu) {
            Some(n) => n,
            None => 1,
        },
    }
}

/// Where free space is measured for a path that does not exist, from its parent:
/// the parent, or `/` when it has none.
pub fn check_path_from_parent(parent: Option<String>) -> (r: String)
    ensures
        r@ == match opt_view(parent) {
            Some(p) => p,
            None => "/"@,
        },
{
    match parent {
        Some(p) => p,
        None => owned("/"),
    }
}

/// Where free space is measured for `path`: the path when it exists, else its
/// parent, else `/`.
pub fn disk_check_path(path: &str, path_exists: bool) -> (r: String)
    ensures
        path_exists ==> r@ == path@,
        !path_exists ==> r@ == match path_parent(path@) {
            Some(p) => p,
            None => "/"@,
        },
{
    if path_exists {
        owned(path)
    } else {
        check_path_from_parent(parent_of(path))
    }
}

/// `min_gb` gibibytes in bytes, saturating.
pub open spec fn need_bytes(min_gb: u64) -> nat {
    if min_gb as nat * GB as nat > u64::MAX as nat {
        u64::MAX as nat
    } else {
        min_gb as nat * GB as nat
    }
}

/// Require at least `min_gb` GB free where `check_path` is.
pub fn ensure_disk_min(check_path: &str, available: u64, min_gb: u64) -> (r: Result<(), Error>)
    ensures
        (available as nat) >= need_bytes(min_gb) ==> r is Ok,
        (available as nat) < need_bytes(min_gb) ==> (r matches Err(Error::Validation(m)) && m@
            == "only "@ + format_bytes_spec(available as nat) + " free at "@ + check_path@
            + "; need at least "@ + decimal(min_gb as nat) + " GB"@),
{
    let need: u64 = if min_gb > 0xFFFF_FFFF_FFFF_FFFF / GB {
        0xFFFF_FFFF_FFFF_FFFF
    } else {
        min_gb * GB
    };
    if available < need {
        let free = format_bytes(available);
        let mut m = concat3("only ", free.as_str(), " free at ");
        m.append(check_path);
        m.append("; need at least ");
        let g = decimal_string(min_gb);
        m.append(g.as_str());
        m.append(" GB");
        return Err(Error::Validation(m));
    }
    Ok(())
}

/// The minimum free space for a role: 40 GB standalone, 60 GB controller, 100 GB
/// worker; a non-zero `override_gb` replaces it.
pub fn disk_min_gb(role: MacRole, override_gb: u64) -> (r: u64)
    ensures
        override_gb > 0 ==> r == override_gb,
        override_gb == 0 ==> r == match role {
            MacRole::Standalone => 40u64,
            MacRole::Controller => 60u64,
            MacRole::Worker => 100u64,
        },
{
    if override_gb > 0 {
        return override_gb;
    }
    match role {
        MacRole::Standalone => 40,
        MacRole::Controller => 60,
        MacRole::Worker => 100,
    }
}

/// What the controller's operator is asked to do for the `CPU_CORES` label.
pub open spec fn controller_label_text(jenkins_url: Seq<char>, label: Seq<char>) -> Seq<char> {
    "\nOn the Jenkins controller ("@ + jenkins_url
        + "):\n1. Confirm Lockable Resources plugin is installed (mac-k3d Helm install adds it).\n2. Manage Jenkins → Lockable Resources → create capacity under label '"@
        + label
        + "'.\nWorker Macs register intended capacity under this label during prepare.\n"@
}

/// Instructions for creating the Lockable Resources label on the controller.
pub fn controller_label_instructions(jenkins_url: &str, label: &str) -> (r: String)
    ensures
        r@ == controller_label_text(jenkins_url@, label@),
{
    let mut m = concat3("\nOn the Jenkins controller (", jenkins_url, "):\n1. Confirm Lockable Resources plugin is installed (mac-k3d Helm install adds it).\n2. Manage Jenkins → Lockable Resources → create capacity under label '");
    m.append(label);
    m.append("'.\nWorker Macs register intended capacity under this label during prepare.\n");
    m
}

/// What the operator is asked to do to register a worker's cores.
pub open spec fn agent_cores_text(
    jenkins_url: Seq<char>,
    agent: Seq<char>,
    label: Seq<char>,
    cores: u32,
) -> Seq<char> {
    let n = decimal(cores as nat);
    "\nOn the Jenkins controller ("@ + jenkins_url + "), create Lockable Resources totaling "@ + n
        + " under label '"@ + label + "' for agent '"@ + agent + "'.\nExample: "@ + n
        + " resources named "@ + agent + "-core-{1.."@ + n + "} with labels '"@ + label + " "@
        + agent + "',\nor one resource with quantity="@ + n
        + " if your plugin version supports it.\nJobs should lock(label: '"@ + label
        + "', quantity: N) for N cores.\n"@
}

/// Instructions for registering this worker's CPU cores on the controller.
pub fn agent_cores_instructions(jenkins_url: &str, agent: &str, label: &str, cores: u32) -> (r:
    String)
    ensures
        r@ == agent_cores_text(jenkins_url@, agent@, label@, cores),
{
    let n = decimal_string(cores as u64);
    let mut m = concat3("\nOn the Jenkins controller (", jenkins_url, "), create Lockable Resources totaling ");
    m.append(n.as_str());
    m.append(" under label '");
    m.append(label);
    m.append("' for agent '");
    m.append(agent);
    m.append("'.\nExample: ");
    m.append(n.as_str());
    m.append(" resources named ");
    m.append(agent);
    m.append("-core-{1..");
    m.append(n.as_str());
    m.append("} with labels '");
    m.append(label);
    m.append(" ");
    m.append(agent);
    m.append("',\nor one resource with quantity=");
    m.append(n.as_str());
    m.append(" if your plugin version supports it.\nJobs should lock(label: '");
    m.append(label);
    m.append("', quantity: N) for N cores.\n");
    m
}

} // verus!
