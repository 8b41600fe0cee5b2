pub mod agent_service;
pub mod discovery;
pub mod facts;
pub mod install;
pub mod path_env;
pub mod resources;
pub mod volumes;
pub mod wizard;
pub mod xml;

use vstd::prelude::*;

use crate::config::{DependencyEntry, DependencySource, EntryView, MacK3dConfig};
use crate::error::Error;
use crate::text::{concat, concat3, join_spec, join_with, push_string, views};
use facts::PathFacts;

verus! {

/// The problem that a writable-directory check finds on the storage base.
pub open spec fn base_dir_problems(config: &MacK3dConfig, facts: &PathFacts) -> Seq<Seq<char>> {
    match config.storage.base_dir {
        Some(b) => if facts.is_present(b@) && !facts.writable(b@) {
            seq!["storage base_dir not writable: "@ + b@]
        } else {
            Seq::empty()
        },
        None => Seq::empty(),
    }
}

/// The problems of one tool entry named `name`.
pub open spec fn entry_problems(
    name: Seq<char>,
    e: EntryView,
    required: bool,
    is_docker: bool,
    facts: &PathFacts,
) -> Seq<Seq<char>> {
    match e.source {
        DependencySource::Skip => if required {
            seq![name + " is required but set to skip"@]
        } else {
            Seq::empty()
        },
        DependencySource::Existing => {
            let binary_problems = match e.binary {
                Some(bin) => if !facts.is_present(bin) {
                    seq![name + " binary not found: "@ + bin]
                } else {
                    Seq::empty()
                },
                None => if required {
                    seq![name + " has source=existing but no binary path"@]
                } else {
                    Seq::empty()
                },
            };
            let app_problems = match e.app {
                Some(app) => if is_docker && !facts.is_present(app) {
                    seq!["Docker.app not found: "@ + app]
                } else {
                    Seq::empty()
                },
                None => Seq::empty(),
            };
            binary_problems + app_problems
        },
        DependencySource::Install => if required {
            seq![name + " is marked for install; run `mac-k3d prepare` to install"@]
        } else {
            Seq::empty()
        },
    }
}

/// A character that a k3d cluster name may hold.
pub open spec fn cluster_name_char(c: char) -> bool {
    ('a' <= c && c <= 'z') || ('0' <= c && c <= '9') || c == '-'
}

/// A non-empty cluster name of lowercase letters, digits and hyphens.
pub open spec fn valid_cluster_name(name: Seq<char>) -> bool {
    name.len() > 0 && forall|i: int| 0 <= i < name.len() ==> cluster_name_char(#[trigger] name[i])
}

/// The problem with the cluster name, if any.
pub open spec fn name_problems(config: &MacK3dConfig) -> Seq<Seq<char>> {
    if valid_cluster_name(config.cluster.name@) {
        Seq::empty()
    } else {
        seq![
            "invalid cluster name '"@ + config.cluster.name@
                + "': use lowercase letters, digits, and hyphens"@,
        ]
    }
}

/// Everything that validation reports, in order: the storage base, docker, k3d,
/// kubectl, helm (required only with Jenkins), and the cluster name.
pub open spec fn problems_spec(config: &MacK3dConfig, facts: &PathFacts) -> Seq<Seq<char>> {
    base_dir_problems(config, facts)
        + entry_problems("docker"@, config.dependencies.docker@, true, true, facts)
        + entry_problems("k3d"@, config.dependencies.k3d@, true, false, facts)
        + entry_problems("kubectl"@, config.dependencies.kubectl@, true, false, facts)
        + entry_problems("helm"@, config.dependencies.helm@, config.jenkins.enabled, false, facts)
        + name_problems(config)
}

/// The tools that a configuration needs: docker, k3d, kubectl, and helm with Jenkins.
pub open spec fn required_spec(config: &MacK3dConfig) -> Seq<Seq<char>> {
    if config.jenkins.enabled {
        seq!["docker"@, "k3d"@, "kubectl"@, "helm"@]
    } else {
        seq!["docker"@, "k3d"@, "kubectl"@]
    }
}

/// The names of the tools that `config` needs.
pub fn required_dependencies(config: &MacK3dConfig) -> (r: Vec<&'static str>)
    ensures
        r@.map_values(|s: &str| s@) == required_spec(config),
{
    let mut deps: Vec<&'static str> = Vec::new();
    deps.push("docker");
    deps.push("k3d");
    deps.push("kubectl");
    if config.jenkins.enabled {
        deps.push("helm");
    }
    assert(deps@.map_values(|s: &str| s@) =~= required_spec(config));
    deps
}

fn check_entry(
    problems: &mut Vec<String>,
    name: &str,
    entry: &DependencyEntry,
    required: bool,
    is_docker: bool,
    facts: &PathFacts,
)
    ensures
        views(final(problems)@) == views(old(problems)@) + entry_problems(
            name@,
            entry@,
            required,
            is_docker,
            facts,
        ),
{
    let ghost start = views(problems@);
    match entry.source {
        DependencySource::Skip => {
            if required {
                problems.push(concat(name, " is required but set to skip"));
            }
        },
        DependencySource::Existing => {
            match &entry.binary {
                Some(bin) => {
                    if !facts.path_exists(bin.as_str()) {
                        problems.push(concat3(name, " binary not found: ", bin.as_str()));
                    }
                },
                None => {
                    if required {
                        problems.push(concat(name, " has source=existing but no binary path"));
                    }
                },
            }
            let ghost mid = views(problems@);
            match &entry.app {
                Some(app) => {
                    if is_docker && !facts.path_exists(app.as_str()) {
                        problems.push(concat("Docker.app not found: ", app.as_str()));
                    }
                },
                None => {},
            }
            assert(views(problems@) =~= mid + (views(problems@).subrange(
                mid.len() as int,
                views(problems@).len() as int,
            )));
        },
        DependencySource::Install => {
            if required {
                problems.push(
                    concat(name, " is marked for install; run `mac-k3d prepare` to install"),
                );
            }
        },
    }
    assert(views(problems@) =~= start + entry_problems(name@, entry@, required, is_docker, facts));
}

/// Whether `name` is a valid k3d cluster name.
pub fn is_valid_cluster_name(name: &str) -> (r: bool)
    ensures
        r == valid_cluster_name(name@),
{
    let v = crate::text::chars_of(name);
    if v.len() == 0 {
        return false;
    }
    let mut i: usize = 0;
    while i < v.len()
        invariant
            v@ == name@,
            i <= v.len(),
            forall|k: int| 0 <= k < i ==> cluster_name_char(#[trigger] v@[k]),
        decreases v.len() - i,
    {
        let c = v[i];
        if !(('a' <= c && c <= 'z') || ('0' <= c && c <= '9') || c == '-') {
            return false;
        }
        i = i + 1;
    }
    true
}

/// Check storage, tool entries and the cluster name against what is known of the
/// file system, without prompts. Fails with every problem found, joined by `; `.
pub fn validate(config: &MacK3dConfig, facts: &PathFacts) -> (r: Result<(), Error>)
    ensures
        problems_spec(config, facts).len() == 0 ==> r is Ok,
        problems_spec(config, facts).len() > 0 ==> (r matches Err(Error::Validation(m)) && m@
            == join_spec(problems_spec(config, facts), "; "@)),
        r is Ok ==> config.cluster.name@.len() > 0 && forall|i: int|
            0 <= i < config.cluster.name@.len() ==> ('a' <= #[trigger] config.cluster.name@[i]
                && config.cluster.name@[i] <= 'z') || ('0' <= config.cluster.name@[i]
                && config.cluster.name@[i] <= '9') || config.cluster.name@[i] == '-',
{
    proof {
        lemma_validate_checks_cluster_name(config, facts);
    }
    let mut problems: Vec<String> = Vec::new();
    if let Some(base) = &config.storage.base_dir {
        if facts.path_exists(base.as_str()) && !facts.dir_writable(base.as_str()) {
            problems.push(concat("storage base_dir not writable: ", base.as_str()));
        }
    }
    assert(views(problems@) =~= base_dir_problems(config, facts));
    check_entry(&mut problems, "docker", &config.dependencies.docker, true, true, facts);
    check_entry(&mut problems, "k3d", &config.dependencies.k3d, true, false, facts);
    check_entry(&mut problems, "kubectl", &config.dependencies.kubectl, true, false, facts);
    check_entry(
        &mut problems,
        "helm",
        &config.dependencies.helm,
        config.jenkins.enabled,
        false,
        facts,
    );
    if !is_valid_cluster_name(config.cluster.name.as_str()) {
        let mut m = concat("invalid cluster name '", config.cluster.name.as_str());
        m.append("': use lowercase letters, digits, and hyphens");
        problems.push(m);
    }
    assert(views(problems@) =~= problems_spec(config, facts));
    if problems.len() == 0 {
        Ok(())
    } else {
        Err(Error::Validation(join_with(&problems, "; ")))
    }
}

/// The paths whose existence validation reads: the storage base, and the binary
/// and app bundle of each tool taken as existing.
pub open spec fn probe_paths_spec(config: &MacK3dConfig) -> Seq<Seq<char>> {
    let opt = |o: Option<String>| match o {
        Some(p) => seq![p@],
        None => Seq::<Seq<char>>::empty(),
    };
    let entry = |e: &DependencyEntry| if e.source == DependencySource::Existing {
        opt(e.binary) + opt(e.app)
    } else {
        Seq::<Seq<char>>::empty()
    };
    opt(config.storage.base_dir) + entry(&config.dependencies.docker) + entry(&config.dependencies.k3d)
        + entry(&config.dependencies.kubectl) + entry(&config.dependencies.helm)
}

fn push_opt_copy(v: &mut Vec<String>, o: &Option<String>)
    ensures
        views(final(v)@) == views(old(v)@) + match o {
            Some(p) => seq![p@],
            None => Seq::<Seq<char>>::empty(),
        },
{
    let ghost before = views(v@);
    if let Some(p) = o {
        push_string(v, p.clone());
    }
    assert(views(v@) =~= before + match o {
        Some(p) => seq![p@],
        None => Seq::<Seq<char>>::empty(),
    });
}

fn push_entry_paths(v: &mut Vec<String>, e: &DependencyEntry)
    ensures
        views(final(v)@) == views(old(v)@) + if e.source == DependencySource::Existing {
            (match e.binary {
                Some(p) => seq![p@],
                None => Seq::<Seq<char>>::empty(),
            }) + (match e.app {
                Some(p) => seq![p@],
                None => Seq::<Seq<char>>::empty(),
            })
        } else {
            Seq::<Seq<char>>::empty()
        },
{
    let ghost before = views(v@);
    if e.source == DependencySource::Existing {
        push_opt_copy(v, &e.binary);
        push_opt_copy(v, &e.app);
    }
    assert(views(v@) =~= before + if e.source == DependencySource::Existing {
        (match e.binary {
            Some(p) => seq![p@],
            None => Seq::<Seq<char>>::empty(),
        }) + (match e.app {
            Some(p) => seq![p@],
            None => Seq::<Seq<char>>::empty(),
        })
    } else {
        Seq::<Seq<char>>::empty()
    });
}

/// The paths whose existence validation reads.
pub fn probe_paths(config: &MacK3dConfig) -> (r: Vec<String>)
    ensures
        views(r@) == probe_paths_spec(config),
{
    let mut v: Vec<String> = Vec::new();
    push_opt_copy(&mut v, &config.storage.base_dir);
    push_entry_paths(&mut v, &config.dependencies.docker);
    push_entry_paths(&mut v, &config.dependencies.k3d);
    push_entry_paths(&mut v, &config.dependencies.kubectl);
    push_entry_paths(&mut v, &config.dependencies.helm);
    assert(views(v@) =~= probe_paths_spec(config));
    v
}

/// A tool taken from discovery raises no problem while its binary (and, for
/// docker, its app bundle) still exists.
pub proof fn lemma_discovered_entry_validates(
    name: Seq<char>,
    tool: crate::prepare::discovery::ToolView,
    required: bool,
    is_docker: bool,
    facts: &PathFacts,
)
    requires
        facts.is_present(tool.binary),
        is_docker ==> match tool.app {
            Some(a) => facts.is_present(a),
            None => true,
        },
    ensures
        entry_problems(
            name,
            crate::prepare::discovery::default_entry_spec(Some(tool)),
            required,
            is_docker,
            facts,
        ).len() == 0,
{
}

/// A configuration that nobody wrote does not validate: its required tools are
/// all still to be installed.
pub proof fn lemma_default_config_fails_validation(config: &MacK3dConfig, facts: &PathFacts)
    requires
        config.is_default(),
    ensures
        problems_spec(config, facts).len() > 0,
{
    let p = problems_spec(config, facts);
    let d = entry_problems("docker"@, config.dependencies.docker@, true, true, facts);
    assert(d.len() == 1);
}

/// The paths of one entry that validation probes.
pub open spec fn entry_probe(e: &DependencyEntry) -> Seq<Seq<char>> {
    if e.source == DependencySource::Existing {
        (match e.binary {
            Some(p) => seq![p@],
            None => Seq::<Seq<char>>::empty(),
        }) + (match e.app {
            Some(p) => seq![p@],
            None => Seq::<Seq<char>>::empty(),
        })
    } else {
        Seq::<Seq<char>>::empty()
    }
}

/// Two views of the file system that agree on an entry's probed paths give the
/// entry the same problems.
proof fn lemma_entry_reads_probe(
    name: Seq<char>,
    e: &DependencyEntry,
    required: bool,
    is_docker: bool,
    a: &PathFacts,
    b: &PathFacts,
)
    requires
        forall|p: Seq<char>| entry_probe(e).contains(p) ==> a.is_present(p) == b.is_present(p),
    ensures
        entry_problems(name, e@, required, is_docker, a) == entry_problems(
            name,
            e@,
            required,
            is_docker,
            b,
        ),
{
    if e.source == DependencySource::Existing {
        let bins = match e.binary {
            Some(p) => seq![p@],
            None => Seq::<Seq<char>>::empty(),
        };
        let apps = match e.app {
            Some(p) => seq![p@],
            None => Seq::<Seq<char>>::empty(),
        };
        if let Some(bin) = e.binary {
            assert(entry_probe(e)[0] == bin@);
            assert(entry_probe(e).contains(bin@));
        }
        if let Some(app) = e.app {
            assert(entry_probe(e)[bins.len() as int] == app@);
            assert(entry_probe(e).contains(app@));
        }
    }
}

/// Validation reads the file system only at [`probe_paths`]: two views of it that
/// agree on those paths, and on whether the storage base is writable, find the
/// same problems.
pub proof fn lemma_validate_reads_probe_paths(config: &MacK3dConfig, a: &PathFacts, b: &PathFacts)
    requires
        forall|p: Seq<char>| #[trigger]
            probe_paths_spec(config).contains(p) ==> a.is_present(p) == b.is_present(p),
        match config.storage.base_dir {
            Some(d) => a.writable(d@) == b.writable(d@),
            None => true,
        },
    ensures
        problems_spec(config, a) == problems_spec(config, b),
{
    let base = match config.storage.base_dir {
        Some(p) => seq![p@],
        None => Seq::<Seq<char>>::empty(),
    };
    let d = entry_probe(&config.dependencies.docker);
    let k = entry_probe(&config.dependencies.k3d);
    let c = entry_probe(&config.dependencies.kubectl);
    let h = entry_probe(&config.dependencies.helm);
    let all = probe_paths_spec(config);
    assert(all =~= base + d + k + c + h);
    if let Some(p) = config.storage.base_dir {
        assert(all[0] == p@);
        assert(all.contains(p@));
    }
    assert forall|p: Seq<char>| d.contains(p) implies a.is_present(p) == b.is_present(p) by {
        let i = choose|i: int| 0 <= i < d.len() && d[i] == p;
        assert(all[base.len() + i] == p);
        assert(all.contains(p));
    }
    assert forall|p: Seq<char>| k.contains(p) implies a.is_present(p) == b.is_present(p) by {
        let i = choose|i: int| 0 <= i < k.len() && k[i] == p;
        assert(all[base.len() + d.len() + i] == p);
        assert(all.contains(p));
    }
    assert forall|p: Seq<char>| c.contains(p) implies a.is_present(p) == b.is_present(p) by {
        let i = choose|i: int| 0 <= i < c.len() && c[i] == p;
        assert(all[base.len() + d.len() + k.len() + i] == p);
        assert(all.contains(p));
    }
    assert forall|p: Seq<char>| h.contains(p) implies a.is_present(p) == b.is_present(p) by {
        let i = choose|i: int| 0 <= i < h.len() && h[i] == p;
        assert(all[base.len() + d.len() + k.len() + c.len() + i] == p);
        assert(all.contains(p));
    }
    lemma_entry_reads_probe("docker"@, &config.dependencies.docker, true, true, a, b);
    lemma_entry_reads_probe("k3d"@, &config.dependencies.k3d, true, false, a, b);
    lemma_entry_reads_probe("kubectl"@, &config.dependencies.kubectl, true, false, a, b);
    lemma_entry_reads_probe(
        "helm"@,
        &config.dependencies.helm,
        config.jenkins.enabled,
        false,
        a,
        b,
    );
}

/// A cluster name that validation accepts is one k3d can create: non-empty, made of
/// `a`-`z`, `0`-`9` and `-` only; any other name is reported as invalid.
pub proof fn lemma_validate_checks_cluster_name(config: &MacK3dConfig, facts: &PathFacts)
    ensures
        problems_spec(config, facts).len() == 0 ==> config.cluster.name@.len() > 0 && forall|i: int|
            0 <= i < config.cluster.name@.len() ==> ('a' <= #[trigger] config.cluster.name@[i]
                && config.cluster.name@[i] <= 'z') || ('0' <= config.cluster.name@[i]
                && config.cluster.name@[i] <= '9') || config.cluster.name@[i] == '-',
        (config.cluster.name@.len() == 0 || exists|i: int|
            0 <= i < config.cluster.name@.len() && !(('a' <= #[trigger] config.cluster.name@[i]
                && config.cluster.name@[i] <= 'z') || ('0' <= config.cluster.name@[i]
                && config.cluster.name@[i] <= '9') || config.cluster.name@[i] == '-'))
            ==> problems_spec(config, facts).contains(
            "invalid cluster name '"@ + config.cluster.name@
                + "': use lowercase letters, digits, and hyphens"@,
        ),
{
    let p = problems_spec(config, facts);
    let n = name_problems(config);
    let pre = base_dir_problems(config, facts) + entry_problems(
        "docker"@,
        config.dependencies.docker@,
        true,
        true,
        facts,
    ) + entry_problems("k3d"@, config.dependencies.k3d@, true, false, facts) + entry_problems(
        "kubectl"@,
        config.dependencies.kubectl@,
        true,
        false,
        facts,
    ) + entry_problems("helm"@, config.dependencies.helm@, config.jenkins.enabled, false, facts);
    assert(p == pre + n);
    if !valid_cluster_name(config.cluster.name@) {
        assert(p[pre.len() as int] == n[0]);
    }
}

} // verus!
