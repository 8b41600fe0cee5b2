use vstd::prelude::*;

use crate::config::{MacK3dConfig, PortMapping};
use crate::prepare::path_env::lemma_split_join;
use crate::text::{
    concat, concat3, decimal, decimal_string, is_digit, join_spec, lemma_decimal_digits,
    lemma_parse_decimal_roundtrip, owned, parse_u32, parse_u32_spec, push_str,
    push_string, split_on, split_spec, split_words, str_eq, views, words_spec,
};

verus! {

/// Whether the named k3d cluster exists and runs.
#[derive(Clone, Copy, Debug, PartialEq, Eq, Structural)]
pub enum ClusterState {
    Missing,
    Stopped,
    Running,
}

impl ClusterState {
    /// How the state is shown.
    pub open spec fn text(self) -> Seq<char> {
        match self {
            ClusterState::Missing => "missing"@,
            ClusterState::Stopped => "stopped"@,
            ClusterState::Running => "running"@,
        }
    }

    /// How the state is shown.
    pub fn to_string(&self) -> (r: String)
        ensures
            r@ == self.text(),
    {
        match self {
            ClusterState::Missing => owned("missing"),
            ClusterState::Stopped => owned("stopped"),
            ClusterState::Running => owned("running"),
        }
    }
}

/// What `k3d cluster list` says of one cluster.
#[derive(Clone, Copy, Debug, PartialEq, Eq, Structural)]
pub struct ClusterInfo {
    pub state: ClusterState,
    /// Server nodes.
    pub servers: u32,
    /// Agent nodes.
    pub agents: u32,
}

/// `k3d cluster list --no-headers`.
pub fn list_args() -> (r: Vec<String>)
    ensures
        views(r@) == seq!["cluster"@, "list"@, "--no-headers"@],
{
    let mut v: Vec<String> = Vec::new();
    push_str(&mut v, "cluster");
    push_str(&mut v, "list");
    push_str(&mut v, "--no-headers");
    v
}

/// A `running/total` count.
pub open spec fn ratio_spec(w: Seq<char>) -> Option<(u32, u32)> {
    let parts = split_spec(w, '/');
    if parts.len() != 2 {
        None
    } else {
        match (parse_u32_spec(parts[0]), parse_u32_spec(parts[1])) {
            (Some(a), Some(b)) => Some((a, b)),
            _ => None,
        }
    }
}

fn ratio(w: &str) -> (r: Option<(u32, u32)>)
    ensures
        r == ratio_spec(w@),
{
    let parts = split_on(w, '/');
    if parts.len() != 2 {
        return None;
    }
    match (parse_u32(parts[0].as_str()), parse_u32(parts[1].as_str())) {
        (Some(a), Some(b)) => Some((a, b)),
        _ => None,
    }
}

/// What one listed line says of the cluster: running when a server runs, else
/// stopped; node counts are the totals (zero when unreadable).
pub open spec fn info_from_words(words: Seq<Seq<char>>) -> ClusterInfo {
    let servers = ratio_spec(words[1]);
    let agents = ratio_spec(words[2]);
    ClusterInfo {
        state: match servers {
            Some((running, _)) => if running > 0 {
                ClusterState::Running
            } else {
                ClusterState::Stopped
            },
            None => ClusterState::Stopped,
        },
        servers: match servers {
            Some((_, total)) => total,
            None => 0,
        },
        agents: match agents {
            Some((_, total)) => total,
            None => 0,
        },
    }
}

/// `running/total` as k3d lists node counts.
pub open spec fn count_text(running: u32, total: u32) -> Seq<char> {
    decimal(running as nat) + seq!['/'] + decimal(total as nat)
}

/// A count `running/total` reads back as its two numbers.
proof fn lemma_ratio_reads_counts(running: u32, total: u32)
    ensures
        ratio_spec(count_text(running, total)) == Some((running, total)),
{
    let x = decimal(running as nat);
    let y = decimal(total as nat);
    lemma_decimal_digits(running as nat);
    lemma_decimal_digits(total as nat);
    lemma_parse_decimal_roundtrip(running);
    lemma_parse_decimal_roundtrip(total);
    let parts = seq![x, y];
    assert forall|i: int, j: int| 0 <= i < parts.len() && 0 <= j < parts[i].len() implies #[trigger] parts[i][j]
        != '/' by {
        assert(is_digit(parts[i][j]));
    }
    lemma_split_join(parts, '/');
    assert(parts.drop_last() =~= seq![x]);
    assert(join_spec(seq![x], seq!['/']) == x);
    assert(parts.last() == y);
    assert(join_spec(parts, seq!['/']) =~= count_text(running, total));
}

/// A listed cluster is running exactly when one of its servers runs, and its node
/// counts are the totals after the `/`, however many of them run: a stopped
/// cluster listed as `0/1  0/2` has 1 server and 2 agents.
pub proof fn lemma_listing_counts_are_totals(
    words: Seq<Seq<char>>,
    servers_running: u32,
    servers: u32,
    agents_running: u32,
    agents: u32,
)
    requires
        words.len() >= 3,
        words[1] == count_text(servers_running, servers),
        words[2] == count_text(agents_running, agents),
    ensures
        info_from_words(words).servers == servers,
        info_from_words(words).agents == agents,
        info_from_words(words).state == (if servers_running > 0 {
            ClusterState::Running
        } else {
            ClusterState::Stopped
        }),
{
    lemma_ratio_reads_counts(servers_running, servers);
    lemma_ratio_reads_counts(agents_running, agents);
}

/// The listing's first line that names the cluster, with its counts, decides it.
pub proof fn lemma_listing_first_match(lines: Seq<Seq<char>>, name: Seq<char>)
    requires
        lines.len() > 0,
        words_spec(lines[0]).len() >= 3,
        words_spec(lines[0])[0] == name,
    ensures
        cluster_info_spec(lines, name) == info_from_words(words_spec(lines[0])),
{
}

/// The cluster from the listing: the first line whose name matches, with at least
/// a name, a server count and an agent count; missing when there is none.
pub open spec fn cluster_info_spec(lines: Seq<Seq<char>>, name: Seq<char>) -> ClusterInfo
    decreases lines.len(),
{
    if lines.len() == 0 {
        ClusterInfo { state: ClusterState::Missing, servers: 0, agents: 0 }
    } else {
        let words = words_spec(lines[0]);
        if words.len() >= 3 && words[0] == name {
            info_from_words(words)
        } else {
            cluster_info_spec(lines.drop_first(), name)
        }
    }
}

/// The named cluster from the output of `k3d cluster list --no-headers`.
pub fn cluster_info(list_output: &str, name: &str) -> (r: ClusterInfo)
    ensures
        r == cluster_info_spec(split_spec(list_output@, '\n'), name@),
{
    let lines = split_on(list_output, '\n');
    let mut i: usize = 0;
    assert(views(lines@).skip(0) =~= views(lines@));
    while i < lines.len()
        invariant
            views(lines@) == split_spec(list_output@, '\n'),
            i <= lines.len(),
            cluster_info_spec(views(lines@), name@) == cluster_info_spec(
                views(lines@).skip(i as int),
                name@,
            ),
        decreases lines.len() - i,
    {
        let ghost rest = views(lines@).skip(i as int);
        assert(rest[0] == lines@[i as int]@);
        assert(rest.drop_first() =~= views(lines@).skip(i + 1));
        let words = split_words(lines[i].as_str());
        if words.len() >= 3 && str_eq(words[0].as_str(), name) {
            let servers = ratio(words[1].as_str());
            let agents = ratio(words[2].as_str());
            let state = match servers {
                Some((running, _)) => if running > 0 {
                    ClusterState::Running
                } else {
                    ClusterState::Stopped
                },
                None => ClusterState::Stopped,
            };
            return ClusterInfo {
                state,
                servers: match servers {
                    Some((_, total)) => total,
                    None => 0,
                },
                agents: match agents {
                    Some((_, total)) => total,
                    None => 0,
                },
            };
        }
        i = i + 1;
    }
    ClusterInfo { state: ClusterState::Missing, servers: 0, agents: 0 }
}

/// The `-p` value of one port mapping: `<host>:<container>@loadbalancer`.
pub open spec fn port_flag_spec(p: PortMapping) -> Seq<char> {
    decimal(p.host as nat) + ":"@ + decimal(p.container as nat) + "@loadbalancer"@
}

/// The arguments that create the cluster: name, agent count, one `-p` per port
/// mapping, and `--wait`.
pub open spec fn create_args_spec(config: &MacK3dConfig) -> Seq<Seq<char>> {
    seq!["cluster"@, "create"@, config.cluster.name@, "--agents"@, decimal(config.cluster.agents as nat)]
        + Seq::new(
        (config.cluster.ports@.len() * 2) as nat,
        |i: int|
            if i % 2 == 0 {
                "-p"@
            } else {
                port_flag_spec(config.cluster.ports@[i / 2])
            },
    ) + seq!["--wait"@]
}

/// `k3d cluster create ...` for the configured cluster.
pub fn create_args(config: &MacK3dConfig) -> (r: Vec<String>)
    ensures
        views(r@) == create_args_spec(config),
{
    let mut v: Vec<String> = Vec::new();
    push_str(&mut v, "cluster");
    push_str(&mut v, "create");
    push_str(&mut v, config.cluster.name.as_str());
    push_str(&mut v, "--agents");
    let a = decimal_string(config.cluster.agents as u64);
    push_string(&mut v, a);
    let ghost head = views(v@);
    let ports = &config.cluster.ports;
    let mut i: usize = 0;
    while i < ports.len()
        invariant
            ports@ == config.cluster.ports@,
            i <= ports.len(),
            views(v@) =~= head + Seq::new(
                (i * 2) as nat,
                |k: int|
                    if k % 2 == 0 {
                        "-p"@
                    } else {
                        port_flag_spec(ports@[k / 2])
                    },
            ),
        decreases ports.len() - i,
    {
        let p = ports[i];
        push_str(&mut v, "-p");
        let h = decimal_string(p.host as u64);
        let c = decimal_string(p.container as u64);
        let mut f = concat3(h.as_str(), ":", c.as_str());
        f.append("@loadbalancer");
        push_string(&mut v, f);
        i = i + 1;
    }
    push_str(&mut v, "--wait");
    v
}

/// `k3d cluster <verb> <name>`.
pub fn cluster_verb_args(verb: &str, name: &str) -> (r: Vec<String>)
    ensures
        views(r@) == seq!["cluster"@, verb@, name@],
{
    let mut v: Vec<String> = Vec::new();
    push_str(&mut v, "cluster");
    push_str(&mut v, verb);
    push_str(&mut v, name);
    v
}

/// `k3d kubeconfig merge <name> --kubeconfig-merge-default --kubeconfig-switch-context`.
pub fn merge_kubeconfig_args(name: &str) -> (r: Vec<String>)
    ensures
        views(r@) == seq![
            "kubeconfig"@,
            "merge"@,
            name@,
            "--kubeconfig-merge-default"@,
            "--kubeconfig-switch-context"@,
        ],
{
    let mut v: Vec<String> = Vec::new();
    push_str(&mut v, "kubeconfig");
    push_str(&mut v, "merge");
    push_str(&mut v, name);
    push_str(&mut v, "--kubeconfig-merge-default");
    push_str(&mut v, "--kubeconfig-switch-context");
    v
}

} // verus!
