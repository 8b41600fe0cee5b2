use vstd::prelude::*;

pub use crate::prepare::xml::xml_escape;

use crate::error::Error;
use crate::prepare::path_env::{agent_path_spec, agent_tool_path};
use crate::prepare::xml::xml_escape_spec;
use crate::text::{
    concat, concat3, contains_spec, contains_str, decimal, decimal_string, join_path,
    join_path_spec, owned, parse_u32, parse_u32_spec, push_str, trim, trim_spec, views,
};

verus! {

/// The launchd label of the Jenkins agent job.
pub open spec fn launch_agent_label() -> Seq<char> {
    "com.mac-k3d.jenkins-agent"@
}

/// The view of an optional string slice.
pub open spec fn opt_str_view(o: Option<&str>) -> Option<Seq<char>> {
    match o {
        Some(s) => Some(s@),
        None => None,
    }
}

/// `~/Library/LaunchAgents/com.mac-k3d.jenkins-agent.plist` (`.` without a home).
pub open spec fn plist_path_spec(home: Option<Seq<char>>) -> Seq<char> {
    let h = match home {
        Some(h) => h,
        None => "."@,
    };
    join_path_spec(join_path_spec(h, "Library/LaunchAgents"@), launch_agent_label() + ".plist"@)
}

/// Where the LaunchAgent plist of the Jenkins agent is installed.
pub fn plist_path(home: Option<&str>) -> (r: String)
    ensures
        r@ == plist_path_spec(opt_str_view(home)),
{
    let h = match home {
        Some(h) => owned(h),
        None => owned("."),
    };
    let dir = join_path(h.as_str(), "Library/LaunchAgents");
    let file = concat("com.mac-k3d.jenkins-agent", ".plist");
    join_path(dir.as_str(), file.as_str())
}

/// Whatever the home directory, the plist path ends with the job's label and `.plist`.
pub proof fn lemma_plist_path_ends_with_label(home: Option<Seq<char>>)
    ensures
        plist_path_spec(home).len() >= (launch_agent_label() + ".plist"@).len(),
        plist_path_spec(home).subrange(
            plist_path_spec(home).len() - (launch_agent_label() + ".plist"@).len(),
            plist_path_spec(home).len() as int,
        ) == launch_agent_label() + ".plist"@,
{
    let file = launch_agent_label() + ".plist"@;
    reveal_strlit("com.mac-k3d.jenkins-agent");
    assert(file[0] == 'c');
    let h = match home {
        Some(h) => h,
        None => "."@,
    };
    let dir = join_path_spec(h, "Library/LaunchAgents"@);
    let p = plist_path_spec(home);
    let pre = if dir.len() == 0 || dir.last() == '/' {
        dir
    } else {
        dir + seq!['/']
    };
    assert(p == pre + file);
    assert(p.subrange(p.len() - file.len(), p.len() as int) =~= file);
}

/// The `PATH` for the Jenkins agent process (LaunchAgents default to `/usr/bin:/bin`):
/// the configuring shell's `PATH` merged with the directories Docker Desktop and
/// Harbor need.
pub fn agent_path(shell_path: Option<&str>, home: Option<&str>) -> (r: String)
    ensures
        r@ == agent_path_spec(opt_str_view(shell_path), opt_str_view(home)),
{
    agent_tool_path(shell_path, home)
}

/// The marker that a launch script holds until its agent secret is filled in.
pub open spec fn secret_placeholder() -> Seq<char> {
    "REPLACE_ME"@
}

/// Whether the launch script may be started: its secret has been filled in.
pub fn launch_script_ready(body: &str) -> (r: bool)
    ensures
        r == !contains_spec(body@, secret_placeholder()),
{
    !contains_str(body, "REPLACE_ME")
}

/// The agent's standard output log in its working directory.
pub fn stdout_log_path(working_dir: &str) -> (r: String)
    ensures
        r@ == join_path_spec(working_dir@, "jenkins-agent.stdout.log"@),
{
    join_path(working_dir, "jenkins-agent.stdout.log")
}

/// The agent's standard error log in its working directory.
pub fn stderr_log_path(working_dir: &str) -> (r: String)
    ensures
        r@ == join_path_spec(working_dir@, "jenkins-agent.stderr.log"@),
{
    join_path(working_dir, "jenkins-agent.stderr.log")
}

/// The LaunchAgent plist: run `/bin/bash <script>` in `<cwd>` with `PATH` set, start
/// at load, keep alive, and log to the two files; every value XML-escaped.
pub open spec fn plist_xml_spec(
    script: Seq<char>,
    cwd: Seq<char>,
    path: Seq<char>,
    stdout: Seq<char>,
    stderr: Seq<char>,
) -> Seq<char> {
    "<?xml version=\"1.0\" encoding=\"UTF-8\"?>\n<!DOCTYPE plist PUBLIC \"-//Apple//DTD PLIST 1.0//EN\" \"http://www.apple.com/DTDs/PropertyList-1.0.dtd\">\n<plist version=\"1.0\">\n<dict>\n  <key>Label</key>\n  <string>"@
        + launch_agent_label()
        + "</string>\n  <key>ProgramArguments</key>\n  <array>\n    <string>/bin/bash</string>\n    <string>"@
        + xml_escape_spec(script)
        + "</string>\n  </array>\n  <key>WorkingDirectory</key>\n  <string>"@
        + xml_escape_spec(cwd)
        + "</string>\n  <key>EnvironmentVariables</key>\n  <dict>\n    <key>PATH</key>\n    <string>"@
        + xml_escape_spec(path)
        + "</string>\n  </dict>\n  <key>RunAtLoad</key>\n  <true/>\n  <key>KeepAlive</key>\n  <true/>\n  <key>StandardOutPath</key>\n  <string>"@
        + xml_escape_spec(stdout)
        + "</string>\n  <key>StandardErrorPath</key>\n  <string>"@
        + xml_escape_spec(stderr)
        + "</string>\n</dict>\n</plist>\n"@
}

/// The LaunchAgent plist for a launch script.
pub fn plist_xml(script: &str, cwd: &str, path: &str, stdout: &str, stderr: &str) -> (r: String)
    ensures
        r@ == plist_xml_spec(script@, cwd@, path@, stdout@, stderr@),
{
    let mut x = owned(
        "<?xml version=\"1.0\" encoding=\"UTF-8\"?>\n<!DOCTYPE plist PUBLIC \"-//Apple//DTD PLIST 1.0//EN\" \"http://www.apple.com/DTDs/PropertyList-1.0.dtd\">\n<plist version=\"1.0\">\n<dict>\n  <key>Label</key>\n  <string>",
    );
    x.append("com.mac-k3d.jenkins-agent");
    x.append(
        "</string>\n  <key>ProgramArguments</key>\n  <array>\n    <string>/bin/bash</string>\n    <string>",
    );
    let e = xml_escape(script);
    x.append(e.as_str());
    x.append("</string>\n  </array>\n  <key>WorkingDirectory</key>\n  <string>");
    let e = xml_escape(cwd);
    x.append(e.as_str());
    x.append(
        "</string>\n  <key>EnvironmentVariables</key>\n  <dict>\n    <key>PATH</key>\n    <string>",
    );
    let e = xml_escape(path);
    x.append(e.as_str());
    x.append(
        "</string>\n  </dict>\n  <key>RunAtLoad</key>\n  <true/>\n  <key>KeepAlive</key>\n  <true/>\n  <key>StandardOutPath</key>\n  <string>",
    );
    let e = xml_escape(stdout);
    x.append(e.as_str());
    x.append("</string>\n  <key>StandardErrorPath</key>\n  <string>");
    let e = xml_escape(stderr);
    x.append(e.as_str());
    x.append("</string>\n</dict>\n</plist>\n");
    x
}

/// The user id from the output of `id -u`, 501 when it cannot be read.
pub open spec fn uid_spec(id_output: Option<Seq<char>>) -> u32 {
    match id_output {
        Some(o) => match parse_u32_spec(trim_spec(o)) {
            Some(u) => u,
            None => 501,
        },
        None => 501,
    }
}

/// The launchd domain of the logged-in user: `gui/<uid>`.
pub fn gui_domain(id_output: Option<&str>) -> (r: String)
    ensures
        r@ == "gui/"@ + decimal(uid_spec(opt_str_view(id_output)) as nat),
{
    let uid: u32 = match id_output {
        Some(o) => {
            let t = trim(o);
            match parse_u32(t.as_str()) {
                Some(u) => u,
                None => 501,
            }
        },
        None => 501,
    };
    let n = decimal_string(uid as u64);
    concat("gui/", n.as_str())
}

/// The launchd service of the agent in `domain`.
pub fn service_target(domain: &str) -> (r: String)
    ensures
        r@ == domain@ + "/"@ + launch_agent_label(),
{
    concat3(domain, "/", "com.mac-k3d.jenkins-agent")
}

/// The ways of loading the job, tried in order.
#[derive(Clone, Copy, Debug, PartialEq, Eq, Structural)]
pub enum LaunchStep {
    /// `launchctl bootstrap <domain> <plist>`.
    Bootstrap,
    /// Restart an already loaded job: `launchctl kickstart -k <service>`.
    Kickstart,
    /// Older macOS: `launchctl load -w <plist>`.
    Load,
}

/// What follows one `launchctl` attempt.
#[derive(Clone, Copy, Debug, PartialEq, Eq, Structural)]
pub enum LaunchOutcome {
    /// The job runs.
    Started,
    /// Try the next way.
    Next(LaunchStep),
    /// Every way failed.
    Failed,
}

/// What follows an attempt: success ends it, a failure moves to the next way.
pub open spec fn after_launch_spec(step: LaunchStep, succeeded: bool) -> LaunchOutcome {
    if succeeded {
        LaunchOutcome::Started
    } else {
        match step {
            LaunchStep::Bootstrap => LaunchOutcome::Next(LaunchStep::Kickstart),
            LaunchStep::Kickstart => LaunchOutcome::Next(LaunchStep::Load),
            LaunchStep::Load => LaunchOutcome::Failed,
        }
    }
}

/// What follows an attempt.
pub fn after_launch(step: LaunchStep, succeeded: bool) -> (r: LaunchOutcome)
    ensures
        r == after_launch_spec(step, succeeded),
{
    if succeeded {
        return LaunchOutcome::Started;
    }
    match step {
        LaunchStep::Bootstrap => LaunchOutcome::Next(LaunchStep::Kickstart),
        LaunchStep::Kickstart => LaunchOutcome::Next(LaunchStep::Load),
        LaunchStep::Load => LaunchOutcome::Failed,
    }
}

/// The outcome of loading the job when the attempts succeed as `results` says.
pub open spec fn launch_run(step: LaunchStep, results: Seq<bool>) -> LaunchOutcome
    decreases results.len(),
{
    if results.len() == 0 {
        LaunchOutcome::Next(step)
    } else {
        match after_launch_spec(step, results[0]) {
            LaunchOutcome::Next(next) => launch_run(next, results.drop_first()),
            done => done,
        }
    }
}

/// Loading the job makes at most three attempts; it starts exactly when one of
/// them succeeds and fails only when all three fail.
pub proof fn lemma_launch_ends(results: Seq<bool>)
    requires
        results.len() >= 3,
    ensures
        launch_run(LaunchStep::Bootstrap, results) == (if results[0] || results[1] || results[2] {
            LaunchOutcome::Started
        } else {
            LaunchOutcome::Failed
        }),
{
    reveal_with_fuel(launch_run, 4);
    let r1 = results.drop_first();
    let r2 = r1.drop_first();
    assert(r1[0] == results[1]);
    assert(r2[0] == results[2]);
}

/// The `launchctl` arguments of one attempt.
pub fn launch_args(step: LaunchStep, domain: &str, plist: &str) -> (r: Vec<String>)
    ensures
        views(r@) == match step {
            LaunchStep::Bootstrap => seq!["bootstrap"@, domain@, plist@],
            LaunchStep::Kickstart => seq![
                "kickstart"@,
                "-k"@,
                domain@ + "/"@ + launch_agent_label(),
            ],
            LaunchStep::Load => seq!["load"@, "-w"@, plist@],
        },
{
    let mut v: Vec<String> = Vec::new();
    match step {
        LaunchStep::Bootstrap => {
            push_str(&mut v, "bootstrap");
            push_str(&mut v, domain);
            push_str(&mut v, plist);
        },
        LaunchStep::Kickstart => {
            push_str(&mut v, "kickstart");
            push_str(&mut v, "-k");
            let s = service_target(domain);
            push_str(&mut v, s.as_str());
        },
        LaunchStep::Load => {
            push_str(&mut v, "load");
            push_str(&mut v, "-w");
            push_str(&mut v, plist);
        },
    }
    v
}

/// The error when `launchctl` itself could not run for an attempt.
pub fn launch_spawn_error(step: LaunchStep, reason: &str) -> (r: Error)
    ensures
        r matches Error::CommandFailed { cmd, source } && source@ == reason@ && cmd@ == match step {
            LaunchStep::Bootstrap => "launchctl bootstrap"@,
            LaunchStep::Kickstart => "launchctl kickstart"@,
            LaunchStep::Load => "launchctl load"@,
        },
{
    let cmd = match step {
        LaunchStep::Bootstrap => owned("launchctl bootstrap"),
        LaunchStep::Kickstart => owned("launchctl kickstart"),
        LaunchStep::Load => owned("launchctl load"),
    };
    Error::CommandFailed { cmd, source: owned(reason) }
}

/// The error when every attempt failed; `exit` describes the last exit status.
pub fn launch_failed_error(exit: &str) -> (r: Error)
    ensures
        r matches Error::CommandFailed { cmd, source } && cmd@
            == "launchctl bootstrap/kickstart/load"@ && source@ == "exit "@ + exit@,
{
    Error::CommandFailed {
        cmd: owned("launchctl bootstrap/kickstart/load"),
        source: concat("exit ", exit),
    }
}

/// `launchctl bootout <domain>/<label>`.
pub fn bootout_args(domain: &str) -> (r: Vec<String>)
    ensures
        views(r@) == seq!["bootout"@, domain@ + "/"@ + launch_agent_label()],
{
    let mut v: Vec<String> = Vec::new();
    push_str(&mut v, "bootout");
    let s = service_target(domain);
    push_str(&mut v, s.as_str());
    v
}

/// `launchctl unload -w <plist>`.
pub fn unload_args(plist: &str) -> (r: Vec<String>)
    ensures
        views(r@) == seq!["unload"@, "-w"@, plist@],
{
    let mut v: Vec<String> = Vec::new();
    push_str(&mut v, "unload");
    push_str(&mut v, "-w");
    push_str(&mut v, plist);
    v
}

/// The error when the launch script is missing.
pub fn missing_script_error(script: &str) -> (r: Error)
    ensures
        r matches Error::Config(m) && m@ == "launch script not found: "@ + script@,
{
    Error::Config(concat("launch script not found: ", script))
}

} // verus!
