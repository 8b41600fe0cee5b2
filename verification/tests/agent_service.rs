use mac_k3d::prepare::agent_service::{
    after_launch, agent_path, gui_domain, launch_args, launch_script_ready, plist_path, plist_xml,
    service_target, LaunchOutcome, LaunchStep,
};
use mac_k3d::prepare::agent_service::xml_escape;

#[test]
fn plist_path_ends_with_label() {
    let home: Option<&str> = Some("/Users/ci");
    assert!(plist_path(home).contains("com.mac-k3d.jenkins-agent.plist"));
}

#[test]
fn xml_escape_ampersand() {
    assert_eq!(xml_escape("a&b"), "a&amp;b");
}

#[test]
fn agent_path_nonempty() {
    let shell: Option<&str> = Some("/usr/bin:/bin");
    let home: Option<&str> = Some("/Users/ci");
    assert!(!agent_path(shell, home).is_empty());
    assert!(agent_path(shell, home).contains('/'));
    assert!(!agent_path(None, None).is_empty());
    assert!(agent_path(None, None).contains('/'));
}

#[test]
fn plist_path_without_home_is_relative() {
    assert_eq!(
        plist_path(None),
        "./Library/LaunchAgents/com.mac-k3d.jenkins-agent.plist"
    );
    assert_eq!(
        plist_path(Some("/Users/ci")),
        "/Users/ci/Library/LaunchAgents/com.mac-k3d.jenkins-agent.plist"
    );
}

#[test]
fn xml_escape_all_entities() {
    assert_eq!(xml_escape("<a href=\"x\">&</a>"), "&lt;a href=&quot;x&quot;&gt;&amp;&lt;/a&gt;");
    assert_eq!(xml_escape("plain/path"), "plain/path");
    assert_eq!(xml_escape(""), "");
}

#[test]
fn agent_path_merges_without_duplicates() {
    let p = agent_path(Some("/usr/bin:/custom/bin::/usr/bin"), Some("/Users/ci"));
    assert_eq!(
        p,
        "/usr/bin:/custom/bin:/Users/ci/.local/bin:/opt/homebrew/bin:/usr/local/bin:\
/Applications/Docker.app/Contents/Resources/bin:/bin:/usr/sbin:/sbin"
    );
    let entries: Vec<&str> = p.split(':').collect();
    for (i, e) in entries.iter().enumerate() {
        assert!(!entries[i + 1..].contains(e));
    }
}

#[test]
fn agent_path_without_shell_path() {
    assert_eq!(
        agent_path(None, None),
        "/opt/homebrew/bin:/usr/local/bin:/Applications/Docker.app/Contents/Resources/bin:\
/usr/bin:/bin:/usr/sbin:/sbin"
    );
}

#[test]
fn launch_script_with_placeholder_is_not_started() {
    assert!(!launch_script_ready("SECRET=REPLACE_ME\njava -jar agent.jar"));
    assert!(launch_script_ready("SECRET=abc123\njava -jar agent.jar"));
    assert!(launch_script_ready(""));
}

#[test]
fn gui_domain_reads_uid() {
    assert_eq!(gui_domain(Some("502\n")), "gui/502");
    assert_eq!(gui_domain(Some("not a number")), "gui/501");
    assert_eq!(gui_domain(None), "gui/501");
    assert_eq!(gui_domain(Some("  +0 ")), "gui/0");
    assert_eq!(gui_domain(Some("99999999999")), "gui/501");
}

#[test]
fn launch_tries_three_ways_then_fails() {
    assert_eq!(after_launch(LaunchStep::Bootstrap, true), LaunchOutcome::Started);
    assert_eq!(
        after_launch(LaunchStep::Bootstrap, false),
        LaunchOutcome::Next(LaunchStep::Kickstart)
    );
    assert_eq!(
        after_launch(LaunchStep::Kickstart, false),
        LaunchOutcome::Next(LaunchStep::Load)
    );
    assert_eq!(after_launch(LaunchStep::Load, false), LaunchOutcome::Failed);
    assert_eq!(after_launch(LaunchStep::Load, true), LaunchOutcome::Started);
}

#[test]
fn launch_commands() {
    assert_eq!(
        launch_args(LaunchStep::Bootstrap, "gui/501", "/p.plist"),
        vec!["bootstrap", "gui/501", "/p.plist"]
    );
    assert_eq!(
        launch_args(LaunchStep::Kickstart, "gui/501", "/p.plist"),
        vec!["kickstart", "-k", "gui/501/com.mac-k3d.jenkins-agent"]
    );
    assert_eq!(
        launch_args(LaunchStep::Load, "gui/501", "/p.plist"),
        vec!["load", "-w", "/p.plist"]
    );
    assert_eq!(service_target("gui/7"), "gui/7/com.mac-k3d.jenkins-agent");
}

#[test]
fn plist_escapes_values() {
    let x = plist_xml("/a&b/launch.sh", "/work", "/bin", "/work/o.log", "/work/e.log");
    assert!(x.starts_with("<?xml version=\"1.0\" encoding=\"UTF-8\"?>\n"));
    assert!(x.contains("<string>com.mac-k3d.jenkins-agent</string>"));
    assert!(x.contains("<string>/a&amp;b/launch.sh</string>"));
    assert!(x.contains("<key>PATH</key>\n    <string>/bin</string>"));
    assert!(x.ends_with("</dict>\n</plist>\n"));
}

#[test]
fn xml_escape_reads_back_with_replacements() {
    for s in ["<a href=\"x\">&</a>", "&lt; stays text", "plain", "&amp;&&"] {
        let e = xml_escape(s);
        let back = e
            .replace("&lt;", "<")
            .replace("&gt;", ">")
            .replace("&quot;", "\"")
            .replace("&amp;", "&");
        assert_eq!(back, s);
        for (i, _) in e.match_indices('&') {
            let rest = &e[i..];
            assert!(["&amp;", "&lt;", "&gt;", "&quot;"].iter().any(|x| rest.starts_with(x)));
        }
    }
}
