use mac_k3d::config::DependencySource;
use mac_k3d::prepare::facts::PathFacts;
use mac_k3d::prepare::install::{
    brew_available, brew_missing_error, command_failed, entry_from_path, harbor_commands,
    harbor_route, install_method, not_found_after_install_error, HarborRoute, InstallMethod,
};
use mac_k3d::Error;

#[test]
fn brew_available_on_macos_ci() {
    let path: Option<&str> = Some("/opt/homebrew/bin:/usr/local/bin:/usr/bin");
    let _ = brew_available(path, &PathFacts::new());
}

#[test]
fn brew_found_on_path() {
    let mut f = PathFacts::new();
    f.add_existing("/opt/homebrew/bin/brew".to_string());
    assert!(brew_available(Some("/usr/bin:/opt/homebrew/bin"), &f));
    assert!(!brew_available(Some("/usr/bin"), &f));
    assert!(!brew_available(None, &f));
}

#[test]
fn install_methods() {
    assert!(matches!(install_method("harbor"), Ok(InstallMethod::Harbor)));
    match install_method("java") {
        Ok(InstallMethod::Brew(a)) => assert_eq!(a, vec!["install", "--cask", "temurin"]),
        _ => panic!(),
    }
    match install_method("docker") {
        Ok(InstallMethod::Brew(a)) => assert_eq!(a, vec!["install", "--cask", "docker"]),
        _ => panic!(),
    }
    match install_method("helm") {
        Ok(InstallMethod::Brew(a)) => assert_eq!(a, vec!["install", "helm"]),
        _ => panic!(),
    }
    match install_method("emacs") {
        Err(Error::Config(m)) => assert_eq!(m, "unknown dependency for install: emacs"),
        _ => panic!(),
    }
}

#[test]
fn harbor_routes() {
    assert_eq!(harbor_route(true, true, true).unwrap(), HarborRoute::Uv);
    assert_eq!(harbor_route(false, true, true).unwrap(), HarborRoute::Pipx);
    assert_eq!(harbor_route(false, false, true).unwrap(), HarborRoute::BrewThenUv);
    match harbor_route(false, false, false) {
        Err(Error::DependencyMissing(m)) => {
            assert_eq!(m, "harbor: need uv, pipx, or Homebrew to install")
        }
        _ => panic!(),
    }
    let c = harbor_commands(HarborRoute::BrewThenUv);
    assert_eq!(c.len(), 2);
    assert_eq!(c[0].program, "brew");
    assert_eq!(c[0].args, vec!["install", "uv"]);
    assert_eq!(c[1].program, "uv");
    assert_eq!(c[1].args, vec!["tool", "install", "harbor"]);
}

#[test]
fn install_errors() {
    let e = command_failed("brew", &vec!["install".to_string(), "k3d".to_string()], "exit code Some(1)");
    assert_eq!(e.to_string(), "command `brew install k3d` failed: exit code Some(1)");
    assert_eq!(
        brew_missing_error("k3d").to_string(),
        "missing dependency: Homebrew not found; install k3d manually"
    );
    assert_eq!(
        not_found_after_install_error("helm").to_string(),
        "missing dependency: helm installed but binary not found on PATH"
    );
}

#[test]
fn entry_from_existing_path() {
    let e = entry_from_path("/usr/bin/kubectl".to_string(), None, true).unwrap();
    assert_eq!(e.source, DependencySource::Existing);
    assert_eq!(e.binary.as_deref(), Some("/usr/bin/kubectl"));
    match entry_from_path("/nope".to_string(), None, false) {
        Err(Error::Validation(m)) => assert_eq!(m, "binary not found: /nope"),
        _ => panic!(),
    }
}
