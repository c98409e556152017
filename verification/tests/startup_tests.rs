use fake_cdn::cli::{Args, Command};
use fake_cdn::conf::Config;
use fake_cdn::startup::{plan_startup, Startup, StartupError};

fn args(command: Command, dir: Option<&str>, token: Option<&str>) -> Args {
    Args {
        command,
        config: "conf/conf.toml".to_string(),
        dir: dir.map(|s| s.to_string()),
        token: token.map(|s| s.to_string()),
    }
}

fn conf(dir: Option<&str>, token: Option<&str>) -> Config {
    Config { dir: dir.map(|s| s.to_string()), token: token.map(|s| s.to_string()) }
}

fn web() -> Command {
    Command::Web { listen: "0.0.0.0:80".to_string() }
}

#[test]
fn default_config_is_empty() {
    let c = Config::default();
    assert!(c.dir.is_none());
    assert!(c.token.is_none());
}

#[test]
fn command_line_wins_over_file() {
    match plan_startup(args(web(), Some("cli_dir"), Some("cli_tok")), conf(Some("f_dir"), Some("f_tok"))) {
        Ok(Startup::Web { listen, token, dir }) => {
            assert_eq!(listen, "0.0.0.0:80");
            assert_eq!(token, "cli_tok");
            assert_eq!(dir, "cli_dir");
        }
        other => panic!("unexpected {:?}", other),
    }
}

#[test]
fn file_fills_what_command_line_leaves_open() {
    match plan_startup(args(web(), None, None), conf(Some("f_dir"), Some("f_tok"))) {
        Ok(Startup::Web { token, dir, .. }) => {
            assert_eq!(token, "f_tok");
            assert_eq!(dir, "f_dir");
        }
        other => panic!("unexpected {:?}", other),
    }
}

#[test]
fn upload_dir_defaults_to_dot_uploads() {
    match plan_startup(args(web(), None, Some("t")), Config::default()) {
        Ok(Startup::Web { dir, .. }) => assert_eq!(dir, ".uploads"),
        other => panic!("unexpected {:?}", other),
    }
}

#[test]
fn token_is_required_for_web_and_install_service() {
    assert!(matches!(
        plan_startup(args(web(), Some("d"), None), conf(Some("x"), None)),
        Err(StartupError::TokenRequired)
    ));
    let install = Command::InstallService { path: "/tmp/x.service".to_string() };
    assert!(matches!(plan_startup(args(install, None, None), Config::default()), Err(StartupError::TokenRequired)));
    let install = Command::InstallService { path: "/tmp/x.service".to_string() };
    match plan_startup(args(install, None, None), conf(None, Some("t"))) {
        Ok(Startup::InstallService { path }) => assert_eq!(path, "/tmp/x.service"),
        other => panic!("unexpected {:?}", other),
    }
}

#[test]
fn init_needs_no_token_and_keeps_its_own_arguments() {
    let init = Command::Init { dir: Some("here".to_string()), token: None, force: true };
    match plan_startup(args(init, Some("other"), Some("tok")), Config::default()) {
        Ok(Startup::Init { config, dir, token, force }) => {
            assert_eq!(config, "conf/conf.toml");
            assert_eq!(dir.as_deref(), Some("here"));
            assert_eq!(token, None);
            assert!(force);
        }
        other => panic!("unexpected {:?}", other),
    }
}
