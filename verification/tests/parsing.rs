use flamingo_agent::cli::{launch_arguments, parse, Command};
use flamingo_agent::config::{child_file_name, Config};
use flamingo_agent::error::Error;

fn defaults() -> Config {
    Config::with_defaults(Some("/pd"), "/opt/agent/flamingo-agent")
}

fn args(list: &[&str]) -> Vec<String> {
    list.iter().map(|s| s.to_string()).collect()
}

fn config_message(e: Error) -> String {
    match e {
        Error::Config(m) => m,
        other => panic!("expected a configuration error, got {other:?}"),
    }
}

#[test]
fn defaults_layout() {
    let c = defaults();
    assert_eq!(c.interval_ms, 5000);
    assert_eq!(c.max_backoff_ms, 60_000);
    assert!(c.console);
    assert!(c.data_dir.starts_with("/pd") && c.data_dir.ends_with("FlamingoAgent"));
    assert!(c.agent_log.starts_with(&c.data_dir) && c.agent_log.ends_with("agent.log"));
    assert!(c.child_log.starts_with(&c.data_dir) && c.child_log.ends_with("child.log"));
    assert!(c.child_path.starts_with("/opt/agent") && c.child_path.ends_with("logger-child.exe"));
    assert_eq!(child_file_name(), "logger-child.exe");
}

#[test]
fn locations_place_child_and_logs() {
    let c = Config::with_locations(Some("/pd"), Some("/bin"));
    assert_eq!(c.child_path, std::path::Path::new("/bin").join("logger-child.exe").to_string_lossy());
    assert_eq!(c.data_dir, std::path::Path::new("/pd").join("FlamingoAgent").to_string_lossy());
    assert!(c.child_path.ends_with("logger-child.exe"));
    let c = Config::with_locations(None, None);
    assert!(c.child_path.starts_with('.') && c.child_path.ends_with("logger-child.exe"));
    assert!(c.data_dir.starts_with("C:\\ProgramData") && c.data_dir.ends_with("FlamingoAgent"));
}

#[test]
fn defaults_without_program_data() {
    let c = Config::with_defaults(None, "agent.exe");
    assert!(c.data_dir.starts_with("C:\\ProgramData"));
    assert!(c.data_dir.ends_with("FlamingoAgent"));
    assert!(c.child_path.ends_with("logger-child.exe"));
}

#[test]
fn set_data_dir_moves_both_logs() {
    let mut c = defaults();
    let child = c.child_path.clone();
    c.set_data_dir("/var/flamingo".to_string());
    assert_eq!(c.data_dir, "/var/flamingo");
    assert_eq!(c.agent_log, std::path::Path::new("/var/flamingo").join("agent.log").to_string_lossy());
    assert_eq!(c.child_log, std::path::Path::new("/var/flamingo").join("child.log").to_string_lossy());
    assert!(c.agent_log.len() == "/var/flamingo".len() + 1 + "agent.log".len());
    assert!(c.agent_log.starts_with("/var/flamingo") && c.agent_log.ends_with("agent.log"));
    assert!(c.child_log.starts_with("/var/flamingo") && c.child_log.ends_with("child.log"));
    assert_eq!(c.child_path, child);
}

#[test]
fn validate_checks_interval_then_child() {
    let mut c = defaults();
    assert!(c.validate(true).is_ok());
    let msg = config_message(c.validate(false).unwrap_err());
    assert_eq!(msg, format!("no child binary at {}, point --child at it", c.child_path));
    c.interval_ms = 0;
    assert_eq!(config_message(c.validate(true).unwrap_err()), "--interval has to be at least 1");
}

#[test]
fn no_arguments_runs_in_the_foreground() {
    let cli = parse(&args(&[]), defaults()).unwrap();
    assert_eq!(cli.command, Command::Run);
    assert!(cli.config.console);
    assert!(cli.passthrough.is_empty());
}

#[test]
fn command_flags_select_the_command() {
    assert_eq!(parse(&args(&["--install"]), defaults()).unwrap().command, Command::Install);
    assert_eq!(parse(&args(&["--uninstall"]), defaults()).unwrap().command, Command::Uninstall);
    let svc = parse(&args(&["--service"]), defaults()).unwrap();
    assert_eq!(svc.command, Command::Service);
    assert!(!svc.config.console);
    // The last command flag wins.
    assert_eq!(parse(&args(&["--install", "--uninstall"]), defaults()).unwrap().command, Command::Uninstall);
}

#[test]
fn overrides_set_config_and_passthrough() {
    let cli = parse(&args(&["--child", "/x/child.exe", "--install", "--data-dir", "/d"]), defaults()).unwrap();
    assert_eq!(cli.command, Command::Install);
    assert!(!cli.config.console);
    assert_eq!(cli.config.child_path, "/x/child.exe");
    assert_eq!(cli.config.data_dir, "/d");
    assert!(cli.config.agent_log.starts_with("/d") && cli.config.agent_log.ends_with("agent.log"));
    assert_eq!(cli.passthrough, args(&["--child", "/x/child.exe", "--data-dir", "/d"]));
}

#[test]
fn a_value_may_look_like_a_flag() {
    let cli = parse(&args(&["--child", "--install"]), defaults()).unwrap();
    assert_eq!(cli.command, Command::Run);
    assert_eq!(cli.config.child_path, "--install");
}

#[test]
fn missing_value_is_refused() {
    let e = parse(&args(&["--data-dir"]), defaults()).unwrap_err();
    assert_eq!(config_message(e), "--data-dir needs a value");
    let e = parse(&args(&["--install", "--child"]), defaults()).unwrap_err();
    assert_eq!(config_message(e), "--child needs a value");
}

#[test]
fn unknown_flag_is_refused() {
    let e = parse(&args(&["--install", "--verbose"]), defaults()).unwrap_err();
    assert_eq!(
        config_message(e),
        "don't know '--verbose'; flags are --install, --uninstall, --child, --data-dir"
    );
}

#[test]
fn passthrough_round_trip() {
    let first = parse(&args(&["--data-dir", "/a", "--child", "c1", "--install", "--child", "c2"]), defaults()).unwrap();
    let registered = launch_arguments(&first.passthrough);
    assert_eq!(registered[0], "--service");
    assert_eq!(registered[1..].to_vec(), first.passthrough);
    let again = parse(&registered, defaults()).unwrap();
    assert_eq!(again.command, Command::Service);
    assert_eq!(again.config.child_path, first.config.child_path);
    assert_eq!(again.config.data_dir, first.config.data_dir);
    assert_eq!(again.config.child_log, first.config.child_log);
    assert_eq!(again.passthrough, first.passthrough);
}

#[test]
fn error_messages() {
    assert_eq!(Error::config("bad").describe(), "bad");
    assert_eq!(Error::other("odd").describe(), "odd");
    assert_eq!(Error::io("disk full").describe(), "i/o error: disk full");
    let os = Error::os("OpenProcessToken", 5);
    assert_eq!(os.describe_with("Access is denied."), "OpenProcessToken failed (os error 5): Access is denied.");
    let text = os.describe();
    assert!(text.starts_with("OpenProcessToken failed (os error 5): "));
    match Error::from_os_code("X", None) {
        Error::Os { op, code } => {
            assert_eq!(op, "X");
            assert_eq!(code, 0);
        }
        other => panic!("{other:?}"),
    }
    match Error::from_os_code("Y", Some(-1)) {
        Error::Os { code, .. } => assert_eq!(code, u32::MAX),
        other => panic!("{other:?}"),
    }
    assert!(matches!(Error::last_os("Z"), Error::Os { op: "Z", .. }));
}

#[test]
fn launch_arguments_without_overrides() {
    assert_eq!(launch_arguments(&Vec::new()), vec!["--service".to_string()]);
}

#[test]
fn second_data_dir_move_wins() {
    let mut twice = defaults();
    twice.set_data_dir("/first".to_string());
    twice.set_data_dir("/second".to_string());
    let mut once = defaults();
    once.set_data_dir("/second".to_string());
    assert_eq!(twice.data_dir, once.data_dir);
    assert_eq!(twice.agent_log, once.agent_log);
    assert_eq!(twice.child_log, once.child_log);
    assert_eq!(twice.child_path, once.child_path);
}

#[test]
fn child_sits_next_to_the_executable() {
    let c = Config::with_defaults(None, "/opt/agent/flamingo-agent");
    assert_eq!(c.child_path, std::path::Path::new("/opt/agent").join("logger-child.exe").to_string_lossy());
    let c = Config::with_defaults(None, "flamingo-agent");
    assert_eq!(c.child_path, "logger-child.exe");
    let c = Config::with_defaults(None, "");
    assert!(c.child_path.starts_with('.') && c.child_path.ends_with("logger-child.exe"));
}
