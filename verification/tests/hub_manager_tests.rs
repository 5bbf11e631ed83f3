use std::path::PathBuf;
use tako_desktop::hub_manager::{
    exit_wait_step, health_step, health_url, hub_command, hub_page_url, kill_step, last_word,
    listing_is_nonempty, lsof_args, netstat_args, netstat_pids, stale_pids, taskkill_args,
    EnvValue, ExitPoll, ExitWait, HealthStep, HubStart, KillStep, StartStep,
    GRACEFUL_EXIT_NANOS, HEALTH_TIMEOUT_NANOS, HUB_PORT,
};
use tako_desktop::paths::AppPath;
use tako_desktop::region::Os;

fn p(base: &str, parts: &[&str]) -> AppPath {
    AppPath::new(PathBuf::from(base), parts)
}

fn env_text(v: &EnvValue) -> String {
    match v {
        EnvValue::Text(t) => t.clone(),
        EnvValue::Path(p) => format!("{}|{}", p.base.display(), p.parts.join("/")),
    }
}

#[test]
fn hub_addresses() {
    assert_eq!(HUB_PORT, 19837);
    assert_eq!(hub_page_url(), "http://localhost:19837");
    assert_eq!(health_url(), "http://localhost:19837/health");
}

#[test]
fn port_listing_commands() {
    assert_eq!(lsof_args(19837), vec!["-ti", ":19837"]);
    assert_eq!(netstat_args(19837), vec!["/C", "netstat -ano | findstr :19837"]);
    assert_eq!(taskkill_args("4242"), vec!["/F", "/PID", "4242"]);
}

#[test]
fn lsof_output_gives_pids_in_order() {
    assert_eq!(stale_pids("123\n456\n"), vec![123, 456]);
    assert_eq!(stale_pids("  77 \r\n\nabc\n-3\n"), vec![77, -3]);
    assert_eq!(stale_pids(""), Vec::<i32>::new());
    assert!(listing_is_nonempty("12\n"));
    assert!(!listing_is_nonempty(" \n\t"));
}

#[test]
fn netstat_output_gives_last_column_pids() {
    let out = "  TCP    127.0.0.1:19837   0.0.0.0:0   LISTENING   4242\r\n  TCP    [::1]:19837  [::]:0  LISTENING  x\r\n\r\n";
    assert_eq!(netstat_pids(out), vec!["4242".to_string()]);
    assert_eq!(last_word("a b  c  "), Some("c"));
    assert_eq!(last_word("   "), None);
}

#[test]
fn hub_command_environment() {
    let c = hub_command(
        Os::MacOs,
        p("/h", &[".tako", "bun", "bin", "bun"]),
        p("/r", &["resources", "hub-bundle.js"]),
        p("/r", &["resources", "web-dist"]),
        None,
        Some(p("/r", &["resources", "catalog.json"])),
        Some("1.4.0".to_string()),
        Some(PathBuf::from("/home/u")),
    )
    .unwrap();
    assert!(c.own_process_group);
    let envs: Vec<(String, String)> = c.envs.iter().map(|(k, v)| (k.clone(), env_text(v))).collect();
    assert_eq!(
        envs,
        vec![
            ("TAKO_WEB_DIST".to_string(), "/r|resources/web-dist".to_string()),
            ("TAKO_LISTEN_PORT".to_string(), "19837".to_string()),
            ("DB_PATH".to_string(), "/home/u|.tako/desktop.db".to_string()),
            ("TAKO_HUB_LOG_NAME".to_string(), "desktop-hub.log".to_string()),
            ("TAKO_CATALOG_PATH".to_string(), "/r|resources/catalog.json".to_string()),
            ("TAKO_DESKTOP_VERSION".to_string(), "1.4.0".to_string()),
        ]
    );
}

#[test]
fn hub_command_without_home_fails() {
    let r = hub_command(
        Os::Windows,
        p("/h", &["bun.exe"]),
        p("/r", &["hub-bundle.js"]),
        p("/r", &["web-dist"]),
        None,
        None,
        None,
        None,
    );
    assert_eq!(r.err(), Some("Cannot determine home directory".to_string()));
}

#[test]
fn starting_without_bun_fails() {
    let (_, step) = HubStart::begin(false);
    match step {
        StartStep::Fail { progress: None, message } => assert_eq!(message, "Bun is not installed"),
        _ => panic!("expected failure"),
    }
}

#[test]
fn starting_the_hub_step_by_step() {
    let (mut s, step) = HubStart::begin(true);
    assert!(matches!(step, StartStep::ClearPort));
    let step = s.on_port_cleared_with_home(
        Os::Linux,
        p("/h", &["bun"]),
        p("/r", &["hub-bundle.js"]),
        p("/r", &["web-dist"]),
        Some(p("/r", &["cli-bundle.js"])),
        None,
        None,
        Some(PathBuf::from("/home/u")),
    );
    match step {
        StartStep::Spawn { progress, command } => {
            assert_eq!(progress.message, "Starting Hub server...");
            assert_eq!(progress.step, "hub");
            assert_eq!(progress.status, "running");
            assert_eq!(command.envs.len(), 5);
            assert_eq!(command.envs[4].0, "TAKO_CLI_BUNDLE");
        }
        _ => panic!("expected spawn"),
    }
    match s.on_spawned(Ok(())) {
        StartStep::WaitForHealth => {}
        _ => panic!("expected wait"),
    }
    match s.on_health(Ok(())) {
        StartStep::Ready(p) => {
            assert_eq!(p.status, "done");
            assert_eq!(p.message, "Hub server ready");
        }
        _ => panic!("expected ready"),
    }
}

#[test]
fn spawn_and_health_failures() {
    let (mut s, _) = HubStart::begin(true);
    let _ = s.on_port_cleared_with_home(
        Os::Linux,
        p("/h", &["bun"]),
        p("/r", &["hub-bundle.js"]),
        p("/r", &["web-dist"]),
        None,
        None,
        None,
        None,
    );
    let (mut s, _) = HubStart::begin(true);
    let _ = s.on_port_cleared_with_home(
        Os::Linux,
        p("/h", &["bun"]),
        p("/r", &["hub-bundle.js"]),
        p("/r", &["web-dist"]),
        None,
        None,
        None,
        Some(PathBuf::from("/home/u")),
    );
    match s.on_spawned(Err("No such file".to_string())) {
        StartStep::Fail { message, .. } => assert_eq!(message, "Failed to start Hub: No such file"),
        _ => panic!("expected failure"),
    }
}

#[test]
fn health_wait_gives_up_after_timeout() {
    assert!(matches!(health_step(0, HEALTH_TIMEOUT_NANOS), HealthStep::Probe));
    assert!(matches!(health_step(HEALTH_TIMEOUT_NANOS, HEALTH_TIMEOUT_NANOS), HealthStep::Probe));
    match health_step(HEALTH_TIMEOUT_NANOS + 1, HEALTH_TIMEOUT_NANOS) {
        HealthStep::GiveUp(m) => assert_eq!(m, "Hub server did not become healthy within timeout"),
        _ => panic!("expected give up"),
    }
}

#[test]
fn exit_wait_rounds() {
    assert_eq!(exit_wait_step(true, ExitPoll::Exited(Some(1))), ExitWait::Return(None));
    assert_eq!(exit_wait_step(false, ExitPoll::Exited(Some(42))), ExitWait::Return(Some(42)));
    assert_eq!(exit_wait_step(false, ExitPoll::Exited(None)), ExitWait::Return(None));
    assert_eq!(exit_wait_step(false, ExitPoll::Running), ExitWait::PollAgain);
    assert_eq!(exit_wait_step(false, ExitPoll::Failed), ExitWait::Return(None));
}

#[test]
fn stopping_the_hub_rounds() {
    assert_eq!(kill_step(ExitPoll::Exited(Some(0)), 0), KillStep::Done);
    assert_eq!(kill_step(ExitPoll::Running, GRACEFUL_EXIT_NANOS - 1), KillStep::Wait);
    assert_eq!(kill_step(ExitPoll::Running, GRACEFUL_EXIT_NANOS), KillStep::ForceKill);
    assert_eq!(kill_step(ExitPoll::Failed, 0), KillStep::ForceKill);
}
