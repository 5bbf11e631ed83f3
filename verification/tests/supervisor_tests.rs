use std::path::PathBuf;
use tako_desktop::paths::AppPath;
use tako_desktop::supervisor::{
    bun_check_progress, bun_result_progress, bundle_version, hub_error_progress, HubAction,
    HubLoop, RestartReason, Resolution, CRASH_RESTART_DELAY_SECS,
};

fn path(name: &str) -> AppPath {
    AppPath::new(PathBuf::from("/r"), &["resources", name])
}

fn resolution() -> Resolution {
    Resolution {
        hub: Ok(path("hub-bundle.js")),
        cli: Err("missing".to_string()),
        web: Ok(path("web-dist")),
        catalog: Ok(path("catalog.json")),
        use_external: true,
        external_version: Some("1.5.0".to_string()),
        app_version: Some("1.4.0".to_string()),
    }
}

fn to_watching(l: &mut HubLoop) {
    assert!(l.begin(false));
    let launch = l.on_resolved(resolution()).ok().unwrap();
    assert!(launch.bundles.cli.is_none());
    assert!(launch.bundles.catalog.is_some());
    assert_eq!(launch.version.as_deref(), Some("1.5.0"));
    assert_eq!(launch.progress.unwrap().message, "Starting Hub (bundle v1.5.0)...");
    match l.on_started(Ok(1234)) {
        HubAction::Watch { pid, page } => {
            assert_eq!(pid, 1234);
            assert_eq!(page.as_text(), "http://localhost:19837/");
            assert_eq!(page.url().as_str(), "http://localhost:19837/");
        }
        _ => panic!("expected watch"),
    }
}

#[test]
fn shutdown_before_a_round_ends_the_loop() {
    let mut l = HubLoop::new();
    assert!(!l.begin(true));
}

#[test]
fn missing_required_bundles_end_the_loop() {
    let mut l = HubLoop::new();
    l.begin(false);
    let mut r = resolution();
    r.hub = Err("Bundle 'hub-bundle.js' not found in external or built-in resources".to_string());
    r.web = Err("web".to_string());
    assert_eq!(
        l.on_resolved(r).err(),
        Some("Bundle 'hub-bundle.js' not found in external or built-in resources".to_string())
    );
    let mut l = HubLoop::new();
    l.begin(false);
    let mut r = resolution();
    r.web = Err("web missing".to_string());
    assert_eq!(l.on_resolved(r).err(), Some("web missing".to_string()));
}

#[test]
fn bundle_version_choice() {
    assert_eq!(bundle_version(true, Some("2".into()), Some("1".into())), Some("2".into()));
    assert_eq!(bundle_version(true, None, Some("1".into())), Some("1".into()));
    assert_eq!(bundle_version(false, Some("2".into()), Some("1".into())), Some("1".into()));
    assert_eq!(bundle_version(false, Some("2".into()), None), None);
}

#[test]
fn restart_code_restarts_at_once() {
    let mut l = HubLoop::new();
    to_watching(&mut l);
    assert!(matches!(l.on_exit(false, Some(42)), HubAction::RestartNow));
    to_watching(&mut l);
}

#[test]
fn shutdown_after_exit_stops_the_hub() {
    let mut l = HubLoop::new();
    to_watching(&mut l);
    assert!(matches!(l.on_exit(true, Some(1)), HubAction::KillAndStop));
}

#[test]
fn failures_in_a_row_give_up_on_the_fourth() {
    let mut l = HubLoop::new();
    to_watching(&mut l);
    // a crash, then three failed starts: the fourth failure in a row gives up
    assert!(matches!(l.on_exit(false, Some(-5)), HubAction::Retry { attempt: 1, .. }));
    for expected in 2..=3u32 {
        l.begin(false);
        l.on_resolved(resolution()).ok().unwrap();
        match l.on_started(Err("e".to_string())) {
            HubAction::Retry { attempt, .. } => assert_eq!(attempt, expected),
            _ => panic!("expected retry"),
        }
    }
    l.begin(false);
    l.on_resolved(resolution()).ok().unwrap();
    match l.on_started(Err("port busy".to_string())) {
        HubAction::Fail(m) => assert_eq!(m, "Hub failed to start after 3 attempts: port busy"),
        _ => panic!("expected give up"),
    }
}

#[test]
fn a_hub_that_keeps_crashing_is_given_up_on_after_three_restarts() {
    let mut l = HubLoop::new();
    for attempt in 1..=3u32 {
        to_watching(&mut l);
        match l.on_exit(false, Some(1)) {
            HubAction::Retry { delay_secs, attempt: a, reason: RestartReason::Crashed(1) } => {
                assert_eq!(a, attempt);
                assert_eq!(delay_secs, CRASH_RESTART_DELAY_SECS);
            }
            _ => panic!("expected retry"),
        }
    }
    to_watching(&mut l);
    match l.on_exit(false, Some(-7)) {
        HubAction::Fail(m) => assert_eq!(m, "Hub crashed 3 times (last exit code: -7), giving up"),
        _ => panic!("expected give up"),
    }
}

#[test]
fn a_hub_that_keeps_being_signaled_is_given_up_on() {
    let mut l = HubLoop::new();
    for _ in 0..3 {
        to_watching(&mut l);
        assert!(matches!(l.on_exit(false, None), HubAction::Retry { reason: RestartReason::Signaled, .. }));
    }
    to_watching(&mut l);
    match l.on_exit(false, None) {
        HubAction::Fail(m) => assert_eq!(m, "Hub terminated by signal 3 times, giving up"),
        _ => panic!("expected give up"),
    }
}

#[test]
fn restart_code_clears_the_count_of_crashes() {
    let mut l = HubLoop::new();
    for _ in 0..3 {
        to_watching(&mut l);
        assert!(matches!(l.on_exit(false, Some(1)), HubAction::Retry { .. }));
    }
    to_watching(&mut l);
    assert!(matches!(l.on_exit(false, Some(42)), HubAction::RestartNow));
    to_watching(&mut l);
    assert!(matches!(l.on_exit(false, Some(1)), HubAction::Retry { attempt: 1, .. }));
}

#[test]
fn setup_progress_events() {
    let c = bun_check_progress();
    assert_eq!((c.step.as_str(), c.status.as_str(), c.message.as_str()), ("bun", "running", "Checking Bun runtime..."));
    let d = bun_result_progress(&Ok(()));
    assert_eq!((d.step.as_str(), d.status.as_str(), d.message.as_str()), ("bun", "done", "Bun runtime ready"));
    let e = bun_result_progress(&Err("boom".to_string()));
    assert_eq!((e.status.as_str(), e.message.as_str()), ("error", "boom"));
    let h = hub_error_progress("bad");
    assert_eq!((h.step.as_str(), h.status.as_str(), h.message.as_str()), ("hub", "error", "bad"));
}
