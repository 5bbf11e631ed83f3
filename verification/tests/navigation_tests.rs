use tako_desktop::navigation::{is_local_navigation, open_externally_command, parse_url, NavigationTarget};
use tako_desktop::region::Os;

fn target(url: &str) -> NavigationTarget {
    let u = url::Url::parse(url).unwrap();
    NavigationTarget {
        scheme: u.scheme().to_string(),
        host: u.host_str().map(|h| h.to_string()),
        text: u.as_str().to_string(),
    }
}

#[test]
fn local_navigations_stay_in_the_window() {
    assert!(is_local_navigation(&target("http://localhost:19837/sessions")));
    assert!(is_local_navigation(&target("http://127.0.0.1:3000/")));
    assert!(is_local_navigation(&target("tauri://localhost/index.html")));
    assert!(is_local_navigation(&target("about:blank")));
    assert!(is_local_navigation(&target("http+ipc://x/")));
    assert!(!is_local_navigation(&target("https://github.com/")));
    assert!(!is_local_navigation(&target("https://localhost.example.com/")));
}

#[test]
fn external_browser_commands() {
    let m = open_externally_command(Os::MacOs, "https://a.b/");
    assert_eq!((m.program.as_str(), m.args.clone()), ("open", vec!["https://a.b/".to_string()]));
    let l = open_externally_command(Os::Linux, "https://a.b/");
    assert_eq!(l.program, "xdg-open");
    let w = open_externally_command(Os::Windows, "https://a.b/");
    assert_eq!(w.program, "cmd");
    assert_eq!(w.args, vec!["/c", "start", "", "https://a.b/"]);
}

#[test]
fn parsing_addresses() {
    let p = parse_url("http://localhost:19837").ok().unwrap();
    assert_eq!(p.as_text(), "http://localhost:19837/");
    assert_eq!(p.url().as_str(), "http://localhost:19837/");
    assert_eq!(p.into_url().port(), Some(19837));
    assert_eq!(parse_url("not a url").err(), Some("relative URL without a base".to_string()));
}
