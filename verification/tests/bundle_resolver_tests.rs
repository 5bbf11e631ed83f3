use std::path::PathBuf;
use tako_desktop::bundle_resolver::{
    external_bundle_dir_under, get_external_bundle_version, read_external_version,
    should_skip_external, should_use_external, validate_bundle, BundleLookup, BundleProbe,
    LookupStep,
};
use tako_desktop::paths::AppPath;

const PKG: &str = r#"{"name":"tako-desktop-bundles","version":"1.6.2"}"#;

#[test]
fn external_directory_below_home() {
    let d = external_bundle_dir_under(PathBuf::from("/home/u"));
    assert_eq!(d.parts, vec![".tako", "desktop-bundles", "node_modules", "tako-desktop-bundles"]);
}

#[test]
fn skipping_external_bundles() {
    assert!(should_skip_external(true, None));
    assert!(should_skip_external(false, Some("1")));
    assert!(!should_skip_external(false, Some("0")));
    assert!(!should_skip_external(false, Some("true")));
    assert!(!should_skip_external(false, None));
}

#[test]
fn version_from_package_json() {
    assert_eq!(read_external_version(Some(PKG)), Some("1.6.2".to_string()));
    assert_eq!(read_external_version(Some(r#"{"version":3}"#)), None);
    assert_eq!(read_external_version(Some("not json")), None);
    assert_eq!(read_external_version(Some(r#"{"name":"x"}"#)), None);
    assert_eq!(read_external_version(None), None);
    assert_eq!(get_external_bundle_version(false, Some(PKG)), Some("1.6.2".to_string()));
    assert_eq!(get_external_bundle_version(true, Some(PKG)), None);
}

#[test]
fn preferring_external_bundles() {
    assert!(should_use_external(false, Some(PKG), Some("1.6.2")));
    assert!(should_use_external(false, Some(PKG), Some("1.5.9")));
    assert!(!should_use_external(false, Some(PKG), Some("1.10.0")));
    assert!(should_use_external(false, Some(PKG), None));
    assert!(!should_use_external(true, Some(PKG), None));
    assert!(!should_use_external(false, None, Some("1.0.0")));
    assert!(!should_use_external(false, Some("{}"), None));
}

#[test]
fn bundle_validation() {
    let yes = BundleProbe { exists: true, has_index_html: true, size: Some(10) };
    assert!(validate_bundle("web-dist", yes));
    assert!(!validate_bundle("web-dist", BundleProbe { has_index_html: false, ..yes }));
    assert!(validate_bundle("hub-bundle.js", BundleProbe { has_index_html: false, ..yes }));
    assert!(!validate_bundle("hub-bundle.js", BundleProbe { size: Some(0), ..yes }));
    assert!(!validate_bundle("hub-bundle.js", BundleProbe { size: None, ..yes }));
    assert!(!validate_bundle("web-dist", BundleProbe { exists: false, ..yes }));
}

#[test]
fn lookup_prefers_usable_external_copy() {
    let (mut l, step) = BundleLookup::start_with_home("hub-bundle.js", true, Some(PathBuf::from("/home/u")));
    let candidate = match step {
        LookupStep::ProbeExternal(p) => p,
        _ => panic!("expected external probe"),
    };
    assert_eq!(candidate.parts.last().unwrap(), "hub-bundle.js");
    match l.on_external(BundleProbe { exists: true, has_index_html: false, size: Some(5) }) {
        LookupStep::Done(Ok(p)) => {
            assert_eq!(p.base, PathBuf::from("/home/u"));
            assert_eq!(p.parts, candidate.parts);
        }
        _ => panic!("expected the external copy"),
    }
}

#[test]
fn lookup_falls_back_to_builtin_copy() {
    let (mut l, step) = BundleLookup::start_with_home("web-dist", true, Some(PathBuf::from("/home/u")));
    assert!(matches!(step, LookupStep::ProbeExternal(_)));
    assert!(matches!(
        l.on_external(BundleProbe { exists: true, has_index_html: false, size: Some(5) }),
        LookupStep::FindResourceDir
    ));
    let builtin = match l.on_resource_dir(Ok(PathBuf::from("/app"))) {
        LookupStep::ProbeBuiltin(p) => p,
        _ => panic!("expected builtin probe"),
    };
    assert_eq!(builtin.base, PathBuf::from("/app"));
    assert_eq!(builtin.parts, vec!["resources", "web-dist"]);
    match l.on_builtin(true) {
        LookupStep::Done(Ok(p)) => assert_eq!(p.parts, vec!["resources", "web-dist"]),
        _ => panic!("expected builtin"),
    }
}

#[test]
fn lookup_errors() {
    let (mut l, step) = BundleLookup::start_with_home("catalog.json", false, None);
    assert!(matches!(step, LookupStep::FindResourceDir));
    match l.on_resource_dir(Err("no bundle".into())) {
        LookupStep::Done(Err(m)) => assert_eq!(m, "Cannot resolve resource dir: no bundle"),
        _ => panic!("expected error"),
    }
    let (mut l, _) = BundleLookup::start_with_home("catalog.json", false, None);
    assert!(matches!(l.on_resource_dir(Ok(PathBuf::from("/app"))), LookupStep::ProbeBuiltin(_)));
    match l.on_builtin(false) {
        LookupStep::Done(Err(m)) => {
            assert_eq!(m, "Bundle 'catalog.json' not found in external or built-in resources")
        }
        _ => panic!("expected error"),
    }
    let (_, step) = BundleLookup::start_with_home("x", true, None);
    assert!(matches!(step, LookupStep::HomeUnknown));
    let _unused: Option<AppPath> = None;
}
