use tako_desktop::version::is_version_gte;

#[test]
fn newer_patch_minor_major_are_greater() {
    assert!(is_version_gte("1.2.10", "1.2.9"));
    assert!(!is_version_gte("1.2.9", "1.2.10"));
    assert!(is_version_gte("1.3.0", "1.2.99"));
    assert!(is_version_gte("10.0.0", "9.9.9"));
    assert!(!is_version_gte("2.0.0", "10.0.0"));
}

#[test]
fn equal_versions_are_at_least_each_other() {
    assert!(is_version_gte("1.2.5", "1.2.5"));
    assert!(is_version_gte("1.2", "1.2.0"));
    assert!(is_version_gte("1.2.0", "1.2"));
}

#[test]
fn missing_and_invalid_parts_count_as_zero() {
    assert!(is_version_gte("1", "0.9.9"));
    assert!(is_version_gte("x.y.z", "0.0.0"));
    assert!(!is_version_gte("x.y.z", "0.0.1"));
    assert!(is_version_gte("v1.2.3", "0.2.3"));
    assert!(!is_version_gte("v1.2.3", "0.3.0"));
    assert!(is_version_gte("99999999999.0.0", "0.0.0"));
    assert!(!is_version_gte("99999999999.0.0", "0.0.1"));
    assert!(is_version_gte("", ""));
}

#[test]
fn a_pre_release_is_below_its_release() {
    assert!(!is_version_gte("1.2.4-b", "1.2.4"));
    assert!(is_version_gte("1.2.4", "1.2.4-b"));
    assert!(is_version_gte("1.2.4-alpha", "1.2.4-beta"));
    assert!(is_version_gte("1.2.4-beta", "1.2.4-alpha"));
    assert!(!is_version_gte("1.2.4-rc.1+build", "1.2.4+other"));
}

#[test]
fn parts_that_are_not_numbers_count_as_zero() {
    assert!(!is_version_gte("5abc", "1"));
    assert!(is_version_gte("5", "4.9"));
}

#[test]
fn pre_release_and_build_parts_count_by_their_numeric_core() {
    assert!(is_version_gte("1.2.4-beta.1", "1.2.3"));
    assert!(!is_version_gte("1.2.3", "1.2.4-beta.1"));
    assert!(is_version_gte("1.2.3-beta", "1.2.1"));
    assert!(is_version_gte("1.2.3+build.7", "1.2.3"));
    assert!(is_version_gte("1.2.3", "1.2.3+build.7"));
    assert!(is_version_gte("2-rc.1", "1.9.9"));
}

#[test]
fn parts_after_the_third_do_not_count() {
    assert!(is_version_gte("1.2.3.0", "1.2.3.9"));
    assert!(is_version_gte("1.2.3.9", "1.2.3.0"));
}

#[test]
fn comparison_is_a_total_preorder_on_samples() {
    let samples = ["0.1.0", "1.0.0", "1.0", "1.10.0", "1.9.9", "2", "abc", "1.2.3.4", ""];
    for a in samples {
        assert!(is_version_gte(a, a));
        for b in samples {
            assert!(is_version_gte(a, b) || is_version_gte(b, a));
            for c in samples {
                if is_version_gte(a, b) && is_version_gte(b, c) {
                    assert!(is_version_gte(a, c));
                }
            }
        }
    }
}
