use pulsar::version::is_remote_newer;

#[test]
fn newer_patch_is_newer() {
    assert!(is_remote_newer("v1.0.0", "v1.0.1"));
}

#[test]
fn older_minor_is_not_newer() {
    assert!(!is_remote_newer("v1.2.0", "v1.1.9"));
}

#[test]
fn missing_component_reads_as_zero() {
    assert!(!is_remote_newer("v1.0", "v1.0.0"));
    assert!(!is_remote_newer("v2.0.0", "v2"));
    assert!(is_remote_newer("v2", "v2.0.1"));
}

#[test]
fn equal_tags_are_not_newer() {
    assert!(!is_remote_newer("v3.4.5", "v3.4.5"));
    assert!(!is_remote_newer("", ""));
}

#[test]
fn prefix_is_optional() {
    assert!(is_remote_newer("1.9", "v1.10"));
    assert!(!is_remote_newer("v1.10", "1.9"));
}

#[test]
fn components_compare_as_numbers() {
    assert!(is_remote_newer("v1.9.0", "v1.10.0"));
    assert!(!is_remote_newer("v10.0", "v9.99"));
}

#[test]
fn unreadable_component_counts_as_zero() {
    assert!(!is_remote_newer("v1.0", "v1.beta"));
    assert!(is_remote_newer("v1.beta", "v1.1"));
    assert!(!is_remote_newer("v1.-1", "v1.0"));
    assert!(!is_remote_newer("v1.0", "v1.+2"));
    assert!(!is_remote_newer("v1.0", "v1."));
}

#[test]
fn components_have_no_size_limit() {
    assert!(is_remote_newer("1", "2147483648"));
    assert!(is_remote_newer("v1.0", "v1.99999999999"));
    assert!(!is_remote_newer("v123456789012345678901234567890", "v123456789012345678901234567889"));
    assert!(is_remote_newer("v123456789012345678901234567889", "v123456789012345678901234567890"));
}

#[test]
fn leading_zeros_do_not_change_a_component() {
    assert!(!is_remote_newer("v1.007", "v1.7"));
    assert!(is_remote_newer("v1.9", "v1.010"));
}

#[test]
fn only_one_prefix_is_removed() {
    assert!(is_remote_newer("vv1.0", "2.0"));
    assert!(is_remote_newer("vv3.0", "v0.5"));
}
