use dray::ray::{
    first_line_trimmed, resource_mode, should_force_kill, str_contains, str_ends_with, trim_spaces,
};

#[test]
fn test_resource_mode() {
    assert_eq!(resource_mode("dray-xray"), 0o755);
    assert_eq!(resource_mode("geoip.dat"), 0o644);
}

#[test]
fn test_trim_spaces() {
    assert_eq!(trim_spaces("  hello \t"), "hello");
    assert_eq!(trim_spaces("no-trim"), "no-trim");
    assert_eq!(trim_spaces("   "), "");
    assert_eq!(trim_spaces(""), "");
}

#[test]
fn test_first_line_trimmed() {
    assert_eq!(
        first_line_trimmed("Xray 25.1.30 (Xray, Penetrates Everything.)\nA unified platform\n"),
        "Xray 25.1.30 (Xray, Penetrates Everything.)"
    );
    assert_eq!(first_line_trimmed("  version 1.0  \nrest"), "version 1.0");
    assert_eq!(first_line_trimmed(""), "");
    assert_eq!(first_line_trimmed("\nsecond"), "");
}

#[test]
fn test_str_ends_with() {
    assert!(str_ends_with("/opt/dray/xray", "xray"));
    assert!(!str_ends_with("/opt/dray/xray-helper", "xray"));
    assert!(!str_ends_with("ray", "xray"));
    assert!(str_ends_with("anything", ""));
}

#[test]
fn test_str_contains() {
    assert!(str_contains("/home/u/dray/ray-core/xray", "dray"));
    assert!(!str_contains("/usr/bin/xray", "dray"));
    assert!(str_contains("abc", ""));
    assert!(!str_contains("ab", "abc"));
}

#[test]
fn test_should_force_kill() {
    // The right name under the application's own directory.
    assert!(should_force_kill("xray", "/home/u/dray/ray-core/xray"));
    // An unreadable executable path still qualifies by name.
    assert!(should_force_kill("xray", ""));
    // Another installation's ray is left alone.
    assert!(!should_force_kill("xray", "/usr/bin/xray"));
    // The path must end in the binary's name.
    assert!(!should_force_kill("xray", "/home/u/dray/xray.bak"));
    // Other processes are never touched.
    assert!(!should_force_kill("bash", "/home/u/dray/ray-core/xray"));
}
