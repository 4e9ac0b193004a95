use dray::dirs::Dirs;

fn sample_dirs() -> Dirs {
    Dirs::new(
        Some("/usr/local/bin/dray".to_string()),
        Some("/home/user/work".to_string()),
        Some("/home/user".to_string()),
        Some("/home/user/.local/share".to_string()),
    )
}

#[test]
fn test_get_executable_path() {
    let path = sample_dirs().get_executable_path();
    assert!(path.is_some(), "Executable path should be available");
}

#[test]
fn test_get_current_dir() {
    let path = sample_dirs().get_current_dir();
    assert!(path.is_some(), "Current directory should be available");
}

#[test]
fn test_get_home_dir() {
    let path = sample_dirs().get_home_dir();
    assert!(path.is_some(), "Home directory should be available");
}

#[test]
fn test_get_data_dir() {
    let path = sample_dirs().get_data_dir();
    assert!(path.is_some(), "Data directory should be available");
}

#[test]
fn test_dray_subdirectories() {
    let dirs = sample_dirs();
    assert_eq!(dirs.get_dray_conf_dir().unwrap(), "/home/user/dray/conf");
    assert_eq!(dirs.get_dray_logs_dir().unwrap(), "/home/user/dray/logs");
    assert_eq!(
        dirs.get_dray_web_server_dir().unwrap(),
        "/home/user/dray/web_server"
    );
    assert_eq!(dirs.get_dray_ray_dir().unwrap(), "/home/user/dray/ray-core");
    assert_eq!(dirs.get_dray_logs_dir_str(), "/home/user/dray/logs");
}

#[test]
fn test_missing_home_dir() {
    let dirs = Dirs::new(None, None, None, None);
    assert!(dirs.get_dray_conf_dir().is_none());
    assert!(dirs.get_dray_logs_dir().is_none());
    assert_eq!(dirs.get_dray_logs_dir_str(), "");
    assert!(dirs.get_log_path("dray.log").is_none());
}

#[test]
fn test_get_log_path() {
    let dirs = sample_dirs();
    assert_eq!(
        dirs.get_log_path("scan_ports_open.log").unwrap(),
        "/home/user/dray/logs/scan_ports_open.log"
    );
}

#[test]
fn test_get_conf_path_allowed() {
    let dirs = sample_dirs();
    assert_eq!(
        dirs.get_conf_path("server.json").unwrap(),
        "/home/user/dray/conf/server.json"
    );
    assert_eq!(
        dirs.get_conf_path("dns_config.json").unwrap(),
        "/home/user/dray/conf/dns_config.json"
    );
}

#[test]
fn test_get_conf_path_rejected() {
    let dirs = sample_dirs();
    let err = dirs.get_conf_path("evil.json").unwrap_err();
    assert_eq!(err, "Filename 'evil.json' is not allowed");
}
