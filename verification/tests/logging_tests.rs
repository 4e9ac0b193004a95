use dray::logging::{format_log_line, format_web_log_line, level_str, LogConfig, LogLevel};

#[test]
fn test_log_config_defaults() {
    let config = LogConfig::new();
    assert!(config.log_filepath.is_none());
    assert_eq!(config.log_max_size, 5 * 1024 * 1024);
    assert_eq!(config.log_level, LogLevel::Trace);
}

#[test]
fn test_log_config_setters() {
    let mut config = LogConfig::new();
    config.set_log_filepath("/home/user/dray/logs/dray.log");
    assert_eq!(config.log_filepath.as_deref(), Some("/home/user/dray/logs/dray.log"));
    config.set_log_max_size(1024);
    assert_eq!(config.log_max_size, 1024);
    config.set_log_level(LogLevel::Warn);
    assert_eq!(config.log_level, LogLevel::Warn);
}

#[test]
fn test_level_str() {
    assert_eq!(level_str(LogLevel::Error), "error");
    assert_eq!(level_str(LogLevel::Warn), "warn");
    assert_eq!(level_str(LogLevel::Info), "info");
    assert_eq!(level_str(LogLevel::Debug), "debug");
    assert_eq!(level_str(LogLevel::Trace), "trace");
}

#[test]
fn test_writes_to_file_threshold() {
    // At the Error threshold every level reaches the file.
    let mut config = LogConfig::new();
    config.set_log_level(LogLevel::Error);
    assert!(config.writes_to_file(LogLevel::Error));
    assert!(config.writes_to_file(LogLevel::Trace));

    // At the Trace threshold only Trace itself does.
    config.set_log_level(LogLevel::Trace);
    assert!(config.writes_to_file(LogLevel::Trace));
    assert!(!config.writes_to_file(LogLevel::Error));
    assert!(!config.writes_to_file(LogLevel::Info));
}

#[test]
fn test_needs_rotation_boundary() {
    let mut config = LogConfig::new();
    config.set_log_max_size(100);
    assert!(!config.needs_rotation(99));
    assert!(!config.needs_rotation(100));
    assert!(config.needs_rotation(101));
}

#[test]
fn test_format_log_line() {
    let line = format_log_line("2024-01-02 03:04:05", LogLevel::Info, "server started");
    assert_eq!(line, "[2024-01-02 03:04:05] [info] server started");
}

#[test]
fn test_format_web_log_line() {
    let line = format_web_log_line("2024-01-02 03:04:05", "clicked start");
    assert_eq!(line, "2024-01-02 03:04:05 clicked start");
}
