use dray::config::Config;

#[test]
fn test_default_config() {
    let config = Config::default();
    assert_eq!(config.app_log_level, "info");
    assert!(config.web_server_enable);
    assert_eq!(config.web_server_host, "127.0.0.1");
    assert_eq!(config.web_server_port, 18687);
    assert!(!config.ray_enable);
    assert_eq!(config.ray_host, "127.0.0.1");
    assert_eq!(config.ray_socks_port, 1086);
    assert_eq!(config.ray_http_port, 1089);
    assert!(!config.auto_setup_pac);
    assert!(config.auto_setup_socks);
    assert!(!config.auto_setup_http);
    assert!(!config.auto_setup_https);
}

#[test]
fn test_setters_change_one_field() {
    let mut config = Config::default();
    config.set_app_log_level("debug".to_string());
    assert_eq!(config.app_log_level, "debug");
    assert_eq!(config.web_server_port, 18687);

    config.set_web_server_enable(false);
    assert!(!config.web_server_enable);

    config.set_web_server_host("0.0.0.0".to_string());
    assert_eq!(config.web_server_host, "0.0.0.0");

    config.set_web_server_port(8080);
    assert_eq!(config.web_server_port, 8080);

    config.set_ray_enable(true);
    assert!(config.ray_enable);

    config.set_ray_host("192.168.1.2".to_string());
    assert_eq!(config.ray_host, "192.168.1.2");

    config.set_ray_socks_port(1080);
    assert_eq!(config.ray_socks_port, 1080);

    config.set_ray_http_port(1090);
    assert_eq!(config.ray_http_port, 1090);

    config.set_auto_setup_pac(true);
    assert!(config.auto_setup_pac);

    config.set_auto_setup_socks(false);
    assert!(!config.auto_setup_socks);

    config.set_auto_setup_http(true);
    assert!(config.auto_setup_http);

    config.set_auto_setup_https(true);
    assert!(config.auto_setup_https);

    // The untouched string field kept its value through all of it.
    assert_eq!(config.app_log_level, "debug");
}

#[test]
fn test_get_config_snapshot() {
    let mut config = Config::default();
    config.set_ray_socks_port(1080);
    let snapshot = config.get_config();
    assert_eq!(snapshot.ray_socks_port, 1080);
    assert_eq!(snapshot.web_server_port, config.web_server_port);
    assert_eq!(snapshot.app_log_level, config.app_log_level);
}

#[test]
fn test_default_proxy_url() {
    let config = Config::default();
    let url = config.get_default_proxy_url().unwrap();
    assert_eq!(url, "socks5://127.0.0.1:1086");

    let mut other = Config::default();
    other.set_ray_host("10.0.0.1".to_string());
    other.set_ray_socks_port(9050);
    assert_eq!(other.get_default_proxy_url().unwrap(), "socks5://10.0.0.1:9050");
}
