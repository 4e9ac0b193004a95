use dray::network::{
    disable_proxies, enable_auto_proxy, enable_secure_web_proxy, enable_socks_proxy,
    enable_web_proxy, parse_command_line, parse_script, split_line_words, split_script_lines,
    LineParse,
};

#[test]
fn test_proxy_scripts() {
    assert_eq!(
        enable_auto_proxy(),
        "networksetup -setautoproxyurl Wi-Fi http://127.0.0.1:18687/dray/proxy.js\nnetworksetup -setautoproxystate Wi-Fi on"
    );
    assert_eq!(
        enable_socks_proxy(),
        "networksetup -setsocksfirewallproxy Wi-Fi 127.0.0.1 1086\nnetworksetup -setsocksfirewallproxystate Wi-Fi on"
    );
    assert_eq!(
        enable_web_proxy(),
        "networksetup -setwebproxy Wi-Fi 127.0.0.1 1089\nnetworksetup -setwebproxystate Wi-Fi on"
    );
    assert_eq!(
        enable_secure_web_proxy(),
        "networksetup -setsecurewebproxy Wi-Fi 127.0.0.1 1089\nnetworksetup -setsecurewebproxystate Wi-Fi on"
    );
    assert_eq!(
        disable_proxies(),
        "networksetup -setautoproxystate Wi-Fi off\nnetworksetup -setsocksfirewallproxystate Wi-Fi off\nnetworksetup -setwebproxystate Wi-Fi off\nnetworksetup -setsecurewebproxystate Wi-Fi off"
    );
}

#[test]
fn test_split_script_lines() {
    assert_eq!(split_script_lines("a\nb"), vec!["a", "b"]);
    assert_eq!(split_script_lines("a\n\nb\n"), vec!["a", "", "b", ""]);
    assert_eq!(split_script_lines("one line"), vec!["one line"]);
}

#[test]
fn test_split_line_words() {
    assert_eq!(split_line_words("  a  b\t c "), vec!["a", "b", "c"]);
    assert_eq!(split_line_words(""), Vec::<String>::new());
    assert_eq!(split_line_words("   \t "), Vec::<String>::new());
    assert_eq!(
        split_line_words("networksetup -setautoproxystate Wi-Fi on"),
        vec!["networksetup", "-setautoproxystate", "Wi-Fi", "on"]
    );
}

#[test]
fn test_parse_command_line() {
    assert!(matches!(parse_command_line(""), LineParse::Blank));
    assert!(matches!(parse_command_line("   "), LineParse::Blank));
    assert!(matches!(parse_command_line("lonely"), LineParse::Invalid));
    match parse_command_line("networksetup -setwebproxystate Wi-Fi on") {
        LineParse::Run { program, args } => {
            assert_eq!(program, "networksetup");
            assert_eq!(args, vec!["-setwebproxystate", "Wi-Fi", "on"]);
        }
        _ => panic!("expected a runnable command"),
    }
}

#[test]
fn test_parse_script() {
    let script = disable_proxies();
    let parsed = parse_script(script.as_str());
    assert_eq!(parsed.len(), 4);
    for entry in parsed {
        match entry {
            LineParse::Run { program, args } => {
                assert_eq!(program, "networksetup");
                assert_eq!(args.len(), 3);
                assert_eq!(args[2], "off");
            }
            _ => panic!("every line of the script is runnable"),
        }
    }
}
