use antarcticite::{
    get_browser_command, open_url, route_url, Config, DefaultFallback, RecentRequests, RedirectPolicy, RouteError,
    RouteResult, Rule, TargetOs, DEBOUNCE_WINDOW_NS,
};

fn get_test_config() -> Config {
    Config {
        default: DefaultFallback { browser: "firefox".to_string(), profile: None },
        rules: vec![
            Rule {
                match_domain: Some("www.clientx.com".to_string()),
                match_pattern: None,
                target_browser: "chrome".to_string(),
                target_profile: Some("Profile 1".to_string()),
            },
            Rule {
                match_domain: None,
                match_pattern: Some(r".*\.clienty\.com".to_string()),
                target_browser: "edge".to_string(),
                target_profile: Some("Work".to_string()),
            },
        ],
        redirect_policies: vec![],
    }
}

#[test]
fn test_route_url_exact_domain() {
    let config = get_test_config();
    let res = route_url("https://www.clientx.com/dashboard", &config).unwrap();
    match res {
        RouteResult::Matched(rule) => {
            assert_eq!(rule.target_browser, "chrome");
        },
        _ => panic!("Expected matched rule"),
    }
}

#[test]
fn test_route_url_pattern() {
    let config = get_test_config();
    let res = route_url("https://app.clienty.com/login", &config).unwrap();
    match res {
        RouteResult::Matched(rule) => {
            assert_eq!(rule.target_browser, "edge");
        },
        _ => panic!("Expected matched rule"),
    }
}

#[test]
fn test_route_url_fallback() {
    let config = get_test_config();
    let res = route_url("https://www.google.com", &config).unwrap();
    match res {
        RouteResult::Fallback(fb) => {
            assert_eq!(fb.browser, "firefox");
        },
        _ => panic!("Expected fallback"),
    }
}

#[test]
fn test_route_url_invalid() {
    let config = get_test_config();
    let res = route_url("not_a_valid_url", &config);
    assert!(res.is_err());
}

#[test]
fn test_browser_command_formatting_macos() {
    let cmd = get_browser_command(TargetOs::MacOs, "chrome", Some("Default"), "https://example.com");
    let cmd_str = format!("{:?}", cmd);
    assert!(cmd_str.contains("Google Chrome"));
    assert!(cmd_str.contains("--profile-directory=Default"));
    assert!(cmd_str.contains("https://example.com"));

    let cmd_ff = get_browser_command(TargetOs::MacOs, "firefox", Some("dev"), "https://example.com");
    let cmd_ff_str = format!("{:?}", cmd_ff);
    assert!(cmd_ff_str.contains("Firefox"));
    assert!(cmd_ff_str.contains("-P"));
    assert!(cmd_ff_str.contains("dev"));
}

#[test]
fn test_browser_command_formatting_linux() {
    let cmd = get_browser_command(TargetOs::Linux, "chrome", Some("Default"), "https://example.com");
    let cmd_str = format!("{:?}", cmd);
    assert!(cmd_str.contains("google-chrome"));
    assert!(cmd_str.contains("--profile-directory=Default"));

    let cmd_ff = get_browser_command(TargetOs::Linux, "firefox", Some("dev"), "https://example.com");
    let cmd_ff_str = format!("{:?}", cmd_ff);
    assert!(cmd_ff_str.contains("firefox"));
    assert!(cmd_ff_str.contains("-P"));
    assert!(cmd_ff_str.contains("dev"));
}

#[test]
fn test_browser_command_formatting_windows() {
    let cmd = get_browser_command(TargetOs::Windows, "chrome", Some("Default"), "https://example.com");
    let cmd_str = format!("{:?}", cmd);
    assert!(cmd_str.contains("chrome.exe"));
    assert!(cmd_str.contains("--profile-directory=Default"));

    let cmd_ff = get_browser_command(TargetOs::Windows, "firefox", Some("dev"), "https://example.com");
    let cmd_ff_str = format!("{:?}", cmd_ff);
    assert!(cmd_ff_str.contains("firefox.exe"));
    assert!(cmd_ff_str.contains("-P"));
    assert!(cmd_ff_str.contains("dev"));
}

#[test]
fn exact_macos_command_with_profile() {
    let cmd = get_browser_command(TargetOs::MacOs, "Google Chrome", Some("Profile 2"), "https://a.b/c");
    assert_eq!(cmd.program, "open");
    assert_eq!(cmd.args, vec!["-a", "Google Chrome", "--args", "--profile-directory=Profile 2", "https://a.b/c"]);
    let ff = get_browser_command(TargetOs::MacOs, "ORG.MOZILLA.FIREFOX", Some("dev"), "https://a.b");
    assert_eq!(ff.args, vec!["-a", "Firefox", "--args", "-P", "dev", "https://a.b"]);
    let safari = get_browser_command(TargetOs::MacOs, "safari", None, "https://a.b");
    assert_eq!(safari.args, vec!["-a", "Safari", "https://a.b"]);
}

#[test]
fn unknown_browser_and_empty_profile() {
    let cmd = get_browser_command(TargetOs::Linux, "my-browser", Some(""), "https://a.b");
    assert_eq!(cmd.program, "my-browser");
    assert_eq!(cmd.args, vec!["https://a.b"]);
    let safari_linux = get_browser_command(TargetOs::Linux, "safari", None, "https://a.b");
    assert_eq!(safari_linux.program, "safari");
    let win = get_browser_command(TargetOs::Windows, "Brave", Some("P"), "https://a.b");
    assert_eq!(win.program, "cmd");
    assert_eq!(win.args, vec!["/C", "start", "", "brave.exe", "--profile-directory=P", "https://a.b"]);
    let other = get_browser_command(TargetOs::Other, "chrome", Some("P"), "https://a.b");
    assert_eq!(other.program, "chrome");
    assert_eq!(other.args, vec!["https://a.b"]);
}

#[test]
fn first_matching_rule_wins() {
    let mut config = get_test_config();
    config.rules.insert(
        0,
        Rule {
            match_domain: None,
            match_pattern: Some("clientx".to_string()),
            target_browser: "brave".to_string(),
            target_profile: None,
        },
    );
    match route_url("https://www.clientx.com/", &config).unwrap() {
        RouteResult::Matched(rule) => assert_eq!(rule.target_browser, "brave"),
        _ => panic!("Expected matched rule"),
    }
}

#[test]
fn invalid_pattern_and_invalid_rule_are_skipped() {
    let mut config = get_test_config();
    config.rules.insert(
        0,
        Rule {
            match_domain: None,
            match_pattern: Some("(unclosed".to_string()),
            target_browser: "brave".to_string(),
            target_profile: None,
        },
    );
    config.rules.insert(
        0,
        Rule { match_domain: None, match_pattern: None, target_browser: "opera".to_string(), target_profile: None },
    );
    match route_url("https://app.clienty.com/", &config).unwrap() {
        RouteResult::Matched(rule) => assert_eq!(rule.target_browser, "edge"),
        _ => panic!("Expected matched rule"),
    }
}

#[test]
fn domain_match_is_whole_host() {
    let config = get_test_config();
    assert!(matches!(route_url("https://clientx.com/", &config).unwrap(), RouteResult::Fallback(_)));
    assert_eq!(route_url("nope", &config).err(), Some(RouteError::InvalidUrl));
}

#[test]
fn open_url_routes_and_debounces() {
    let config = get_test_config();
    let mut recent = RecentRequests::new();
    let first = open_url("https://www.clientx.com/a", &config, &mut recent, 1_000, TargetOs::Linux).unwrap();
    let plan = first.expect("first request goes ahead");
    assert_eq!(plan.browser, "chrome");
    assert!(!plan.confirm_by_exit_status);
    let cmd = plan.command;
    assert_eq!(cmd.program, "google-chrome");
    let fallback = plan.on_failure.expect("a rule's browser falls back to the default");
    assert_eq!(fallback.program, "firefox");
    assert_eq!(fallback.args, vec!["https://www.clientx.com/a"]);
    assert_eq!(cmd.args, vec!["--profile-directory=Profile 1", "https://www.clientx.com/a"]);
    let repeat = open_url("https://www.clientx.com/a", &config, &mut recent, 1_000 + DEBOUNCE_WINDOW_NS - 1, TargetOs::Linux);
    assert!(repeat.unwrap().is_none());
    let other = open_url("https://www.google.com/", &config, &mut recent, 2_000, TargetOs::Linux).unwrap();
    let other = other.unwrap();
    assert_eq!(other.command.program, "firefox");
    assert!(other.on_failure.is_none());
    let later = open_url("https://www.clientx.com/a", &config, &mut recent, 1_000 + DEBOUNCE_WINDOW_NS, TargetOs::Linux);
    assert!(later.unwrap().is_some());
}

#[test]
fn open_url_rejects_invalid_urls_once() {
    let config = get_test_config();
    let mut recent = RecentRequests::new();
    assert_eq!(open_url("bad", &config, &mut recent, 0, TargetOs::MacOs).err(), Some(RouteError::InvalidUrl));
    assert!(open_url("bad", &config, &mut recent, 10, TargetOs::MacOs).unwrap().is_none());
}

#[test]
fn domain_rules_ignore_case() {
    let config = Config {
        default: DefaultFallback { browser: "com.google.chrome".to_string(), profile: Some("Default".to_string()) },
        rules: vec![Rule {
            match_domain: Some("www.clientX.com".to_string()),
            match_pattern: None,
            target_browser: "com.google.chrome".to_string(),
            target_profile: Some("Profile 1".to_string()),
        }],
        redirect_policies: vec![],
    };
    match route_url("https://www.clientX.com/dashboard", &config).unwrap() {
        RouteResult::Matched(rule) => assert_eq!(rule.target_profile.as_deref(), Some("Profile 1")),
        _ => panic!("Expected matched rule"),
    }
    assert!(matches!(route_url("https://WWW.CLIENTX.COM/", &config).unwrap(), RouteResult::Matched(_)));
}

#[test]
fn wildcard_patterns_match_the_host() {
    let config = Config {
        default: DefaultFallback { browser: "chrome".to_string(), profile: None },
        rules: vec![Rule {
            match_domain: None,
            match_pattern: Some("*.clientY.com".to_string()),
            target_browser: "firefox".to_string(),
            target_profile: Some("Work".to_string()),
        }],
        redirect_policies: vec![],
    };
    match route_url("https://app.clientY.com", &config).unwrap() {
        RouteResult::Matched(rule) => assert_eq!(rule.target_browser, "firefox"),
        _ => panic!("Expected matched rule"),
    }
    assert!(matches!(route_url("https://clienty.com/", &config).unwrap(), RouteResult::Fallback(_)));
    assert!(matches!(route_url("https://app.clienty.com.evil.net/", &config).unwrap(), RouteResult::Fallback(_)));
}

#[test]
fn redirect_wrappers_open_in_the_default_browser() {
    let config = Config {
        default: DefaultFallback { browser: "firefox".to_string(), profile: None },
        rules: vec![Rule {
            match_domain: None,
            match_pattern: Some(".*".to_string()),
            target_browser: "chrome".to_string(),
            target_profile: Some("Work".to_string()),
        }],
        redirect_policies: vec![RedirectPolicy { match_domain: "protect-eu.mimecast.com".to_string(), timeout_seconds: 5 }],
    };
    match route_url("https://protect-eu.mimecast.com/s/abc", &config).unwrap() {
        RouteResult::Fallback(fb) => assert_eq!(fb.browser, "firefox"),
        _ => panic!("Expected the default browser"),
    }
    let mut recent = RecentRequests::new();
    let plan = open_url("https://protect-eu.mimecast.com/s/abc", &config, &mut recent, 0, TargetOs::Linux)
        .unwrap()
        .unwrap();
    assert_eq!(plan.command.program, "firefox");
    assert_eq!(plan.command.args, vec!["https://protect-eu.mimecast.com/s/abc"]);
    assert!(matches!(route_url("https://www.clientx.com/", &config).unwrap(), RouteResult::Matched(_)));
}

#[test]
fn macos_bundle_identifiers() {
    let edge = get_browser_command(TargetOs::MacOs, "com.microsoft.edgemac", None, "https://example.com");
    assert_eq!(edge.program, "open");
    assert_eq!(edge.args, vec!["-a", "Microsoft Edge", "https://example.com"]);
    let arc = get_browser_command(TargetOs::MacOs, "company.thebrowser.Browser", Some("P"), "https://example.com");
    assert_eq!(arc.args, vec!["-b", "company.thebrowser.Browser", "--args", "--profile-directory=P", "https://example.com"]);
    let named = get_browser_command(TargetOs::MacOs, "Vivaldi", None, "https://example.com");
    assert_eq!(named.args, vec!["-a", "Vivaldi", "https://example.com"]);
    let bundle_file = get_browser_command(TargetOs::MacOs, "Vivaldi.app", None, "https://example.com");
    assert_eq!(bundle_file.args, vec!["-a", "Vivaldi.app", "https://example.com"]);
}

#[test]
fn edge_bundle_identifier_is_a_macos_name_only() {
    let linux = get_browser_command(TargetOs::Linux, "com.microsoft.edgemac", None, "https://example.com");
    assert_eq!(linux.program, "com.microsoft.edgemac");
    let windows = get_browser_command(TargetOs::Windows, "com.microsoft.edgemac", None, "https://example.com");
    assert_eq!(windows.args, vec!["/C", "start", "", "com.microsoft.edgemac", "https://example.com"]);
    let mac = get_browser_command(TargetOs::MacOs, "com.microsoft.edgemac", None, "https://example.com");
    assert_eq!(mac.args, vec!["-a", "Microsoft Edge", "https://example.com"]);
}

#[test]
fn launchers_are_confirmed_by_exit_status() {
    let config = get_test_config();
    let mut recent = RecentRequests::new();
    let mac = open_url("https://www.google.com/", &config, &mut recent, 0, TargetOs::MacOs).unwrap().unwrap();
    assert!(mac.confirm_by_exit_status);
    assert_eq!(mac.browser, "firefox");
    let win = open_url("https://app.clienty.com/", &config, &mut recent, 0, TargetOs::Windows).unwrap().unwrap();
    assert!(win.confirm_by_exit_status);
    assert_eq!(win.browser, "edge");
    assert_eq!(win.on_failure.unwrap().args, vec!["/C", "start", "", "firefox.exe", "https://app.clienty.com/"]);
}
