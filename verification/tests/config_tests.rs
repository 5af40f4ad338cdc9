use antarcticite::{
    count_invalid_rules, decide_load, default_timeout, Config, ConfigError, ConfigFileOutcome, ConfigProblem,
    ConfigStore, DefaultFallback, FallbackStep, LoadDecision, Rule,
};

fn rule(domain: Option<&str>, pattern: Option<&str>, browser: &str) -> Rule {
    Rule {
        match_domain: domain.map(|d| d.to_string()),
        match_pattern: pattern.map(|p| p.to_string()),
        target_browser: browser.to_string(),
        target_profile: None,
    }
}

fn config_with(browser: &str, rules: Vec<Rule>) -> Config {
    Config {
        default: DefaultFallback { browser: browser.to_string(), profile: None },
        rules,
        redirect_policies: vec![],
    }
}

#[test]
fn test_rule_validation() {
    let valid_rule_1 = Rule {
        match_domain: Some("example.com".to_string()),
        match_pattern: None,
        target_browser: "chrome".to_string(),
        target_profile: None,
    };
    assert!(valid_rule_1.is_valid());

    let valid_rule_2 = Rule {
        match_domain: None,
        match_pattern: Some(".*".to_string()),
        target_browser: "chrome".to_string(),
        target_profile: None,
    };
    assert!(valid_rule_2.is_valid());

    let invalid_rule = Rule {
        match_domain: None,
        match_pattern: None,
        target_browser: "chrome".to_string(),
        target_profile: None,
    };
    assert!(!invalid_rule.is_valid());
}

#[test]
fn default_timeout_is_five_seconds() {
    assert_eq!(default_timeout(), 5);
}

#[test]
fn counts_only_rules_without_domain_or_pattern() {
    let config = config_with(
        "firefox",
        vec![
            rule(Some("a.com"), None, "chrome"),
            rule(None, None, "chrome"),
            rule(None, Some(".*"), "edge"),
            rule(None, None, "edge"),
            rule(Some("b.com"), Some("b"), "edge"),
        ],
    );
    assert_eq!(count_invalid_rules(&config), 2);
    assert_eq!(count_invalid_rules(&config_with("firefox", vec![])), 0);
}

#[test]
fn fallback_serves_the_remembered_config() {
    let mut store = ConfigStore::new();
    assert!(store.last_good().is_none());
    assert!(matches!(store.fallback_step(), FallbackStep::ReadBackup));
    store.remember(config_with("chrome", vec![]));
    match store.fallback_step() {
        FallbackStep::UseCached(c) => assert_eq!(c.default.browser, "chrome"),
        FallbackStep::ReadBackup => panic!("expected the remembered configuration"),
    }
    store.remember(config_with("edge", vec![]));
    assert_eq!(store.last_good().unwrap().default.browser, "edge");
}

#[test]
fn backup_is_adopted_or_reported_missing() {
    let mut store = ConfigStore::new();
    assert_eq!(store.adopt_backup(None), Err(ConfigError::NoValidConfig));
    assert!(store.last_good().is_none());
    assert_eq!(store.adopt_backup(Some(config_with("firefox", vec![]))), Ok(()));
    match store.fallback_step() {
        FallbackStep::UseCached(c) => assert_eq!(c.default.browser, "firefox"),
        FallbackStep::ReadBackup => panic!("expected the adopted backup"),
    }
}

#[test]
fn load_decisions() {
    let mut store = ConfigStore::new();
    assert_eq!(decide_load(&mut store, ConfigFileOutcome::DirectoryUnknown), LoadDecision::Fail(ConfigError::DirectoryUnknown));
    assert_eq!(decide_load(&mut store, ConfigFileOutcome::NotFound), LoadDecision::Fail(ConfigError::FileNotFound));
    assert_eq!(decide_load(&mut store, ConfigFileOutcome::ReadFailed), LoadDecision::FallBack(ConfigProblem::Unreadable));
    assert!(store.last_good().is_none());
    let parsed = config_with("chrome", vec![rule(None, None, "x"), rule(Some("a"), None, "y")]);
    assert_eq!(decide_load(&mut store, ConfigFileOutcome::Parsed(parsed)), LoadDecision::Accept(1));
    assert_eq!(decide_load(&mut store, ConfigFileOutcome::ParseFailed), LoadDecision::FallBack(ConfigProblem::Unparsable));
    assert_eq!(store.last_good().unwrap().default.browser, "chrome");
}
