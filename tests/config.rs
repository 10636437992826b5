use bounty::{Config, ConfigError, QuestIssue, Startup};

#[test]
fn token_precedence_config_then_environment() {
    let mut config = Config::default();
    assert!(config.is_first_time());
    assert_eq!(config.try_get_github_token(None), None);
    assert_eq!(config.get_github_token(None), Err(ConfigError::TokenNotFound));
    assert_eq!(config.get_github_token(Some("env".to_string())), Ok("env".to_string()));
    config.set_github_token("saved".to_string());
    assert_eq!(config.try_get_github_token(Some("env".to_string())), Some("saved".to_string()));
    assert!(config.is_first_time());
    config.complete_first_time_setup();
    assert!(!config.is_first_time());
    assert_eq!(config.github_token, Some("saved".to_string()));
}

#[test]
fn quest_reference_and_label() {
    let q = QuestIssue::from_quest("octo", "demo", 42, "Fix it".to_string());
    assert_eq!(q.repo_ref, "octo/demo#42");
    assert_eq!(q.label(), "Fix it octo/demo#42");
    let n = QuestIssue::from_quest("o", "r", -3, "t".to_string());
    assert_eq!(n.repo_ref, "o/r#-3");
    let m = QuestIssue::from_quest("o", "r", i32::MIN, "t".to_string());
    assert_eq!(m.repo_ref, "o/r#-2147483648");
}

#[test]
fn startup_without_command() {
    let mut config = Config::default();
    assert_eq!(config.startup(&Some("env".to_string())), Startup::FirstTimeSetup);
    config.complete_first_time_setup();
    assert_eq!(config.startup(&None), Startup::Login);
    assert_eq!(config.startup(&Some("env".to_string())), Startup::Solve);
    config.set_github_token("saved".to_string());
    assert_eq!(config.startup(&None), Startup::Solve);
}
