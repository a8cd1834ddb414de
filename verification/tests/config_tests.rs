use jira_tui::config::{default_base_url, Config};

#[test]
fn default_server_is_the_newracom_instance() {
    assert_eq!(default_base_url(), "https://newracom.atlassian.net");
}

#[test]
fn missing_base_url_falls_back_to_default() {
    let c = Config::from_fields("me@x.com".to_string(), "tok".to_string(), None);
    assert_eq!(c.email, "me@x.com");
    assert_eq!(c.api_token, "tok");
    assert_eq!(c.base_url, "https://newracom.atlassian.net");
    let c = Config::from_fields("a".to_string(), "b".to_string(), Some("https://jira.example".to_string()));
    assert_eq!(c.base_url, "https://jira.example");
}

fn joined(parts: Vec<String>) -> std::path::PathBuf {
    let mut path = std::path::PathBuf::from(&parts[0]);
    for part in &parts[1..] {
        path = path.join(part);
    }
    path
}

#[test]
fn config_path_prefers_home() {
    assert_eq!(
        Config::config_path(Some("/home/kim"), Some("C:\\Users\\kim")).unwrap(),
        vec!["/home/kim", ".config", "jira-tui", "config.toml"]
    );
    assert_eq!(
        Config::config_path(None, Some("/users/lee")).unwrap(),
        vec!["/users/lee", ".config", "jira-tui", "config.toml"]
    );
}

#[test]
fn config_path_joins_by_platform_rules() {
    let expected = std::path::PathBuf::from("/home/kim").join(".config").join("jira-tui").join("config.toml");
    assert_eq!(joined(Config::config_path(Some("/home/kim"), None).unwrap()), expected);
    let expected = std::path::PathBuf::from("").join(".config").join("jira-tui").join("config.toml");
    assert_eq!(joined(Config::config_path(Some(""), None).unwrap()), expected);
}

#[test]
fn config_path_without_home_is_an_error() {
    assert_eq!(
        Config::config_path(None, None).unwrap_err(),
        "Cannot determine home directory ($HOME is not set)"
    );
}

#[test]
fn template_and_messages() {
    assert_eq!(
        Config::template(),
        "email = \"your.email@newracom.com\"\napi_token = \"your-api-token-here\"\n# base_url = \"https://newracom.atlassian.net\"\n"
    );
    assert_eq!(
        Config::created_message("/h/.config/jira-tui/config.toml"),
        "Config file created at /h/.config/jira-tui/config.toml\nEdit it with your credentials and run again.\nGet an API token at: https://id.atlassian.com/manage-profile/security/api-tokens"
    );
    assert_eq!(Config::read_failure_context("/p"), "Failed to read /p");
    assert_eq!(Config::parse_failure_context("/p"), "Failed to parse /p");
}
