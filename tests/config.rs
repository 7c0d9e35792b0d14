use rbw_config::config::{default_lock_timeout, default_pinentry, Config};
use rbw_config::error::Error;

fn with_base_url(url: Option<&str>) -> Config {
    let mut config = Config::new();
    config.base_url = url.map(|u| u.to_string());
    config
}

#[test]
fn new_has_defaults() {
    let config = Config::new();
    assert_eq!(config.email, None);
    assert_eq!(config.base_url, None);
    assert_eq!(config.root_certificate, None);
    assert_eq!(config.identity_url, None);
    assert_eq!(config.lock_timeout, 3600);
    assert_eq!(config.pinentry, "pinentry");
}

#[test]
fn default_matches_new() {
    let config = Config::default();
    assert_eq!(config.lock_timeout, 3600);
    assert_eq!(config.pinentry, "pinentry");
    assert_eq!(config.email, None);
}

#[test]
fn default_values() {
    assert_eq!(default_lock_timeout(), 3600);
    assert_eq!(default_pinentry(), "pinentry");
}

#[test]
fn zero_lock_timeout_becomes_default() {
    let mut config = Config::new();
    config.lock_timeout = 0;
    config.email = Some("user@example.com".to_string());
    assert!(config.normalize_lock_timeout());
    assert_eq!(config.lock_timeout, 3600);
    assert_eq!(config.email.as_deref(), Some("user@example.com"));
}

#[test]
fn positive_lock_timeout_kept() {
    let mut config = Config::new();
    config.lock_timeout = 60;
    assert!(!config.normalize_lock_timeout());
    assert_eq!(config.lock_timeout, 60);
}

#[test]
fn base_url_trims_trailing_slash() {
    let config = with_base_url(Some("https://vault.example.com/"));
    assert_eq!(config.base_url(), "https://vault.example.com/api");
}

#[test]
fn base_url_trims_many_slashes() {
    let config = with_base_url(Some("https://vault.example.com///"));
    assert_eq!(config.base_url(), "https://vault.example.com/api");
}

#[test]
fn base_url_without_slash() {
    let config = with_base_url(Some("https://vault.example.com"));
    assert_eq!(config.base_url(), "https://vault.example.com/api");
}

#[test]
fn base_url_default() {
    let config = with_base_url(None);
    assert_eq!(config.base_url(), "https://api.bitwarden.com");
}

#[test]
fn identity_url_from_base_url() {
    let config = with_base_url(Some("https://vault.example.com"));
    assert_eq!(config.identity_url(), "https://vault.example.com/identity");
}

#[test]
fn identity_url_from_base_url_with_slash() {
    let config = with_base_url(Some("https://vault.example.com/"));
    assert_eq!(config.identity_url(), "https://vault.example.com/identity");
}

#[test]
fn identity_url_explicit_wins() {
    let mut config = with_base_url(Some("https://vault.example.com/"));
    config.identity_url = Some("https://id.example.com".to_string());
    assert_eq!(config.identity_url(), "https://id.example.com");
    config.base_url = None;
    assert_eq!(config.identity_url(), "https://id.example.com");
}

#[test]
fn identity_url_explicit_kept_verbatim() {
    let mut config = Config::new();
    config.identity_url = Some("https://id.example.com/".to_string());
    assert_eq!(config.identity_url(), "https://id.example.com/");
}

#[test]
fn identity_url_default() {
    let config = Config::new();
    assert_eq!(config.identity_url(), "https://identity.bitwarden.com");
}

#[test]
fn root_certificate_substitutes_home() {
    let mut config = Config::new();
    config.root_certificate = Some("$HOME/certs/ca.pem".to_string());
    assert_eq!(config.root_certificate("/home/alice"), "/home/alice/certs/ca.pem");
}

#[test]
fn root_certificate_substitutes_every_token() {
    let mut config = Config::new();
    config.root_certificate = Some("$HOME/a/$HOME/b".to_string());
    assert_eq!(config.root_certificate("/h"), "/h/a//h/b");
}

#[test]
fn root_certificate_empty_home() {
    let mut config = Config::new();
    config.root_certificate = Some("$HOME/certs/ca.pem".to_string());
    assert_eq!(config.root_certificate(""), "/certs/ca.pem");
}

#[test]
fn root_certificate_without_token() {
    let mut config = Config::new();
    config.root_certificate = Some("/etc/ssl/ca.pem".to_string());
    assert_eq!(config.root_certificate("/home/alice"), "/etc/ssl/ca.pem");
}

#[test]
fn root_certificate_unset() {
    let config = Config::new();
    assert_eq!(config.root_certificate("/home/alice"), "");
}

#[test]
fn validate_missing_email() {
    let config = Config::new();
    assert!(matches!(config.validate(), Err(Error::ConfigMissingEmail)));
}

#[test]
fn validate_with_email() {
    let mut config = Config::new();
    config.email = Some("user@example.com".to_string());
    assert!(config.validate().is_ok());
}

#[test]
fn server_name_default() {
    let config = with_base_url(None);
    assert_eq!(config.server_name(), "default");
}

#[test]
fn server_name_untransformed() {
    let config = with_base_url(Some("https://vault.example.com/"));
    assert_eq!(config.server_name(), "https://vault.example.com/");
}
