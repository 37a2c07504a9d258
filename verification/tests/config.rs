use cln_ntfy::config::{
    pair_credentials, ConfigError, ConfigWarning, RawOptions, RelayConfig, DEFAULT_TOPIC,
};

fn some(text: &str) -> Option<String> {
    Some(String::from(text))
}

fn options(url: &str, topic: &str) -> RawOptions {
    RawOptions { url: some(url), topic: some(topic), username: None, password: None, proxy: None }
}

#[test]
fn url_and_topic_are_enough() {
    let (config, warning) = RelayConfig::resolve(options("https://ntfy.sh", "cln-alerts")).unwrap();
    assert_eq!(warning, None);
    assert_eq!(config.topic(), "cln-alerts");
    assert_eq!(config.dispatcher().endpoint(), "https://ntfy.sh");
    assert!(config.dispatcher().credentials().is_none());
    assert_eq!(config.dispatcher().proxy(), None);
}

#[test]
fn an_empty_url_stops_the_startup() {
    assert_eq!(
        RelayConfig::resolve(options("", "cln-alerts")),
        Err(ConfigError::MissingEndpoint)
    );
}

#[test]
fn a_missing_url_stops_the_startup() {
    let mut raw = options("x", "cln-alerts");
    raw.url = None;
    assert_eq!(RelayConfig::resolve(raw), Err(ConfigError::MissingEndpoint));
}

#[test]
fn a_missing_or_empty_topic_stops_the_startup() {
    assert_eq!(
        RelayConfig::resolve(options("https://ntfy.sh", "")),
        Err(ConfigError::MissingTopic)
    );
    let mut raw = options("https://ntfy.sh", "x");
    raw.topic = None;
    assert_eq!(RelayConfig::resolve(raw), Err(ConfigError::MissingTopic));
}

#[test]
fn the_url_is_asked_for_first() {
    let raw = RawOptions { url: None, topic: None, username: None, password: None, proxy: None };
    assert_eq!(RelayConfig::resolve(raw), Err(ConfigError::MissingEndpoint));
    assert_eq!(RelayConfig::resolve(options("", "")), Err(ConfigError::MissingEndpoint));
}

#[test]
fn a_missing_url_fails_whatever_else_is_set() {
    let raw = RawOptions {
        url: some(""),
        topic: some("t"),
        username: some("u"),
        password: some("p"),
        proxy: some("socks5h://127.0.0.1:9050"),
    };
    assert_eq!(RelayConfig::resolve(raw), Err(ConfigError::MissingEndpoint));
}

#[test]
fn a_username_without_password_gives_no_credentials() {
    let mut raw = options("https://ntfy.sh", "cln-alerts");
    raw.username = some("alice");
    let (config, warning) = RelayConfig::resolve(raw).unwrap();
    assert_eq!(warning, Some(ConfigWarning::PasswordMissing));
    assert!(config.dispatcher().credentials().is_none());
    assert_eq!(config.dispatcher().endpoint(), "https://ntfy.sh");
    assert_eq!(config.topic(), "cln-alerts");
}

#[test]
fn a_password_without_username_gives_no_credentials() {
    let mut raw = options("https://ntfy.sh", "cln-alerts");
    raw.password = some("secret");
    let (config, warning) = RelayConfig::resolve(raw).unwrap();
    assert_eq!(warning, Some(ConfigWarning::UsernameMissing));
    assert!(config.dispatcher().credentials().is_none());
}

#[test]
fn username_and_password_make_credentials() {
    let mut raw = options("https://ntfy.sh", "cln-alerts");
    raw.username = some("alice");
    raw.password = some("secret");
    let (config, warning) = RelayConfig::resolve(raw).unwrap();
    assert_eq!(warning, None);
    let credentials = config.dispatcher().credentials().unwrap();
    assert_eq!(credentials.username(), "alice");
    assert_eq!(credentials.password(), "secret");
}

#[test]
fn empty_credentials_count_as_set() {
    let (credentials, warning) = pair_credentials(some(""), some(""));
    assert_eq!(warning, None);
    let credentials = credentials.unwrap();
    assert_eq!(credentials.username(), "");
    assert_eq!(credentials.password(), "");
}

#[test]
fn credentials_pair_up_or_warn() {
    let (credentials, warning) = pair_credentials(None, None);
    assert!(credentials.is_none());
    assert_eq!(warning, None);
    let (credentials, warning) = pair_credentials(some("u"), None);
    assert!(credentials.is_none());
    assert_eq!(warning, Some(ConfigWarning::PasswordMissing));
    let (credentials, warning) = pair_credentials(None, some("p"));
    assert!(credentials.is_none());
    assert_eq!(warning, Some(ConfigWarning::UsernameMissing));
    let (credentials, warning) = pair_credentials(some("u"), some("p"));
    assert_eq!(credentials.unwrap().username(), "u");
    assert_eq!(warning, None);
}

#[test]
fn a_proxy_is_kept_as_given() {
    let mut raw = options("https://ntfy.sh", "cln-alerts");
    raw.proxy = some("socks5h://127.0.0.1:9050");
    let (config, warning) = RelayConfig::resolve(raw).unwrap();
    assert_eq!(warning, None);
    assert_eq!(config.dispatcher().proxy(), Some("socks5h://127.0.0.1:9050"));
    let mut raw = options("https://ntfy.sh", "cln-alerts");
    raw.proxy = some("");
    let (config, _) = RelayConfig::resolve(raw).unwrap();
    assert_eq!(config.dispatcher().proxy(), Some(""));
}

#[test]
fn the_default_topic_resolves() {
    assert_eq!(DEFAULT_TOPIC, "cln-alerts");
    let (config, _) = RelayConfig::resolve(options("https://ntfy.sh", DEFAULT_TOPIC)).unwrap();
    assert_eq!(config.topic(), "cln-alerts");
}
