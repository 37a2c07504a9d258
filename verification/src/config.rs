//! The relay's settings, resolved once at startup from the options that the
//! host supplies.

use vstd::prelude::*;

verus! {

/// The topic that the host is offered as a default.
pub const DEFAULT_TOPIC: &'static str = "cln-alerts";

/// The options as the host supplied them: `None` for one that was not set.
#[derive(Debug, PartialEq, Eq)]
pub struct RawOptions {
    pub url: Option<String>,
    pub topic: Option<String>,
    pub username: Option<String>,
    pub password: Option<String>,
    pub proxy: Option<String>,
}

/// The mathematical value of `RawOptions`.
pub struct RawOptionsView {
    pub url: Option<Seq<char>>,
    pub topic: Option<Seq<char>>,
    pub username: Option<Seq<char>>,
    pub password: Option<Seq<char>>,
    pub proxy: Option<Seq<char>>,
}

/// The characters of an optional string.
pub open spec fn text_of(text: Option<String>) -> Option<Seq<char>> {
    match text {
        Some(s) => Some(s@),
        None => None,
    }
}

impl View for RawOptions {
    type V = RawOptionsView;

    open spec fn view(&self) -> RawOptionsView {
        RawOptionsView {
            url: text_of(self.url),
            topic: text_of(self.topic),
            username: text_of(self.username),
            password: text_of(self.password),
            proxy: text_of(self.proxy),
        }
    }
}

/// A required option that is missing or empty. The relay does not start.
#[derive(Clone, Copy, Debug, PartialEq, Eq, Structural)]
pub enum ConfigError {
    /// No endpoint URL.
    MissingEndpoint,
    /// No topic.
    MissingTopic,
}

/// Something odd in the options that does not keep the relay from starting.
#[derive(Clone, Copy, Debug, PartialEq, Eq, Structural)]
pub enum ConfigWarning {
    /// A username without a password: the relay sends without credentials.
    PasswordMissing,
    /// A password without a username: the relay sends without credentials.
    UsernameMissing,
}

/// A username and its password.
#[derive(Debug, PartialEq, Eq)]
pub struct Credentials {
    username: String,
    password: String,
}

/// The mathematical value of `Credentials`.
pub struct CredentialsView {
    pub username: Seq<char>,
    pub password: Seq<char>,
}

impl View for Credentials {
    type V = CredentialsView;

    closed spec fn view(&self) -> CredentialsView {
        CredentialsView { username: self.username@, password: self.password@ }
    }
}

impl Credentials {
    /// The username.
    pub fn username(&self) -> (username: &str)
        ensures
            username@ == self@.username,
    {
        self.username.as_str()
    }

    /// The password.
    pub fn password(&self) -> (password: &str)
        ensures
            password@ == self@.password,
    {
        self.password.as_str()
    }
}

/// How to reach the notification endpoint: its URL, which is never empty,
/// credentials or none, and a proxy or none.
#[derive(Debug, PartialEq, Eq)]
pub struct DispatcherConfig {
    endpoint: String,
    credentials: Option<Credentials>,
    proxy: Option<String>,
}

/// The mathematical value of a `DispatcherConfig`.
pub struct DispatcherConfigView {
    pub endpoint: Seq<char>,
    pub credentials: Option<CredentialsView>,
    pub proxy: Option<Seq<char>>,
}

impl View for DispatcherConfig {
    type V = DispatcherConfigView;

    closed spec fn view(&self) -> DispatcherConfigView {
        DispatcherConfigView {
            endpoint: self.endpoint@,
            credentials: credentials_of(self.credentials),
            proxy: text_of(self.proxy),
        }
    }
}

impl DispatcherConfig {
    #[verifier::type_invariant]
    spec fn has_endpoint(self) -> bool {
        self.endpoint@.len() > 0
    }

    /// The URL of the endpoint.
    pub fn endpoint(&self) -> (endpoint: &str)
        ensures
            endpoint@ == self@.endpoint,
            endpoint@.len() > 0,
    {
        proof {
            use_type_invariant(self);
        }
        self.endpoint.as_str()
    }

    /// The credentials to send with, if any.
    pub fn credentials(&self) -> (credentials: Option<&Credentials>)
        ensures
            match credentials {
                Some(c) => self@.credentials == Some(c@),
                None => self@.credentials is None,
            },
    {
        self.credentials.as_ref()
    }

    /// The proxy to send through, if any.
    pub fn proxy(&self) -> (proxy: Option<&str>)
        ensures
            match proxy {
                Some(p) => self@.proxy == Some(p@),
                None => self@.proxy is None,
            },
    {
        match &self.proxy {
            Some(proxy) => Some(proxy.as_str()),
            None => None,
        }
    }
}

/// The settings of a running relay: how to reach the endpoint, and the
/// topic, which is never empty.
#[derive(Debug, PartialEq, Eq)]
pub struct RelayConfig {
    dispatcher: DispatcherConfig,
    topic: String,
}

/// The mathematical value of a `RelayConfig`.
pub struct RelayConfigView {
    pub dispatcher: DispatcherConfigView,
    pub topic: Seq<char>,
}

impl View for RelayConfig {
    type V = RelayConfigView;

    closed spec fn view(&self) -> RelayConfigView {
        RelayConfigView { dispatcher: self.dispatcher@, topic: self.topic@ }
    }
}

/// An option is present: it was set, and not to the empty string.
pub open spec fn present(text: Option<Seq<char>>) -> bool {
    text matches Some(t) && t.len() > 0
}

/// Credentials come as a pair or not at all. One of the two alone gives no
/// credentials and a warning.
pub open spec fn paired(username: Option<Seq<char>>, password: Option<Seq<char>>) -> (
    Option<CredentialsView>,
    Option<ConfigWarning>,
) {
    match (username, password) {
        (Some(u), Some(p)) => (Some(CredentialsView { username: u, password: p }), None),
        (Some(_), None) => (None, Some(ConfigWarning::PasswordMissing)),
        (None, Some(_)) => (None, Some(ConfigWarning::UsernameMissing)),
        (None, None) => (None, None),
    }
}

/// The settings that a set of options resolves to, with the warning that
/// goes with them, or the first required option that is not present: the
/// endpoint is asked for before the topic.
pub open spec fn resolved(options: RawOptionsView) -> Result<
    (RelayConfigView, Option<ConfigWarning>),
    ConfigError,
> {
    if !present(options.url) {
        Err(ConfigError::MissingEndpoint)
    } else if !present(options.topic) {
        Err(ConfigError::MissingTopic)
    } else {
        let (credentials, warning) = paired(options.username, options.password);
        Ok(
            (
                RelayConfigView {
                    dispatcher: DispatcherConfigView {
                        endpoint: options.url->0,
                        credentials,
                        proxy: options.proxy,
                    },
                    topic: options.topic->0,
                },
                warning,
            ),
        )
    }
}

/// The mathematical value of optional credentials.
pub open spec fn credentials_of(credentials: Option<Credentials>) -> Option<CredentialsView> {
    match credentials {
        Some(c) => Some(c@),
        None => None,
    }
}

/// Pairs a username with a password.
pub fn pair_credentials(username: Option<String>, password: Option<String>) -> (pair: (
    Option<Credentials>,
    Option<ConfigWarning>,
))
    ensures
        (credentials_of(pair.0), pair.1) == paired(text_of(username), text_of(password)),
{
    match (username, password) {
        (Some(username), Some(password)) => (Some(Credentials { username, password }), None),
        (Some(_), None) => (None, Some(ConfigWarning::PasswordMissing)),
        (None, Some(_)) => (None, Some(ConfigWarning::UsernameMissing)),
        (None, None) => (None, None),
    }
}

impl RelayConfig {
    #[verifier::type_invariant]
    spec fn has_topic(self) -> bool {
        self.topic@.len() > 0
    }

    /// Resolves the options into settings. It fails where the endpoint URL
    /// or the topic is missing or empty, and on nothing else.
    pub fn resolve(options: RawOptions) -> (outcome: Result<
        (RelayConfig, Option<ConfigWarning>),
        ConfigError,
    >)
        ensures
            match resolved(options@) {
                Ok(settings) => outcome matches Ok((config, warning)) && (config@, warning)
                    == settings,
                Err(error) => outcome matches Err(e) && e == error,
            },
    {
        let RawOptions { url, topic, username, password, proxy } = options;
        let endpoint = match url {
            Some(url) => url,
            None => {
                return Err(ConfigError::MissingEndpoint);
            },
        };
        if endpoint.as_str().is_empty() {
            return Err(ConfigError::MissingEndpoint);
        }
        let topic = match topic {
            Some(topic) => topic,
            None => {
                return Err(ConfigError::MissingTopic);
            },
        };
        if topic.as_str().is_empty() {
            return Err(ConfigError::MissingTopic);
        }
        let (credentials, warning) = pair_credentials(username, password);
        let dispatcher = DispatcherConfig { endpoint, credentials, proxy };
        Ok((RelayConfig { dispatcher, topic }, warning))
    }

    /// The topic that notifications go to.
    pub fn topic(&self) -> (topic: &str)
        ensures
            topic@ == self@.topic,
            topic@.len() > 0,
    {
        proof {
            use_type_invariant(self);
        }
        self.topic.as_str()
    }

    /// How to reach the endpoint.
    pub fn dispatcher(&self) -> (dispatcher: &DispatcherConfig)
        ensures
            dispatcher@ == self@.dispatcher,
    {
        &self.dispatcher
    }
}

/// The relay starts exactly where both the endpoint and the topic are
/// present, whatever the other options hold; without an endpoint it is the
/// endpoint that is reported.
pub proof fn lemma_startup_needs_endpoint_and_topic(options: RawOptionsView)
    ensures
        resolved(options) is Ok <==> present(options.url) && present(options.topic),
        !present(options.url) ==> resolved(options) == Err::<
            (RelayConfigView, Option<ConfigWarning>),
            ConfigError,
        >(ConfigError::MissingEndpoint),
{
}

/// One of username and password without the other does not stop the
/// startup: the relay sends without credentials, and says so.
pub proof fn lemma_partial_credentials_are_dropped(options: RawOptionsView)
    requires
        present(options.url),
        present(options.topic),
        options.username is Some != options.password is Some,
    ensures
        resolved(options) matches Ok((config, warning)) && config.dispatcher.credentials is None
            && warning is Some,
{
}

} // verus!
