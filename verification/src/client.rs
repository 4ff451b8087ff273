//! What a client of the platform is configured with: the options that a
//! caller may leave open, the defaults that fill them in, and the
//! collaborators that stand in where none is supplied.

use semver::Version;
use tokio_util::sync::CancellationToken;
use vstd::prelude::*;

verus! {

#[verifier::external_type_specification]
#[verifier::external_body]
pub struct ExVersion(Version);

/// How strictly the client checks the platform's certificate.
#[derive(Debug, Clone, Copy, PartialEq, Eq, Structural)]
pub enum ProtonClientTlsPolicy {
    Strict,
    NoCertificatePinning,
    NoCertificateValidation,
}

/// The defaults of the platform's API.
pub struct ProtonApiDefaults;

/// The text of the default base URL.
pub open spec fn default_base_url() -> Seq<char> {
    "https://drive-api.proton.me/"@
}

/// The text of the default URI to which a refresh redirects.
pub open spec fn default_refresh_redirect_uri() -> Seq<char> {
    "https://proton.me"@
}

impl ProtonApiDefaults {
    pub const DEFAULT_TIMEOUT_SECONDS: u32 = 30;

    /// The base URL of the API, as text.
    pub fn base_url() -> (url: String)
        ensures
            url@ == default_base_url(),
    {
        "https://drive-api.proton.me/".to_owned()
    }

    /// The URI to which a refresh redirects, as text.
    pub fn refresh_redirect_uri() -> (uri: String)
        ensures
            uri@ == default_refresh_redirect_uri(),
    {
        "https://proton.me".to_owned()
    }
}

/// What a caller may choose of a client; whatever is `None` is left to the
/// defaults.
pub struct ProtonClientOptions {
    pub base_url: Option<String>,
    pub user_agent: Option<String>,
    pub tls_policy: Option<ProtonClientTlsPolicy>,
    pub refresh_redirect_uri: Option<String>,
    pub bindings_language: Option<String>,
}

impl Default for ProtonClientOptions {
    fn default() -> (options: Self)
        ensures
            options.base_url is None,
            options.user_agent is None,
            options.tls_policy is None,
            options.refresh_redirect_uri is None,
            options.bindings_language is None,
    {
        Self {
            base_url: None,
            user_agent: None,
            tls_policy: None,
            refresh_redirect_uri: None,
            bindings_language: None,
        }
    }
}

/// The text that an option stands for: its own where it is chosen, the
/// default where it is not.
pub open spec fn chosen_text(option: Option<String>, default: Seq<char>) -> Seq<char> {
    match option {
        Some(text) => text@,
        None => default,
    }
}

/// What a client runs with: every choice made.
pub struct ProtonClientConfiguration {
    pub base_url: String,
    pub app_version: Version,
    pub user_agent: String,
    pub tls_policy: ProtonClientTlsPolicy,
    pub refresh_redirect_uri: String,
    pub bindings_language: Option<String>,
}

impl ProtonClientConfiguration {
    /// The configuration that `options` stand for: each choice as it was
    /// made, and the default wherever none was: the default URLs, an empty
    /// user agent, the strict TLS policy.
    pub fn new(app_version: Version, options: ProtonClientOptions) -> (configuration: Self)
        ensures
            configuration.app_version == app_version,
            configuration.base_url@ == chosen_text(options.base_url, default_base_url()),
            configuration.user_agent@ == chosen_text(options.user_agent, Seq::empty()),
            configuration.tls_policy == match options.tls_policy {
                Some(policy) => policy,
                None => ProtonClientTlsPolicy::Strict,
            },
            configuration.refresh_redirect_uri@ == chosen_text(
                options.refresh_redirect_uri,
                default_refresh_redirect_uri(),
            ),
            configuration.bindings_language == options.bindings_language,
    {
        Self {
            base_url: match options.base_url {
                Some(url) => url,
                None => ProtonApiDefaults::base_url(),
            },
            app_version,
            user_agent: match options.user_agent {
                Some(agent) => agent,
                None => String::new(),
            },
            tls_policy: match options.tls_policy {
                Some(policy) => policy,
                None => ProtonClientTlsPolicy::Strict,
            },
            refresh_redirect_uri: match options.refresh_redirect_uri {
                Some(uri) => uri,
                None => ProtonApiDefaults::refresh_redirect_uri(),
            },
            bindings_language: options.bindings_language,
        }
    }
}

/// A handler of HTTP messages that a caller may put in place of the client's
/// own.
pub trait HttpMessageHandler {

}

/// Where the client reports its metrics.
pub trait TelemetryTrait {
    fn record_metric(&self, name: String, payload: Option<Vec<u8>>);
}

/// The telemetry that records nothing.
pub struct NullTelemetry;

impl TelemetryTrait for NullTelemetry {
    fn record_metric(&self, _name: String, _payload: Option<Vec<u8>>) {
    }
}

/// Why a provider could not say whether a flag is enabled.
#[derive(Debug, Clone, Copy, PartialEq, Eq, Structural)]
pub enum FeatureFlagError {
    /// The caller's cancellation signal was observed.
    Cancelled,
    /// The provider failed.
    Provider,
}

/// Who decides whether a feature is switched on.
pub trait FeatureFlagProvider {
    fn is_enabled(&self, flag_name: String, cancellation_token: CancellationToken) -> (enabled:
        Result<bool, FeatureFlagError>);
}

/// The provider under which every feature is switched off.
pub struct AlwaysDisabledFeatureFlagProvider;

impl FeatureFlagProvider for AlwaysDisabledFeatureFlagProvider {
    fn is_enabled(&self, _flag_name: String, _cancellation_token: CancellationToken) -> (enabled:
        Result<bool, FeatureFlagError>)
        ensures
            enabled == Ok::<bool, FeatureFlagError>(false),
    {
        Ok(false)
    }
}

} // verus!
