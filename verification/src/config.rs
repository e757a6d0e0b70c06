//! Settings of the bridge and of the administration front end, with the
//! values that stand in where a setting is not given.

use vstd::prelude::*;
use vstd::string::*;

verus! {

broadcast use vstd::string::group_string_axioms;

/// The value of a setting: what was given, or `fallback` where nothing was.
pub open spec fn setting(given: Option<Seq<char>>, fallback: Seq<char>) -> Seq<char> {
    match given {
        Some(value) => value,
        None => fallback,
    }
}

/// The value of a setting: what was given, or `fallback` where nothing was.
pub fn setting_or(given: Option<String>, fallback: &str) -> (value: String)
    ensures
        value@ == setting(given.deep_view(), fallback@),
{
    match given {
        Some(value) => value,
        None => fallback.to_string(),
    }
}

/// Settings of the bridge between the mail transfer agent and the store.
#[derive(Debug, Clone, PartialEq, Eq)]
pub struct WebhookProxyConfig {
    /// Address of the server that hosts the store.
    pub spacetimedb_uri: String,
    /// Name of the module on that server.
    pub spacetimedb_module_name: String,
    /// Address that the bridge listens on.
    pub bind_address: String,
}

impl WebhookProxyConfig {
    /// The settings built from what the environment gives for the server
    /// address, the module name and the listening address, each replaced by
    /// its default where it is not given.
    pub fn from_vars(
        spacetimedb_uri: Option<String>,
        spacetimedb_module_name: Option<String>,
        bind_address: Option<String>,
    ) -> (config: WebhookProxyConfig)
        ensures
            config.spacetimedb_uri@ == setting(
                spacetimedb_uri.deep_view(),
                "http://localhost:3000"@,
            ),
            config.spacetimedb_module_name@ == setting(
                spacetimedb_module_name.deep_view(),
                "kommunikation"@,
            ),
            config.bind_address@ == setting(bind_address.deep_view(), "0.0.0.0:3002"@),
    {
        WebhookProxyConfig {
            spacetimedb_uri: setting_or(spacetimedb_uri, "http://localhost:3000"),
            spacetimedb_module_name: setting_or(spacetimedb_module_name, "kommunikation"),
            bind_address: setting_or(bind_address, "0.0.0.0:3002"),
        }
    }
}

impl Default for WebhookProxyConfig {
    fn default() -> (config: WebhookProxyConfig)
        ensures
            config.spacetimedb_uri@ == "http://localhost:3000"@,
            config.spacetimedb_module_name@ == "kommunikation"@,
            config.bind_address@ == "0.0.0.0:3002"@,
    {
        WebhookProxyConfig::from_vars(None, None, None)
    }
}

/// Settings of the sign-in with the identity provider.
#[derive(Debug, Clone, PartialEq, Eq)]
pub struct OAuthConfig {
    /// The issuer, below which the provider publishes its metadata.
    pub issuer_url: String,
    /// The client that the front end signs in as.
    pub client_id: String,
    /// Where the provider sends the browser back to.
    pub redirect_uri: String,
    /// The scopes asked for, separated by spaces.
    pub scope: String,
    /// The base address of the identity provider.
    pub django_base_url: String,
}

impl OAuthConfig {
    /// The settings built from what the environment gives, each replaced by
    /// its default where it is not given. The default issuer lies at `/o`
    /// below the base address, given or default.
    pub fn from_vars(
        django_base_url: Option<String>,
        issuer_url: Option<String>,
        client_id: Option<String>,
        redirect_uri: Option<String>,
        scope: Option<String>,
    ) -> (config: OAuthConfig)
        ensures
            config.django_base_url@ == setting(
                django_base_url.deep_view(),
                "http://127.0.0.1:8000"@,
            ),
            config.issuer_url@ == setting(issuer_url.deep_view(), config.django_base_url@ + "/o"@),
            config.client_id@ == setting(client_id.deep_view(), "admin-app"@),
            config.redirect_uri@ == setting(
                redirect_uri.deep_view(),
                "http://127.0.0.1:8080/callback"@,
            ),
            config.scope@ == setting(scope.deep_view(), "openid profile email"@),
    {
        let django_base_url = setting_or(django_base_url, "http://127.0.0.1:8000");
        let issuer_url = match issuer_url {
            Some(url) => url,
            None => {
                let mut url = django_base_url.clone();
                url.append("/o");
                url
            },
        };
        OAuthConfig {
            issuer_url,
            client_id: setting_or(client_id, "admin-app"),
            redirect_uri: setting_or(redirect_uri, "http://127.0.0.1:8080/callback"),
            scope: setting_or(scope, "openid profile email"),
            django_base_url,
        }
    }
}

impl Default for OAuthConfig {
    fn default() -> (config: OAuthConfig)
        ensures
            config.django_base_url@ == "http://127.0.0.1:8000"@,
            config.issuer_url@ == "http://127.0.0.1:8000"@ + "/o"@,
            config.client_id@ == "admin-app"@,
            config.redirect_uri@ == "http://127.0.0.1:8080/callback"@,
            config.scope@ == "openid profile email"@,
    {
        OAuthConfig::from_vars(None, None, None, None, None)
    }
}

/// Settings of the administration front end.
#[derive(Debug, Clone, PartialEq, Eq)]
pub struct AdminConfig {
    /// Address of the server that hosts the store.
    pub spacetimedb_uri: String,
    /// Name of the module on that server.
    pub spacetimedb_module_name: String,
    /// Settings of the sign-in.
    pub oauth: OAuthConfig,
}

impl AdminConfig {
    /// The settings built from what the environment gives for the server
    /// address and the module name, each replaced by its default where it is
    /// not given, and from the settings of the sign-in.
    pub fn from_vars(
        spacetimedb_uri: Option<String>,
        spacetimedb_module_name: Option<String>,
        oauth: OAuthConfig,
    ) -> (config: AdminConfig)
        ensures
            config.spacetimedb_uri@ == setting(
                spacetimedb_uri.deep_view(),
                "http://localhost:3000"@,
            ),
            config.spacetimedb_module_name@ == setting(
                spacetimedb_module_name.deep_view(),
                "kommunikation"@,
            ),
            config.oauth == oauth,
    {
        AdminConfig {
            spacetimedb_uri: setting_or(spacetimedb_uri, "http://localhost:3000"),
            spacetimedb_module_name: setting_or(spacetimedb_module_name, "kommunikation"),
            oauth,
        }
    }
}

impl Default for AdminConfig {
    fn default() -> (config: AdminConfig)
        ensures
            config.spacetimedb_uri@ == "http://localhost:3000"@,
            config.spacetimedb_module_name@ == "kommunikation"@,
            config.oauth.django_base_url@ == "http://127.0.0.1:8000"@,
            config.oauth.issuer_url@ == "http://127.0.0.1:8000"@ + "/o"@,
            config.oauth.client_id@ == "admin-app"@,
            config.oauth.redirect_uri@ == "http://127.0.0.1:8080/callback"@,
            config.oauth.scope@ == "openid profile email"@,
    {
        AdminConfig::from_vars(None, None, OAuthConfig::default())
    }
}

} // verus!
