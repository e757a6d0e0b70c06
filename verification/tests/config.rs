use kommunikationszentrum::{AdminConfig, OAuthConfig, WebhookProxyConfig};

#[test]
fn bridge_settings_default_where_nothing_is_given() {
    let config = WebhookProxyConfig::default();
    assert_eq!(config.spacetimedb_uri, "http://localhost:3000");
    assert_eq!(config.spacetimedb_module_name, "kommunikation");
    assert_eq!(config.bind_address, "0.0.0.0:3002");
    assert_eq!(WebhookProxyConfig::from_vars(None, None, None), config);
}

#[test]
fn bridge_settings_take_what_is_given() {
    let config = WebhookProxyConfig::from_vars(
        Some("http://db:3000".to_string()),
        None,
        Some("127.0.0.1:9000".to_string()),
    );
    assert_eq!(config.spacetimedb_uri, "http://db:3000");
    assert_eq!(config.spacetimedb_module_name, "kommunikation");
    assert_eq!(config.bind_address, "127.0.0.1:9000");
    let config = WebhookProxyConfig::from_vars(None, Some(String::new()), None);
    assert_eq!(config.spacetimedb_module_name, "");
}

#[test]
fn sign_in_settings_default_where_nothing_is_given() {
    let config = OAuthConfig::default();
    assert_eq!(config.issuer_url, "http://127.0.0.1:8000/o");
    assert_eq!(config.client_id, "admin-app");
    assert_eq!(config.redirect_uri, "http://127.0.0.1:8080/callback");
    assert_eq!(config.scope, "openid profile email");
    assert_eq!(config.django_base_url, "http://127.0.0.1:8000");
}

#[test]
fn default_issuer_follows_the_base_address() {
    let config =
        OAuthConfig::from_vars(Some("https://id.example.org".to_string()), None, None, None, None);
    assert_eq!(config.django_base_url, "https://id.example.org");
    assert_eq!(config.issuer_url, "https://id.example.org/o");
    let config = OAuthConfig::from_vars(
        Some("https://id.example.org".to_string()),
        Some("https://issuer.example.org".to_string()),
        Some("spa".to_string()),
        Some("https://app.example.org/callback".to_string()),
        Some("openid".to_string()),
    );
    assert_eq!(config.issuer_url, "https://issuer.example.org");
    assert_eq!(config.client_id, "spa");
    assert_eq!(config.redirect_uri, "https://app.example.org/callback");
    assert_eq!(config.scope, "openid");
}

#[test]
fn front_end_settings_default_where_nothing_is_given() {
    let config = AdminConfig::default();
    assert_eq!(config.spacetimedb_uri, "http://localhost:3000");
    assert_eq!(config.spacetimedb_module_name, "kommunikation");
    assert_eq!(config.oauth, OAuthConfig::default());
    let config = AdminConfig::from_vars(
        Some("http://db:3000".to_string()),
        Some("mail".to_string()),
        OAuthConfig::default(),
    );
    assert_eq!(config.spacetimedb_uri, "http://db:3000");
    assert_eq!(config.spacetimedb_module_name, "mail");
}
