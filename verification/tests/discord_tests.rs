use rots_authserver::text::str_starts_with;
use rots_authserver::api::{health, HeaderName};
use rots_authserver::discord::{
    authorization_url, basic_error_response, create_login_state, login_redirect,
    token_request_form, OAuthBundle,
};
use rots_authserver::{Action, Config};

fn config(id: &str, secret: &str, redirect: &str) -> Config {
    Config {
        port: 8000,
        database_url: "postgres://localhost/db".to_string(),
        discord_client_id: id.to_string(),
        discord_client_secret: secret.to_string(),
        discord_redirect_uri: redirect.to_string(),
        dry_run: false,
        action: Action::Server,
    }
}

fn bundle(redirect: &str) -> OAuthBundle {
    OAuthBundle {
        client_id: "1234".to_string(),
        client_secret: "s3cr3t".to_string(),
        redirect_uri: redirect.to_string(),
    }
}

#[test]
fn oauth_bundle_when_all_settings_present() {
    let c = config("1234", "s3cr3t", "https://example.com/cb");
    let b = c.get_discord_oauth().expect("settings are complete");
    assert_eq!(b.client_id, "1234");
    assert_eq!(b.client_secret, "s3cr3t");
    assert_eq!(b.redirect_uri, "https://example.com/cb");
}

#[test]
fn no_oauth_bundle_when_a_setting_is_empty() {
    assert!(config("", "s", "r").get_discord_oauth().is_none());
    assert!(config("i", "", "r").get_discord_oauth().is_none());
    assert!(config("i", "s", "").get_discord_oauth().is_none());
    assert!(Config::default().get_discord_oauth().is_none());
}

#[test]
fn default_config_is_empty_server() {
    let c = Config::default();
    assert_eq!(c.port, 0);
    assert!(c.database_url.is_empty());
    assert!(!c.dry_run);
    assert_eq!(c.action, Action::Server);
}

#[test]
fn authorization_url_encodes_redirect_and_state() {
    let url = authorization_url("0a1b", &bundle("http://x.org/cb?a=1"));
    assert_eq!(
        url,
        "https://discord.com/api/oauth2/authorize?client_id=1234&redirect_uri=http%3A%2F%2Fx.org%2Fcb%3Fa%3D1&response_type=code&scope=identify+openid&state=0a1b"
    );
}

#[test]
fn authorization_url_encodes_non_ascii_state() {
    let url = authorization_url("a b~ü", &bundle("r-._~"));
    assert!(url.ends_with("&state=a%20b~%C3%BC"));
    assert!(url.contains("&redirect_uri=r-._~&"));
}

#[test]
fn token_request_form_fields() {
    let form = token_request_form("the-code", &bundle("https://example.com/cb"));
    let expected: Vec<(String, String)> = vec![
        ("client_id".to_string(), "1234".to_string()),
        ("client_secret".to_string(), "s3cr3t".to_string()),
        ("grant_type".to_string(), "authorization_code".to_string()),
        ("code".to_string(), "the-code".to_string()),
        ("redirect_uri".to_string(), "https://example.com/cb".to_string()),
    ];
    assert_eq!(form, expected);
}

#[test]
fn error_response_is_bad_request() {
    let r = basic_error_response("boom");
    assert_eq!(r.status, 400);
    assert!(r.headers.is_empty());
    assert_eq!(r.body, "Error: boom");
}

#[test]
fn health_is_ok() {
    let r = health();
    assert_eq!(r.status, 200);
    assert_eq!(r.body, "Ok");
    assert_eq!(
        r.headers,
        vec![(HeaderName::ContentType, "text/plain; charset=utf-8".to_string())]
    );
}

#[test]
fn login_state_is_sixteen_bytes_of_hex() {
    let s = create_login_state();
    assert_eq!(s.len(), 32);
    assert!(s.chars().all(|c| c.is_ascii_digit() || ('a'..='f').contains(&c)));
    assert_ne!(s, create_login_state());
}

#[test]
fn login_redirect_points_to_discord() {
    let state = create_login_state();
    let cfg = bundle("https://example.com/cb");
    let r = login_redirect(&state, &cfg);
    let url = authorization_url(&state, &cfg);
    assert_eq!(r.status, 302);
    assert_eq!(r.headers, vec![(HeaderName::Location, url.clone())]);
    assert_eq!(r.body, url);
    assert!(url.ends_with(&format!("&state={}", state)));
}

#[test]
fn prefix_check() {
    assert!(str_starts_with("https://example.com", "https://"));
    assert!(!str_starts_with("http://example.com", "https://"));
    assert!(!str_starts_with("https:", "https://"));
    assert!(str_starts_with("ünï", "ün"));
    assert!(str_starts_with("x", ""));
}

#[test]
fn any_state_can_be_read_back_from_the_url() {
    let state = "a&b=c d/é";
    let url = authorization_url(state, &bundle("https://example.com/cb"));
    let encoded = url.rsplit("&state=").next().unwrap();
    assert_eq!(encoded, "a%26b%3Dc%20d%2F%C3%A9");
    assert!(!encoded.contains('&') && !encoded.contains('='));
}
