use loopback_oauth::authorize::{AUTHORIZATION_ENDPOINT, RESPONSE_TYPE, SCOPE};
use loopback_oauth::config::{resolve_config, Environment, OAuthConfig};

fn config(id: &str, secret: &str, redirect: Option<&str>) -> OAuthConfig {
    resolve_config(Environment {
        client_id: Some(id.to_string()),
        client_secret: Some(secret.to_string()),
        redirect_uri: redirect.map(|s| s.to_string()),
    })
    .ok()
    .unwrap()
}

fn pair(name: &str, value: &str) -> (String, String) {
    (name.to_string(), value.to_string())
}

#[test]
fn the_fixed_parts_of_the_request() {
    assert_eq!(AUTHORIZATION_ENDPOINT, "https://accounts.google.com/o/oauth2/v2/auth");
    assert_eq!(RESPONSE_TYPE, "code");
    assert_eq!(SCOPE, "openid email profile");
}

#[test]
fn authorization_parameters_are_the_four_required() {
    let config = config("my-client", "s3cret", Some("http://localhost:8080/cb"));
    assert_eq!(
        config.authorization_parameters(),
        vec![
            pair("client_id", "my-client"),
            pair("redirect_uri", "http://localhost:8080/cb"),
            pair("response_type", "code"),
            pair("scope", "openid email profile"),
        ]
    );
}

#[test]
fn authorization_url_with_the_default_redirect() {
    let config = config("1234.apps.example.com", "s3cret", None);
    assert_eq!(
        config.authorization_url(),
        "https://accounts.google.com/o/oauth2/v2/auth?client_id=1234.apps.example.com\
         &redirect_uri=http%3A%2F%2Flocalhost&response_type=code&scope=openid+email+profile"
    );
}

#[test]
fn authorization_url_escapes_the_configured_values() {
    let config = config("id with space&more=1", "s3cret", Some("http://localhost:8080/cb?next=/a b#x"));
    assert_eq!(
        config.authorization_url(),
        "https://accounts.google.com/o/oauth2/v2/auth?client_id=id+with+space%26more%3D1\
         &redirect_uri=http%3A%2F%2Flocalhost%3A8080%2Fcb%3Fnext%3D%2Fa+b%23x\
         &response_type=code&scope=openid+email+profile"
    );
}

#[test]
fn authorization_url_never_holds_the_secret() {
    let config = config("id", "very-secret-value", None);
    assert!(!config.authorization_url().contains("very-secret-value"));
}

#[test]
fn authorization_url_sends_the_redirect_as_configured() {
    let config = config("id", "secret", Some("HTTP://LocalHost:80/"));
    assert_eq!(
        config.authorization_url(),
        "https://accounts.google.com/o/oauth2/v2/auth?client_id=id\
         &redirect_uri=HTTP%3A%2F%2FLocalHost%3A80%2F&response_type=code\
         &scope=openid+email+profile"
    );
}

#[test]
fn authorization_url_is_what_the_url_crate_builds() {
    let samples = [
        ("plain", "http://localhost"),
        ("with space", "http://localhost:8080/cb?x=1&y=2"),
        ("ünïcödé/+%", "https://example.com/é"),
    ];
    for (id, redirect) in samples {
        let config = config(id, "secret", Some(redirect));
        let mut expected = url::Url::parse(AUTHORIZATION_ENDPOINT).unwrap();
        expected
            .query_pairs_mut()
            .append_pair("client_id", id)
            .append_pair("redirect_uri", redirect)
            .append_pair("response_type", "code")
            .append_pair("scope", "openid email profile");
        assert_eq!(config.authorization_url(), expected.to_string());
    }
}

#[test]
fn authorization_url_reads_back_as_its_parameters() {
    let config = config("a&b=c d", "secret", Some("http://localhost:1/?q=1#f"));
    let parsed = url::Url::parse(&config.authorization_url()).unwrap();
    let back: Vec<(String, String)> = parsed.query_pairs().into_owned().collect();
    assert_eq!(back, config.authorization_parameters());
}
