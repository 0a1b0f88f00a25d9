use loopback_oauth::config::{resolve_config, Environment};
use loopback_oauth::error::OAuthError;
use loopback_oauth::token::{
    id_token_from, interpret_token_response, GRANT_TYPE, ID_TOKEN_FIELD, TOKEN_ENDPOINT,
};

fn text(s: &str) -> String {
    s.to_string()
}

#[test]
fn the_fixed_parts_of_the_exchange() {
    assert_eq!(TOKEN_ENDPOINT, "https://oauth2.googleapis.com/token");
    assert_eq!(GRANT_TYPE, "authorization_code");
    assert_eq!(ID_TOKEN_FIELD, "id_token");
}

#[test]
fn token_request_holds_the_five_fields() {
    let config = resolve_config(Environment {
        client_id: Some(text("my-client")),
        client_secret: Some(text(" s3cret ")),
        redirect_uri: Some(text("http://localhost:8080/cb")),
    })
    .ok()
    .unwrap();
    assert_eq!(
        config.token_request("4/0AbCd"),
        vec![
            (text("code"), text("4/0AbCd")),
            (text("client_id"), text("my-client")),
            (text("client_secret"), text("s3cret")),
            (text("redirect_uri"), text("http://localhost:8080/cb")),
            (text("grant_type"), text("authorization_code")),
        ]
    );
}

#[test]
fn rejected_exchange_keeps_status_and_body() {
    assert_eq!(
        interpret_token_response(400, text("{\"error\":\"invalid_grant\"}")),
        Err(OAuthError::TokenEndpointError {
            status: 400,
            body: text("{\"error\":\"invalid_grant\"}")
        })
    );
}

#[test]
fn successful_exchange_returns_the_id_token() {
    assert_eq!(
        interpret_token_response(200, text("{\"id_token\":\"abc.def.ghi\"}")),
        Ok(text("abc.def.ghi"))
    );
}

#[test]
fn answer_without_id_token() {
    assert_eq!(
        interpret_token_response(200, text("{}")),
        Err(OAuthError::MissingIdToken { body: text("{}") })
    );
}

#[test]
fn id_token_among_other_fields() {
    let body = "{\"access_token\":\"ya29\",\"expires_in\":3599,\"id_token\":\"a.b.c\",\
                \"token_type\":\"Bearer\",\"nested\":{\"id_token\":\"inner\"}}";
    assert_eq!(interpret_token_response(200, text(body)), Ok(text("a.b.c")));
}

#[test]
fn id_token_with_escapes_is_unescaped() {
    assert_eq!(
        interpret_token_response(200, text("{\"id_token\":\"a\\u0041\\n\\\"b\"}")),
        Ok(text("aA\n\"b"))
    );
}

#[test]
fn id_token_that_is_empty_or_no_string() {
    for body in [
        "{\"id_token\":\"\"}",
        "{\"id_token\":null}",
        "{\"id_token\":42}",
        "{\"id_token\":[\"a.b.c\"]}",
        "{\"id_token\":{\"value\":\"a.b.c\"}}",
        "{\"ID_TOKEN\":\"a.b.c\"}",
        "[\"id_token\"]",
        "\"id_token\"",
        "null",
    ] {
        assert_eq!(
            interpret_token_response(200, text(body)),
            Err(OAuthError::MissingIdToken { body: text(body) })
        );
    }
}

#[test]
fn answer_that_is_not_json() {
    assert_eq!(
        interpret_token_response(200, text("<html>")),
        Err(OAuthError::MalformedResponse { reason: text("expected value at line 1 column 1") })
    );
    assert_eq!(
        interpret_token_response(200, text("")),
        Err(OAuthError::MalformedResponse {
            reason: text("EOF while parsing a value at line 1 column 0")
        })
    );
    assert_eq!(
        interpret_token_response(200, text("{\"id_token\":\"abc\"")),
        Err(OAuthError::MalformedResponse {
            reason: text("EOF while parsing an object at line 1 column 17")
        })
    );
}

#[test]
fn the_success_range_of_statuses() {
    for status in [200u16, 201, 204, 299] {
        assert_eq!(
            interpret_token_response(status, text("{\"id_token\":\"t\"}")),
            Ok(text("t"))
        );
    }
    for status in [0u16, 100, 199, 300, 302, 401, 404, 500, 65535] {
        assert_eq!(
            interpret_token_response(status, text("{\"id_token\":\"t\"}")),
            Err(OAuthError::TokenEndpointError { status, body: text("{\"id_token\":\"t\"}") })
        );
    }
}

#[test]
fn the_status_is_looked_at_before_the_body() {
    assert_eq!(
        interpret_token_response(503, text("Service Unavailable")),
        Err(OAuthError::TokenEndpointError { status: 503, body: text("Service Unavailable") })
    );
}

#[test]
fn id_token_from_each_reading() {
    assert_eq!(id_token_from(text("{}"), Ok(Some(text("a.b.c")))), Ok(text("a.b.c")));
    assert_eq!(
        id_token_from(text("{}"), Ok(None)),
        Err(OAuthError::MissingIdToken { body: text("{}") })
    );
    assert_eq!(
        id_token_from(text("{\"id_token\":\"\"}"), Ok(Some(text("")))),
        Err(OAuthError::MissingIdToken { body: text("{\"id_token\":\"\"}") })
    );
    assert_eq!(
        id_token_from(text("oops"), Err(text("expected value"))),
        Err(OAuthError::MalformedResponse { reason: text("expected value") })
    );
}
