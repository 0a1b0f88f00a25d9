use loopback_oauth::config::Environment;
use loopback_oauth::error::{OAuthError, RedirectProblem};
use loopback_oauth::flow::{step, Action, Event, FlowState};

fn text(s: &str) -> String {
    s.to_string()
}

fn environment(id: Option<&str>, secret: Option<&str>, redirect: Option<&str>) -> Event {
    Event::Environment {
        env: Environment {
            client_id: id.map(text),
            client_secret: secret.map(text),
            redirect_uri: redirect.map(text),
        },
    }
}

fn good_environment() -> Event {
    environment(Some("my-client"), Some("s3cret"), Some("http://localhost:8080/cb"))
}

fn run(events: Vec<Event>) -> (FlowState, Vec<Action>) {
    let mut state = FlowState::new();
    let mut actions = Vec::new();
    for event in events {
        let (next, action) = step(state, event);
        state = next;
        actions.push(action);
    }
    (state, actions)
}

fn failed(error: OAuthError) -> FlowState {
    FlowState::Failed { error }
}

#[test]
fn a_new_attempt_is_unconfigured() {
    assert!(FlowState::new() == FlowState::Unconfigured);
    assert!(!FlowState::new().is_terminal());
    assert!(FlowState::new().into_outcome().is_none());
}

#[test]
fn a_successful_attempt_takes_every_stage_in_order() {
    let (state, actions) = run(vec![
        good_environment(),
        Event::ListenerBound,
        Event::BrowserOpened,
        Event::CallbackArrived { target: text("/cb?state=1&code=4%2F0AbCd") },
        Event::ConfirmationSent,
        Event::TokenResponse { status: 200, body: text("{\"id_token\":\"abc.def.ghi\"}") },
    ]);
    assert!(actions.len() == 6);
    assert!(actions[0] == Action::Bind { address: text("localhost:8080") });
    assert!(
        actions[1]
            == Action::OpenBrowser {
                url: text(
                    "https://accounts.google.com/o/oauth2/v2/auth?client_id=my-client\
                     &redirect_uri=http%3A%2F%2Flocalhost%3A8080%2Fcb&response_type=code\
                     &scope=openid+email+profile"
                )
            }
    );
    assert!(actions[2] == Action::AwaitCallback);
    assert!(actions[3] == Action::Confirm { body: text("Login exitoso. Puede cerrar esta ventana.") });
    assert!(
        actions[4]
            == Action::ExchangeCode {
                endpoint: text("https://oauth2.googleapis.com/token"),
                form: vec![
                    (text("code"), text("4/0AbCd")),
                    (text("client_id"), text("my-client")),
                    (text("client_secret"), text("s3cret")),
                    (text("redirect_uri"), text("http://localhost:8080/cb")),
                    (text("grant_type"), text("authorization_code")),
                ]
            }
    );
    assert!(actions[5] == Action::Finish);
    assert!(state.is_terminal());
    assert!(state.into_outcome() == Some(Ok(text("abc.def.ghi"))));
}

#[test]
fn the_states_of_a_successful_attempt() {
    let (state, _) = step(FlowState::new(), good_environment());
    assert!(matches!(state, FlowState::Binding { .. }));
    let (state, _) = step(state, Event::ListenerBound);
    assert!(matches!(state, FlowState::Launching { .. }));
    let (state, _) = step(state, Event::BrowserOpened);
    assert!(matches!(state, FlowState::WaitingForCallback { .. }));
    let (state, _) = step(state, Event::CallbackArrived { target: text("/?code=abc") });
    assert!(matches!(&state, FlowState::CodeReceived { code, .. } if code == "abc"));
    let (state, _) = step(state, Event::ConfirmationSent);
    assert!(state == FlowState::TokenRequested);
    let (state, _) = step(state, Event::TokenResponse { status: 200, body: text("{\"id_token\":\"t\"}") });
    assert!(state == FlowState::Completed { id_token: text("t") });
}

#[test]
fn missing_client_id_ends_the_attempt_before_any_activity() {
    let (state, actions) = run(vec![
        environment(None, Some("s3cret"), None),
        Event::ListenerBound,
        Event::BrowserOpened,
        Event::CallbackArrived { target: text("/?code=abc") },
        Event::ConfirmationSent,
        Event::TokenResponse { status: 200, body: text("{\"id_token\":\"t\"}") },
    ]);
    assert!(actions[0] == Action::Finish);
    for action in &actions[1..] {
        assert!(*action == Action::Ignore);
    }
    assert!(state == failed(OAuthError::ConfigMissing { name: text("OAUTH_CLIENT_ID") }));
}

#[test]
fn each_configuration_failure_ends_the_attempt() {
    let cases = vec![
        (
            environment(Some("id"), None, None),
            OAuthError::ConfigMissing { name: text("OAUTH_CLIENT_SECRET") },
        ),
        (
            environment(Some(" "), Some("s"), None),
            OAuthError::ConfigEmpty { name: text("OAUTH_CLIENT_ID") },
        ),
        (
            environment(Some("id"), Some("s"), Some("nonsense")),
            OAuthError::ConfigInvalid {
                problem: RedirectProblem::Unparsable { reason: text("relative URL without a base") },
            },
        ),
        (
            environment(Some("id"), Some("s"), Some("myapp://cb")),
            OAuthError::ConfigInvalid { problem: RedirectProblem::NoPort },
        ),
    ];
    for (event, error) in cases {
        let (state, action) = step(FlowState::new(), event);
        assert!(action == Action::Finish);
        assert!(state == failed(error));
    }
}

#[test]
fn the_default_redirect_binds_to_port_80() {
    let (_, action) = step(FlowState::new(), environment(Some("id"), Some("s"), None));
    assert!(action == Action::Bind { address: text("localhost:80") });
    let (_, action) =
        step(FlowState::new(), environment(Some("id"), Some("s"), Some("https://localhost/cb")));
    assert!(action == Action::Bind { address: text("localhost:443") });
}

#[test]
fn a_failed_bind_never_opens_the_browser() {
    let (state, actions) = run(vec![
        good_environment(),
        Event::ListenerFailed { reason: text("Address already in use (os error 98)") },
        Event::ListenerBound,
        Event::BrowserOpened,
    ]);
    assert!(actions[1] == Action::Finish);
    assert!(actions[2] == Action::Ignore);
    assert!(actions[3] == Action::Ignore);
    assert!(!actions.iter().any(|action| matches!(action, Action::OpenBrowser { .. })));
    assert!(
        state
            == failed(OAuthError::BindFailure {
                reason: text("Address already in use (os error 98)")
            })
    );
}

#[test]
fn a_browser_that_cannot_be_opened_ends_the_attempt() {
    let (state, actions) = run(vec![
        good_environment(),
        Event::ListenerBound,
        Event::BrowserFailed { reason: text("no browser") },
    ]);
    assert!(actions[2] == Action::Finish);
    assert!(state == failed(OAuthError::LaunchFailure { reason: text("no browser") }));
}

#[test]
fn a_failed_accept_ends_the_attempt() {
    let (state, actions) = run(vec![
        good_environment(),
        Event::ListenerBound,
        Event::BrowserOpened,
        Event::AcceptFailed { reason: text("listener closed") },
    ]);
    assert!(actions[3] == Action::Finish);
    assert!(state == failed(OAuthError::CallbackIOError { reason: text("listener closed") }));
}

#[test]
fn a_callback_without_code_never_calls_the_token_endpoint() {
    let (state, actions) = run(vec![
        good_environment(),
        Event::ListenerBound,
        Event::BrowserOpened,
        Event::CallbackArrived { target: text("/cb?error=access_denied") },
        Event::ConfirmationSent,
        Event::TokenResponse { status: 200, body: text("{\"id_token\":\"t\"}") },
    ]);
    assert!(actions[3] == Action::Finish);
    assert!(actions[4] == Action::Ignore);
    assert!(actions[5] == Action::Ignore);
    assert!(!actions.iter().any(|action| matches!(action, Action::ExchangeCode { .. })));
    assert!(!actions.iter().any(|action| matches!(action, Action::Confirm { .. })));
    assert!(state == failed(OAuthError::MissingAuthorizationCode));
}

#[test]
fn a_callback_with_an_empty_code_ends_the_attempt() {
    let (state, _) = run(vec![
        good_environment(),
        Event::ListenerBound,
        Event::BrowserOpened,
        Event::CallbackArrived { target: text("/cb?code=&state=1") },
    ]);
    assert!(state == failed(OAuthError::MissingAuthorizationCode));
}

#[test]
fn a_failed_confirmation_ends_the_attempt() {
    let (state, actions) = run(vec![
        good_environment(),
        Event::ListenerBound,
        Event::BrowserOpened,
        Event::CallbackArrived { target: text("/cb?code=abc") },
        Event::ConfirmationFailed { reason: text("broken pipe") },
    ]);
    assert!(actions[4] == Action::Finish);
    assert!(state == failed(OAuthError::CallbackIOError { reason: text("broken pipe") }));
}

fn until_token_requested() -> FlowState {
    let (state, _) = run(vec![
        good_environment(),
        Event::ListenerBound,
        Event::BrowserOpened,
        Event::CallbackArrived { target: text("/cb?code=abc") },
        Event::ConfirmationSent,
    ]);
    state
}

#[test]
fn a_transport_failure_ends_the_attempt() {
    let (state, action) =
        step(until_token_requested(), Event::TransportFailed { reason: text("dns error") });
    assert!(action == Action::Finish);
    assert!(state == failed(OAuthError::NetworkError { reason: text("dns error") }));
}

#[test]
fn a_rejected_exchange_ends_the_attempt() {
    let (state, action) = step(
        until_token_requested(),
        Event::TokenResponse { status: 400, body: text("{\"error\":\"invalid_grant\"}") },
    );
    assert!(action == Action::Finish);
    assert!(
        state.into_outcome()
            == Some(Err(OAuthError::TokenEndpointError {
                status: 400,
                body: text("{\"error\":\"invalid_grant\"}")
            }))
    );
}

#[test]
fn an_answer_without_token_ends_the_attempt() {
    let (state, _) =
        step(until_token_requested(), Event::TokenResponse { status: 200, body: text("{}") });
    assert!(state == failed(OAuthError::MissingIdToken { body: text("{}") }));
    let (state, _) =
        step(until_token_requested(), Event::TokenResponse { status: 200, body: text("nope") });
    assert!(
        state
            == failed(OAuthError::MalformedResponse {
                reason: text("expected ident at line 1 column 2")
            })
    );
}

#[test]
fn an_event_out_of_turn_changes_nothing() {
    let (state, action) = step(FlowState::new(), Event::ListenerBound);
    assert!(action == Action::Ignore);
    assert!(state == FlowState::Unconfigured);
    let (state, _) = step(state, good_environment());
    let (state, action) = step(state, Event::BrowserOpened);
    assert!(action == Action::Ignore);
    assert!(matches!(state, FlowState::Binding { .. }));
    let (state, action) = step(state, good_environment());
    assert!(action == Action::Ignore);
    let (_, action) = step(state, Event::ListenerBound);
    assert!(matches!(action, Action::OpenBrowser { .. }));
}

#[test]
fn an_attempt_that_is_over_stays_over() {
    let done = FlowState::Completed { id_token: text("t") };
    let (state, action) = step(done, good_environment());
    assert!(action == Action::Ignore);
    assert!(state == FlowState::Completed { id_token: text("t") });
    let (state, action) = step(failed(OAuthError::MissingAuthorizationCode), Event::ListenerBound);
    assert!(action == Action::Ignore);
    assert!(state.is_terminal());
    assert!(state.into_outcome() == Some(Err(OAuthError::MissingAuthorizationCode)));
}
