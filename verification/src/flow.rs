//! The login attempt as a state machine. The machine decides; its driver
//! performs each [`Action`] (binding the listener, opening the browser,
//! waiting for the callback, answering it, calling the token endpoint) and
//! reports what came of it as the next [`Event`].

use crate::callback::CONFIRMATION_BODY;
use crate::config::{
    resolve_config, resolved, Environment, EnvironmentView, OAuthConfig, OAuthConfigView,
};
use crate::error::{result_view, OAuthError, OAuthErrorView};
use crate::token::{interpret_token_response, token_outcome, TOKEN_ENDPOINT};
use vstd::prelude::*;
use vstd::string::*;

verus! {

/// Where a login attempt stands.
#[derive(PartialEq, Eq)]
pub enum FlowState {
    /// Nothing has happened yet; the environment is to be read.
    Unconfigured,
    /// The listener is being bound.
    Binding { config: OAuthConfig },
    /// The listener stands; the browser is being opened.
    Launching { config: OAuthConfig },
    /// The browser is open; the listener waits for the one callback.
    WaitingForCallback { config: OAuthConfig },
    /// The callback brought a code; the browser is being answered.
    CodeReceived { config: OAuthConfig, code: String },
    /// The code is on its way to the token endpoint.
    TokenRequested,
    /// The attempt succeeded with this identity token.
    Completed { id_token: String },
    /// The attempt failed.
    Failed { error: OAuthError },
}

/// What the driver reports to the machine.
#[derive(PartialEq, Eq)]
pub enum Event {
    /// The configuration values found in the environment.
    Environment { env: Environment },
    /// The listener is bound.
    ListenerBound,
    /// The listener could not be bound.
    ListenerFailed { reason: String },
    /// The browser took the authorization URL.
    BrowserOpened,
    /// The browser could not be opened.
    BrowserFailed { reason: String },
    /// A request arrived whose request line asks for `target`.
    CallbackArrived { target: String },
    /// Accepting a request failed.
    AcceptFailed { reason: String },
    /// The answer to the browser was written.
    ConfirmationSent,
    /// Writing the answer to the browser failed.
    ConfirmationFailed { reason: String },
    /// The token endpoint answered.
    TokenResponse { status: u16, body: String },
    /// The token endpoint could not be reached, or its answer not read.
    TransportFailed { reason: String },
}

/// What the machine asks of the driver.
#[derive(PartialEq, Eq)]
pub enum Action {
    /// Bind the loopback listener to `address`.
    Bind { address: String },
    /// Open `url` in the system browser.
    OpenBrowser { url: String },
    /// Block until one request arrives at the listener. The wait is not
    /// bounded: an abandoned browser tab keeps the attempt waiting.
    AwaitCallback,
    /// Answer the request with status 200 and `body`.
    Confirm { body: String },
    /// Send `form`, form-encoded, in one POST request to `endpoint`.
    ExchangeCode { endpoint: String, form: Vec<(String, String)> },
    /// The attempt is over: release the listener and report the outcome.
    Finish,
    /// The event answers no pending action; there is nothing to do.
    Ignore,
}

/// Mathematical view of a [`FlowState`].
pub enum FlowStateView {
    Unconfigured,
    Binding { config: OAuthConfigView },
    Launching { config: OAuthConfigView },
    WaitingForCallback { config: OAuthConfigView },
    CodeReceived { config: OAuthConfigView, code: Seq<char> },
    TokenRequested,
    Completed { id_token: Seq<char> },
    Failed { error: OAuthErrorView },
}

/// Mathematical view of an [`Event`].
pub enum EventView {
    Environment { env: EnvironmentView },
    ListenerBound,
    ListenerFailed { reason: Seq<char> },
    BrowserOpened,
    BrowserFailed { reason: Seq<char> },
    CallbackArrived { target: Seq<char> },
    AcceptFailed { reason: Seq<char> },
    ConfirmationSent,
    ConfirmationFailed { reason: Seq<char> },
    TokenResponse { status: u16, body: Seq<char> },
    TransportFailed { reason: Seq<char> },
}

/// Mathematical view of an [`Action`].
pub enum ActionView {
    Bind { address: Seq<char> },
    OpenBrowser { url: Seq<char> },
    AwaitCallback,
    Confirm { body: Seq<char> },
    ExchangeCode { endpoint: Seq<char>, form: Seq<(Seq<char>, Seq<char>)> },
    Finish,
    Ignore,
}

impl View for FlowState {
    type V = FlowStateView;

    open spec fn view(&self) -> FlowStateView {
        match self {
            FlowState::Unconfigured => FlowStateView::Unconfigured,
            FlowState::Binding { config } => FlowStateView::Binding { config: config@ },
            FlowState::Launching { config } => FlowStateView::Launching { config: config@ },
            FlowState::WaitingForCallback { config } => FlowStateView::WaitingForCallback {
                config: config@,
            },
            FlowState::CodeReceived { config, code } => FlowStateView::CodeReceived {
                config: config@,
                code: code@,
            },
            FlowState::TokenRequested => FlowStateView::TokenRequested,
            FlowState::Completed { id_token } => FlowStateView::Completed { id_token: id_token@ },
            FlowState::Failed { error } => FlowStateView::Failed { error: error@ },
        }
    }
}

impl View for Event {
    type V = EventView;

    open spec fn view(&self) -> EventView {
        match self {
            Event::Environment { env } => EventView::Environment { env: env@ },
            Event::ListenerBound => EventView::ListenerBound,
            Event::ListenerFailed { reason } => EventView::ListenerFailed { reason: reason@ },
            Event::BrowserOpened => EventView::BrowserOpened,
            Event::BrowserFailed { reason } => EventView::BrowserFailed { reason: reason@ },
            Event::CallbackArrived { target } => EventView::CallbackArrived { target: target@ },
            Event::AcceptFailed { reason } => EventView::AcceptFailed { reason: reason@ },
            Event::ConfirmationSent => EventView::ConfirmationSent,
            Event::ConfirmationFailed { reason } => EventView::ConfirmationFailed {
                reason: reason@,
            },
            Event::TokenResponse { status, body } => EventView::TokenResponse {
                status: *status,
                body: body@,
            },
            Event::TransportFailed { reason } => EventView::TransportFailed { reason: reason@ },
        }
    }
}

impl View for Action {
    type V = ActionView;

    open spec fn view(&self) -> ActionView {
        match self {
            Action::Bind { address } => ActionView::Bind { address: address@ },
            Action::OpenBrowser { url } => ActionView::OpenBrowser { url: url@ },
            Action::AwaitCallback => ActionView::AwaitCallback,
            Action::Confirm { body } => ActionView::Confirm { body: body@ },
            Action::ExchangeCode { endpoint, form } => ActionView::ExchangeCode {
                endpoint: endpoint@,
                form: form.deep_view(),
            },
            Action::Finish => ActionView::Finish,
            Action::Ignore => ActionView::Ignore,
        }
    }
}

impl FlowStateView {
    /// Whether the attempt is over.
    pub open spec fn is_terminal(self) -> bool {
        self is Completed || self is Failed
    }

    /// What holds of every state that an attempt can be in: its
    /// configuration is well formed, a received code is not empty, and
    /// neither is the identity token of a completed attempt.
    pub open spec fn well_formed(self) -> bool {
        match self {
            FlowStateView::Binding { config } => config.well_formed(),
            FlowStateView::Launching { config } => config.well_formed(),
            FlowStateView::WaitingForCallback { config } => config.well_formed(),
            FlowStateView::CodeReceived { config, code } => config.well_formed() && code.len() > 0,
            FlowStateView::Completed { id_token } => id_token.len() > 0,
            _ => true,
        }
    }

    /// The outcome of an attempt that is over.
    pub open spec fn outcome(self) -> Option<Result<Seq<char>, OAuthErrorView>> {
        match self {
            FlowStateView::Completed { id_token } => Some(Ok(id_token)),
            FlowStateView::Failed { error } => Some(Err(error)),
            _ => None,
        }
    }
}

/// The step that ends the attempt with `error`.
pub open spec fn fail(error: OAuthErrorView) -> (FlowStateView, ActionView) {
    (FlowStateView::Failed { error }, ActionView::Finish)
}

/// The step of the machine: the state that follows `state` on `event`, and
/// what the driver is to do next.
///
/// Each state answers the two events that report on its pending action, and
/// every failure ends the attempt. An event that does not belong to the state
/// changes nothing. A callback without a usable code is not answered: the
/// attempt ends with the request still open.
pub open spec fn next(state: FlowStateView, event: EventView) -> (FlowStateView, ActionView) {
    match (state, event) {
        (FlowStateView::Unconfigured, EventView::Environment { env }) => match resolved(env) {
            Ok(config) => (
                FlowStateView::Binding { config },
                ActionView::Bind { address: config.endpoint.bind_address() },
            ),
            Err(error) => fail(error),
        },
        (FlowStateView::Binding { config }, EventView::ListenerBound) => (
            FlowStateView::Launching { config },
            ActionView::OpenBrowser { url: config.authorization_url() },
        ),
        (FlowStateView::Binding { .. }, EventView::ListenerFailed { reason }) => fail(
            OAuthErrorView::BindFailure { reason },
        ),
        (FlowStateView::Launching { config }, EventView::BrowserOpened) => (
            FlowStateView::WaitingForCallback { config },
            ActionView::AwaitCallback,
        ),
        (FlowStateView::Launching { .. }, EventView::BrowserFailed { reason }) => fail(
            OAuthErrorView::LaunchFailure { reason },
        ),
        (
            FlowStateView::WaitingForCallback { config },
            EventView::CallbackArrived { target },
        ) => match config.callback_code(target) {
            Ok(code) => (
                FlowStateView::CodeReceived { config, code },
                ActionView::Confirm { body: CONFIRMATION_BODY@ },
            ),
            Err(error) => fail(error),
        },
        (FlowStateView::WaitingForCallback { .. }, EventView::AcceptFailed { reason }) => fail(
            OAuthErrorView::CallbackIOError { reason },
        ),
        (FlowStateView::CodeReceived { config, code }, EventView::ConfirmationSent) => (
            FlowStateView::TokenRequested,
            ActionView::ExchangeCode {
                endpoint: TOKEN_ENDPOINT@,
                form: config.token_request(code),
            },
        ),
        (FlowStateView::CodeReceived { .. }, EventView::ConfirmationFailed { reason }) => fail(
            OAuthErrorView::CallbackIOError { reason },
        ),
        (FlowStateView::TokenRequested, EventView::TokenResponse { status, body }) => {
            match token_outcome(status, body) {
                Ok(id_token) => (FlowStateView::Completed { id_token }, ActionView::Finish),
                Err(error) => fail(error),
            }
        },
        (FlowStateView::TokenRequested, EventView::TransportFailed { reason }) => fail(
            OAuthErrorView::NetworkError { reason },
        ),
        _ => (state, ActionView::Ignore),
    }
}

impl FlowState {
    /// The state in which every attempt starts.
    pub fn new() -> (r: FlowState)
        ensures
            r@ == FlowStateView::Unconfigured,
    {
        FlowState::Unconfigured
    }

    /// Whether the attempt is over.
    pub fn is_terminal(&self) -> (r: bool)
        ensures
            r == self@.is_terminal(),
    {
        match self {
            FlowState::Completed { .. } => true,
            FlowState::Failed { .. } => true,
            _ => false,
        }
    }

    /// The outcome of an attempt that is over: the identity token or the
    /// failure. An attempt that is still under way has none.
    pub fn into_outcome(self) -> (r: Option<Result<String, OAuthError>>)
        ensures
            match r {
                Some(outcome) => self@.outcome() == Some(result_view(outcome)),
                None => self@.outcome() is None,
            },
    {
        match self {
            FlowState::Completed { id_token } => Some(Ok(id_token)),
            FlowState::Failed { error } => Some(Err(error)),
            _ => None,
        }
    }
}

fn failed(error: OAuthError) -> (r: (FlowState, Action))
    ensures
        (r.0@, r.1@) == fail(error@),
{
    (FlowState::Failed { error }, Action::Finish)
}

/// Takes one step of the machine.
pub fn step(state: FlowState, event: Event) -> (r: (FlowState, Action))
    ensures
        (r.0@, r.1@) == next(state@, event@),
{
    match (state, event) {
        (FlowState::Unconfigured, Event::Environment { env }) => match resolve_config(env) {
            Ok(config) => {
                let address = config.endpoint().bind_address();
                (FlowState::Binding { config }, Action::Bind { address })
            },
            Err(error) => failed(error),
        },
        (FlowState::Binding { config }, Event::ListenerBound) => {
            let url = config.authorization_url();
            (FlowState::Launching { config }, Action::OpenBrowser { url })
        },
        (FlowState::Binding { .. }, Event::ListenerFailed { reason }) => failed(
            OAuthError::BindFailure { reason },
        ),
        (FlowState::Launching { config }, Event::BrowserOpened) => (
            FlowState::WaitingForCallback { config },
            Action::AwaitCallback,
        ),
        (FlowState::Launching { .. }, Event::BrowserFailed { reason }) => failed(
            OAuthError::LaunchFailure { reason },
        ),
        (FlowState::WaitingForCallback { config }, Event::CallbackArrived { target }) => {
            match config.callback_code(target.as_str()) {
                Ok(code) => (
                    FlowState::CodeReceived { config, code },
                    Action::Confirm { body: String::from_str(CONFIRMATION_BODY) },
                ),
                Err(error) => failed(error),
            }
        },
        (FlowState::WaitingForCallback { .. }, Event::AcceptFailed { reason }) => failed(
            OAuthError::CallbackIOError { reason },
        ),
        (FlowState::CodeReceived { config, code }, Event::ConfirmationSent) => {
            let form = config.token_request(code.as_str());
            (
                FlowState::TokenRequested,
                Action::ExchangeCode { endpoint: String::from_str(TOKEN_ENDPOINT), form },
            )
        },
        (FlowState::CodeReceived { .. }, Event::ConfirmationFailed { reason }) => failed(
            OAuthError::CallbackIOError { reason },
        ),
        (FlowState::TokenRequested, Event::TokenResponse { status, body }) => {
            match interpret_token_response(status, body) {
                Ok(id_token) => (FlowState::Completed { id_token }, Action::Finish),
                Err(error) => failed(error),
            }
        },
        (FlowState::TokenRequested, Event::TransportFailed { reason }) => failed(
            OAuthError::NetworkError { reason },
        ),
        (state, _) => (state, Action::Ignore),
    }
}

} // verus!
