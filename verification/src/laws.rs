//! What holds of every run of the machine, whatever the driver reports.

use crate::callback::{law_query_without_code, CONFIRMATION_BODY};
use crate::config::{
    lemma_resolved_is_well_formed, required_value, resolved, EnvironmentView, OAuthConfigView,
    CLIENT_ID_VARIABLE, CLIENT_SECRET_VARIABLE,
};
use crate::error::OAuthErrorView;
use crate::flow::{next, ActionView, EventView, FlowStateView};
use crate::redirect::url_parse;
use crate::token::{token_outcome, TOKEN_ENDPOINT};
use vstd::prelude::*;

verus! {

/// The state that the machine reaches from `start` on `events`.
pub open spec fn run(start: FlowStateView, events: Seq<EventView>) -> FlowStateView
    decreases events.len(),
{
    if events.len() == 0 {
        start
    } else {
        next(run(start, events.drop_last()), events.last()).0
    }
}

/// The state in which a run from `start` on `events` takes its event `i`.
pub open spec fn state_before(
    start: FlowStateView,
    events: Seq<EventView>,
    i: int,
) -> FlowStateView {
    run(start, events.take(i))
}

/// The action with which a run from `start` on `events` answers its event
/// `i`.
pub open spec fn action_at(start: FlowStateView, events: Seq<EventView>, i: int) -> ActionView {
    next(state_before(start, events, i), events[i]).1
}

/// How far a state is along the attempt.
pub open spec fn stage(state: FlowStateView) -> nat {
    match state {
        FlowStateView::Unconfigured => 0,
        FlowStateView::Binding { .. } => 1,
        FlowStateView::Launching { .. } => 2,
        FlowStateView::WaitingForCallback { .. } => 3,
        FlowStateView::CodeReceived { .. } => 4,
        FlowStateView::TokenRequested => 5,
        FlowStateView::Completed { .. } => 6,
        FlowStateView::Failed { .. } => 6,
    }
}

/// Whether an action reaches outside the machine: the listener, the browser
/// or the network.
pub open spec fn is_activity(action: ActionView) -> bool {
    !(action is Finish || action is Ignore)
}

/// `state` with another client secret in its configuration.
pub open spec fn with_secret(state: FlowStateView, secret: Seq<char>) -> FlowStateView {
    match state {
        FlowStateView::Binding { config } => FlowStateView::Binding {
            config: OAuthConfigView { client_secret: secret, ..config },
        },
        FlowStateView::Launching { config } => FlowStateView::Launching {
            config: OAuthConfigView { client_secret: secret, ..config },
        },
        FlowStateView::WaitingForCallback { config } => FlowStateView::WaitingForCallback {
            config: OAuthConfigView { client_secret: secret, ..config },
        },
        FlowStateView::CodeReceived { config, code } => FlowStateView::CodeReceived {
            config: OAuthConfigView { client_secret: secret, ..config },
            code,
        },
        _ => state,
    }
}

/// The events of an attempt in which every stage succeeds.
pub open spec fn successful_events(
    env: EnvironmentView,
    target: Seq<char>,
    status: u16,
    body: Seq<char>,
) -> Seq<EventView> {
    seq![
        EventView::Environment { env },
        EventView::ListenerBound,
        EventView::BrowserOpened,
        EventView::CallbackArrived { target },
        EventView::ConfirmationSent,
        EventView::TokenResponse { status, body },
    ]
}

/// An attempt that is over stays as it is: no event changes its outcome or
/// asks anything more of the driver.
pub proof fn law_terminal_is_final(state: FlowStateView, event: EventView)
    requires
        state.is_terminal(),
    ensures
        next(state, event) == (state, ActionView::Ignore),
{
}

/// The machine asks the driver to finish exactly when a step ends the
/// attempt, so the listener is released on every way out.
pub proof fn law_finish_ends_the_attempt(state: FlowStateView, event: EventView)
    ensures
        next(state, event).1 is Finish <==> !state.is_terminal() && next(
            state,
            event,
        ).0.is_terminal(),
{
}

/// A step never goes back: it keeps the stage or moves to a later one, and
/// every activity moves on by exactly one stage.
pub proof fn law_steps_go_forward(state: FlowStateView, event: EventView)
    ensures
        stage(state) <= stage(next(state, event).0),
        is_activity(next(state, event).1) ==> stage(next(state, event).0) == stage(state) + 1,
        next(state, event).1 is Ignore ==> next(state, event).0 == state,
{
}

/// The stage that brings forth each activity.
pub proof fn law_activities_in_order(state: FlowStateView, event: EventView)
    ensures
        next(state, event).1 is Bind ==> state is Unconfigured && event is Environment,
        next(state, event).1 is OpenBrowser ==> state is Binding && event is ListenerBound,
        next(state, event).1 is AwaitCallback ==> state is Launching && event is BrowserOpened,
        next(state, event).1 is Confirm ==> state is WaitingForCallback && event is CallbackArrived,
        next(state, event).1 is ExchangeCode ==> state is CodeReceived && event
            is ConfirmationSent,
{
}

/// An attempt completes only on an answer of the token endpoint that holds a
/// token, and that token is the outcome.
pub proof fn law_completion_needs_a_token(state: FlowStateView, event: EventView)
    requires
        !state.is_terminal(),
        next(state, event).0 is Completed,
    ensures
        state is TokenRequested,
        event is TokenResponse,
        token_outcome(event->status, event->body) == Ok::<Seq<char>, OAuthErrorView>(
            next(state, event).0->id_token,
        ),
        next(state, event).0->id_token.len() > 0,
{
}

/// A step from a well-formed state leads to a well-formed state.
pub proof fn law_steps_keep_states_well_formed(state: FlowStateView, event: EventView)
    requires
        state.well_formed(),
    ensures
        next(state, event).0.well_formed(),
{
    if let EventView::Environment { env } = event {
        lemma_resolved_is_well_formed(env);
    }
}

/// The client secret reaches nothing but the token request. With another
/// secret in the configuration, every step asks the same of the driver,
/// except for what the token request holds, and ends in the same state; so
/// no address, no URL, no outcome and no failure message is built from it.
pub proof fn law_secret_reaches_only_the_exchange(
    state: FlowStateView,
    secret: Seq<char>,
    event: EventView,
)
    requires
        !(state is Unconfigured),
    ensures
        next(with_secret(state, secret), event).0 == with_secret(next(state, event).0, secret),
        next(state, event).0.is_terminal() ==> next(with_secret(state, secret), event).0 == next(
            state,
            event,
        ).0,
        !(next(state, event).1 is ExchangeCode) ==> next(with_secret(state, secret), event).1
            == next(state, event).1,
        next(state, event).1 is ExchangeCode ==> next(with_secret(state, secret), event).1
            is ExchangeCode,
{
}

/// What the environment holds as the client secret decides whether the
/// configuration resolves, and is no part of any failure: two environments
/// that differ in a usable secret alone fail alike.
pub proof fn law_secret_stays_out_of_failures(env: EnvironmentView, secret: Seq<char>)
    requires
        required_value(CLIENT_SECRET_VARIABLE@, env.client_secret) is Ok,
        required_value(CLIENT_SECRET_VARIABLE@, Some(secret)) is Ok,
    ensures
        ({
            let other = EnvironmentView { client_secret: Some(secret), ..env };
            &&& resolved(other) is Err <==> resolved(env) is Err
            &&& resolved(env) matches Err(error) ==> resolved(other) == Err::<
                OAuthConfigView,
                OAuthErrorView,
            >(error)
        }),
{
}

/// The state after event `i` of a run is the one that the step on event `i`
/// gives.
pub proof fn lemma_state_after(start: FlowStateView, events: Seq<EventView>, i: int)
    requires
        0 <= i < events.len(),
    ensures
        state_before(start, events, i + 1) == next(
            state_before(start, events, i),
            events[i],
        ).0,
{
    assert(events.take(i + 1).drop_last() =~= events.take(i));
}

/// Along a run the stage never falls.
pub proof fn lemma_stage_along_run(start: FlowStateView, events: Seq<EventView>, i: int, j: int)
    requires
        0 <= i <= j <= events.len(),
    ensures
        stage(state_before(start, events, i)) <= stage(state_before(start, events, j)),
    decreases j - i,
{
    if i < j {
        lemma_stage_along_run(start, events, i, j - 1);
        assert(events.take(j).drop_last() =~= events.take(j - 1));
        law_steps_go_forward(state_before(start, events, j - 1), events[j - 1]);
    }
}

/// Once a run has ended the attempt, every later event finds the same state
/// and is ignored.
pub proof fn lemma_after_the_end(start: FlowStateView, events: Seq<EventView>, i: int, j: int)
    requires
        0 <= i <= j <= events.len(),
        state_before(start, events, i).is_terminal(),
    ensures
        state_before(start, events, j) == state_before(start, events, i),
        j < events.len() ==> action_at(start, events, j) is Ignore,
    decreases j - i,
{
    if i < j {
        lemma_after_the_end(start, events, i, j - 1);
        assert(events.take(j).drop_last() =~= events.take(j - 1));
    }
}

/// Every state that a run reaches from the start is well formed.
pub proof fn law_reached_states_are_well_formed(events: Seq<EventView>)
    ensures
        run(FlowStateView::Unconfigured, events).well_formed(),
    decreases events.len(),
{
    if events.len() > 0 {
        law_reached_states_are_well_formed(events.drop_last());
        law_steps_keep_states_well_formed(
            run(FlowStateView::Unconfigured, events.drop_last()),
            events.last(),
        );
    }
}

/// The run of an attempt in which every stage succeeds: the five activities
/// come in order, each built from the resolved configuration, and the token
/// that the endpoint answered is the outcome.
pub proof fn law_successful_attempt(
    env: EnvironmentView,
    target: Seq<char>,
    status: u16,
    body: Seq<char>,
)
    requires
        resolved(env) is Ok,
        resolved(env)->Ok_0.callback_code(target) is Ok,
        token_outcome(status, body) is Ok,
    ensures
        ({
            let config = resolved(env)->Ok_0;
            let code = config.callback_code(target)->Ok_0;
            let start = FlowStateView::Unconfigured;
            let events = successful_events(env, target, status, body);
            &&& action_at(start, events, 0) == (ActionView::Bind {
                address: config.endpoint.bind_address(),
            })
            &&& action_at(start, events, 1) == (ActionView::OpenBrowser {
                url: config.authorization_url(),
            })
            &&& action_at(start, events, 2) == ActionView::AwaitCallback
            &&& action_at(start, events, 3) == (ActionView::Confirm { body: CONFIRMATION_BODY@ })
            &&& action_at(start, events, 4) == (ActionView::ExchangeCode {
                endpoint: TOKEN_ENDPOINT@,
                form: config.token_request(code),
            })
            &&& action_at(start, events, 5) == ActionView::Finish
            &&& run(start, events) == (FlowStateView::Completed {
                id_token: token_outcome(status, body)->Ok_0,
            })
        }),
{
    let start = FlowStateView::Unconfigured;
    let events = successful_events(env, target, status, body);
    assert(events.take(0) =~= Seq::empty());
    assert(events.take(6) =~= events);
    lemma_state_after(start, events, 0);
    lemma_state_after(start, events, 1);
    lemma_state_after(start, events, 2);
    lemma_state_after(start, events, 3);
    lemma_state_after(start, events, 4);
    lemma_state_after(start, events, 5);
}

/// An environment without the client identifier ends the attempt with
/// `ConfigMissing` at its first step, and no run that starts so ever touches
/// the listener, the browser or the network.
pub proof fn law_missing_client_id(events: Seq<EventView>, env: EnvironmentView)
    requires
        events.len() > 0,
        events[0] == (EventView::Environment { env }),
        env.client_id is None,
    ensures
        state_before(FlowStateView::Unconfigured, events, 1) == (FlowStateView::Failed {
            error: OAuthErrorView::ConfigMissing { name: CLIENT_ID_VARIABLE@ },
        }),
        forall|i: int|
            0 <= i < events.len() ==> !is_activity(
                #[trigger] action_at(FlowStateView::Unconfigured, events, i),
            ),
{
    let start = FlowStateView::Unconfigured;
    assert(events.take(0) =~= Seq::empty());
    lemma_state_after(start, events, 0);
    assert forall|i: int| 0 <= i < events.len() implies !is_activity(
        #[trigger] action_at(start, events, i),
    ) by {
        if i > 0 {
            lemma_after_the_end(start, events, 1, i);
        }
    }
}

/// If binding the listener fails, the browser is never opened: not before
/// the failure, and not after it.
pub proof fn law_bind_failure_opens_no_browser(
    start: FlowStateView,
    events: Seq<EventView>,
    k: int,
)
    requires
        0 <= k < events.len(),
        state_before(start, events, k) is Binding,
        events[k] is ListenerFailed,
    ensures
        state_before(start, events, k + 1) == (FlowStateView::Failed {
            error: OAuthErrorView::BindFailure { reason: events[k]->ListenerFailed_reason },
        }),
        forall|i: int| 0 <= i < events.len() ==> !(#[trigger] action_at(start, events, i)
            is OpenBrowser),
{
    lemma_state_after(start, events, k);
    assert forall|i: int| 0 <= i < events.len() implies !(#[trigger] action_at(start, events, i)
        is OpenBrowser) by {
        if i < k {
            lemma_state_after(start, events, i);
            law_steps_go_forward(state_before(start, events, i), events[i]);
            lemma_stage_along_run(start, events, i + 1, k);
        } else if i > k {
            lemma_after_the_end(start, events, k + 1, i);
        }
    }
}

/// A callback that carries no usable code ends the attempt with
/// `MissingAuthorizationCode`, and the token endpoint is never called: not
/// before the callback, and not after it.
pub proof fn law_no_code_no_exchange(start: FlowStateView, events: Seq<EventView>, k: int)
    requires
        0 <= k < events.len(),
        state_before(start, events, k) is WaitingForCallback,
        events[k] is CallbackArrived,
        state_before(start, events, k)->WaitingForCallback_config.callback_code(
            events[k]->target,
        ) is Err,
    ensures
        state_before(start, events, k + 1) == (FlowStateView::Failed {
            error: OAuthErrorView::MissingAuthorizationCode,
        }),
        forall|i: int| 0 <= i < events.len() ==> !(#[trigger] action_at(start, events, i)
            is ExchangeCode),
{
    lemma_state_after(start, events, k);
    assert forall|i: int| 0 <= i < events.len() implies !(#[trigger] action_at(start, events, i)
        is ExchangeCode) by {
        if i < k {
            lemma_state_after(start, events, i);
            law_steps_go_forward(state_before(start, events, i), events[i]);
            lemma_stage_along_run(start, events, i + 1, k);
        } else if i > k {
            lemma_after_the_end(start, events, k + 1, i);
        }
    }
}

/// A callback whose query holds no pair named `code` is one that carries no
/// usable code: it ends the attempt with `MissingAuthorizationCode`, and the
/// token endpoint is never called.
pub proof fn law_callback_without_code(start: FlowStateView, events: Seq<EventView>, k: int)
    requires
        0 <= k < events.len(),
        state_before(start, events, k) is WaitingForCallback,
        events[k] is CallbackArrived,
        state_before(start, events, k)->WaitingForCallback_config.callback_omits_code(
            events[k]->target,
        ),
    ensures
        state_before(start, events, k + 1) == (FlowStateView::Failed {
            error: OAuthErrorView::MissingAuthorizationCode,
        }),
        forall|i: int| 0 <= i < events.len() ==> !(#[trigger] action_at(start, events, i)
            is ExchangeCode),
{
    let config = state_before(start, events, k)->WaitingForCallback_config;
    let url = config.callback_url(events[k]->target);
    law_query_without_code(url_parse(url)->Ok_0.query_pairs);
    law_no_code_no_exchange(start, events, k);
}

} // verus!
