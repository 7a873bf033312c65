//! Account creation: a saga of two upstream calls.
//!
//! Step A creates an identity at the auth resource. Step B stores a row for
//! it in the database, keyed by the id that step A returned. The saga fails
//! fast: whatever goes wrong ends it with a failure and no further call. A
//! failure of step B leaves the identity of step A in place; the saga makes
//! no call to undo it.

use vstd::prelude::*;
use vstd::string::StringExecFns;

use crate::exchange::{
    error_text, failure, idle, reply_status, text_or_unknown, then_run, Action, ActionView,
    ErrorKind, Reply, ReplyView, Run, Stage, UpstreamEvent,
};
use crate::models::{AppState, SignUpRequest, SignUpResponse};
use crate::upstream::{
    create_identity_call, create_identity_request, create_user_call, create_user_request,
    is_success, status_is_success, users_url, HttpMethod,
};

verus! {

/// Told to a caller whose request lacks an email or a password.
pub const MISSING_CREDENTIALS: &'static str = "Email and password are required";

/// Told to the caller when step A could not be sent.
pub const SIGN_UP_NOT_SENT: &'static str = "failed to send sign-up request";

/// Where an account creation stands.
#[derive(Debug)]
pub enum SignUpState {
    /// Step A is on its way.
    IdentitySent { payload: SignUpRequest },
    /// Step A was answered with a failure status; its text is being read.
    IdentityRefused,
    /// Step A was answered with a success status; the identity is being read.
    IdentityAccepted { payload: SignUpRequest },
    /// The identity exists upstream; the clock is being read for step B.
    IdentityCreated { payload: SignUpRequest, user_id: String, access_token: String },
    /// Step B is on its way.
    RecordSent { user_id: String, access_token: String },
    /// Step B was answered with a failure status; its text is being read.
    RecordRefused,
    /// Both steps succeeded and the caller was told so.
    RecordCreated,
    /// The saga ended with a failure and the caller was told so.
    Failed,
}

/// A state with its texts as character sequences.
pub enum SignUpStateView {
    IdentitySent { payload: SignUpRequest },
    IdentityRefused,
    IdentityAccepted { payload: SignUpRequest },
    IdentityCreated { payload: SignUpRequest, user_id: Seq<char>, access_token: Seq<char> },
    RecordSent { user_id: Seq<char>, access_token: Seq<char> },
    RecordRefused,
    RecordCreated,
    Failed,
}

impl View for SignUpState {
    type V = SignUpStateView;

    open spec fn view(&self) -> SignUpStateView {
        match self {
            SignUpState::IdentitySent { payload } => SignUpStateView::IdentitySent {
                payload: *payload,
            },
            SignUpState::IdentityRefused => SignUpStateView::IdentityRefused,
            SignUpState::IdentityAccepted { payload } => SignUpStateView::IdentityAccepted {
                payload: *payload,
            },
            SignUpState::IdentityCreated {
                payload,
                user_id,
                access_token,
            } => SignUpStateView::IdentityCreated {
                payload: *payload,
                user_id: user_id@,
                access_token: access_token@,
            },
            SignUpState::RecordSent { user_id, access_token } => SignUpStateView::RecordSent {
                user_id: user_id@,
                access_token: access_token@,
            },
            SignUpState::RecordRefused => SignUpStateView::RecordRefused,
            SignUpState::RecordCreated => SignUpStateView::RecordCreated,
            SignUpState::Failed => SignUpStateView::Failed,
        }
    }
}

/// A request can go upstream only with an email and a password.
pub open spec fn has_credentials(payload: SignUpRequest) -> bool {
    payload.email@.len() > 0 && payload.password@.len() > 0
}

/// The saga ended by a failure.
pub open spec fn fails(kind: ErrorKind, message: Seq<char>, stage: Stage) -> (
    SignUpStateView,
    ActionView,
) {
    (SignUpStateView::Failed, ActionView::Reply(ReplyView::Failed { kind, message, stage }))
}

/// How the saga begins: a request without email or password is turned down
/// at once as a client error; any other request sends step A.
pub open spec fn sign_up_start(config: AppState, payload: SignUpRequest) -> (
    SignUpStateView,
    ActionView,
) {
    if has_credentials(payload) {
        (
            SignUpStateView::IdentitySent { payload },
            ActionView::Send(create_identity_call(config, payload)),
        )
    } else {
        fails(ErrorKind::ClientError, MISSING_CREDENTIALS@, Stage::Validation)
    }
}

/// How the saga goes on: the next state and action for each event that the
/// state waits for, and `None` for every other event.
///
/// Step A: a transport failure is a server error with a fixed message; a
/// failure status is a client error whose message is the response text; an
/// identity that cannot be read is a server error. Step B: every failure is
/// a server error.
pub open spec fn sign_up_step(config: AppState, state: SignUpStateView, event: UpstreamEvent)
    -> Option<(SignUpStateView, ActionView)> {
    match (state, event) {
        (SignUpStateView::IdentitySent { .. }, UpstreamEvent::SendFailed { .. }) => Some(
            fails(ErrorKind::ServerError, SIGN_UP_NOT_SENT@, Stage::Identity),
        ),
        (SignUpStateView::IdentitySent { payload }, UpstreamEvent::Responded { status }) => Some(
            if status_is_success(status) {
                (SignUpStateView::IdentityAccepted { payload }, ActionView::ReadIdentity)
            } else {
                (SignUpStateView::IdentityRefused, ActionView::ReadText)
            },
        ),
        (SignUpStateView::IdentityRefused, UpstreamEvent::Text { text }) => Some(
            fails(ErrorKind::ClientError, error_text(text), Stage::Identity),
        ),
        (
            SignUpStateView::IdentityAccepted { payload },
            UpstreamEvent::Identity { parsed: Ok(identity) },
        ) => Some(
            (
                SignUpStateView::IdentityCreated {
                    payload,
                    user_id: identity.user.id@,
                    access_token: identity.access_token@,
                },
                ActionView::ReadClock,
            ),
        ),
        (
            SignUpStateView::IdentityAccepted { .. },
            UpstreamEvent::Identity { parsed: Err(reason) },
        ) => Some(fails(ErrorKind::ServerError, reason@, Stage::Identity)),
        (
            SignUpStateView::IdentityCreated { payload, user_id, access_token },
            UpstreamEvent::Clock { now },
        ) => Some(
            (
                SignUpStateView::RecordSent { user_id, access_token },
                ActionView::Send(create_user_call(config, payload, user_id, now)),
            ),
        ),
        (SignUpStateView::RecordSent { .. }, UpstreamEvent::SendFailed { reason }) => Some(
            fails(ErrorKind::ServerError, reason@, Stage::Record),
        ),
        (
            SignUpStateView::RecordSent { user_id, access_token },
            UpstreamEvent::Responded { status },
        ) => Some(
            if status_is_success(status) {
                (
                    SignUpStateView::RecordCreated,
                    ActionView::Reply(ReplyView::Created { user_id, access_token }),
                )
            } else {
                (SignUpStateView::RecordRefused, ActionView::ReadText)
            },
        ),
        (SignUpStateView::RecordRefused, UpstreamEvent::Text { text }) => Some(
            fails(ErrorKind::ServerError, error_text(text), Stage::Record),
        ),
        _ => None,
    }
}

/// A step by the views of its state and action.
pub open spec fn step_view(step: Option<(SignUpState, Action)>) -> Option<
    (SignUpStateView, ActionView),
> {
    match step {
        Some((state, action)) => Some((state@, action@)),
        None => None,
    }
}

fn fail(kind: ErrorKind, message: String, stage: Stage) -> (step: (SignUpState, Action))
    ensures
        (step.0@, step.1@) == fails(kind, message@, stage),
{
    (SignUpState::Failed, failure(kind, message, stage))
}

/// Begins an account creation.
///
/// Returns the first state and action. A request without an email or without
/// a password is answered at once with a client error and nothing is sent
/// upstream; otherwise the action is step A.
pub fn sign_up_user(config: &AppState, payload: SignUpRequest) -> (first: (SignUpState, Action))
    ensures
        (first.0@, first.1@) == sign_up_start(*config, payload),
{
    if payload.email.as_str().is_empty() || payload.password.as_str().is_empty() {
        fail(ErrorKind::ClientError, String::from_str(MISSING_CREDENTIALS), Stage::Validation)
    } else {
        let request = create_identity_request(config, &payload);
        (SignUpState::IdentitySent { payload }, Action::Send(request))
    }
}

/// Moves an account creation on by one event.
///
/// Returns the next state and action, or `None` exactly when `state` does
/// not wait for `event` (a finished saga waits for none).
pub fn sign_up_next(config: &AppState, state: SignUpState, event: UpstreamEvent) -> (next: Option<
    (SignUpState, Action),
>)
    ensures
        step_view(next) == sign_up_step(*config, state@, event),
{
    match state {
        SignUpState::IdentitySent { payload } => match event {
            UpstreamEvent::SendFailed { reason: _ } => Some(
                fail(ErrorKind::ServerError, String::from_str(SIGN_UP_NOT_SENT), Stage::Identity),
            ),
            UpstreamEvent::Responded { status } => if is_success(status) {
                Some((SignUpState::IdentityAccepted { payload }, Action::ReadIdentity))
            } else {
                Some((SignUpState::IdentityRefused, Action::ReadText))
            },
            _ => None,
        },
        SignUpState::IdentityRefused => match event {
            UpstreamEvent::Text { text } => Some(
                fail(ErrorKind::ClientError, text_or_unknown(text), Stage::Identity),
            ),
            _ => None,
        },
        SignUpState::IdentityAccepted { payload } => match event {
            UpstreamEvent::Identity { parsed } => match parsed {
                Ok(identity) => Some(
                    (
                        SignUpState::IdentityCreated {
                            payload,
                            user_id: identity.user.id,
                            access_token: identity.access_token,
                        },
                        Action::ReadClock,
                    ),
                ),
                Err(reason) => Some(fail(ErrorKind::ServerError, reason, Stage::Identity)),
            },
            _ => None,
        },
        SignUpState::IdentityCreated { payload, user_id, access_token } => match event {
            UpstreamEvent::Clock { now } => {
                let request = create_user_request(config, &payload, user_id.as_str(), now);
                Some((SignUpState::RecordSent { user_id, access_token }, Action::Send(request)))
            },
            _ => None,
        },
        SignUpState::RecordSent { user_id, access_token } => match event {
            UpstreamEvent::SendFailed { reason } => Some(
                fail(ErrorKind::ServerError, reason, Stage::Record),
            ),
            UpstreamEvent::Responded { status } => if is_success(status) {
                Some(
                    (
                        SignUpState::RecordCreated,
                        Action::Reply(Reply::Created(SignUpResponse { user_id, access_token })),
                    ),
                )
            } else {
                Some((SignUpState::RecordRefused, Action::ReadText))
            },
            _ => None,
        },
        SignUpState::RecordRefused => match event {
            UpstreamEvent::Text { text } => Some(
                fail(ErrorKind::ServerError, text_or_unknown(text), Stage::Record),
            ),
            _ => None,
        },
        SignUpState::RecordCreated => None,
        SignUpState::Failed => None,
    }
}

/// What the saga does from `state` on when its driver reports `events`, in
/// order. An event that the state does not wait for ends the run: nothing
/// is done about it or after it.
pub open spec fn sign_up_run_from(
    config: AppState,
    state: SignUpStateView,
    events: Seq<UpstreamEvent>,
) -> Run
    decreases events.len(),
{
    if events.len() == 0 {
        idle()
    } else {
        match sign_up_step(config, state, events.first()) {
            Some((next, action)) => then_run(
                action,
                sign_up_run_from(config, next, events.drop_first()),
            ),
            None => idle(),
        }
    }
}

/// What a whole account creation does for `payload` when its driver reports
/// `events`, in order.
pub open spec fn sign_up_run(config: AppState, payload: SignUpRequest, events: Seq<UpstreamEvent>)
    -> Run {
    let (state, action) = sign_up_start(config, payload);
    then_run(action, sign_up_run_from(config, state, events))
}

/// A request without an email or without a password never reaches the
/// upstream service: whatever the driver reports, the run makes no call and
/// answers with the client error for missing credentials, status 400.
pub proof fn lemma_missing_credentials_make_no_call(
    config: AppState,
    payload: SignUpRequest,
    events: Seq<UpstreamEvent>,
)
    requires
        payload.email@.len() == 0 || payload.password@.len() == 0,
    ensures
        sign_up_run(config, payload, events).calls.len() == 0,
        sign_up_run(config, payload, events).reply == Some(
            ReplyView::Failed {
                kind: ErrorKind::ClientError,
                message: MISSING_CREDENTIALS@,
                stage: Stage::Validation,
            },
        ),
        reply_status(sign_up_run(config, payload, events).reply.unwrap()) == 400,
{
    reveal_with_fuel(sign_up_run_from, 2);
}

/// A run that ends in a created account took both steps and no other call:
/// the driver reported a success status for step A, then the identity, then
/// the time, then a success status for step B; exactly two calls were made,
/// step A first and then step B for the id of that identity; and the answer
/// carries that id and the identity's access token, with status 201.
pub proof fn lemma_created_account_took_both_steps(
    config: AppState,
    payload: SignUpRequest,
    events: Seq<UpstreamEvent>,
)
    requires
        sign_up_run(config, payload, events).reply matches Some(ReplyView::Created { .. }),
    ensures
        has_credentials(payload),
        events.len() >= 4,
        events[0] matches UpstreamEvent::Responded { status } && status_is_success(status),
        events[1] matches UpstreamEvent::Identity { parsed: Ok(_) },
        events[2] is Clock,
        events[3] matches UpstreamEvent::Responded { status } && status_is_success(status),
        ({
            let identity = events[1]->parsed->Ok_0;
            let now = events[2]->now;
            let run = sign_up_run(config, payload, events);
            &&& run.calls == seq![
                create_identity_call(config, payload),
                create_user_call(config, payload, identity.user.id@, now),
            ]
            &&& run.reply == Some(
                ReplyView::Created {
                    user_id: identity.user.id@,
                    access_token: identity.access_token@,
                },
            )
            &&& reply_status(run.reply.unwrap()) == 201
        }),
{
    reveal_with_fuel(sign_up_run_from, 6);
    assert(sign_up_run(config, payload, events).calls =~= seq![
        create_identity_call(config, payload),
        create_user_call(config, payload, events[1]->parsed->Ok_0.user.id@, events[2]->now),
    ]);
}

/// When step A is answered with a failure status, the saga fails fast: step
/// A stays the only call whatever the driver reports afterwards, and once
/// the response text is reported the answer is a client error, status 400,
/// whose message is that text as it is (or the placeholder for a text that
/// could not be read).
pub proof fn lemma_refused_identity_ends_the_saga(
    config: AppState,
    payload: SignUpRequest,
    events: Seq<UpstreamEvent>,
)
    requires
        has_credentials(payload),
        events.len() >= 1,
        events[0] matches UpstreamEvent::Responded { status } && !status_is_success(status),
    ensures
        sign_up_run(config, payload, events).calls == seq![create_identity_call(config, payload)],
        sign_up_run(config, payload, events).reply is Some <==> events.len() >= 2 && events[1] is Text,
        events.len() >= 2 && events[1] is Text ==> {
            let run = sign_up_run(config, payload, events);
            &&& run.reply == Some(
                ReplyView::Failed {
                    kind: ErrorKind::ClientError,
                    message: error_text(events[1]->text),
                    stage: Stage::Identity,
                },
            )
            &&& reply_status(run.reply.unwrap()) == 400
        },
        events.len() >= 2 ==> (events[1] matches UpstreamEvent::Text { text: Some(body) }
            ==> sign_up_run(config, payload, events).reply->0->message == body@),
{
    reveal_with_fuel(sign_up_run_from, 4);
    assert(sign_up_run(config, payload, events).calls =~= seq![
        create_identity_call(config, payload),
    ]);
}

/// When step A succeeds and step B fails, be it in transport or by a failure
/// status, the identity of step A is left alone: the run consists of exactly
/// the two calls, with no call after step B whatever the driver reports, and
/// any answer it gives is a server error, status 500, from the record stage.
/// A transport failure is answered at once with the transport's reason; a
/// failure status is answered with the response text once that is reported.
pub proof fn lemma_failed_record_is_not_undone(
    config: AppState,
    payload: SignUpRequest,
    events: Seq<UpstreamEvent>,
)
    requires
        has_credentials(payload),
        events.len() >= 4,
        events[0] matches UpstreamEvent::Responded { status } && status_is_success(status),
        events[1] matches UpstreamEvent::Identity { parsed: Ok(_) },
        events[2] is Clock,
        events[3] is SendFailed || (events[3] matches UpstreamEvent::Responded { status }
            && !status_is_success(status)),
    ensures
        sign_up_run(config, payload, events).calls == seq![
            create_identity_call(config, payload),
            create_user_call(config, payload, events[1]->parsed->Ok_0.user.id@, events[2]->now),
        ],
        sign_up_run(config, payload, events).reply matches Some(reply) ==> {
            &&& reply matches ReplyView::Failed {
                kind: ErrorKind::ServerError,
                stage: Stage::Record,
                ..
            }
            &&& reply_status(reply) == 500
        },
        events[3] matches UpstreamEvent::SendFailed { reason } ==> sign_up_run(
            config,
            payload,
            events,
        ).reply == Some(
            ReplyView::Failed {
                kind: ErrorKind::ServerError,
                message: reason@,
                stage: Stage::Record,
            },
        ),
        events[3] is Responded && events.len() >= 5 && events[4] is Text ==> sign_up_run(
            config,
            payload,
            events,
        ).reply == Some(
            ReplyView::Failed {
                kind: ErrorKind::ServerError,
                message: error_text(events[4]->text),
                stage: Stage::Record,
            },
        ),
{
    reveal_with_fuel(sign_up_run_from, 7);
    assert(sign_up_run(config, payload, events).calls =~= seq![
        create_identity_call(config, payload),
        create_user_call(config, payload, events[1]->parsed->Ok_0.user.id@, events[2]->now),
    ]);
}

/// Whatever the driver reports, an account creation makes at most two
/// calls, both of them `POST`: step A first, to the sign-up address, and
/// then step B, to the `users` collection. It never makes a third call.
pub proof fn lemma_saga_makes_at_most_two_calls(
    config: AppState,
    payload: SignUpRequest,
    events: Seq<UpstreamEvent>,
)
    ensures
        sign_up_run(config, payload, events).calls.len() <= 2,
        sign_up_run(config, payload, events).calls.len() >= 1 ==> sign_up_run(
            config,
            payload,
            events,
        ).calls[0] == create_identity_call(config, payload),
        sign_up_run(config, payload, events).calls.len() == 2 ==> {
            let second = sign_up_run(config, payload, events).calls[1];
            second.method == HttpMethod::Post && second.url == users_url(config)
        },
{
    reveal_with_fuel(sign_up_run_from, 7);
}

} // verus!
