//! Reading and patching one user's rows: a single upstream call each.
//!
//! Every failure of either operation, be it in transport or by a failure
//! status, is a server error. A read that matches no row is a success with
//! no rows; the gateway knows no "not found".

use vstd::prelude::*;

use crate::exchange::{
    error_text, failure, idle, reply_status, text_or_unknown, then_run, Action, ActionView,
    ErrorKind, Reply, ReplyView, Run, Stage, UpstreamEvent,
};
use crate::json::{json_array, parse_array};
use crate::models::AppState;
use crate::upstream::{
    fetch_user_call, fetch_user_request, is_success, status_is_success, update_user_call,
    update_user_request, HttpMethod,
};

verus! {

/// Where a read of one user's rows stands.
#[derive(Clone, Copy, Debug, PartialEq, Eq, Structural)]
pub enum FetchState {
    /// The call is on its way.
    Sent,
    /// The call was answered with a failure status; its text is being read.
    Refused,
    /// The call was answered with a success status; its body is being read.
    Accepted,
    /// The rows were handed to the caller.
    Delivered,
    /// The read ended with a failure and the caller was told so.
    Failed,
}

/// Where a patch of one user's rows stands.
#[derive(Clone, Copy, Debug, PartialEq, Eq, Structural)]
pub enum UpdateState {
    /// The call is on its way.
    Sent,
    /// The call was answered with a failure status; its text is being read.
    Refused,
    /// The patch was applied and the caller was told so.
    Applied,
    /// The patch ended with a failure and the caller was told so.
    Failed,
}

/// The rows in a response body, given what parsing it as a JSON array made
/// of it: the array's elements, or no rows where there was no array.
pub open spec fn rows_or_none(parsed: Option<Seq<serde_json::Value>>) -> Seq<serde_json::Value> {
    match parsed {
        Some(rows) => rows,
        None => Seq::empty(),
    }
}

/// The rows in a response body: those of the JSON array that it spells out;
/// none where the body could not be read or is no JSON array.
pub open spec fn rows_of(bytes: Option<Vec<u8>>) -> Seq<serde_json::Value> {
    match bytes {
        Some(body) => rows_or_none(json_array(body@)),
        None => Seq::empty(),
    }
}

/// A server error from the database call.
pub open spec fn record_failure(message: Seq<char>) -> ActionView {
    ActionView::Reply(
        ReplyView::Failed { kind: ErrorKind::ServerError, message, stage: Stage::Record },
    )
}

/// How a read goes on: the next state and action for each event that the
/// state waits for, and `None` for every other event.
pub open spec fn fetch_step(state: FetchState, event: UpstreamEvent) -> Option<
    (FetchState, ActionView),
> {
    match (state, event) {
        (FetchState::Sent, UpstreamEvent::SendFailed { reason }) => Some(
            (FetchState::Failed, record_failure(reason@)),
        ),
        (FetchState::Sent, UpstreamEvent::Responded { status }) => Some(
            if status_is_success(status) {
                (FetchState::Accepted, ActionView::ReadBody)
            } else {
                (FetchState::Refused, ActionView::ReadText)
            },
        ),
        (FetchState::Refused, UpstreamEvent::Text { text }) => Some(
            (FetchState::Failed, record_failure(error_text(text))),
        ),
        (FetchState::Accepted, UpstreamEvent::Body { bytes }) => Some(
            (FetchState::Delivered, ActionView::Reply(ReplyView::Records(rows_of(bytes)))),
        ),
        _ => None,
    }
}

/// How a patch goes on: the next state and action for each event that the
/// state waits for, and `None` for every other event.
pub open spec fn update_step(state: UpdateState, event: UpstreamEvent) -> Option<
    (UpdateState, ActionView),
> {
    match (state, event) {
        (UpdateState::Sent, UpstreamEvent::SendFailed { reason }) => Some(
            (UpdateState::Failed, record_failure(reason@)),
        ),
        (UpdateState::Sent, UpstreamEvent::Responded { status }) => Some(
            if status_is_success(status) {
                (UpdateState::Applied, ActionView::Reply(ReplyView::Updated))
            } else {
                (UpdateState::Refused, ActionView::ReadText)
            },
        ),
        (UpdateState::Refused, UpstreamEvent::Text { text }) => Some(
            (UpdateState::Failed, record_failure(error_text(text))),
        ),
        _ => None,
    }
}

/// A step of a read, its action taken by its view.
pub open spec fn fetch_step_view(step: Option<(FetchState, Action)>) -> Option<
    (FetchState, ActionView),
> {
    match step {
        Some((state, action)) => Some((state, action@)),
        None => None,
    }
}

/// A step of a patch, its action taken by its view.
pub open spec fn update_step_view(step: Option<(UpdateState, Action)>) -> Option<
    (UpdateState, ActionView),
> {
    match step {
        Some((state, action)) => Some((state, action@)),
        None => None,
    }
}

/// Turns what parsing a response body made of it into rows.
pub fn rows_from(parsed: Option<Vec<serde_json::Value>>) -> (rows: Vec<serde_json::Value>)
    ensures
        rows@ == rows_or_none(
            match parsed {
                Some(elements) => Some(elements@),
                None => None,
            },
        ),
{
    match parsed {
        Some(elements) => elements,
        None => Vec::new(),
    }
}

fn record_failed(message: String) -> (action: Action)
    ensures
        action@ == record_failure(message@),
{
    failure(ErrorKind::ServerError, message, Stage::Record)
}

/// Begins a read of the rows whose id is `user_id`: the one call is sent.
pub fn get_user_data(config: &AppState, user_id: &str) -> (first: (FetchState, Action))
    ensures
        first.0 == FetchState::Sent,
        first.1@ == ActionView::Send(fetch_user_call(*config, user_id@)),
{
    (FetchState::Sent, Action::Send(fetch_user_request(config, user_id)))
}

/// Moves a read on by one event.
///
/// Returns the next state and action, or `None` exactly when `state` does
/// not wait for `event` (a finished read waits for none).
pub fn fetch_next(state: FetchState, event: UpstreamEvent) -> (next: Option<(FetchState, Action)>)
    ensures
        fetch_step_view(next) == fetch_step(state, event),
{
    match state {
        FetchState::Sent => match event {
            UpstreamEvent::SendFailed { reason } => Some(
                (FetchState::Failed, record_failed(reason)),
            ),
            UpstreamEvent::Responded { status } => if is_success(status) {
                Some((FetchState::Accepted, Action::ReadBody))
            } else {
                Some((FetchState::Refused, Action::ReadText))
            },
            _ => None,
        },
        FetchState::Refused => match event {
            UpstreamEvent::Text { text } => Some(
                (FetchState::Failed, record_failed(text_or_unknown(text))),
            ),
            _ => None,
        },
        FetchState::Accepted => match event {
            UpstreamEvent::Body { bytes } => {
                let rows = match bytes {
                    Some(body) => rows_from(parse_array(body.as_slice())),
                    None => Vec::new(),
                };
                Some((FetchState::Delivered, Action::Reply(Reply::Records(rows))))
            },
            _ => None,
        },
        FetchState::Delivered => None,
        FetchState::Failed => None,
    }
}

/// Begins a patch of the rows whose id is `user_id`: the one call is sent,
/// and its body is `user_data` as it was given.
pub fn update_user_data(config: &AppState, user_id: &str, user_data: serde_json::Value) -> (first:
    (UpdateState, Action))
    ensures
        first.0 == UpdateState::Sent,
        first.1@ == ActionView::Send(update_user_call(*config, user_id@, user_data)),
{
    (UpdateState::Sent, Action::Send(update_user_request(config, user_id, user_data)))
}

/// Moves a patch on by one event.
///
/// Returns the next state and action, or `None` exactly when `state` does
/// not wait for `event` (a finished patch waits for none).
pub fn update_next(state: UpdateState, event: UpstreamEvent) -> (next: Option<
    (UpdateState, Action),
>)
    ensures
        update_step_view(next) == update_step(state, event),
{
    match state {
        UpdateState::Sent => match event {
            UpstreamEvent::SendFailed { reason } => Some(
                (UpdateState::Failed, record_failed(reason)),
            ),
            UpstreamEvent::Responded { status } => if is_success(status) {
                Some((UpdateState::Applied, Action::Reply(Reply::Updated)))
            } else {
                Some((UpdateState::Refused, Action::ReadText))
            },
            _ => None,
        },
        UpdateState::Refused => match event {
            UpstreamEvent::Text { text } => Some(
                (UpdateState::Failed, record_failed(text_or_unknown(text))),
            ),
            _ => None,
        },
        UpdateState::Applied => None,
        UpdateState::Failed => None,
    }
}

/// What a read does from `state` on when its driver reports `events`, in
/// order. An event that the state does not wait for ends the run.
pub open spec fn fetch_run_from(state: FetchState, events: Seq<UpstreamEvent>) -> Run
    decreases events.len(),
{
    if events.len() == 0 {
        idle()
    } else {
        match fetch_step(state, events.first()) {
            Some((next, action)) => then_run(action, fetch_run_from(next, events.drop_first())),
            None => idle(),
        }
    }
}

/// What a whole read of the rows of `user_id` does when its driver reports
/// `events`, in order.
pub open spec fn fetch_run(config: AppState, user_id: Seq<char>, events: Seq<UpstreamEvent>) -> Run {
    then_run(
        ActionView::Send(fetch_user_call(config, user_id)),
        fetch_run_from(FetchState::Sent, events),
    )
}

/// What a patch does from `state` on when its driver reports `events`, in
/// order. An event that the state does not wait for ends the run.
pub open spec fn update_run_from(state: UpdateState, events: Seq<UpstreamEvent>) -> Run
    decreases events.len(),
{
    if events.len() == 0 {
        idle()
    } else {
        match update_step(state, events.first()) {
            Some((next, action)) => then_run(action, update_run_from(next, events.drop_first())),
            None => idle(),
        }
    }
}

/// What a whole patch of the rows of `user_id` does when its driver reports
/// `events`, in order.
pub open spec fn update_run(
    config: AppState,
    user_id: Seq<char>,
    patch: serde_json::Value,
    events: Seq<UpstreamEvent>,
) -> Run {
    then_run(
        ActionView::Send(update_user_call(config, user_id, patch)),
        update_run_from(UpdateState::Sent, events),
    )
}

/// A read makes exactly one call, the filtered `GET`, whatever the driver
/// reports; and any failure it answers with is a server error, status 500.
pub proof fn lemma_fetch_is_one_call(
    config: AppState,
    user_id: Seq<char>,
    events: Seq<UpstreamEvent>,
)
    ensures
        fetch_run(config, user_id, events).calls == seq![fetch_user_call(config, user_id)],
        fetch_run(config, user_id, events).reply matches Some(reply) ==> {
            ||| reply is Records && reply_status(reply) == 200
            ||| reply matches ReplyView::Failed {
                kind: ErrorKind::ServerError,
                stage: Stage::Record,
                ..
            } && reply_status(reply) == 500
        },
{
    reveal_with_fuel(fetch_run_from, 4);
    assert(fetch_run(config, user_id, events).calls =~= seq![fetch_user_call(config, user_id)]);
}

/// A success status always ends a read in rows, never in a failure: once
/// the body is reported, the answer is the rows that the body spells out,
/// with status 200, and it is no rows at all where the body could not be
/// read or is no JSON array.
pub proof fn lemma_accepted_fetch_delivers_rows(
    config: AppState,
    user_id: Seq<char>,
    events: Seq<UpstreamEvent>,
)
    requires
        events.len() >= 2,
        events[0] matches UpstreamEvent::Responded { status } && status_is_success(status),
        events[1] is Body,
    ensures
        fetch_run(config, user_id, events).reply == Some(
            ReplyView::Records(rows_of(events[1]->bytes)),
        ),
        reply_status(fetch_run(config, user_id, events).reply.unwrap()) == 200,
{
    reveal_with_fuel(fetch_run_from, 4);
}

/// A read that matches no row is a success: when the upstream service
/// answers with a success status and a body that spells out the empty JSON
/// array, the caller gets an empty sequence of rows with status 200, not a
/// failure. The same holds of every body that holds no rows.
pub proof fn lemma_no_match_is_a_success(
    config: AppState,
    user_id: Seq<char>,
    events: Seq<UpstreamEvent>,
)
    requires
        events.len() >= 2,
        events[0] matches UpstreamEvent::Responded { status } && status_is_success(status),
        events[1] is Body,
    ensures
        (events[1]->bytes matches Some(body) && json_array(body@) == Some(
            Seq::<serde_json::Value>::empty(),
        )) ==> rows_of(events[1]->bytes).len() == 0,
        rows_of(events[1]->bytes).len() == 0 ==> {
            &&& fetch_run(config, user_id, events).reply == Some(
                ReplyView::Records(Seq::<serde_json::Value>::empty()),
            )
            &&& reply_status(fetch_run(config, user_id, events).reply.unwrap()) == 200
        },
{
    lemma_accepted_fetch_delivers_rows(config, user_id, events);
    if rows_of(events[1]->bytes).len() == 0 {
        assert(rows_of(events[1]->bytes) =~= Seq::<serde_json::Value>::empty());
    }
}

/// A patch goes upstream as it was given: whatever document `patch` is and
/// whatever the driver reports, the run makes exactly one call, a `PATCH`
/// whose body is `patch` itself. Nothing in the document is looked at.
pub proof fn lemma_patch_goes_up_unchanged(
    config: AppState,
    user_id: Seq<char>,
    patch: serde_json::Value,
    events: Seq<UpstreamEvent>,
)
    ensures
        update_run(config, user_id, patch, events).calls == seq![
            update_user_call(config, user_id, patch),
        ],
        update_run(config, user_id, patch, events).calls[0].method == HttpMethod::Patch,
        update_run(config, user_id, patch, events).calls[0].body == Some(patch),
{
    reveal_with_fuel(update_run_from, 3);
    assert(update_run(config, user_id, patch, events).calls =~= seq![
        update_user_call(config, user_id, patch),
    ]);
}

/// How a patch ends. A success status is answered at once with the bare
/// acknowledgement, status 200. A transport failure is answered at once
/// with a server error carrying the transport's reason, and a failure
/// status with a server error carrying the response text, once that is
/// reported; both have status 500.
pub proof fn lemma_patch_outcomes(
    config: AppState,
    user_id: Seq<char>,
    patch: serde_json::Value,
    events: Seq<UpstreamEvent>,
)
    requires
        events.len() >= 1,
    ensures
        events[0] matches UpstreamEvent::Responded { status } && status_is_success(status)
            ==> update_run(config, user_id, patch, events).reply == Some(ReplyView::Updated)
            && reply_status(ReplyView::Updated) == 200,
        events[0] matches UpstreamEvent::SendFailed { reason } ==> update_run(
            config,
            user_id,
            patch,
            events,
        ).reply == Some(
            ReplyView::Failed {
                kind: ErrorKind::ServerError,
                message: reason@,
                stage: Stage::Record,
            },
        ),
        (events[0] matches UpstreamEvent::Responded { status } && !status_is_success(status))
            && events.len() >= 2 && events[1] is Text ==> update_run(
            config,
            user_id,
            patch,
            events,
        ).reply == Some(
            ReplyView::Failed {
                kind: ErrorKind::ServerError,
                message: error_text(events[1]->text),
                stage: Stage::Record,
            },
        ),
        update_run(config, user_id, patch, events).reply matches Some(
            ReplyView::Failed { kind, .. },
        ) ==> kind == ErrorKind::ServerError,
{
    reveal_with_fuel(update_run_from, 4);
}

} // verus!
