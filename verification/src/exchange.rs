//! The vocabulary shared by the gateway's operations: what can come back
//! from the upstream service, what the gateway asks its driver to do next,
//! and what it finally tells its caller.

use vstd::prelude::*;
use vstd::string::StringExecFns;

use crate::models::{AuthResponse, SignUpResponse};
use crate::upstream::{Timestamp, UpstreamRequest, UpstreamRequestView};

verus! {

/// The text reported when an upstream failure's body cannot be read.
pub const UNKNOWN_ERROR: &'static str = "Unknown error";

/// Who is to blame for a failure.
#[derive(Clone, Copy, Debug, PartialEq, Eq, Structural)]
pub enum ErrorKind {
    /// Bad input from the caller, or input that the upstream auth resource
    /// rejected.
    ClientError,
    /// The transport failed, the upstream answer could not be understood, or
    /// the database call failed.
    ServerError,
}

/// The part of an operation in which a failure arose.
#[derive(Clone, Copy, Debug, PartialEq, Eq, Structural)]
pub enum Stage {
    /// The request was checked before any upstream call.
    Validation,
    /// The call to the auth resource.
    Identity,
    /// The call to the database resource.
    Record,
}

/// A failure as told to the caller: its class, a plain-text message, and the
/// stage that failed.
#[derive(Clone, Debug)]
pub struct Failure {
    pub kind: ErrorKind,
    pub message: String,
    pub stage: Stage,
}

/// The final answer of an operation.
#[derive(Clone, Debug)]
pub enum Reply {
    /// The account exists upstream; carries its id and access token.
    Created(SignUpResponse),
    /// The rows that matched, possibly none.
    Records(Vec<serde_json::Value>),
    /// The patch was applied; there is nothing to hand back.
    Updated,
    /// The operation failed.
    Failed(Failure),
}

/// A reply with its texts as character sequences.
pub enum ReplyView {
    Created { user_id: Seq<char>, access_token: Seq<char> },
    Records(Seq<serde_json::Value>),
    Updated,
    Failed { kind: ErrorKind, message: Seq<char>, stage: Stage },
}

impl View for Reply {
    type V = ReplyView;

    open spec fn view(&self) -> ReplyView {
        match self {
            Reply::Created(created) => ReplyView::Created {
                user_id: created.user_id@,
                access_token: created.access_token@,
            },
            Reply::Records(records) => ReplyView::Records(records@),
            Reply::Updated => ReplyView::Updated,
            Reply::Failed(failure) => ReplyView::Failed {
                kind: failure.kind,
                message: failure.message@,
                stage: failure.stage,
            },
        }
    }
}

/// The HTTP status that goes with a reply: 201 for a created account, 200
/// for rows and for an applied patch, 400 for a client error and 500 for a
/// server error.
pub open spec fn reply_status(reply: ReplyView) -> u16 {
    match reply {
        ReplyView::Created { .. } => 201,
        ReplyView::Records(_) => 200,
        ReplyView::Updated => 200,
        ReplyView::Failed { kind: ErrorKind::ClientError, .. } => 400,
        ReplyView::Failed { kind: ErrorKind::ServerError, .. } => 500,
    }
}

impl Reply {
    /// The HTTP status that goes with this reply.
    pub fn status_code(&self) -> (status: u16)
        ensures
            status == reply_status(self@),
    {
        match self {
            Reply::Created(_) => 201,
            Reply::Records(_) => 200,
            Reply::Updated => 200,
            Reply::Failed(failure) => match failure.kind {
                ErrorKind::ClientError => 400,
                ErrorKind::ServerError => 500,
            },
        }
    }
}

/// What the driver reports after performing an action.
#[derive(Debug)]
pub enum UpstreamEvent {
    /// The call could not be sent or no response arrived; `reason` is the
    /// transport's own description.
    SendFailed { reason: String },
    /// A response arrived with this status. Its body has not been read.
    Responded { status: u16 },
    /// The body of the last response as text, `None` if it could not be read.
    Text { text: Option<String> },
    /// The body of the last response as bytes, `None` if it could not be
    /// read.
    Body { bytes: Option<Vec<u8>> },
    /// The body of the last response read as an identity, or why it could
    /// not be.
    Identity { parsed: Result<AuthResponse, String> },
    /// The current time.
    Clock { now: Timestamp },
}

/// What the driver is to do next. After every action but `Reply` it reports
/// the matching event; `Reply` ends the operation.
#[derive(Clone, Debug)]
pub enum Action {
    /// Send this call, once, and report `SendFailed` or `Responded`.
    Send(UpstreamRequest),
    /// Read the response body as text and report `Text`.
    ReadText,
    /// Read the response body as bytes and report `Body`.
    ReadBody,
    /// Read the response body as an identity and report `Identity`.
    ReadIdentity,
    /// Read the clock and report `Clock`.
    ReadClock,
    /// Answer the caller.
    Reply(Reply),
}

/// An action with the call or reply that it carries taken by its view.
pub enum ActionView {
    Send(UpstreamRequestView),
    ReadText,
    ReadBody,
    ReadIdentity,
    ReadClock,
    Reply(ReplyView),
}

impl View for Action {
    type V = ActionView;

    open spec fn view(&self) -> ActionView {
        match self {
            Action::Send(request) => ActionView::Send(request@),
            Action::ReadText => ActionView::ReadText,
            Action::ReadBody => ActionView::ReadBody,
            Action::ReadIdentity => ActionView::ReadIdentity,
            Action::ReadClock => ActionView::ReadClock,
            Action::Reply(reply) => ActionView::Reply(reply@),
        }
    }
}

/// The upstream calls that an action causes: one for `Send`, else none.
pub open spec fn calls_of(action: ActionView) -> Seq<UpstreamRequestView> {
    match action {
        ActionView::Send(request) => seq![request],
        _ => seq![],
    }
}

/// The answer that an action gives the caller, if it gives one.
pub open spec fn reply_of(action: ActionView) -> Option<ReplyView> {
    match action {
        ActionView::Reply(reply) => Some(reply),
        _ => None,
    }
}

/// The text of a failed response: the body where it could be read, else a
/// fixed placeholder.
pub open spec fn error_text(text: Option<String>) -> Seq<char> {
    match text {
        Some(t) => t@,
        None => UNKNOWN_ERROR@,
    }
}

/// Picks the text of a failed response.
pub fn text_or_unknown(text: Option<String>) -> (message: String)
    ensures
        message@ == error_text(text),
{
    match text {
        Some(t) => t,
        None => String::from_str(UNKNOWN_ERROR),
    }
}

/// A failure, as the reply that ends an operation.
pub fn failure(kind: ErrorKind, message: String, stage: Stage) -> (action: Action)
    ensures
        action@ == ActionView::Reply(ReplyView::Failed { kind, message: message@, stage }),
{
    Action::Reply(Reply::Failed(Failure { kind, message, stage }))
}

/// What an operation did from some point on: the upstream calls it made, in
/// order, and the answer it gave, if it got that far.
pub struct Run {
    pub calls: Seq<UpstreamRequestView>,
    pub reply: Option<ReplyView>,
}

/// A run in which nothing happens.
pub open spec fn idle() -> Run {
    Run { calls: seq![], reply: None }
}

/// The run that performs `action` and then goes on as `rest`.
pub open spec fn then_run(action: ActionView, rest: Run) -> Run {
    Run {
        calls: calls_of(action) + rest.calls,
        reply: match reply_of(action) {
            Some(reply) => Some(reply),
            None => rest.reply,
        },
    }
}

} // verus!
