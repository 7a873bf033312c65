//! The calls that the gateway makes to the upstream service.
//!
//! A call is described as a plain value: method, URL, headers in order, and
//! an optional JSON body. Whoever performs it must send exactly that, once,
//! and report what came back.

use vstd::prelude::*;
use vstd::string::StringExecFns;

use crate::config::SUBSCRIPTION_PLAN_BASIC;
use crate::json::{
    duration_value, json_duration, json_object, json_optional_text, json_text, members_view,
    object_value, optional_text_value, text_value,
};
use crate::models::{AppState, SignUpRequest};

verus! {

/// The profile picture that an account gets when the request names none.
pub const DEFAULT_PROFILE_PICTURE_URL: &'static str = "default_profile_picture_url";

/// The HTTP methods that the gateway uses upstream.
#[derive(Clone, Copy, Debug, PartialEq, Eq, Structural)]
pub enum HttpMethod {
    Get,
    Post,
    Patch,
}

/// One request header.
#[derive(Clone, Debug)]
pub struct Header {
    pub name: String,
    pub value: String,
}

/// A header as a pair of character sequences.
pub struct HeaderView {
    pub name: Seq<char>,
    pub value: Seq<char>,
}

impl View for Header {
    type V = HeaderView;

    open spec fn view(&self) -> HeaderView {
        HeaderView { name: self.name@, value: self.value@ }
    }
}

/// The headers of a call, in order, each by its view.
pub open spec fn header_views(headers: Seq<Header>) -> Seq<HeaderView> {
    headers.map_values(|h: Header| h@)
}

/// One call to the upstream service.
#[derive(Clone, Debug)]
pub struct UpstreamRequest {
    pub method: HttpMethod,
    pub url: String,
    pub headers: Vec<Header>,
    pub body: Option<serde_json::Value>,
}

/// A call with its texts as character sequences. The body is the document
/// itself.
pub struct UpstreamRequestView {
    pub method: HttpMethod,
    pub url: Seq<char>,
    pub headers: Seq<HeaderView>,
    pub body: Option<serde_json::Value>,
}

impl View for UpstreamRequest {
    type V = UpstreamRequestView;

    open spec fn view(&self) -> UpstreamRequestView {
        UpstreamRequestView {
            method: self.method,
            url: self.url@,
            headers: header_views(self.headers@),
            body: self.body,
        }
    }
}

/// A point in time as the span since the Unix epoch: whole seconds and the
/// nanoseconds beyond them, which stay below one second.
#[derive(Clone, Copy, Debug)]
pub struct Timestamp {
    secs: u64,
    nanos: u32,
}

/// A point in time by its two numbers.
pub struct TimestampView {
    pub secs: u64,
    pub nanos: u32,
}

impl View for Timestamp {
    type V = TimestampView;

    closed spec fn view(&self) -> TimestampView {
        TimestampView { secs: self.secs, nanos: self.nanos }
    }
}

impl Timestamp {
    #[verifier::type_invariant]
    spec fn nanos_below_a_second(self) -> bool {
        self.nanos < 1_000_000_000
    }

    /// The time `secs` seconds and `nanos` nanoseconds after the epoch, or
    /// `None` when `nanos` amounts to a full second or more.
    pub fn new(secs: u64, nanos: u32) -> (made: Option<Timestamp>)
        ensures
            made is Some <==> nanos < 1_000_000_000,
            made matches Some(t) ==> t@ == (TimestampView { secs, nanos }),
    {
        if nanos < 1_000_000_000 {
            Some(Timestamp { secs, nanos })
        } else {
            None
        }
    }

    /// The whole seconds since the epoch.
    pub fn secs(&self) -> (secs: u64)
        ensures
            secs == self@.secs,
    {
        self.secs
    }

    /// The nanoseconds beyond the whole seconds.
    pub fn nanos(&self) -> (nanos: u32)
        ensures
            nanos == self@.nanos,
            nanos < 1_000_000_000,
    {
        proof {
            use_type_invariant(self);
        }
        self.nanos
    }
}

/// The view of an optional string.
pub open spec fn optional_text(text: Option<String>) -> Option<Seq<char>> {
    match text {
        Some(t) => Some(t@),
        None => None,
    }
}

/// A status in 200..=299 is a success; every other status is a failure of
/// the upstream service, not of the transport.
pub open spec fn status_is_success(status: u16) -> bool {
    200 <= status < 300
}

/// Tells a success status from a failure status.
pub fn is_success(status: u16) -> (ok: bool)
    ensures
        ok == status_is_success(status),
{
    200 <= status && status < 300
}

/// The API key, sent with every call.
pub open spec fn api_key_header(config: AppState) -> HeaderView {
    HeaderView { name: "apikey"@, value: config.supabase_api_key@ }
}

/// The API key once more, as a bearer token. Every write carries it, and
/// so does the read.
pub open spec fn bearer_header(config: AppState) -> HeaderView {
    HeaderView { name: "Authorization"@, value: "Bearer "@ + config.supabase_api_key@ }
}

/// Announces a JSON body.
pub open spec fn json_content_header() -> HeaderView {
    HeaderView { name: "Content-Type"@, value: "application/json"@ }
}

/// Asks the database not to send the stored row back.
pub open spec fn minimal_return_header() -> HeaderView {
    HeaderView { name: "Prefer"@, value: "return=minimal"@ }
}

/// Where identities are created.
pub open spec fn sign_up_url(config: AppState) -> Seq<char> {
    config.supabase_url@ + "/auth/v1/signup"@
}

/// The `users` collection.
pub open spec fn users_url(config: AppState) -> Seq<char> {
    config.supabase_url@ + "/rest/v1/users"@
}

/// The `users` collection filtered down to one id. The id is put into the
/// query as it is.
pub open spec fn user_url(config: AppState, user_id: Seq<char>) -> Seq<char> {
    config.supabase_url@ + "/rest/v1/users?id=eq."@ + user_id
}

/// The document that asks the auth resource for a new identity.
pub open spec fn identity_document(payload: SignUpRequest) -> serde_json::Value {
    json_object(
        seq![
            ("email"@, json_text(payload.email@)),
            ("password"@, json_text(payload.password@)),
            (
                "data"@,
                json_object(seq![("username"@, json_optional_text(optional_text(payload.username)))]),
            ),
        ],
    )
}

/// The picture stored for a new account: the one asked for, else the default.
pub open spec fn picture_or_default(profile_picture_url: Option<String>) -> Seq<char> {
    match profile_picture_url {
        Some(url) => url@,
        None => DEFAULT_PROFILE_PICTURE_URL@,
    }
}

/// The row stored for a new account. Whatever plan the request names, the
/// account starts on the lowest tier.
pub open spec fn user_document(payload: SignUpRequest, user_id: Seq<char>, now: Timestamp)
    -> serde_json::Value {
    json_object(
        seq![
            ("id"@, json_text(user_id)),
            ("email"@, json_text(payload.email@)),
            ("username"@, json_optional_text(optional_text(payload.username))),
            ("subscription_plan"@, json_text(SUBSCRIPTION_PLAN_BASIC@)),
            ("profile_picture_url"@, json_text(picture_or_default(payload.profile_picture_url))),
            ("last_login"@, json_duration(now@.secs, now@.nanos)),
        ],
    )
}

/// Step A of account creation: create the identity.
pub open spec fn create_identity_call(config: AppState, payload: SignUpRequest)
    -> UpstreamRequestView {
    UpstreamRequestView {
        method: HttpMethod::Post,
        url: sign_up_url(config),
        headers: seq![api_key_header(config), bearer_header(config), json_content_header()],
        body: Some(identity_document(payload)),
    }
}

/// Step B of account creation: store the row keyed by the identity's id.
pub open spec fn create_user_call(
    config: AppState,
    payload: SignUpRequest,
    user_id: Seq<char>,
    now: Timestamp,
) -> UpstreamRequestView {
    UpstreamRequestView {
        method: HttpMethod::Post,
        url: users_url(config),
        headers: seq![
            api_key_header(config),
            bearer_header(config),
            json_content_header(),
            minimal_return_header(),
        ],
        body: Some(user_document(payload, user_id, now)),
    }
}

/// Reads the rows whose id is `user_id`.
pub open spec fn fetch_user_call(config: AppState, user_id: Seq<char>) -> UpstreamRequestView {
    UpstreamRequestView {
        method: HttpMethod::Get,
        url: user_url(config, user_id),
        headers: seq![api_key_header(config), bearer_header(config)],
        body: None,
    }
}

/// Patches the rows whose id is `user_id` with `patch`, as it is.
pub open spec fn update_user_call(config: AppState, user_id: Seq<char>, patch: serde_json::Value)
    -> UpstreamRequestView {
    UpstreamRequestView {
        method: HttpMethod::Patch,
        url: user_url(config, user_id),
        headers: seq![api_key_header(config), bearer_header(config)],
        body: Some(patch),
    }
}

/// A call writes when it is no `GET`.
pub open spec fn is_write(method: HttpMethod) -> bool {
    method != HttpMethod::Get
}

/// A call is authenticated when its first header is the API key and, if it
/// writes, its second header is the bearer token.
pub open spec fn is_authenticated(config: AppState, call: UpstreamRequestView) -> bool {
    &&& call.headers.len() >= 1
    &&& call.headers[0] == api_key_header(config)
    &&& is_write(call.method) ==> call.headers.len() >= 2 && call.headers[1] == bearer_header(
        config,
    )
}

/// Every call that the gateway makes is authenticated, and the three that
/// write are the two steps of account creation and the patch.
pub proof fn lemma_calls_are_authenticated(
    config: AppState,
    payload: SignUpRequest,
    user_id: Seq<char>,
    now: Timestamp,
    patch: serde_json::Value,
)
    ensures
        is_authenticated(config, create_identity_call(config, payload)),
        is_authenticated(config, create_user_call(config, payload, user_id, now)),
        is_authenticated(config, fetch_user_call(config, user_id)),
        is_authenticated(config, update_user_call(config, user_id, patch)),
        is_write(create_identity_call(config, payload).method),
        is_write(create_user_call(config, payload, user_id, now).method),
        !is_write(fetch_user_call(config, user_id).method),
        is_write(update_user_call(config, user_id, patch).method),
{
}

fn join(left: &str, right: &str) -> (joined: String)
    ensures
        joined@ == left@ + right@,
{
    String::from_str(left).concat(right)
}

fn header(name: &str, value: &str) -> (h: Header)
    ensures
        h@ == (HeaderView { name: name@, value: value@ }),
{
    Header { name: String::from_str(name), value: String::from_str(value) }
}

/// The two headers that authenticate a call: the API key, then the same key
/// as a bearer token.
fn credentials(config: &AppState) -> (headers: Vec<Header>)
    ensures
        headers@.len() == 2,
        headers@[0]@ == api_key_header(*config),
        headers@[1]@ == bearer_header(*config),
{
    let mut headers: Vec<Header> = Vec::new();
    headers.push(header("apikey", config.supabase_api_key.as_str()));
    let bearer = join("Bearer ", config.supabase_api_key.as_str());
    headers.push(header("Authorization", bearer.as_str()));
    headers
}

fn member(name: &str, value: serde_json::Value) -> (m: (String, serde_json::Value))
    ensures
        m.0@ == name@,
        m.1 == value,
{
    (String::from_str(name), value)
}

fn identity_body(payload: &SignUpRequest) -> (body: serde_json::Value)
    ensures
        body == identity_document(*payload),
{
    let mut data: Vec<(String, serde_json::Value)> = Vec::new();
    data.push(member("username", optional_text_value(&payload.username)));
    assert(members_view(data@) =~= seq![
        ("username"@, json_optional_text(optional_text(payload.username))),
    ]);
    let nested = object_value(data);
    let mut members: Vec<(String, serde_json::Value)> = Vec::new();
    members.push(member("email", text_value(payload.email.as_str())));
    members.push(member("password", text_value(payload.password.as_str())));
    members.push(member("data", nested));
    assert(members_view(members@) =~= seq![
        ("email"@, json_text(payload.email@)),
        ("password"@, json_text(payload.password@)),
        ("data"@, nested),
    ]);
    object_value(members)
}

fn user_body(payload: &SignUpRequest, user_id: &str, now: Timestamp) -> (body: serde_json::Value)
    ensures
        body == user_document(*payload, user_id@, now),
{
    let picture = match &payload.profile_picture_url {
        Some(url) => text_value(url.as_str()),
        None => text_value(DEFAULT_PROFILE_PICTURE_URL),
    };
    let mut members: Vec<(String, serde_json::Value)> = Vec::new();
    members.push(member("id", text_value(user_id)));
    members.push(member("email", text_value(payload.email.as_str())));
    members.push(member("username", optional_text_value(&payload.username)));
    members.push(member("subscription_plan", text_value(SUBSCRIPTION_PLAN_BASIC)));
    members.push(member("profile_picture_url", picture));
    members.push(member("last_login", duration_value(now.secs(), now.nanos())));
    assert(members_view(members@) =~= seq![
        ("id"@, json_text(user_id@)),
        ("email"@, json_text(payload.email@)),
        ("username"@, json_optional_text(optional_text(payload.username))),
        ("subscription_plan"@, json_text(SUBSCRIPTION_PLAN_BASIC@)),
        ("profile_picture_url"@, json_text(picture_or_default(payload.profile_picture_url))),
        ("last_login"@, json_duration(now@.secs, now@.nanos)),
    ]);
    object_value(members)
}

/// Builds step A of account creation.
pub fn create_identity_request(config: &AppState, payload: &SignUpRequest) -> (request:
    UpstreamRequest)
    ensures
        request@ == create_identity_call(*config, *payload),
{
    let mut headers = credentials(config);
    headers.push(header("Content-Type", "application/json"));
    assert(header_views(headers@) =~= seq![
        api_key_header(*config),
        bearer_header(*config),
        json_content_header(),
    ]);
    UpstreamRequest {
        method: HttpMethod::Post,
        url: join(config.supabase_url.as_str(), "/auth/v1/signup"),
        headers,
        body: Some(identity_body(payload)),
    }
}

/// Builds step B of account creation.
pub fn create_user_request(
    config: &AppState,
    payload: &SignUpRequest,
    user_id: &str,
    now: Timestamp,
) -> (request: UpstreamRequest)
    ensures
        request@ == create_user_call(*config, *payload, user_id@, now),
{
    let mut headers = credentials(config);
    headers.push(header("Content-Type", "application/json"));
    headers.push(header("Prefer", "return=minimal"));
    assert(header_views(headers@) =~= seq![
        api_key_header(*config),
        bearer_header(*config),
        json_content_header(),
        minimal_return_header(),
    ]);
    UpstreamRequest {
        method: HttpMethod::Post,
        url: join(config.supabase_url.as_str(), "/rest/v1/users"),
        headers,
        body: Some(user_body(payload, user_id, now)),
    }
}

fn user_address(config: &AppState, user_id: &str) -> (url: String)
    ensures
        url@ == user_url(*config, user_id@),
{
    join(config.supabase_url.as_str(), "/rest/v1/users?id=eq.").concat(user_id)
}

/// Builds the read of one user's rows.
pub fn fetch_user_request(config: &AppState, user_id: &str) -> (request: UpstreamRequest)
    ensures
        request@ == fetch_user_call(*config, user_id@),
{
    let headers = credentials(config);
    assert(header_views(headers@) =~= seq![api_key_header(*config), bearer_header(*config)]);
    UpstreamRequest {
        method: HttpMethod::Get,
        url: user_address(config, user_id),
        headers,
        body: None,
    }
}

/// Builds the patch of one user's rows. The patch document goes into the
/// call untouched.
pub fn update_user_request(config: &AppState, user_id: &str, patch: serde_json::Value) -> (request:
    UpstreamRequest)
    ensures
        request@ == update_user_call(*config, user_id@, patch),
{
    let headers = credentials(config);
    assert(header_views(headers@) =~= seq![api_key_header(*config), bearer_header(*config)]);
    UpstreamRequest {
        method: HttpMethod::Patch,
        url: user_address(config, user_id),
        headers,
        body: Some(patch),
    }
}

} // verus!
