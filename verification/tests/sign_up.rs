use account_gateway::exchange::{Action, ErrorKind, Reply, Stage, UpstreamEvent};
use account_gateway::models::{
    AppMetadata, AppState, AuthResponse, SignUpRequest, UserDetails, UserMetadata,
};
use account_gateway::sign_up::{sign_up_next, sign_up_user, SignUpState};
use account_gateway::upstream::{HttpMethod, Timestamp, UpstreamRequest};

fn config() -> AppState {
    AppState {
        supabase_url: "https://project.example".to_string(),
        supabase_api_key: "key-123".to_string(),
    }
}

fn request(email: &str, password: &str) -> SignUpRequest {
    SignUpRequest {
        email: email.to_string(),
        password: password.to_string(),
        username: None,
        subscription_plan: "basic".to_string(),
        profile_picture_url: None,
    }
}

fn identity(id: &str, token: &str) -> AuthResponse {
    AuthResponse {
        access_token: token.to_string(),
        token_type: "bearer".to_string(),
        expires_in: 3600,
        expires_at: 1_700_003_600,
        refresh_token: "refresh".to_string(),
        user: UserDetails {
            id: id.to_string(),
            aud: "authenticated".to_string(),
            role: "authenticated".to_string(),
            email: "a@b.com".to_string(),
            email_confirmed_at: String::new(),
            phone: String::new(),
            last_sign_in_at: String::new(),
            app_metadata: AppMetadata {
                provider: "email".to_string(),
                providers: vec!["email".to_string()],
            },
            user_metadata: UserMetadata {
                email: "a@b.com".to_string(),
                email_verified: false,
                phone_verified: false,
                sub: id.to_string(),
            },
            identities: Vec::new(),
            created_at: String::new(),
            updated_at: String::new(),
            is_anonymous: false,
        },
    }
}

fn sent(action: Action) -> UpstreamRequest {
    match action {
        Action::Send(request) => request,
        other => panic!("expected a call, got {:?}", other),
    }
}

fn failed(action: Action) -> (ErrorKind, String, Stage, u16) {
    match action {
        Action::Reply(reply) => {
            let status = reply.status_code();
            match reply {
                Reply::Failed(failure) => (failure.kind, failure.message, failure.stage, status),
                other => panic!("expected a failure, got {:?}", other),
            }
        }
        other => panic!("expected a reply, got {:?}", other),
    }
}

fn headers_of(request: &UpstreamRequest) -> Vec<(String, String)> {
    let mut out = Vec::new();
    for header in &request.headers {
        out.push((header.name.clone(), header.value.clone()));
    }
    out
}

fn json(text: &str) -> serde_json::Value {
    serde_json::from_str(text).unwrap()
}

/// Drives a saga up to the point where step B has been sent.
fn until_record_sent(payload: SignUpRequest, now: Timestamp) -> (SignUpState, UpstreamRequest) {
    let config = config();
    let (state, _) = sign_up_user(&config, payload);
    let (state, _) = sign_up_next(&config, state, UpstreamEvent::Responded { status: 200 }).unwrap();
    let (state, _) = sign_up_next(
        &config,
        state,
        UpstreamEvent::Identity { parsed: Ok(identity("u1", "t1")) },
    )
    .unwrap();
    let (state, action) = sign_up_next(&config, state, UpstreamEvent::Clock { now }).unwrap();
    (state, sent(action))
}

#[test]
fn sign_up_creates_identity_then_record() {
    let config = config();
    let mut calls = 0;

    let (state, action) = sign_up_user(&config, request("a@b.com", "pw"));
    assert!(matches!(state, SignUpState::IdentitySent { .. }));
    let step_a = sent(action);
    calls += 1;
    assert_eq!(step_a.method, HttpMethod::Post);
    assert_eq!(step_a.url, "https://project.example/auth/v1/signup");

    let (state, action) =
        sign_up_next(&config, state, UpstreamEvent::Responded { status: 200 }).unwrap();
    assert!(matches!(state, SignUpState::IdentityAccepted { .. }));
    assert!(matches!(action, Action::ReadIdentity));

    let (state, action) = sign_up_next(
        &config,
        state,
        UpstreamEvent::Identity { parsed: Ok(identity("u1", "t1")) },
    )
    .unwrap();
    assert!(matches!(state, SignUpState::IdentityCreated { .. }));
    assert!(matches!(action, Action::ReadClock));

    let now = Timestamp::new(1_700_000_000, 5).unwrap();
    let (state, action) = sign_up_next(&config, state, UpstreamEvent::Clock { now }).unwrap();
    assert!(matches!(state, SignUpState::RecordSent { .. }));
    let step_b = sent(action);
    calls += 1;
    assert_eq!(step_b.method, HttpMethod::Post);
    assert_eq!(step_b.url, "https://project.example/rest/v1/users");

    let (state, action) =
        sign_up_next(&config, state, UpstreamEvent::Responded { status: 201 }).unwrap();
    assert!(matches!(state, SignUpState::RecordCreated));
    match action {
        Action::Reply(reply) => {
            assert_eq!(reply.status_code(), 201);
            match reply {
                Reply::Created(created) => {
                    assert_eq!(created.user_id, "u1");
                    assert_eq!(created.access_token, "t1");
                }
                other => panic!("expected a created account, got {:?}", other),
            }
        }
        other => panic!("expected a reply, got {:?}", other),
    }
    assert_eq!(calls, 2);
}

#[test]
fn sign_up_with_empty_email_makes_no_call() {
    let config = config();
    let (state, action) = sign_up_user(&config, request("", "pw"));
    assert!(matches!(state, SignUpState::Failed));
    let (kind, message, stage, status) = failed(action);
    assert_eq!(kind, ErrorKind::ClientError);
    assert_eq!(message, "Email and password are required");
    assert_eq!(stage, Stage::Validation);
    assert_eq!(status, 400);
}

#[test]
fn sign_up_with_empty_password_makes_no_call() {
    let config = config();
    let (state, action) = sign_up_user(&config, request("a@b.com", ""));
    assert!(matches!(state, SignUpState::Failed));
    let (kind, message, _, status) = failed(action);
    assert_eq!(kind, ErrorKind::ClientError);
    assert_eq!(message, "Email and password are required");
    assert_eq!(status, 400);
}

#[test]
fn sign_up_with_both_empty_makes_no_call() {
    let config = config();
    let (state, action) = sign_up_user(&config, request("", ""));
    assert!(matches!(state, SignUpState::Failed));
    let (kind, _, _, status) = failed(action);
    assert_eq!(kind, ErrorKind::ClientError);
    assert_eq!(status, 400);
}

#[test]
fn finished_saga_waits_for_nothing() {
    let config = config();
    let (state, _) = sign_up_user(&config, request("", "pw"));
    assert!(sign_up_next(&config, state, UpstreamEvent::Responded { status: 200 }).is_none());
    assert!(sign_up_next(
        &config,
        SignUpState::Failed,
        UpstreamEvent::Text { text: Some("late".to_string()) }
    )
    .is_none());
    assert!(sign_up_next(
        &config,
        SignUpState::RecordCreated,
        UpstreamEvent::SendFailed { reason: "late".to_string() }
    )
    .is_none());
    assert!(sign_up_next(
        &config,
        SignUpState::RecordCreated,
        UpstreamEvent::Clock { now: Timestamp::new(0, 0).unwrap() }
    )
    .is_none());
}

#[test]
fn step_a_carries_credentials_and_nested_username() {
    let config = config();
    let mut payload = request("a@b.com", "pw");
    payload.username = Some("neo".to_string());
    let (_, action) = sign_up_user(&config, payload);
    let step_a = sent(action);
    assert_eq!(
        headers_of(&step_a),
        vec![
            ("apikey".to_string(), "key-123".to_string()),
            ("Authorization".to_string(), "Bearer key-123".to_string()),
            ("Content-Type".to_string(), "application/json".to_string()),
        ]
    );
    assert_eq!(
        step_a.body,
        Some(json(r#"{"email":"a@b.com","password":"pw","data":{"username":"neo"}}"#))
    );
}

#[test]
fn step_a_writes_a_missing_username_as_null() {
    let config = config();
    let (_, action) = sign_up_user(&config, request("a@b.com", "pw"));
    let step_a = sent(action);
    assert_eq!(
        step_a.body,
        Some(json(r#"{"email":"a@b.com","password":"pw","data":{"username":null}}"#))
    );
}

#[test]
fn step_a_transport_failure_is_a_server_error() {
    let config = config();
    let (state, _) = sign_up_user(&config, request("a@b.com", "pw"));
    let (state, action) = sign_up_next(
        &config,
        state,
        UpstreamEvent::SendFailed { reason: "connection refused".to_string() },
    )
    .unwrap();
    assert!(matches!(state, SignUpState::Failed));
    let (kind, message, stage, status) = failed(action);
    assert_eq!(kind, ErrorKind::ServerError);
    assert_eq!(message, "failed to send sign-up request");
    assert_eq!(stage, Stage::Identity);
    assert_eq!(status, 500);
}

#[test]
fn refused_identity_passes_the_body_through_and_stops() {
    let config = config();
    let (state, _) = sign_up_user(&config, request("a@b.com", "pw"));
    let (state, action) =
        sign_up_next(&config, state, UpstreamEvent::Responded { status: 422 }).unwrap();
    assert!(matches!(state, SignUpState::IdentityRefused));
    assert!(matches!(action, Action::ReadText));
    let body = r#"{"code":422,"msg":"User already registered"}"#;
    let (state, action) =
        sign_up_next(&config, state, UpstreamEvent::Text { text: Some(body.to_string()) })
            .unwrap();
    assert!(matches!(state, SignUpState::Failed));
    let (kind, message, stage, status) = failed(action);
    assert_eq!(kind, ErrorKind::ClientError);
    assert_eq!(message, body);
    assert_eq!(stage, Stage::Identity);
    assert_eq!(status, 400);
    assert!(sign_up_next(
        &config,
        state,
        UpstreamEvent::Clock { now: Timestamp::new(1, 0).unwrap() }
    )
    .is_none());
}

#[test]
fn refused_identity_with_unreadable_body_is_unknown_error() {
    let config = config();
    let (state, _) = sign_up_user(&config, request("a@b.com", "pw"));
    let (state, _) =
        sign_up_next(&config, state, UpstreamEvent::Responded { status: 500 }).unwrap();
    let (_, action) = sign_up_next(&config, state, UpstreamEvent::Text { text: None }).unwrap();
    let (kind, message, _, status) = failed(action);
    assert_eq!(kind, ErrorKind::ClientError);
    assert_eq!(message, "Unknown error");
    assert_eq!(status, 400);
}

#[test]
fn status_boundaries_of_step_a() {
    let config = config();
    for status in [199u16, 300, 301, 404] {
        let (state, _) = sign_up_user(&config, request("a@b.com", "pw"));
        let (state, action) =
            sign_up_next(&config, state, UpstreamEvent::Responded { status }).unwrap();
        assert!(matches!(state, SignUpState::IdentityRefused));
        assert!(matches!(action, Action::ReadText));
    }
    for status in [200u16, 201, 204, 299] {
        let (state, _) = sign_up_user(&config, request("a@b.com", "pw"));
        let (state, action) =
            sign_up_next(&config, state, UpstreamEvent::Responded { status }).unwrap();
        assert!(matches!(state, SignUpState::IdentityAccepted { .. }));
        assert!(matches!(action, Action::ReadIdentity));
    }
}

#[test]
fn unreadable_identity_is_a_server_error() {
    let config = config();
    let (state, _) = sign_up_user(&config, request("a@b.com", "pw"));
    let (state, _) =
        sign_up_next(&config, state, UpstreamEvent::Responded { status: 200 }).unwrap();
    let (state, action) = sign_up_next(
        &config,
        state,
        UpstreamEvent::Identity { parsed: Err("missing field `user`".to_string()) },
    )
    .unwrap();
    assert!(matches!(state, SignUpState::Failed));
    let (kind, message, stage, status) = failed(action);
    assert_eq!(kind, ErrorKind::ServerError);
    assert_eq!(message, "missing field `user`");
    assert_eq!(stage, Stage::Identity);
    assert_eq!(status, 500);
}

#[test]
fn step_b_stores_the_row_keyed_by_the_identity() {
    let mut payload = request("a@b.com", "pw");
    payload.username = Some("neo".to_string());
    payload.profile_picture_url = Some("https://img.example/neo.png".to_string());
    let (_, step_b) = until_record_sent(payload, Timestamp::new(1_700_000_000, 5).unwrap());
    assert_eq!(
        headers_of(&step_b),
        vec![
            ("apikey".to_string(), "key-123".to_string()),
            ("Authorization".to_string(), "Bearer key-123".to_string()),
            ("Content-Type".to_string(), "application/json".to_string()),
            ("Prefer".to_string(), "return=minimal".to_string()),
        ]
    );
    assert_eq!(
        step_b.body,
        Some(json(
            r#"{"id":"u1","email":"a@b.com","username":"neo","subscription_plan":"basic",
                "profile_picture_url":"https://img.example/neo.png",
                "last_login":{"secs":1700000000,"nanos":5}}"#
        ))
    );
}

#[test]
fn step_b_defaults_plan_and_picture() {
    let mut payload = request("a@b.com", "pw");
    payload.subscription_plan = "premium".to_string();
    let (_, step_b) = until_record_sent(payload, Timestamp::new(12, 999_999_999).unwrap());
    assert_eq!(
        step_b.body,
        Some(json(
            r#"{"id":"u1","email":"a@b.com","username":null,"subscription_plan":"basic",
                "profile_picture_url":"default_profile_picture_url",
                "last_login":{"secs":12,"nanos":999999999}}"#
        ))
    );
}

#[test]
fn last_login_is_written_as_serde_writes_a_duration() {
    let (_, step_b) = until_record_sent(request("a@b.com", "pw"), Timestamp::new(7, 9).unwrap());
    let body = step_b.body.unwrap();
    let expected = serde_json::to_value(std::time::Duration::new(7, 9)).unwrap();
    assert_eq!(body.get("last_login"), Some(&expected));
}

#[test]
fn step_b_transport_failure_is_a_server_error() {
    let config = config();
    let (state, _) =
        until_record_sent(request("a@b.com", "pw"), Timestamp::new(1, 0).unwrap());
    let (state, action) = sign_up_next(
        &config,
        state,
        UpstreamEvent::SendFailed { reason: "timed out".to_string() },
    )
    .unwrap();
    assert!(matches!(state, SignUpState::Failed));
    let (kind, message, stage, status) = failed(action);
    assert_eq!(kind, ErrorKind::ServerError);
    assert_eq!(message, "timed out");
    assert_eq!(stage, Stage::Record);
    assert_eq!(status, 500);
}

#[test]
fn step_b_refusal_is_a_server_error_without_compensation() {
    let config = config();
    let (state, _) =
        until_record_sent(request("a@b.com", "pw"), Timestamp::new(1, 0).unwrap());
    let (state, action) =
        sign_up_next(&config, state, UpstreamEvent::Responded { status: 409 }).unwrap();
    assert!(matches!(state, SignUpState::RecordRefused));
    assert!(matches!(action, Action::ReadText));
    let (state, action) = sign_up_next(
        &config,
        state,
        UpstreamEvent::Text { text: Some("duplicate key".to_string()) },
    )
    .unwrap();
    assert!(matches!(state, SignUpState::Failed));
    let (kind, message, stage, status) = failed(action);
    assert_eq!(kind, ErrorKind::ServerError);
    assert_eq!(message, "duplicate key");
    assert_eq!(stage, Stage::Record);
    assert_eq!(status, 500);
    assert!(sign_up_next(&config, state, UpstreamEvent::Responded { status: 200 }).is_none());
}

#[test]
fn step_b_refusal_with_unreadable_body_is_unknown_error() {
    let config = config();
    let (state, _) =
        until_record_sent(request("a@b.com", "pw"), Timestamp::new(1, 0).unwrap());
    let (state, _) =
        sign_up_next(&config, state, UpstreamEvent::Responded { status: 503 }).unwrap();
    let (_, action) = sign_up_next(&config, state, UpstreamEvent::Text { text: None }).unwrap();
    let (kind, message, _, status) = failed(action);
    assert_eq!(kind, ErrorKind::ServerError);
    assert_eq!(message, "Unknown error");
    assert_eq!(status, 500);
}

#[test]
fn events_out_of_turn_are_not_accepted() {
    let config = config();
    let (state, _) = sign_up_user(&config, request("a@b.com", "pw"));
    assert!(
        sign_up_next(&config, state, UpstreamEvent::Text { text: Some("x".to_string()) })
            .is_none()
    );
    let (state, _) = sign_up_user(&config, request("a@b.com", "pw"));
    assert!(sign_up_next(
        &config,
        state,
        UpstreamEvent::Identity { parsed: Ok(identity("u1", "t1")) }
    )
    .is_none());
    let (state, _) = sign_up_user(&config, request("a@b.com", "pw"));
    let (state, _) =
        sign_up_next(&config, state, UpstreamEvent::Responded { status: 200 }).unwrap();
    assert!(sign_up_next(&config, state, UpstreamEvent::Body { bytes: None }).is_none());
}

#[test]
fn credentials_of_blanks_are_not_empty() {
    let config = config();
    let (state, action) = sign_up_user(&config, request(" ", " "));
    assert!(matches!(state, SignUpState::IdentitySent { .. }));
    let step_a = sent(action);
    assert_eq!(
        step_a.body,
        Some(json(r#"{"email":" ","password":" ","data":{"username":null}}"#))
    );
}

#[test]
fn base_url_is_joined_as_it_is() {
    let config = AppState {
        supabase_url: "http://localhost:54321/".to_string(),
        supabase_api_key: String::new(),
    };
    let (_, action) = sign_up_user(&config, request("a@b.com", "pw"));
    let step_a = sent(action);
    assert_eq!(step_a.url, "http://localhost:54321//auth/v1/signup");
    assert_eq!(
        headers_of(&step_a),
        vec![
            ("apikey".to_string(), String::new()),
            ("Authorization".to_string(), "Bearer ".to_string()),
            ("Content-Type".to_string(), "application/json".to_string()),
        ]
    );
}
