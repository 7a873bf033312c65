use account_gateway::config::{
    load_config, ConfigError, SUBSCRIPTION_PLAN_BASIC, SUBSCRIPTION_PLAN_PREMIUM,
    SUBSCRIPTION_PLAN_STANDARD,
};
use account_gateway::exchange::{failure, text_or_unknown, Action, ErrorKind, Reply, Stage};
use account_gateway::models::SignUpResponse;
use account_gateway::upstream::{is_success, Timestamp, DEFAULT_PROFILE_PICTURE_URL};

#[test]
fn config_needs_both_settings() {
    let config =
        load_config(Some("https://project.example".to_string()), Some("key".to_string())).unwrap();
    assert_eq!(config.supabase_url, "https://project.example");
    assert_eq!(config.supabase_api_key, "key");
}

#[test]
fn config_without_url_names_the_url() {
    assert_eq!(load_config(None, Some("key".to_string())).unwrap_err(), ConfigError::MissingUrl);
    assert_eq!(load_config(None, None).unwrap_err(), ConfigError::MissingUrl);
}

#[test]
fn config_without_key_names_the_key() {
    assert_eq!(
        load_config(Some("https://project.example".to_string()), None).unwrap_err(),
        ConfigError::MissingApiKey
    );
}

#[test]
fn config_keeps_empty_settings() {
    let config = load_config(Some(String::new()), Some(String::new())).unwrap();
    assert_eq!(config.supabase_url, "");
    assert_eq!(config.supabase_api_key, "");
}

#[test]
fn plan_tiers_and_default_picture() {
    assert_eq!(SUBSCRIPTION_PLAN_BASIC, "basic");
    assert_eq!(SUBSCRIPTION_PLAN_STANDARD, "standard");
    assert_eq!(SUBSCRIPTION_PLAN_PREMIUM, "premium");
    assert_eq!(DEFAULT_PROFILE_PICTURE_URL, "default_profile_picture_url");
}

#[test]
fn success_is_two_hundred_to_two_ninety_nine() {
    assert!(!is_success(0));
    assert!(!is_success(199));
    assert!(is_success(200));
    assert!(is_success(201));
    assert!(is_success(299));
    assert!(!is_success(300));
    assert!(!is_success(400));
    assert!(!is_success(500));
    assert!(!is_success(u16::MAX));
}

#[test]
fn reply_status_codes() {
    let created = Reply::Created(SignUpResponse {
        user_id: "u1".to_string(),
        access_token: "t1".to_string(),
    });
    assert_eq!(created.status_code(), 201);
    assert_eq!(Reply::Records(Vec::new()).status_code(), 200);
    assert_eq!(Reply::Updated.status_code(), 200);
    for (kind, status) in [(ErrorKind::ClientError, 400u16), (ErrorKind::ServerError, 500)] {
        match failure(kind, "boom".to_string(), Stage::Record) {
            Action::Reply(reply) => {
                assert_eq!(reply.status_code(), status);
                match reply {
                    Reply::Failed(f) => {
                        assert_eq!(f.kind, kind);
                        assert_eq!(f.message, "boom");
                        assert_eq!(f.stage, Stage::Record);
                    }
                    other => panic!("expected a failure, got {:?}", other),
                }
            }
            other => panic!("expected a reply, got {:?}", other),
        }
    }
}

#[test]
fn unreadable_text_becomes_unknown_error() {
    assert_eq!(text_or_unknown(None), "Unknown error");
    assert_eq!(text_or_unknown(Some("oops".to_string())), "oops");
    assert_eq!(text_or_unknown(Some(String::new())), "");
}

#[test]
fn timestamp_nanos_stay_below_a_second() {
    let start = Timestamp::new(0, 0).unwrap();
    assert_eq!((start.secs(), start.nanos()), (0, 0));
    let late = Timestamp::new(u64::MAX, 999_999_999).unwrap();
    assert_eq!((late.secs(), late.nanos()), (u64::MAX, 999_999_999));
    assert!(Timestamp::new(0, 1_000_000_000).is_none());
    assert!(Timestamp::new(u64::MAX, 1_000_000_000).is_none());
    assert!(Timestamp::new(0, u32::MAX).is_none());
}
