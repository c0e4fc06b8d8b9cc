use chrono::DateTime;
use chrono::Utc;
use codex_core::supabase_session::is_expired_at;
use codex_core::supabase_session::is_session_expired;
use codex_core::supabase_session::session_at;
use codex_core::supabase_session::session_from_token_response;
use codex_core::supabase_session::MAX_TIMESTAMP;
use codex_core::supabase_session::MIN_TIMESTAMP;
use codex_core::supabase_session::token_response_to_session;
use codex_core::supabase_session::AuthTokenResponse;
use codex_core::supabase_session::ClockError;
use codex_core::supabase_session::AuthUserResponse;
use codex_core::supabase_session::MetadataValue;
use codex_core::supabase_session::SupabaseSession;
use codex_core::supabase_session::SupabaseUser;
use codex_core::supabase_session::Timestamp;
use codex_core::supabase_session::UserMetadata;

const NIL_UUID: &str = "00000000-0000-0000-0000-000000000000";

fn timestamp_of(rfc3339: &str) -> Timestamp {
    let t = DateTime::parse_from_rfc3339(rfc3339).unwrap().with_timezone(&Utc);
    Timestamp { secs: t.timestamp(), nanos: t.timestamp_subsec_nanos() }
}

fn sample_session(expires_at: &str) -> SupabaseSession {
    SupabaseSession {
        access_token: "eyJabc".to_string(),
        refresh_token: "rt_abc".to_string(),
        expires_at: timestamp_of(expires_at),
        user: SupabaseUser {
            id: NIL_UUID.to_string(),
            email: "test@example.com".to_string(),
            display_name: Some("Test".to_string()),
        },
    }
}

fn metadata(full_name: Option<MetadataValue>, name: Option<MetadataValue>) -> Option<UserMetadata> {
    Some(UserMetadata { full_name, name })
}

#[test]
fn token_response_conversion() {
    let resp = AuthTokenResponse {
        access_token: "access_123".to_string(),
        token_type: "bearer".to_string(),
        expires_in: 3600,
        refresh_token: "refresh_456".to_string(),
        user: AuthUserResponse {
            id: NIL_UUID.to_string(),
            email: Some("user@test.com".to_string()),
            user_metadata: metadata(Some(MetadataValue::Text("Test User".to_string())), None),
        },
    };

    let session = session_from_token_response(resp).expect("session");
    assert_eq!(session.access_token, "access_123");
    assert_eq!(session.refresh_token, "refresh_456");
    assert_eq!(session.user.email, "user@test.com");
    assert_eq!(session.user.display_name.as_deref(), Some("Test User"));
    // expires_at should be roughly 1 hour from now
    let diff = session.expires_at.secs - Utc::now().timestamp();
    assert!(diff > 3590 && diff <= 3600);
}

#[test]
fn token_response_no_metadata() {
    let resp = AuthTokenResponse {
        access_token: "a".to_string(),
        token_type: "bearer".to_string(),
        expires_in: 60,
        refresh_token: "r".to_string(),
        user: AuthUserResponse { id: NIL_UUID.to_string(), email: None, user_metadata: None },
    };

    let session = session_from_token_response(resp).expect("session");
    assert_eq!(session.user.email, "");
    assert!(session.user.display_name.is_none());
}

#[test]
fn display_name_falls_back_to_name_only_when_full_name_is_absent() {
    let now = Timestamp { secs: 1_000, nanos: 5 };
    let base = |meta: Option<UserMetadata>| AuthTokenResponse {
        access_token: "a".to_string(),
        token_type: "bearer".to_string(),
        expires_in: 60,
        refresh_token: "r".to_string(),
        user: AuthUserResponse { id: "u".to_string(), email: None, user_metadata: meta },
    };
    let s = token_response_to_session(base(metadata(None, Some(MetadataValue::Text("Nick".to_string())))), now);
    assert_eq!(s.user.display_name.as_deref(), Some("Nick"));
    assert_eq!(s.expires_at, Timestamp { secs: 1_060, nanos: 5 });
    let s = token_response_to_session(
        base(metadata(Some(MetadataValue::NotText), Some(MetadataValue::Text("Nick".to_string())))),
        now,
    );
    assert_eq!(s.user.display_name, None);
}

#[test]
fn is_session_expired_past() {
    let session = sample_session("2000-01-01T00:00:00Z");
    assert_eq!(is_session_expired(&session), Some(true));
}

#[test]
fn is_session_expired_future() {
    let session = sample_session("2099-01-01T00:00:00Z");
    assert_eq!(is_session_expired(&session), Some(false));
}

#[test]
fn expiry_at_the_same_instant_counts_as_expired() {
    let session = sample_session("2030-06-01T12:00:00Z");
    assert!(is_expired_at(&session, timestamp_of("2030-06-01T12:00:00Z")));
    assert!(!is_expired_at(&session, timestamp_of("2030-06-01T11:59:59.999Z")));
}

#[test]
fn expiry_beyond_the_representable_range_gives_no_session() {
    let resp = AuthTokenResponse {
        access_token: "a".to_string(),
        token_type: "bearer".to_string(),
        expires_in: i64::MAX,
        refresh_token: "r".to_string(),
        user: AuthUserResponse { id: NIL_UUID.to_string(), email: None, user_metadata: None },
    };
    assert!(matches!(session_from_token_response(resp), Err(ClockError::ExpiryOutOfRange)));
}

fn response(expires_in: i64) -> AuthTokenResponse {
    AuthTokenResponse {
        access_token: "a".to_string(),
        token_type: "bearer".to_string(),
        expires_in,
        refresh_token: "r".to_string(),
        user: AuthUserResponse { id: NIL_UUID.to_string(), email: None, user_metadata: None },
    }
}

#[test]
fn session_at_adds_the_lifetime_to_the_reading() {
    let now = timestamp_of("2030-06-01T12:00:00.250Z");
    let s = session_at(response(3600), now).unwrap();
    assert_eq!(s.expires_at, timestamp_of("2030-06-01T13:00:00.250Z"));
    assert_eq!(s.access_token, "a");
    assert_eq!(s.user.email, "");
}

#[test]
fn session_at_refuses_an_expiry_beyond_chrono() {
    let now = Timestamp { secs: MAX_TIMESTAMP - 10, nanos: 0 };
    assert!(session_at(response(10), now).is_ok());
    assert!(matches!(session_at(response(11), now), Err(ClockError::ExpiryOutOfRange)));
    let early = Timestamp { secs: MIN_TIMESTAMP + 5, nanos: 0 };
    assert!(matches!(session_at(response(-6), early), Err(ClockError::ExpiryOutOfRange)));
}

#[test]
fn timestamp_limits_are_chronos() {
    assert!(DateTime::from_timestamp(MAX_TIMESTAMP, 0).is_some());
    assert!(DateTime::from_timestamp(MAX_TIMESTAMP + 1, 0).is_none());
    assert!(DateTime::from_timestamp(MIN_TIMESTAMP, 0).is_some());
    assert!(DateTime::from_timestamp(MIN_TIMESTAMP - 1, 0).is_none());
}

#[test]
fn a_session_received_now_expires_later() {
    let s = session_from_token_response(response(3600)).unwrap();
    assert_eq!(is_session_expired(&s), Some(false));
}
