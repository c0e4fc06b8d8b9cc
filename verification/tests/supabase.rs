use codex_core::supabase::{SupabaseAuth, SupabaseClient, SupabaseError};

#[test]
fn client_strips_trailing_slash() {
    let client = SupabaseClient::new("https://example.supabase.co/", "anon-key-123");
    assert_eq!(client.base_url(), "https://example.supabase.co");
}

#[test]
fn auth_url_building() {
    let client = SupabaseClient::new("https://example.supabase.co", "key");
    assert_eq!(
        client.auth_url("token?grant_type=refresh_token"),
        "https://example.supabase.co/auth/v1/token?grant_type=refresh_token"
    );
    assert_eq!(client.auth_url("/otp"), "https://example.supabase.co/auth/v1/otp");
}

#[test]
fn rest_url_building() {
    let client = SupabaseClient::new("https://example.supabase.co", "key");
    assert_eq!(client.rest_url("profiles"), "https://example.supabase.co/rest/v1/profiles");
    assert_eq!(
        client.rest_url("/devices?user_id=eq.abc"),
        "https://example.supabase.co/rest/v1/devices?user_id=eq.abc"
    );
}

#[test]
fn anon_key_accessor() {
    let client = SupabaseClient::new("https://example.supabase.co", "secret-anon");
    assert_eq!(client.anon_key(), "secret-anon");
}

#[test]
fn supabase_auth_construction() {
    let client = SupabaseClient::new("https://example.supabase.co", "key");
    let auth = SupabaseAuth::new(client);
    assert_eq!(auth.client().base_url(), "https://example.supabase.co");
}

#[test]
fn auth_requests_name_their_endpoints() {
    let auth = SupabaseAuth::new(SupabaseClient::new("https://p.supabase.co//", "key"));
    let (url, body) = auth.sign_in_with_otp_request("user@test.com");
    assert_eq!(url, "https://p.supabase.co/auth/v1/otp");
    assert_eq!(body.email, "user@test.com");
    let (url, body) = auth.exchange_code_request("user@test.com", "123456");
    assert_eq!(url, "https://p.supabase.co/auth/v1/verify");
    assert_eq!((body.email.as_str(), body.token.as_str(), body.otp_type.as_str()), ("user@test.com", "123456", "email"));
    let (url, body) = auth.refresh_session_request("rt_1");
    assert_eq!(url, "https://p.supabase.co/auth/v1/token?grant_type=refresh_token");
    assert_eq!(body.refresh_token, "rt_1");
    assert_eq!(auth.sign_out_url(), "https://p.supabase.co/auth/v1/logout");
}

#[test]
fn error_display() {
    let err = SupabaseError::api(401, "Unauthorized".to_string());
    assert_eq!(err.to_message(), "Supabase API error (401): Unauthorized");
}

#[test]
fn error_no_session() {
    assert_eq!(SupabaseError::NoSession.to_message(), "No active session");
}

#[test]
fn error_session_expired() {
    assert_eq!(SupabaseError::SessionExpired.to_message(), "Session expired");
}

#[test]
fn error_other() {
    let err = SupabaseError::Other("custom error".to_string());
    assert_eq!(err.to_message(), "custom error");
    assert_eq!(SupabaseError::Http("timeout".to_string()).to_message(), "HTTP request failed: timeout");
    assert_eq!(SupabaseError::Parse("eof".to_string()).to_message(), "Failed to parse response: eof");
}
