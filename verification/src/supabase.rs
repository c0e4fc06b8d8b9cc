//! The Supabase project a session talks to: its endpoint URLs, the request
//! bodies of the sign-in flow, and the errors it reports.
use vstd::prelude::*;

use crate::attachments::trim_trailing_slashes;
use crate::text::{chars_of, decimal, push_chars, push_decimal};

verus! {

/// A Supabase project: its URL (without trailing slashes) and anon key.
#[derive(Debug, Clone)]
pub struct SupabaseClient {
    base_url: String,
    anon_key: String,
}

/// `s` without leading slashes.
pub open spec fn trim_leading_slashes(s: Seq<char>) -> Seq<char>
    decreases s.len(),
{
    if s.len() > 0 && s[0] == '/' {
        trim_leading_slashes(s.drop_first())
    } else {
        s
    }
}

/// The URL of an endpoint under a service path of the project.
pub open spec fn endpoint_url(base: Seq<char>, service: Seq<char>, path: Seq<char>) -> Seq<char> {
    base + service + trim_leading_slashes(path)
}

/// The characters of `v` after its leading slashes.
fn after_leading_slashes(v: &[char]) -> (r: Vec<char>)
    ensures
        r@ == trim_leading_slashes(v@),
{
    let mut k: usize = 0;
    assert(v@.skip(0) =~= v@);
    while k < v.len() && v[k] == '/'
        invariant
            k <= v@.len(),
            trim_leading_slashes(v@) == trim_leading_slashes(v@.skip(k as int)),
        decreases v@.len() - k,
    {
        assert(v@.skip(k as int).drop_first() =~= v@.skip(k + 1));
        k = k + 1;
    }
    crate::text::skip_copy(v, k)
}

impl SupabaseClient {
    /// The project's URL.
    pub closed spec fn base_url_view(&self) -> Seq<char> {
        self.base_url@
    }

    /// The project's anon key.
    pub closed spec fn anon_key_view(&self) -> Seq<char> {
        self.anon_key@
    }

    /// A client for the project at `base_url` (trailing slashes are
    /// stripped) with its anon key.
    pub fn new(base_url: &str, anon_key: &str) -> (r: Self)
        ensures
            r.base_url_view() == trim_trailing_slashes(base_url@),
            r.anon_key_view() == anon_key@,
    {
        let ghost orig = base_url@;
        let mut v = chars_of(base_url);
        while v.len() > 0 && v[v.len() - 1] == '/'
            invariant
                trim_trailing_slashes(v@) == trim_trailing_slashes(orig),
            decreases v@.len(),
        {
            v.pop();
        }
        let mut base = String::new();
        push_chars(&mut base, v.as_slice());
        assert(base@ =~= v@);
        SupabaseClient { base_url: base, anon_key: String::from_str(anon_key) }
    }

    fn url_under(&self, service: &str, path: &str) -> (r: String)
        ensures
            r@ == endpoint_url(self.base_url_view(), service@, path@),
    {
        let mut out = self.base_url.clone();
        out.append(service);
        let p = chars_of(path);
        let rest = after_leading_slashes(p.as_slice());
        push_chars(&mut out, rest.as_slice());
        out
    }

    /// The URL of an Auth endpoint: `{base}/auth/v1/{path}`, leading slashes
    /// of `path` dropped.
    pub fn auth_url(&self, path: &str) -> (r: String)
        ensures
            r@ == endpoint_url(self.base_url_view(), "/auth/v1/"@, path@),
    {
        self.url_under("/auth/v1/", path)
    }

    /// The URL of a REST endpoint: `{base}/rest/v1/{path}`, leading slashes
    /// of `path` dropped.
    pub fn rest_url(&self, path: &str) -> (r: String)
        ensures
            r@ == endpoint_url(self.base_url_view(), "/rest/v1/"@, path@),
    {
        self.url_under("/rest/v1/", path)
    }

    /// The project's URL.
    pub fn base_url(&self) -> (r: &str)
        ensures
            r@ == self.base_url_view(),
    {
        self.base_url.as_str()
    }

    /// The project's anon key.
    pub fn anon_key(&self) -> (r: &str)
        ensures
            r@ == self.anon_key_view(),
    {
        self.anon_key.as_str()
    }
}

/// The body of a request for a sign-in code by email.
#[derive(Debug)]
pub struct OtpRequest {
    pub email: String,
}

/// The body of a request exchanging an emailed code for a session.
#[derive(Debug)]
pub struct VerifyOtpRequest {
    pub email: String,
    pub token: String,
    pub otp_type: String,
}

/// The body of a request refreshing a session.
#[derive(Debug)]
pub struct RefreshTokenRequest {
    pub refresh_token: String,
}

/// Authentication against a project's Auth service.
#[derive(Debug, Clone)]
pub struct SupabaseAuth {
    client: SupabaseClient,
}

impl SupabaseAuth {
    /// The project the authentication talks to.
    pub closed spec fn client_view(&self) -> SupabaseClient {
        self.client
    }

    pub fn new(client: SupabaseClient) -> (r: Self)
        ensures
            r.client_view() == client,
    {
        SupabaseAuth { client }
    }

    /// The project the authentication talks to.
    pub fn client(&self) -> (r: &SupabaseClient)
        ensures
            *r == self.client_view(),
    {
        &self.client
    }

    /// Where and what to post to have a sign-in code emailed.
    pub fn sign_in_with_otp_request(&self, email: &str) -> (r: (String, OtpRequest))
        ensures
            r.0@ == endpoint_url(self.client_view().base_url_view(), "/auth/v1/"@, "otp"@),
            r.1.email@ == email@,
    {
        (self.client.auth_url("otp"), OtpRequest { email: String::from_str(email) })
    }

    /// Where and what to post to exchange an emailed code for a session.
    pub fn exchange_code_request(&self, email: &str, code: &str) -> (r: (String, VerifyOtpRequest))
        ensures
            r.0@ == endpoint_url(self.client_view().base_url_view(), "/auth/v1/"@, "verify"@),
            r.1.email@ == email@,
            r.1.token@ == code@,
            r.1.otp_type@ == "email"@,
    {
        (
            self.client.auth_url("verify"),
            VerifyOtpRequest {
                email: String::from_str(email),
                token: String::from_str(code),
                otp_type: String::from_str("email"),
            },
        )
    }

    /// Where and what to post to refresh a session.
    pub fn refresh_session_request(&self, refresh_token: &str) -> (r: (String, RefreshTokenRequest))
        ensures
            r.0@ == endpoint_url(
                self.client_view().base_url_view(),
                "/auth/v1/"@,
                "token?grant_type=refresh_token"@,
            ),
            r.1.refresh_token@ == refresh_token@,
    {
        (
            self.client.auth_url("token?grant_type=refresh_token"),
            RefreshTokenRequest { refresh_token: String::from_str(refresh_token) },
        )
    }

    /// Where to post to sign a session out.
    pub fn sign_out_url(&self) -> (r: String)
        ensures
            r@ == endpoint_url(self.client_view().base_url_view(), "/auth/v1/"@, "logout"@),
    {
        self.client.auth_url("logout")
    }
}

/// What a Supabase operation can fail with; the HTTP and parse failures
/// carry their error's text.
#[derive(Debug)]
pub enum SupabaseError {
    Http(String),
    Api { status: u16, message: String },
    Parse(String),
    NoSession,
    SessionExpired,
    Other(String),
}

/// The text of an error.
pub open spec fn error_text(e: SupabaseError) -> Seq<char> {
    match e {
        SupabaseError::Http(m) => "HTTP request failed: "@ + m@,
        SupabaseError::Api { status, message } => "Supabase API error ("@ + decimal(status as nat) + "): "@
            + message@,
        SupabaseError::Parse(m) => "Failed to parse response: "@ + m@,
        SupabaseError::NoSession => "No active session"@,
        SupabaseError::SessionExpired => "Session expired"@,
        SupabaseError::Other(m) => m@,
    }
}

impl SupabaseError {
    /// An error answer of the API: its HTTP status and body.
    pub fn api(status: u16, message: String) -> (r: Self)
        ensures
            r matches SupabaseError::Api { status: s, message: m } && s == status && m@ == message@,
    {
        SupabaseError::Api { status, message }
    }

    /// The error's text.
    pub fn to_message(&self) -> (r: String)
        ensures
            r@ == error_text(*self),
    {
        match self {
            SupabaseError::Http(m) => {
                let mut r = String::from_str("HTTP request failed: ");
                r.append(m.as_str());
                r
            },
            SupabaseError::Api { status, message } => {
                let mut r = String::from_str("Supabase API error (");
                push_decimal(&mut r, *status as u64);
                r.append("): ");
                r.append(message.as_str());
                r
            },
            SupabaseError::Parse(m) => {
                let mut r = String::from_str("Failed to parse response: ");
                r.append(m.as_str());
                r
            },
            SupabaseError::NoSession => String::from_str("No active session"),
            SupabaseError::SessionExpired => String::from_str("Session expired"),
            SupabaseError::Other(m) => m.clone(),
        }
    }
}

} // verus!
