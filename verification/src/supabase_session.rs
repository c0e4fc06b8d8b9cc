//! A signed-in Supabase session: what the Auth service's token answer turns
//! into, and when the session runs out.
use vstd::prelude::*;

use crate::document::opt_view;

verus! {

/// The earliest second since the Unix epoch that chrono's `DateTime<Utc>`
/// holds (1 January of year -262143).
pub const MIN_TIMESTAMP: i64 = -8334601228800;

/// The latest second since the Unix epoch that chrono's `DateTime<Utc>`
/// holds (31 December of year 262142, at 23:59:59).
pub const MAX_TIMESTAMP: i64 = 8210266876799;

/// An instant: whole seconds since the Unix epoch and the nanoseconds into
/// that second (from one billion on during a leap second), as chrono's
/// `timestamp` and `timestamp_subsec_nanos` give them.
#[derive(Clone, Copy, Debug, PartialEq, Eq, Structural)]
pub struct Timestamp {
    pub secs: i64,
    pub nanos: u32,
}

/// Whether instant `a` is at or before instant `b`.
pub open spec fn at_or_before(a: Timestamp, b: Timestamp) -> bool {
    a.secs < b.secs || (a.secs == b.secs && a.nanos <= b.nanos)
}

/// A reading of the clock: not before the Unix epoch, within chrono's
/// range, no leap second.
pub open spec fn clock_reading(t: Timestamp) -> bool {
    0 <= t.secs <= MAX_TIMESTAMP && t.nanos < 1_000_000_000
}

/// The system clock's reading measured from the Unix epoch: std's
/// `UNIX_EPOCH.elapsed()`, as whole seconds and the nanoseconds into the
/// second. `None` where the clock reads before the epoch (`elapsed` then
/// fails). Which reading comes back, nothing states; the nanoseconds are
/// below one billion, as `Duration::subsec_nanos` documents.
#[verifier::external_body]
fn time_since_epoch() -> (r: Option<(u64, u32)>)
    ensures
        r matches Some((secs, nanos)) ==> nanos < 1_000_000_000,
{
    match std::time::UNIX_EPOCH.elapsed() {
        Ok(d) => Some((d.as_secs(), d.subsec_nanos())),
        Err(_) => None,
    }
}

/// The instant `secs` seconds and `nanos` nanoseconds after the Unix epoch,
/// as chrono builds it with `DateTime::from_timestamp` and gives it back with
/// `timestamp` and `timestamp_subsec_nanos`: `None` where the second lies
/// outside chrono's range of years.
#[verifier::external_body]
fn chrono_instant(secs: i64, nanos: u32) -> (r: Option<Timestamp>)
    requires
        nanos < 1_000_000_000,
    ensures
        r == (if MIN_TIMESTAMP <= secs <= MAX_TIMESTAMP {
            Some(Timestamp { secs, nanos })
        } else {
            None
        }),
{
    let t = chrono::DateTime::from_timestamp(secs, nanos)?;
    Some(Timestamp { secs: t.timestamp(), nanos: t.timestamp_subsec_nanos() })
}

/// Reads the clock as an instant; `None` where the system clock is set
/// before the epoch or beyond chrono's range.
fn utc_now() -> (r: Option<Timestamp>)
    ensures
        r matches Some(t) ==> clock_reading(t),
{
    let (secs, nanos) = match time_since_epoch() {
        Some(reading) => reading,
        None => return None,
    };
    if secs > 9_223_372_036_854_775_807u64 {
        return None;
    }
    chrono_instant(secs as i64, nanos)
}

/// Why no session time could be worked out.
#[derive(Debug, Clone, Copy, PartialEq, Eq, Structural)]
pub enum ClockError {
    /// The system clock could not be read (set before 1970 or beyond
    /// chrono's range).
    ClockUnavailable,
    /// The expiry would lie beyond what chrono can hold.
    ExpiryOutOfRange,
}

/// The account a session belongs to.
#[derive(Debug, Clone)]
pub struct SupabaseUser {
    pub id: String,
    pub email: String,
    pub display_name: Option<String>,
}

/// A signed-in session: its tokens, when it runs out, and its account.
#[derive(Debug, Clone)]
pub struct SupabaseSession {
    pub access_token: String,
    pub refresh_token: String,
    pub expires_at: Timestamp,
    pub user: SupabaseUser,
}

/// A value of the account's metadata, as far as a name is read from it.
#[derive(Debug, Clone)]
pub enum MetadataValue {
    Text(String),
    NotText,
}

/// The entries of the account's metadata that a display name is read from;
/// `None` where the entry is absent.
#[derive(Debug, Clone)]
pub struct UserMetadata {
    pub full_name: Option<MetadataValue>,
    pub name: Option<MetadataValue>,
}

/// The account in a token answer.
#[derive(Debug, Clone)]
pub struct AuthUserResponse {
    pub id: String,
    pub email: Option<String>,
    pub user_metadata: Option<UserMetadata>,
}

/// The Auth service's answer to a code exchange or a refresh.
#[derive(Debug, Clone)]
pub struct AuthTokenResponse {
    pub access_token: String,
    pub token_type: String,
    pub expires_in: i64,
    pub refresh_token: String,
    pub user: AuthUserResponse,
}

/// The display name in the account's metadata: its `full_name` entry when
/// present (otherwise `name`), if that entry is text.
pub open spec fn display_name_of(meta: Option<UserMetadata>) -> Option<Seq<char>> {
    match meta {
        None => None,
        Some(m) => match (if m.full_name is Some {
            m.full_name
        } else {
            m.name
        }) {
            Some(MetadataValue::Text(s)) => Some(s@),
            _ => None,
        },
    }
}

/// Whether a token answer received at `now` can be turned into a session:
/// the expiry lies within chrono's range.
pub open spec fn expiry_in_range(now: Timestamp, expires_in: i64) -> bool {
    &&& MIN_TIMESTAMP <= now.secs <= MAX_TIMESTAMP
    &&& now.nanos < 1_000_000_000
    &&& MIN_TIMESTAMP <= now.secs + expires_in <= MAX_TIMESTAMP
}

/// `s` is the session of token answer `resp` received at `now`: its tokens,
/// an expiry `expires_in` seconds after `now`, the account's id, email (empty
/// when absent) and display name.
pub open spec fn session_of(resp: AuthTokenResponse, now: Timestamp, s: SupabaseSession) -> bool {
    &&& s.access_token@ == resp.access_token@
    &&& s.refresh_token@ == resp.refresh_token@
    &&& s.expires_at.secs == now.secs + resp.expires_in
    &&& s.expires_at.nanos == now.nanos
    &&& s.user.id@ == resp.user.id@
    &&& s.user.email@ == (match resp.user.email {
        Some(e) => e@,
        None => Seq::<char>::empty(),
    })
    &&& opt_view(s.user.display_name) == display_name_of(resp.user.user_metadata)
}

/// The session of a token answer received at `now`.
pub fn token_response_to_session(resp: AuthTokenResponse, now: Timestamp) -> (r: SupabaseSession)
    requires
        expiry_in_range(now, resp.expires_in),
    ensures
        session_of(resp, now, r),
{
    let display_name = match &resp.user.user_metadata {
        None => None,
        Some(m) => {
            let entry = if m.full_name.is_some() {
                &m.full_name
            } else {
                &m.name
            };
            match entry {
                Some(MetadataValue::Text(s)) => Some(s.clone()),
                _ => None,
            }
        },
    };
    let email = match &resp.user.email {
        Some(e) => e.clone(),
        None => String::new(),
    };
    let expires_at = Timestamp { secs: now.secs + resp.expires_in, nanos: now.nanos };
    SupabaseSession {
        access_token: resp.access_token.clone(),
        refresh_token: resp.refresh_token.clone(),
        expires_at,
        user: SupabaseUser { id: resp.user.id.clone(), email, display_name },
    }
}

/// The session of a token answer received at `now`: an error where the
/// expiry (or `now` itself) would lie outside what chrono can hold.
pub fn session_at(resp: AuthTokenResponse, now: Timestamp) -> (r: Result<SupabaseSession, ClockError>)
    ensures
        expiry_in_range(now, resp.expires_in) ==> (r matches Ok(s) && session_of(resp, now, s)),
        !expiry_in_range(now, resp.expires_in) ==> r == Err::<SupabaseSession, ClockError>(
            ClockError::ExpiryOutOfRange,
        ),
{
    if MIN_TIMESTAMP <= now.secs && now.secs <= MAX_TIMESTAMP && now.nanos < 1_000_000_000
        && resp.expires_in <= MAX_TIMESTAMP - now.secs && resp.expires_in >= MIN_TIMESTAMP - now.secs {
        let s = token_response_to_session(resp, now);
        Ok(s)
    } else {
        Err(ClockError::ExpiryOutOfRange)
    }
}

/// The session of a token answer received now; an error when the clock
/// cannot be read, or when the expiry would lie beyond what chrono can hold.
pub fn session_from_token_response(resp: AuthTokenResponse) -> (r: Result<SupabaseSession, ClockError>)
    ensures
        match r {
            Ok(s) => exists|now: Timestamp| clock_reading(now) && #[trigger] session_of(resp, now, s),
            Err(ClockError::ExpiryOutOfRange) => exists|now: Timestamp| clock_reading(now) && !#[trigger] expiry_in_range(now, resp.expires_in),
            Err(ClockError::ClockUnavailable) => true,
        },
{
    let now = match utc_now() {
        Some(t) => t,
        None => return Err(ClockError::ClockUnavailable),
    };
    let r = session_at(resp, now);
    proof {
        if r is Ok {
            assert(session_of(resp, now, r->Ok_0));
        } else {
            assert(!expiry_in_range(now, resp.expires_in));
        }
    }
    r
}

/// Whether the session has run out at instant `now`: its expiry is at or
/// before `now`.
pub fn is_expired_at(session: &SupabaseSession, now: Timestamp) -> (r: bool)
    ensures
        r == at_or_before(session.expires_at, now),
{
    session.expires_at.secs < now.secs || (session.expires_at.secs == now.secs
        && session.expires_at.nanos <= now.nanos)
}

/// Whether the session has run out now; `None` when the clock cannot be
/// read.
pub fn is_session_expired(session: &SupabaseSession) -> (r: Option<bool>)
    ensures
        r matches Some(b) ==> exists|now: Timestamp| clock_reading(now) && b == #[trigger] at_or_before(session.expires_at, now),
{
    let now = match utc_now() {
        Some(t) => t,
        None => return None,
    };
    let r = is_expired_at(session, now);
    assert(r == at_or_before(session.expires_at, now));
    Some(r)
}

} // verus!
