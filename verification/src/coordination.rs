//! The coordination-channel tools (`team_post` and the plus tool): the
//! handlers' state and the rate limit that decides whether a post may go out.
use vstd::prelude::*;

use crate::text::{push_signed_decimal, signed_decimal};

verus! {

/// Minimum seconds between consecutive `team_post` calls.
pub const TEAM_POST_RATE_LIMIT_SECS: i64 = 30;

/// Minimum seconds between consecutive plus-tool posts.
pub const PLUS_TOOL_RATE_LIMIT_SECS: i64 = 2;

/// The reply when a call carries no function payload.
pub const FUNCTION_PAYLOAD_REQUIRED: &'static str = "team_post requires Function payload";

/// The reply when the session has no coordination database.
pub const COORDINATION_DISABLED: &'static str = "Coordination is not enabled for this session.";

/// The reply after a successful post.
pub const MESSAGE_POSTED: &'static str = "Message posted to coordination channel.";

/// One post request to a rate-limited channel, as values: the last-post
/// time after it, whether the post was sent to the database, the reply and
/// whether it reports success. A request within `limit` seconds of the last
/// post is answered with the wait and sends nothing; otherwise the post is
/// sent, and its `outcome` (the database's error text, if any) decides the
/// reply; only a post that went through moves the last-post time to `now`.
pub open spec fn post_turn(last: i64, now: i64, limit: i64, outcome: Result<(), Seq<char>>) -> (i64, bool, Seq<char>, bool) {
    if now - last < limit {
        (last, false, rate_limited_text(limit - (now - last)), false)
    } else {
        match outcome {
            Ok(_) => (now, true, MESSAGE_POSTED@, true),
            Err(e) => (last, true, "Failed to post message: "@ + e, false),
        }
    }
}

/// Whether a post at `now` stays within `i64` arithmetic.
pub open spec fn post_in_range(last: i64, now: i64, limit: i64) -> bool {
    &&& i64::MIN <= now - last <= i64::MAX
    &&& limit - (now - last) <= i64::MAX
}

/// The reply to a post request that must wait, or `None` when the post may
/// be sent now (the first half of a post turn).
fn rate_limited_reply(last: i64, now: i64, limit: i64) -> (r: Option<(String, bool)>)
    requires
        post_in_range(last, now, limit),
    ensures
        (now - last < limit) == r is Some,
        r matches Some(p) ==> p.0@ == post_turn(last, now, limit, Ok(())).2 && p.1 == false,
{
    match post_step(last, now, limit).1 {
        Some(wait) => Some((rate_limited_message(wait), false)),
        None => None,
    }
}

/// The reply to a post that was sent (the second half of a post turn), and
/// the last-post time after it.
fn sent_reply(last: i64, now: i64, outcome: Result<(), String>) -> (r: (i64, String, bool))
    ensures
        match outcome {
            Ok(_) => r.0 == now && r.1@ == MESSAGE_POSTED@ && r.2,
            Err(e) => r.0 == last && r.1@ == "Failed to post message: "@ + e@ && !r.2,
        },
{
    match outcome {
        Ok(()) => (now, String::from_str(MESSAGE_POSTED), true),
        Err(e) => (last, failed_post_message(e.as_str()), false),
    }
}

/// The result of a post request as the exec functions give it, as values.
pub open spec fn result_view(outcome: Result<(), String>) -> Result<(), Seq<char>> {
    match outcome {
        Ok(_) => Ok(()),
        Err(e) => Err(e@),
    }
}

/// Law: a post request sends nothing while rate limited, and the last-post
/// time moves (to `now`) only when a post was sent and went through.
pub proof fn law_last_post_moves_only_on_success(last: i64, now: i64, limit: i64, outcome: Result<(), Seq<char>>)
    ensures
        now - last < limit ==> !post_turn(last, now, limit, outcome).1 && post_turn(last, now, limit, outcome).0 == last,
        post_turn(last, now, limit, outcome).0 != last ==> now - last >= limit && outcome is Ok
            && post_turn(last, now, limit, outcome).0 == now,
        post_turn(last, now, limit, outcome).3 <==> (now - last >= limit && outcome is Ok),
{
}


/// The handler of `team_post`.
pub struct TeamPostHandler {
    /// Unix timestamp of the last successful post (0 = never).
    last_post_at: i64,
}

impl TeamPostHandler {
    /// When the handler last posted (0 when it never did).
    pub closed spec fn last_post_view(&self) -> i64 {
        self.last_post_at
    }

    /// A handler that has never posted.
    pub fn new() -> (h: Self)
        ensures
            h.last_post_view() == 0,
    {
        TeamPostHandler { last_post_at: 0 }
    }

    /// When the handler last posted (0 when it never did).
    pub fn last_post_at(&self) -> (t: i64)
        ensures
            t == self.last_post_view(),
    {
        self.last_post_at
    }

    /// Records a post that went out at `now`.
    pub fn record_post(&mut self, now: i64)
        ensures
            final(self).last_post_view() == now,
    {
        self.last_post_at = now;
    }

    /// The wait before a post at `now` may go out (`TEAM_POST_RATE_LIMIT_SECS`
    /// after the last one), or `None` when it may go out now.
    pub fn wait_before_post(&self, now: i64) -> (w: Option<i64>)
        requires
            i64::MIN <= now - self.last_post_view() <= i64::MAX,
            TEAM_POST_RATE_LIMIT_SECS - (now - self.last_post_view()) <= i64::MAX,
        ensures
            w == post_step_spec(self.last_post_view(), now, TEAM_POST_RATE_LIMIT_SECS).1,
    {
        post_step(self.last_post_at, now, TEAM_POST_RATE_LIMIT_SECS).1
    }

    /// The first half of a post request at `now`: the reply when it must
    /// wait (nothing is sent then), or `None` when the post may be sent.
    pub fn begin_post(&self, now: i64) -> (r: Option<(String, bool)>)
        requires
            post_in_range(self.last_post_view(), now, TEAM_POST_RATE_LIMIT_SECS),
        ensures
            r is Some <==> !post_turn(self.last_post_view(), now, TEAM_POST_RATE_LIMIT_SECS, Ok(())).1,
            r matches Some(p) ==> p.0@ == post_turn(self.last_post_view(), now, TEAM_POST_RATE_LIMIT_SECS, Ok(())).2 && p.1
                == post_turn(self.last_post_view(), now, TEAM_POST_RATE_LIMIT_SECS, Ok(())).3,
    {
        rate_limited_reply(self.last_post_at, now, TEAM_POST_RATE_LIMIT_SECS)
    }

    /// The second half of a post request at `now` that was sent: the reply
    /// for the database's `outcome`; a post that went through becomes the
    /// last one.
    pub fn finish_post(&mut self, now: i64, outcome: Result<(), String>) -> (r: (String, bool))
        requires
            post_in_range(old(self).last_post_view(), now, TEAM_POST_RATE_LIMIT_SECS),
            now - old(self).last_post_view() >= TEAM_POST_RATE_LIMIT_SECS,
        ensures
            final(self).last_post_view() == post_turn(old(self).last_post_view(), now, TEAM_POST_RATE_LIMIT_SECS, result_view(outcome)).0,
            r.0@ == post_turn(old(self).last_post_view(), now, TEAM_POST_RATE_LIMIT_SECS, result_view(outcome)).2,
            r.1 == post_turn(old(self).last_post_view(), now, TEAM_POST_RATE_LIMIT_SECS, result_view(outcome)).3,
    {
        let (last, reply, ok) = sent_reply(self.last_post_at, now, outcome);
        self.last_post_at = last;
        (reply, ok)
    }
}

/// The handler of the plus tool.
pub struct PlusToolHandler {
    /// Unix timestamp of the last successful post (0 = never).
    last_post_at: i64,
}

impl PlusToolHandler {
    /// When the handler last posted (0 when it never did).
    pub closed spec fn last_post_view(&self) -> i64 {
        self.last_post_at
    }

    /// A handler that has never posted.
    pub fn new() -> (h: Self)
        ensures
            h.last_post_view() == 0,
    {
        PlusToolHandler { last_post_at: 0 }
    }

    /// When the handler last posted (0 when it never did).
    pub fn last_post_at(&self) -> (t: i64)
        ensures
            t == self.last_post_view(),
    {
        self.last_post_at
    }

    /// Records a post that went out at `now`.
    pub fn record_post(&mut self, now: i64)
        ensures
            final(self).last_post_view() == now,
    {
        self.last_post_at = now;
    }

    /// The wait before a post at `now` may go out (`PLUS_TOOL_RATE_LIMIT_SECS`
    /// after the last one), or `None` when it may go out now.
    pub fn wait_before_post(&self, now: i64) -> (w: Option<i64>)
        requires
            i64::MIN <= now - self.last_post_view() <= i64::MAX,
            PLUS_TOOL_RATE_LIMIT_SECS - (now - self.last_post_view()) <= i64::MAX,
        ensures
            w == post_step_spec(self.last_post_view(), now, PLUS_TOOL_RATE_LIMIT_SECS).1,
    {
        post_step(self.last_post_at, now, PLUS_TOOL_RATE_LIMIT_SECS).1
    }

    /// The first half of a post request at `now`: the reply when it must
    /// wait (nothing is sent then), or `None` when the post may be sent.
    pub fn begin_post(&self, now: i64) -> (r: Option<(String, bool)>)
        requires
            post_in_range(self.last_post_view(), now, PLUS_TOOL_RATE_LIMIT_SECS),
        ensures
            r is Some <==> !post_turn(self.last_post_view(), now, PLUS_TOOL_RATE_LIMIT_SECS, Ok(())).1,
            r matches Some(p) ==> p.0@ == post_turn(self.last_post_view(), now, PLUS_TOOL_RATE_LIMIT_SECS, Ok(())).2 && p.1
                == post_turn(self.last_post_view(), now, PLUS_TOOL_RATE_LIMIT_SECS, Ok(())).3,
    {
        rate_limited_reply(self.last_post_at, now, PLUS_TOOL_RATE_LIMIT_SECS)
    }

    /// The second half of a post request at `now` that was sent: the reply
    /// for the database's `outcome`; a post that went through becomes the
    /// last one.
    pub fn finish_post(&mut self, now: i64, outcome: Result<(), String>) -> (r: (String, bool))
        requires
            post_in_range(old(self).last_post_view(), now, PLUS_TOOL_RATE_LIMIT_SECS),
            now - old(self).last_post_view() >= PLUS_TOOL_RATE_LIMIT_SECS,
        ensures
            final(self).last_post_view() == post_turn(old(self).last_post_view(), now, PLUS_TOOL_RATE_LIMIT_SECS, result_view(outcome)).0,
            r.0@ == post_turn(old(self).last_post_view(), now, PLUS_TOOL_RATE_LIMIT_SECS, result_view(outcome)).2,
            r.1 == post_turn(old(self).last_post_view(), now, PLUS_TOOL_RATE_LIMIT_SECS, result_view(outcome)).3,
    {
        let (last, reply, ok) = sent_reply(self.last_post_at, now, outcome);
        self.last_post_at = last;
        (reply, ok)
    }
}

/// A post attempted at `now` after the last one at `last`, with at least
/// `limit` seconds between posts: within the limit it waits out the rest and
/// the last-post time stays; otherwise it goes out and `now` becomes the
/// last-post time.
pub open spec fn post_step_spec(last: i64, now: i64, limit: i64) -> (i64, Option<i64>) {
    if now - last < limit {
        (last, Some((limit - (now - last)) as i64))
    } else {
        (now, None)
    }
}

/// What a post attempted at `now` comes to: the last-post time after it
/// and the wait, if it has to wait.
pub fn post_step(last: i64, now: i64, limit: i64) -> (r: (i64, Option<i64>))
    requires
        i64::MIN <= now - last <= i64::MAX,
        now - last < limit ==> i64::MIN <= limit - (now - last) <= i64::MAX,
    ensures
        r == post_step_spec(last, now, limit),
        r.1 is Some ==> r.1->Some_0 == limit - (now - last),
{
    let elapsed = now - last;
    if elapsed < limit {
        (last, Some(limit - elapsed))
    } else {
        (now, None)
    }
}

/// How many seconds remain before the next post is allowed, if any: a post
/// within `limit` seconds of the last one must wait out the rest.
pub open spec fn rate_limit_wait_spec(now: int, last: int, limit: int) -> Option<int> {
    if now - last < limit {
        Some(limit - (now - last))
    } else {
        None
    }
}

/// The wait before a post at `now` may go out, or `None` when it may go out
/// now. The arithmetic is `i64` arithmetic that must not overflow.
pub fn rate_limit_wait(now: i64, last: i64, limit: i64) -> (w: Option<i64>)
    requires
        i64::MIN <= now - last <= i64::MAX,
        now - last < limit ==> i64::MIN <= limit - (now - last) <= i64::MAX,
    ensures
        match w {
            Some(wait) => rate_limit_wait_spec(now as int, last as int, limit as int) == Some(wait as int),
            None => rate_limit_wait_spec(now as int, last as int, limit as int) is None,
        },
{
    let elapsed = now - last;
    if elapsed < limit {
        Some(limit - elapsed)
    } else {
        None
    }
}

/// The reply to a post that has to wait `wait` more seconds.
pub open spec fn rate_limited_text(wait: int) -> Seq<char> {
    "Rate limited \u{2014} wait "@ + signed_decimal(wait) + " seconds before posting again."@
}

/// The reply to a post that has to wait.
pub fn rate_limited_message(wait: i64) -> (s: String)
    ensures
        s@ == rate_limited_text(wait as int),
{
    let mut s = String::from_str("Rate limited \u{2014} wait ");
    push_signed_decimal(&mut s, wait);
    s.append(" seconds before posting again.");
    s
}

/// The reply when the coordination database refused the post.
pub fn failed_post_message(error: &str) -> (s: String)
    ensures
        s@ == "Failed to post message: "@ + error@,
{
    let mut s = String::from_str("Failed to post message: ");
    s.append(error);
    s
}

} // verus!
