use codex_core::coordination::{
    failed_post_message, post_step, rate_limit_wait, rate_limited_message, PlusToolHandler, TeamPostHandler,
    PLUS_TOOL_RATE_LIMIT_SECS, TEAM_POST_RATE_LIMIT_SECS,
};

#[test]
fn new_handlers_have_never_posted() {
    assert_eq!(TeamPostHandler::new().last_post_at(), 0);
    assert_eq!(PlusToolHandler::new().last_post_at(), 0);
    assert_eq!(TeamPostHandler::new().wait_before_post(1_700_000_000), None);
    assert_eq!(PlusToolHandler::new().wait_before_post(2), None);
}

#[test]
fn recorded_posts_rate_limit_the_next_one() {
    let mut team = TeamPostHandler::new();
    team.record_post(1_000);
    assert_eq!(team.last_post_at(), 1_000);
    assert_eq!(team.wait_before_post(1_010), Some(20));
    assert_eq!(team.wait_before_post(1_030), None);
    let mut plus = PlusToolHandler::new();
    plus.record_post(500);
    assert_eq!(plus.wait_before_post(501), Some(1));
    assert_eq!(plus.wait_before_post(502), None);
}

#[test]
fn post_step_keeps_or_moves_the_last_post_time() {
    assert_eq!(post_step(990, 1_000, TEAM_POST_RATE_LIMIT_SECS), (990, Some(20)));
    assert_eq!(post_step(970, 1_000, TEAM_POST_RATE_LIMIT_SECS), (1_000, None));
}

#[test]
fn posts_within_the_limit_wait_out_the_rest() {
    assert_eq!(rate_limit_wait(1_000, 990, TEAM_POST_RATE_LIMIT_SECS), Some(20));
    assert_eq!(rate_limit_wait(1_000, 970, TEAM_POST_RATE_LIMIT_SECS), None);
    assert_eq!(rate_limit_wait(1_000, 999, PLUS_TOOL_RATE_LIMIT_SECS), Some(1));
    assert_eq!(rate_limit_wait(1_000, 998, PLUS_TOOL_RATE_LIMIT_SECS), None);
    assert_eq!(rate_limit_wait(1_700_000_000, 0, TEAM_POST_RATE_LIMIT_SECS), None);
}

#[test]
fn messages() {
    assert_eq!(rate_limited_message(20), "Rate limited — wait 20 seconds before posting again.");
    assert_eq!(failed_post_message("db down"), "Failed to post message: db down");
}

#[test]
fn a_post_turn_records_only_successful_posts() {
    let mut team = TeamPostHandler::new();
    team.record_post(1_000);
    assert_eq!(
        team.begin_post(1_010),
        Some(("Rate limited — wait 20 seconds before posting again.".to_string(), false))
    );
    assert_eq!(team.last_post_at(), 1_000);
    assert_eq!(team.begin_post(1_040), None);
    assert_eq!(
        team.finish_post(1_040, Err("db down".to_string())),
        ("Failed to post message: db down".to_string(), false)
    );
    assert_eq!(team.last_post_at(), 1_000);
    assert_eq!(
        team.finish_post(1_041, Ok(())),
        ("Message posted to coordination channel.".to_string(), true)
    );
    assert_eq!(team.last_post_at(), 1_041);

    let mut plus = PlusToolHandler::new();
    assert_eq!(plus.begin_post(10), None);
    assert_eq!(plus.finish_post(10, Ok(())).1, true);
    assert!(plus.begin_post(11).is_some());
}
