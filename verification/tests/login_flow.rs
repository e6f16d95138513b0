use vulcan::login::{account_name, next_login_poll_step, next_profile_attempt, LoginPollStep, LoginTokenResponse, ProfileAttempt};

fn reply(access_token: Option<&str>, error: Option<&str>) -> LoginTokenResponse {
    LoginTokenResponse { access_token: access_token.map(String::from), error: error.map(String::from) }
}

#[test]
fn login_poll_steps() {
    assert!(matches!(next_login_poll_step(reply(Some("gho"), None), 5), LoginPollStep::Authorized(t) if t == "gho"));
    assert!(matches!(next_login_poll_step(reply(None, None), 5), LoginPollStep::Wait(5)));
    assert!(matches!(next_login_poll_step(reply(None, Some("authorization_pending")), 5), LoginPollStep::Wait(5)));
    assert!(matches!(next_login_poll_step(reply(None, Some("slow_down")), 5), LoginPollStep::Wait(10)));
    assert!(matches!(next_login_poll_step(reply(None, Some("expired_token")), 5), LoginPollStep::Expired));
    assert!(matches!(next_login_poll_step(reply(Some("gho"), Some("access_denied")), 5), LoginPollStep::Unexpected(e) if e == "access_denied"));
}

#[test]
fn the_profile_lookup_is_tried_three_times() {
    assert!(matches!(next_profile_attempt(false, 0), ProfileAttempt::Fetch { attempt: 1, delay_secs: None }));
    assert!(matches!(next_profile_attempt(false, 1), ProfileAttempt::Fetch { attempt: 2, delay_secs: Some(1) }));
    assert!(matches!(next_profile_attempt(false, 2), ProfileAttempt::Fetch { attempt: 3, delay_secs: Some(2) }));
    assert!(matches!(next_profile_attempt(false, 3), ProfileAttempt::Done));
    assert!(matches!(next_profile_attempt(true, 1), ProfileAttempt::Done));
}

#[test]
fn account_names() {
    assert_eq!(account_name(Some(String::from("octocat"))), "octocat");
    assert_eq!(account_name(None), "vulcan_user");
}
