//! The stand-alone login flow: polling for the device token, retrying the
//! profile lookup, and naming the vault account.

use vstd::prelude::*;
use crate::text::same_text;

verus! {

/// The token endpoint's reply as the login flow reads it.
pub struct LoginTokenResponse {
    /// The access token, when granted.
    pub access_token: Option<String>,
    /// The error code, when there is one.
    pub error: Option<String>,
}

/// What the login flow does after a poll.
pub enum LoginPollStep {
    /// The token was granted.
    Authorized(String),
    /// Wait this many seconds and poll again.
    Wait(u32),
    /// The code expired: restart the login.
    Expired,
    /// An unexpected error code: restart the login.
    Unexpected(String),
}

/// A login poll step with its text as characters.
pub ghost enum LoginPollView {
    Authorized(Seq<char>),
    Wait(u32),
    Expired,
    Unexpected(Seq<char>),
}

impl View for LoginPollStep {
    type V = LoginPollView;

    open spec fn view(&self) -> LoginPollView {
        match self {
            LoginPollStep::Authorized(t) => LoginPollView::Authorized(t@),
            LoginPollStep::Wait(n) => LoginPollView::Wait(*n),
            LoginPollStep::Expired => LoginPollView::Expired,
            LoginPollStep::Unexpected(e) => LoginPollView::Unexpected(e@),
        }
    }
}

/// The next step for a poll reply at the current interval: no error and a
/// token authorises; no error and no token, or a pending code, waits the same
/// interval; a slow-down code waits 5 seconds longer; an expired code restarts;
/// any other code is unexpected.
pub open spec fn login_poll_step(response: LoginTokenResponse, interval: u32) -> LoginPollView {
    match response.error {
        None => match response.access_token {
            Some(token) => LoginPollView::Authorized(token@),
            None => LoginPollView::Wait(interval),
        },
        Some(code) => if code@ == "authorization_pending"@ {
            LoginPollView::Wait(interval)
        } else if code@ == "slow_down"@ {
            LoginPollView::Wait((interval + 5) as u32)
        } else if code@ == "expired_token"@ {
            LoginPollView::Expired
        } else {
            LoginPollView::Unexpected(code@)
        },
    }
}

/// Decides the next step of the login poll loop.
pub fn next_login_poll_step(response: LoginTokenResponse, interval: u32) -> (step: LoginPollStep)
    requires
        response.error matches Some(code) && code@ == "slow_down"@ ==> interval + 5 <= u32::MAX,
    ensures
        step@ == login_poll_step(response, interval),
{
    match response.error {
        None => match response.access_token {
            Some(token) => LoginPollStep::Authorized(token),
            None => LoginPollStep::Wait(interval),
        },
        Some(code) => {
            if same_text(code.as_str(), "authorization_pending") {
                LoginPollStep::Wait(interval)
            } else if same_text(code.as_str(), "slow_down") {
                LoginPollStep::Wait(interval + 5)
            } else if same_text(code.as_str(), "expired_token") {
                LoginPollStep::Expired
            } else {
                LoginPollStep::Unexpected(code)
            }
        },
    }
}

/// How many times the profile lookup is tried.
pub const MAX_PROFILE_ATTEMPTS: u64 = 3;

/// What the profile lookup does next.
pub enum ProfileAttempt {
    /// Try the lookup as attempt number `attempt`, after waiting `delay_secs`
    /// seconds when there is a delay.
    Fetch { attempt: u64, delay_secs: Option<u64> },
    /// Stop trying.
    Done,
}

/// Decides the next profile lookup, given whether a profile was found and how
/// many attempts were made: up to 3 attempts, the n-th after n - 1 seconds.
pub fn next_profile_attempt(found: bool, attempts: u64) -> (next: ProfileAttempt)
    ensures
        next is Done <==> found || attempts >= MAX_PROFILE_ATTEMPTS,
        next matches ProfileAttempt::Fetch { attempt, delay_secs } ==> attempt == attempts + 1
            && attempt <= MAX_PROFILE_ATTEMPTS && delay_secs == (if attempt > 1 {
            Some(attempts)
        } else {
            None
        }),
{
    if found || attempts >= MAX_PROFILE_ATTEMPTS {
        ProfileAttempt::Done
    } else {
        let attempt = attempts + 1;
        ProfileAttempt::Fetch { attempt, delay_secs: if attempt > 1 { Some(attempt - 1) } else { None } }
    }
}

/// The vault account name: the user's login, or "vulcan_user" when none was found.
pub fn account_name(login: Option<String>) -> (name: String)
    ensures
        name@ == (match login {
            Some(l) => l@,
            None => "vulcan_user"@,
        }),
{
    match login {
        Some(l) => l,
        None => String::from_str("vulcan_user"),
    }
}

} // verus!
