//! The GitHub side: reading the device-flow token poll, stepping the poll
//! loop, and seeding a fresh profile from the user's repositories.

use vstd::prelude::*;
use crate::state::ForgeState;
use crate::text::same_text;

verus! {

/// A member of a JSON object, as the logic reads it.
pub enum JsonMember {
    /// No such member (or the value is not an object).
    Absent,
    /// A string value.
    Text(String),
    /// Any other value.
    NonText,
}

/// The members of the token endpoint's reply that the poll reads.
pub struct TokenReply {
    /// The `error` member.
    pub error: JsonMember,
    /// The `access_token` member.
    pub access_token: JsonMember,
}

/// Outcome of one poll of the token endpoint.
pub enum PollResult {
    /// The user authorised the device; the access token.
    Success(String),
    /// The device code expired.
    Expired,
    /// The user denied access.
    Denied,
    /// Authorisation is still pending.
    Pending,
    /// The endpoint asks to poll less often.
    SlowDown,
    /// Anything else, with a description.
    UnknownError(String),
}

/// A poll outcome with its text as characters.
pub ghost enum PollView {
    Success(Seq<char>),
    Expired,
    Denied,
    Pending,
    SlowDown,
    UnknownError(Seq<char>),
}

impl View for PollResult {
    type V = PollView;

    open spec fn view(&self) -> PollView {
        match self {
            PollResult::Success(t) => PollView::Success(t@),
            PollResult::Expired => PollView::Expired,
            PollResult::Denied => PollView::Denied,
            PollResult::Pending => PollView::Pending,
            PollResult::SlowDown => PollView::SlowDown,
            PollResult::UnknownError(m) => PollView::UnknownError(m@),
        }
    }
}

/// The error code of a reply: the `error` string, or "unknown" when it is not a string.
pub open spec fn error_code(member: JsonMember) -> Seq<char> {
    match member {
        JsonMember::Text(s) => s@,
        _ => "unknown"@,
    }
}

/// The outcome an error code stands for.
pub open spec fn error_outcome(code: Seq<char>) -> PollView {
    if code == "authorization_pending"@ {
        PollView::Pending
    } else if code == "slow_down"@ {
        PollView::SlowDown
    } else if code == "expired_token"@ {
        PollView::Expired
    } else if code == "access_denied"@ {
        PollView::Denied
    } else {
        PollView::UnknownError(code)
    }
}

/// How a reply reads: an `error` member decides by its code; otherwise an
/// `access_token` member is the token (empty when it is not a string);
/// otherwise the reply is an unknown error with an empty description.
pub open spec fn token_reply_outcome(reply: TokenReply) -> PollView {
    match reply.error {
        JsonMember::Absent => match reply.access_token {
            JsonMember::Text(t) => PollView::Success(t@),
            JsonMember::NonText => PollView::Success(seq![]),
            JsonMember::Absent => PollView::UnknownError(seq![]),
        },
        _ => error_outcome(error_code(reply.error)),
    }
}

/// Reads an error code into a poll outcome.
pub fn classify_error_code(code: String) -> (result: PollResult)
    ensures
        result@ == error_outcome(code@),
{
    if same_text(code.as_str(), "authorization_pending") {
        PollResult::Pending
    } else if same_text(code.as_str(), "slow_down") {
        PollResult::SlowDown
    } else if same_text(code.as_str(), "expired_token") {
        PollResult::Expired
    } else if same_text(code.as_str(), "access_denied") {
        PollResult::Denied
    } else {
        PollResult::UnknownError(code)
    }
}

/// The error code of a reply's `error` member.
pub fn error_code_of(member: JsonMember) -> (code: String)
    ensures
        code@ == error_code(member),
{
    match member {
        JsonMember::Text(s) => s,
        _ => String::from_str("unknown"),
    }
}

/// Reads one reply of the token endpoint.
pub fn poll_outcome(reply: TokenReply) -> (result: PollResult)
    ensures
        result@ == token_reply_outcome(reply),
{
    match reply.error {
        JsonMember::Absent => match reply.access_token {
            JsonMember::Text(t) => PollResult::Success(t),
            JsonMember::NonText => PollResult::Success(String::new()),
            JsonMember::Absent => PollResult::UnknownError(String::new()),
        },
        error => classify_error_code(error_code_of(error)),
    }
}

/// The poll interval in seconds: the one the device-code reply gives, or 5.
pub fn initial_poll_interval(reported: Option<u64>) -> (interval: u64)
    ensures
        interval == (match reported {
            Some(n) => n,
            None => 5,
        }),
{
    match reported {
        Some(n) => n,
        None => 5,
    }
}

/// What the device flow does after a poll.
pub enum DeviceFlowStep {
    /// Store the token and fetch the user's statistics, then stop.
    Authorized(String),
    /// Wait this many seconds and poll again.
    KeepPolling(u64),
    /// The code expired: start the whole login again.
    Restart,
    /// The user denied access: stop.
    Stop,
    /// Report this error and stop.
    Failed(String),
}

/// Decides the next step of the device flow from a poll outcome and the
/// current interval: a slow-down request adds 5 seconds to the interval.
pub fn next_device_flow_step(result: PollResult, interval: u64) -> (step: DeviceFlowStep)
    requires
        result is SlowDown ==> interval + 5 <= u64::MAX,
    ensures
        match result {
            PollResult::Success(token) => step matches DeviceFlowStep::Authorized(t) && t@ == token@,
            PollResult::Pending => step == DeviceFlowStep::KeepPolling(interval),
            PollResult::SlowDown => step == DeviceFlowStep::KeepPolling((interval + 5) as u64),
            PollResult::Expired => step is Restart,
            PollResult::Denied => step is Stop,
            PollResult::UnknownError(message) => step matches DeviceFlowStep::Failed(m) && m@ == message@,
        },
{
    match result {
        PollResult::Success(token) => DeviceFlowStep::Authorized(token),
        PollResult::Pending => DeviceFlowStep::KeepPolling(interval),
        PollResult::SlowDown => DeviceFlowStep::KeepPolling(interval + 5),
        PollResult::Expired => DeviceFlowStep::Restart,
        PollResult::Denied => DeviceFlowStep::Stop,
        PollResult::UnknownError(message) => DeviceFlowStep::Failed(message),
    }
}

/// A repository of the user, as the listing reports it.
pub struct RepoRecord {
    /// The repository is a fork.
    pub fork: bool,
    /// The owner's login.
    pub owner_login: String,
}

/// A repository counts as personal when it is not a fork and the user owns it.
pub open spec fn is_personal(repo: RepoRecord, login: Seq<char>) -> bool {
    !repo.fork && repo.owner_login@ == login
}

/// The number of personal repositories in `repos`.
pub open spec fn personal_count(repos: Seq<RepoRecord>, login: Seq<char>) -> nat
    decreases repos.len(),
{
    if repos.len() == 0 {
        0
    } else {
        personal_count(repos.drop_last(), login) + if is_personal(repos.last(), login) {
            1nat
        } else {
            0nat
        }
    }
}

/// How many repositories are personal and how many shared.
pub struct RepoTally {
    /// Personal repositories.
    pub personal: u64,
    /// Forks and repositories owned by others.
    pub collaborative: u64,
}

/// Counts the personal and the shared repositories of a user.
pub fn tally_repositories(repos: &Vec<RepoRecord>, login: &String) -> (tally: RepoTally)
    requires
        repos@.len() <= u64::MAX,
    ensures
        tally.personal == personal_count(repos@, login@),
        tally.personal + tally.collaborative == repos@.len(),
{
    let mut personal: u64 = 0;
    let mut collaborative: u64 = 0;
    let mut i: usize = 0;
    while i < repos.len()
        invariant
            i <= repos@.len() <= u64::MAX,
            personal == personal_count(repos@.take(i as int), login@),
            personal + collaborative == i,
        decreases repos@.len() - i,
    {
        let repo = &repos[i];
        assert(repos@.take(i + 1).drop_last() =~= repos@.take(i as int));
        if repo.fork {
            collaborative = collaborative + 1;
        } else if repo.owner_login == *login {
            personal = personal + 1;
        } else {
            collaborative = collaborative + 1;
        }
        i = i + 1;
    }
    assert(repos@.take(repos@.len() as int) =~= repos@);
    RepoTally { personal, collaborative }
}

/// XP credited per personal repository when a profile is seeded.
pub const XP_PER_PERSONAL_REPO: u64 = 250;

/// XP credited per shared repository when a profile is seeded.
pub const XP_PER_SHARED_REPO: u64 = 400;

/// Seeds a blank profile (no XP of either kind) from the user's repositories:
/// 250 solo XP per personal repository and 400 shared XP per shared one. A
/// profile with XP is left as it is. Returns whether the profile was seeded.
pub fn seed_from_repositories(state: &mut ForgeState, repos: &Vec<RepoRecord>, login: &String) -> (seeded: bool)
    requires
        repos@.len() * 400 <= u64::MAX,
    ensures
        seeded == (old(state).metallurgy_xp == 0 && old(state).synergy_xp == 0),
        !seeded ==> *final(state) == *old(state),
        seeded ==> final(state).metallurgy_xp == personal_count(repos@, login@) * 250,
        seeded ==> final(state).synergy_xp == (repos@.len() - personal_count(repos@, login@)) * 400,
        seeded ==> final(state).current_streak == old(state).current_streak,
        seeded ==> final(state).shields_available == old(state).shields_available,
        seeded ==> final(state).last_commit_timestamp == old(state).last_commit_timestamp,
        seeded ==> final(state).last_processed_sha == old(state).last_processed_sha,
{
    let tally = tally_repositories(repos, login);
    if state.metallurgy_xp == 0 && state.synergy_xp == 0 {
        state.metallurgy_xp = tally.personal * XP_PER_PERSONAL_REPO;
        state.synergy_xp = tally.collaborative * XP_PER_SHARED_REPO;
        true
    } else {
        false
    }
}

} // verus!
