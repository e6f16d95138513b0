//! The forge profile, the commit scoring engine and the rank ladder.

use vstd::prelude::*;

verus! {

/// Raw line and file counts of one commit, as read from git.
pub struct CommitPayload {
    /// Number of lines added.
    pub additions: u64,
    /// Number of lines deleted.
    pub deletions: u64,
    /// Number of files changed.
    pub files_changed: u64,
    /// True if the repository belongs to a shared team or organization.
    pub is_collaborative: bool,
}

/// The profile kept on the user's machine.
#[derive(Debug, Clone)]
pub struct ForgeState {
    /// XP earned on solo projects.
    pub metallurgy_xp: u64,
    /// XP earned on shared projects.
    pub synergy_xp: u64,
    /// Consecutive days with a commit.
    pub current_streak: u64,
    /// Shields that protect the streak when a day is missed (at most three are earned).
    pub shields_available: u8,
    /// Commit time (UNIX seconds) of the last scored commit.
    pub last_commit_timestamp: i64,
    /// Hash of the last scored commit.
    pub last_processed_sha: String,
}

/// The hash recorded before any commit has been scored.
pub open spec fn unscored_sha() -> Seq<char> {
    seq!['0'; 40]
}

/// Returns a blank starter profile for a new user.
pub fn provision_default_state() -> (state: ForgeState)
    ensures
        state.metallurgy_xp == 0,
        state.synergy_xp == 0,
        state.current_streak == 0,
        state.shields_available == 1,
        state.last_commit_timestamp == 0,
        state.last_processed_sha@ == unscored_sha(),
{
    let sha = String::from_str("0000000000000000000000000000000000000000");
    proof {
        reveal_strlit("0000000000000000000000000000000000000000");
        assert(sha@ =~= unscored_sha());
    }
    ForgeState {
        metallurgy_xp: 0,
        synergy_xp: 0,
        current_streak: 0,
        shields_available: 1,
        last_commit_timestamp: 0,
        last_processed_sha: sha,
    }
}

/// Seconds below which a follow-up commit counts as rapid.
pub const RAPID_COMMIT_SECONDS: i64 = 45;

/// A commit made within 45 seconds of the previous one (the same second included).
pub open spec fn is_rapid_commit(seconds_since_last_commit: i64) -> bool {
    0 <= seconds_since_last_commit < RAPID_COMMIT_SECONDS
}

/// A commit that touches no line.
pub open spec fn is_blank_commit(commit: CommitPayload) -> bool {
    commit.additions == 0 && commit.deletions == 0
}

/// Points before any multiplier: 5 base points, then either 30 for a cleanup
/// (more deletions than additions) or 1 per 20 added lines up to 50, and 15 more
/// when more than 5 files change.
pub open spec fn raw_commit_points(commit: CommitPayload) -> int {
    let line_bonus: int = if commit.deletions > commit.additions && commit.deletions > 0 {
        30
    } else if commit.additions / 20 < 50 {
        (commit.additions / 20) as int
    } else {
        50
    };
    let file_bonus: int = if commit.files_changed > 5 { 15 } else { 0 };
    5 + line_bonus + file_bonus
}

/// Raw points, times 1.5 (rounded down) on a shared repository.
pub open spec fn shared_points(commit: CommitPayload) -> int {
    if commit.is_collaborative {
        raw_commit_points(commit) * 3 / 2
    } else {
        raw_commit_points(commit)
    }
}

/// Points before the streak multiplier: shared points plus 100 for the first
/// commit of the day.
pub open spec fn ignited_points(commit: CommitPayload, is_first_of_day: bool) -> int {
    shared_points(commit) + if is_first_of_day { 100int } else { 0int }
}

/// The streak multiplier in tenths: 1.0 plus 0.1 per streak day, at most 5.0.
pub open spec fn streak_multiplier_tenths(streak_days: u64) -> int {
    if streak_days < 40 { 10 + streak_days } else { 50 }
}

/// `points` scaled by the streak multiplier, rounded down.
pub open spec fn streak_scaled(points: int, streak_days: u64) -> int {
    points * streak_multiplier_tenths(streak_days) / 10
}

/// The XP that one commit is worth.
pub open spec fn forge_momentum(
    commit: CommitPayload,
    streak_days: u64,
    is_first_of_day: bool,
    seconds_since_last_commit: i64,
) -> int {
    if is_rapid_commit(seconds_since_last_commit) {
        2
    } else if is_blank_commit(commit) {
        1
    } else {
        streak_scaled(ignited_points(commit, is_first_of_day), streak_days)
    }
}

/// Points before the multiplier and the ignition bonus, as computed by the engine.
pub(crate) fn commit_points(commit: &CommitPayload) -> (points: u64)
    ensures
        points == shared_points(*commit),
        5 <= points <= 105,
{
    let mut points: u64 = 5;
    if commit.deletions > commit.additions && commit.deletions > 0 {
        points = points + 30;
    } else {
        let per_twenty = commit.additions / 20;
        points = points + if per_twenty < 50 { per_twenty } else { 50 };
    }
    if commit.files_changed > 5 {
        points = points + 15;
    }
    if commit.is_collaborative {
        points = points * 3 / 2;
    }
    points
}

/// Scales `points` by the streak multiplier: +10% per streak day, at most 5x.
pub(crate) fn scale_by_streak(points: u64, streak_days: u64) -> (scaled: u64)
    requires
        points <= 205,
    ensures
        scaled == streak_scaled(points as int, streak_days),
        scaled <= 1025,
{
    let tenths: u64 = if streak_days < 40 { 10 + streak_days } else { 50 };
    assert(points * tenths <= 205 * 50) by (nonlinear_arith)
        requires
            points <= 205,
            tenths <= 50,
    ;
    points * tenths / 10
}

/// Evaluates a commit and decides how many XP points it is worth.
///
/// A commit within 45 seconds of the previous one earns 2 XP, a commit that
/// touches no line earns 1 XP; any other commit earns its points times the
/// streak multiplier.
pub fn calculate_forge_momentum(
    commit: &CommitPayload,
    streak_days: u64,
    is_first_of_day: bool,
    seconds_since_last_commit: i64,
) -> (xp: u64)
    ensures
        xp == forge_momentum(*commit, streak_days, is_first_of_day, seconds_since_last_commit),
{
    if seconds_since_last_commit >= 0 && seconds_since_last_commit < RAPID_COMMIT_SECONDS {
        return 2;
    }
    if commit.additions == 0 && commit.deletions == 0 {
        return 1;
    }
    let mut points = commit_points(commit);
    if is_first_of_day {
        points = points + 100;
    }
    scale_by_streak(points, streak_days)
}

/// The score at which the tier holding `score` ends; `u64::MAX` past the last tier.
pub open spec fn rank_ceiling(score: u64) -> u64 {
    if score < 300 {
        300
    } else if score < 1_000 {
        1_000
    } else if score < 2_500 {
        2_500
    } else if score < 6_000 {
        6_000
    } else if score < 12_000 {
        12_000
    } else if score < 25_000 {
        25_000
    } else if score < 50_000 {
        50_000
    } else if score < 90_000 {
        90_000
    } else if score < 140_000 {
        140_000
    } else if score < 200_000 {
        200_000
    } else if score < 300_000 {
        300_000
    } else {
        u64::MAX
    }
}

/// The rank title for the given XP: set by the total below 200,000; from
/// 200,000 on, the higher titles also ask for shared-project XP.
pub open spec fn mastery_title(metallurgy_xp: u64, synergy_xp: u64) -> Seq<char> {
    let total = metallurgy_xp + synergy_xp;
    if total < 300 {
        "Ash Boy"@
    } else if total < 1_000 {
        "Bellows Blower"@
    } else if total < 2_500 {
        "Soot Cleaner"@
    } else if total < 6_000 {
        "Apprentice"@
    } else if total < 12_000 {
        "Striker"@
    } else if total < 25_000 {
        "Journeyman"@
    } else if total < 50_000 {
        "Blacksmith"@
    } else if total < 90_000 {
        "Master Smith"@
    } else if total < 140_000 {
        "Forge Master"@
    } else if total < 200_000 {
        "Village Head Blacksmith"@
    } else if total < 300_000 {
        if synergy_xp > 50_000 {
            "Grand Master of the Forge"@
        } else {
            "Isolated Artificer (Requires Collaboration to Advance)"@
        }
    } else if synergy_xp > 250_000 && metallurgy_xp > 250_000 {
        "Vulcan"@
    } else {
        "The First Smith"@
    }
}

/// Matches the user's total score against its rank title.
pub fn evaluate_mastery(metallurgy_xp: u64, synergy_xp: u64) -> (title: &'static str)
    requires
        metallurgy_xp + synergy_xp <= u64::MAX,
    ensures
        title@ == mastery_title(metallurgy_xp, synergy_xp),
{
    let total_score = metallurgy_xp + synergy_xp;
    match total_score {
        0..=299 => "Ash Boy",
        300..=999 => "Bellows Blower",
        1_000..=2_499 => "Soot Cleaner",
        2_500..=5_999 => "Apprentice",
        6_000..=11_999 => "Striker",
        12_000..=24_999 => "Journeyman",
        25_000..=49_999 => "Blacksmith",
        50_000..=89_999 => "Master Smith",
        90_000..=139_999 => "Forge Master",
        140_000..=199_999 => "Village Head Blacksmith",
        200_000..=299_999 => {
            if synergy_xp > 50_000 {
                "Grand Master of the Forge"
            } else {
                "Isolated Artificer (Requires Collaboration to Advance)"
            }
        },
        _ => {
            if synergy_xp > 250_000 && metallurgy_xp > 250_000 {
                "Vulcan"
            } else {
                "The First Smith"
            }
        },
    }
}

/// Returns the score needed to step into the next rank tier.
pub fn get_macro_rank_ceiling(score: u64) -> (ceiling: u64)
    ensures
        ceiling == rank_ceiling(score),
{
    match score {
        0..=299 => 300,
        300..=999 => 1_000,
        1_000..=2_499 => 2_500,
        2_500..=5_999 => 6_000,
        6_000..=11_999 => 12_000,
        12_000..=24_999 => 25_000,
        25_000..=49_999 => 50_000,
        50_000..=89_999 => 90_000,
        90_000..=139_999 => 140_000,
        140_000..=199_999 => 200_000,
        200_000..=299_999 => 300_000,
        _ => u64::MAX,
    }
}

/// The hint shown under the dashboard.
pub enum Advice {
    /// No XP yet: make a first commit.
    FirstCommit,
    /// 200,000 XP or more with too little shared-project XP.
    ProgressionLocked,
    /// At most 45 XP to the next tier.
    RankUpImminent,
    /// No streak yet.
    BaselineMomentum,
    /// Anything else.
    MaintainVelocity,
}

/// The dashboard hint for a profile: the first case that applies, in this order.
pub open spec fn advice_for(state: ForgeState) -> Advice {
    let total = state.metallurgy_xp + state.synergy_xp;
    let ceiling = rank_ceiling(total as u64);
    let to_next: int = if ceiling == u64::MAX { 0 } else { ceiling - total };
    if total == 0 {
        Advice::FirstCommit
    } else if total >= 200_000 && state.synergy_xp <= 50_000 {
        Advice::ProgressionLocked
    } else if to_next <= 45 {
        Advice::RankUpImminent
    } else if state.current_streak == 0 {
        Advice::BaselineMomentum
    } else {
        Advice::MaintainVelocity
    }
}

/// The text of each hint.
pub open spec fn advice_text(advice: Advice) -> Seq<char> {
    match advice {
        Advice::FirstCommit => "Execute your first local git commit right now to activate the furnace and score a +100 XP Ignition Spark!"@,
        Advice::ProgressionLocked => "Progression locked! Your solo anvil is cracking. Contribute to a shared repo to claim collaborative XP."@,
        Advice::RankUpImminent => "Rank up imminent! Execute a quick codebase refactor (more deletions than additions) to instantly secure a +30 XP Refining Bonus."@,
        Advice::BaselineMomentum => "Your momentum multiplier is resting at baseline. Commit code today to begin stacking your daily consecutive bonus compound tracker!"@,
        Advice::MaintainVelocity => "Maintain output velocity. To maximize gains, package massive shifts (>5 files changed) or target shared repositories to unlock the 1.5x synergy multiplier."@,
    }
}

impl Advice {
    /// The hint as shown to the user.
    pub fn message(&self) -> (text: &'static str)
        ensures
            text@ == advice_text(*self),
    {
        match self {
            Advice::FirstCommit => "Execute your first local git commit right now to activate the furnace and score a +100 XP Ignition Spark!",
            Advice::ProgressionLocked => "Progression locked! Your solo anvil is cracking. Contribute to a shared repo to claim collaborative XP.",
            Advice::RankUpImminent => "Rank up imminent! Execute a quick codebase refactor (more deletions than additions) to instantly secure a +30 XP Refining Bonus.",
            Advice::BaselineMomentum => "Your momentum multiplier is resting at baseline. Commit code today to begin stacking your daily consecutive bonus compound tracker!",
            Advice::MaintainVelocity => "Maintain output velocity. To maximize gains, package massive shifts (>5 files changed) or target shared repositories to unlock the 1.5x synergy multiplier.",
        }
    }
}

/// How the shield count is shown.
pub open spec fn shield_label(shields: u8) -> Seq<char> {
    if shields == 0 {
        "None Active"@
    } else if shields == 1 {
        "🛡️ (One)"@
    } else if shields == 2 {
        "🛡️🛡️ (Two)"@
    } else {
        "🛡️🛡️🛡️ (Maximum Charged)"@
    }
}

/// What the status dashboard shows for a profile.
pub struct ProgressionReport {
    /// The rank title.
    pub rank: &'static str,
    /// The shield count as text.
    pub shields: &'static str,
    /// Streak length in days.
    pub streak_days: u64,
    /// XP left to the next tier, or `None` past the last tier.
    pub points_to_next_rank: Option<u64>,
    /// The hint to show.
    pub advice: Advice,
}

/// Computes the status dashboard of a profile: rank, shields, streak, distance
/// to the next tier and a hint.
pub fn progression_report(state: &ForgeState) -> (report: ProgressionReport)
    requires
        state.metallurgy_xp + state.synergy_xp <= u64::MAX,
    ensures
        report.rank@ == mastery_title(state.metallurgy_xp, state.synergy_xp),
        report.shields@ == shield_label(state.shields_available),
        report.streak_days == state.current_streak,
        report.points_to_next_rank == (if rank_ceiling((state.metallurgy_xp + state.synergy_xp) as u64) == u64::MAX {
            None
        } else {
            Some((rank_ceiling((state.metallurgy_xp + state.synergy_xp) as u64) - (state.metallurgy_xp + state.synergy_xp)) as u64)
        }),
        report.advice == advice_for(*state),
{
    let total_score = state.metallurgy_xp + state.synergy_xp;
    let rank = evaluate_mastery(state.metallurgy_xp, state.synergy_xp);
    let ceiling = get_macro_rank_ceiling(total_score);
    let points_to_macro: u64 = if ceiling == u64::MAX { 0 } else { ceiling - total_score };
    let shields = match state.shields_available {
        0 => "None Active",
        1 => "🛡️ (One)",
        2 => "🛡️🛡️ (Two)",
        _ => "🛡️🛡️🛡️ (Maximum Charged)",
    };
    let advice = if total_score == 0 {
        Advice::FirstCommit
    } else if total_score >= 200_000 && state.synergy_xp <= 50_000 {
        Advice::ProgressionLocked
    } else if points_to_macro <= 45 {
        Advice::RankUpImminent
    } else if state.current_streak == 0 {
        Advice::BaselineMomentum
    } else {
        Advice::MaintainVelocity
    };
    ProgressionReport {
        rank,
        shields,
        streak_days: state.current_streak,
        points_to_next_rank: if ceiling == u64::MAX { None } else { Some(points_to_macro) },
        advice,
    }
}

} // verus!
