//! The scoring checkpoint run on each new commit: the anti-double-dip check,
//! the day streak and its shields, and the XP award.

use vstd::prelude::*;
use crate::calendar::{resolvable_timestamp, start_of_commit_day, within_chrono_range};
use crate::state::{calculate_forge_momentum, forge_momentum, CommitPayload, ForgeState};

verus! {

/// Seconds in one calendar day.
pub const SECONDS_PER_DAY: i64 = 86400;

/// The last scored commit was made before today.
pub open spec fn starts_new_day(last_commit: i64, today_start: i64) -> bool {
    last_commit < today_start
}

/// The last scored commit was made yesterday.
pub open spec fn continues_streak(last_commit: i64, today_start: i64) -> bool {
    today_start - SECONDS_PER_DAY <= last_commit < today_start
}

/// A day or more was missed since the last scored commit (a zero time stands
/// for "never").
pub open spec fn misses_day(last_commit: i64, today_start: i64) -> bool {
    last_commit < today_start - SECONDS_PER_DAY && last_commit > 0
}

/// The streak after a commit made on the day that starts at `today_start`:
/// one more after a commit yesterday, reset to zero after a missed day with no
/// shield left, unchanged otherwise.
pub open spec fn streak_after(streak: u64, shields: u8, last_commit: i64, today_start: i64) -> int {
    if continues_streak(last_commit, today_start) {
        streak + 1
    } else if misses_day(last_commit, today_start) && shields == 0 {
        0
    } else {
        streak as int
    }
}

/// The shields after such a commit: one more when the continued streak reaches
/// a multiple of 7 days while fewer than 3 are held, one fewer when a missed
/// day is absorbed, unchanged otherwise.
pub open spec fn shields_after(streak: u64, shields: u8, last_commit: i64, today_start: i64) -> int {
    if continues_streak(last_commit, today_start) {
        if (streak + 1) % 7 == 0 && shields < 3 {
            shields + 1
        } else {
            shields as int
        }
    } else if misses_day(last_commit, today_start) && shields > 0 {
        shields - 1
    } else {
        shields as int
    }
}

/// The inputs on which the streak step computes without overflow.
pub open spec fn streak_step_fits(streak: u64, last_commit: i64, today_start: i64) -> bool {
    &&& today_start - SECONDS_PER_DAY >= i64::MIN
    &&& continues_streak(last_commit, today_start) ==> streak < u64::MAX
}

/// The streak, shields and first-of-day flag after one commit.
pub struct StreakStep {
    /// Streak length in days.
    pub streak: u64,
    /// Shields held.
    pub shields: u8,
    /// The commit is the first of its calendar day.
    pub first_of_day: bool,
}

/// Evaluates the streak and shields for a commit made on the day that starts
/// at `today_start`.
pub fn next_streak(streak: u64, shields: u8, last_commit: i64, today_start: i64) -> (step: StreakStep)
    requires
        streak_step_fits(streak, last_commit, today_start),
    ensures
        step.streak == streak_after(streak, shields, last_commit, today_start),
        step.shields == shields_after(streak, shields, last_commit, today_start),
        step.first_of_day == starts_new_day(last_commit, today_start),
{
    let yesterday_start = today_start - SECONDS_PER_DAY;
    let mut step = StreakStep { streak, shields, first_of_day: false };
    if last_commit < today_start {
        step.first_of_day = true;
        if last_commit >= yesterday_start && last_commit < today_start {
            step.streak = streak + 1;
            if step.streak % 7 == 0 && shields < 3 {
                step.shields = shields + 1;
            }
        } else if last_commit > 0 {
            if shields > 0 {
                step.shields = shields - 1;
            } else {
                step.streak = 0;
            }
        }
    }
    step
}

/// Seconds between the last scored commit and this one.
pub open spec fn seconds_between(state: ForgeState, commit_timestamp: i64) -> int {
    commit_timestamp - state.last_commit_timestamp
}

/// The XP a checkpoint awards for a commit made at `commit_timestamp` on the
/// day that starts at `today_start`.
pub open spec fn checkpoint_award(
    state: ForgeState,
    commit: CommitPayload,
    commit_timestamp: i64,
    today_start: i64,
) -> int {
    forge_momentum(
        commit,
        streak_after(state.current_streak, state.shields_available, state.last_commit_timestamp, today_start) as u64,
        starts_new_day(state.last_commit_timestamp, today_start),
        seconds_between(state, commit_timestamp) as i64,
    )
}

/// The inputs on which a checkpoint computes without overflow.
pub open spec fn checkpoint_fits(
    state: ForgeState,
    commit: CommitPayload,
    commit_timestamp: i64,
    today_start: i64,
) -> bool {
    &&& streak_step_fits(state.current_streak, state.last_commit_timestamp, today_start)
    &&& i64::MIN <= seconds_between(state, commit_timestamp) <= i64::MAX
    &&& state.metallurgy_xp + checkpoint_award(state, commit, commit_timestamp, today_start) <= u64::MAX
}

/// `after` is `before` once a new commit `sha`, made at `commit_timestamp` on
/// the day that starts at `today_start`, has been scored with `award` XP.
pub open spec fn checkpoint_applied(
    before: ForgeState,
    after: ForgeState,
    commit: CommitPayload,
    sha: Seq<char>,
    commit_timestamp: i64,
    today_start: i64,
    award: u64,
) -> bool {
    let last = before.last_commit_timestamp;
    &&& award == checkpoint_award(before, commit, commit_timestamp, today_start)
    &&& after.metallurgy_xp == before.metallurgy_xp + award
    &&& after.synergy_xp == before.synergy_xp
    &&& after.current_streak == streak_after(before.current_streak, before.shields_available, last, today_start)
    &&& after.shields_available == shields_after(before.current_streak, before.shields_available, last, today_start)
    &&& after.last_commit_timestamp == commit_timestamp
    &&& after.last_processed_sha@ == sha
}

/// Scores a commit against the profile, given the start of its local calendar
/// day. Returns `None`, leaving the profile unchanged, when the commit is the
/// one already scored; otherwise updates streak, shields and XP and records the
/// commit, and returns the XP awarded.
pub fn apply_checkpoint(
    state: &mut ForgeState,
    commit: &CommitPayload,
    current_sha: String,
    commit_timestamp: i64,
    today_start: i64,
) -> (awarded: Option<u64>)
    requires
        old(state).last_processed_sha@ != current_sha@ ==> checkpoint_fits(
            *old(state),
            *commit,
            commit_timestamp,
            today_start,
        ),
    ensures
        awarded is None <==> old(state).last_processed_sha@ == current_sha@,
        awarded is None ==> *final(state) == *old(state),
        awarded matches Some(award) ==> checkpoint_applied(
            *old(state),
            *final(state),
            *commit,
            current_sha@,
            commit_timestamp,
            today_start,
            award,
        ),
{
    if state.last_processed_sha == current_sha {
        return None;
    }
    let seconds_since_last_commit: i64 = commit_timestamp - state.last_commit_timestamp;
    let step = next_streak(state.current_streak, state.shields_available, state.last_commit_timestamp, today_start);
    state.current_streak = step.streak;
    state.shields_available = step.shields;
    let awarded_points = calculate_forge_momentum(commit, state.current_streak, step.first_of_day, seconds_since_last_commit);
    state.metallurgy_xp = state.metallurgy_xp + awarded_points;
    state.last_commit_timestamp = commit_timestamp;
    state.last_processed_sha = current_sha;
    Some(awarded_points)
}

/// Decides whether the checkpoint inputs compute without overflow.
fn checkpoint_fits_now(
    state: &ForgeState,
    commit: &CommitPayload,
    commit_timestamp: i64,
    today_start: i64,
) -> (fits: bool)
    ensures
        fits == checkpoint_fits(*state, *commit, commit_timestamp, today_start),
{
    if today_start < i64::MIN + SECONDS_PER_DAY {
        return false;
    }
    let last = state.last_commit_timestamp;
    if last >= today_start - SECONDS_PER_DAY && last < today_start && state.current_streak == u64::MAX {
        return false;
    }
    let gap: i128 = (commit_timestamp as i128) - (last as i128);
    if gap < i64::MIN as i128 || gap > i64::MAX as i128 {
        return false;
    }
    let step = next_streak(state.current_streak, state.shields_available, last, today_start);
    let award = calculate_forge_momentum(commit, step.streak, step.first_of_day, commit_timestamp - last);
    award <= u64::MAX - state.metallurgy_xp
}

/// What a checkpoint did.
pub enum CheckpointOutcome {
    /// The commit was already scored; nothing changed.
    AlreadyScored,
    /// The commit's local day has no midnight; nothing changed.
    NoLocalMidnight,
    /// Scoring would overflow a counter; nothing changed.
    Overflow,
    /// The commit was scored with this many XP.
    Scored(u64),
}

/// `today_start` can be the start of the local day of a commit made at
/// `commit_timestamp`: a time chrono represents, and for a commit time chrono
/// resolves, less than three days before and less than two days after it.
pub open spec fn plausible_day_start(commit_timestamp: i64, today_start: i64) -> bool {
    &&& within_chrono_range(today_start)
    &&& resolvable_timestamp(commit_timestamp) ==> commit_timestamp - 3 * 86400 < today_start
        < commit_timestamp + 2 * 86400
}

/// `outcome`, with `after` from `before`, is what a checkpoint gives on the day
/// that starts at `today_start`: an overflow exactly when the inputs do not fit
/// on that day, and otherwise the commit scored on that day.
pub open spec fn checkpoint_outcome_on_day(
    before: ForgeState,
    after: ForgeState,
    commit: CommitPayload,
    sha: Seq<char>,
    commit_timestamp: i64,
    today_start: i64,
    outcome: CheckpointOutcome,
) -> bool {
    &&& plausible_day_start(commit_timestamp, today_start)
    &&& (outcome is Overflow <==> !checkpoint_fits(before, commit, commit_timestamp, today_start))
    &&& (outcome matches CheckpointOutcome::Scored(award) ==> checkpoint_applied(
        before,
        after,
        commit,
        sha,
        commit_timestamp,
        today_start,
        award,
    ))
}

/// `outcome` is what a checkpoint gives on some plausible start of the commit's day.
pub open spec fn checkpoint_outcome_on_some_day(
    before: ForgeState,
    after: ForgeState,
    commit: CommitPayload,
    sha: Seq<char>,
    commit_timestamp: i64,
    outcome: CheckpointOutcome,
) -> bool {
    exists|today_start: i64|
        #[trigger] checkpoint_outcome_on_day(before, after, commit, sha, commit_timestamp, today_start, outcome)
}

/// Scores a new commit against the profile: a commit already scored changes
/// nothing; otherwise the start of the commit's local day is looked up and the
/// commit is scored as `apply_checkpoint` does on that day, or reported as an
/// overflow exactly when it does not fit on that day. The day start depends on
/// the machine's time zone, so the outcome is stated for some plausible start
/// of the commit's day.
pub fn run_checkpoint(
    state: &mut ForgeState,
    commit: &CommitPayload,
    current_sha: String,
    commit_timestamp: i64,
) -> (outcome: CheckpointOutcome)
    ensures
        outcome is AlreadyScored <==> old(state).last_processed_sha@ == current_sha@,
        !(outcome is Scored) ==> *final(state) == *old(state),
        outcome is Overflow || outcome is Scored ==> checkpoint_outcome_on_some_day(
            *old(state),
            *final(state),
            *commit,
            current_sha@,
            commit_timestamp,
            outcome,
        ),
{
    if state.last_processed_sha == current_sha {
        return CheckpointOutcome::AlreadyScored;
    }
    let today_start = match start_of_commit_day(commit_timestamp) {
        Some(t) => t,
        None => return CheckpointOutcome::NoLocalMidnight,
    };
    let ghost sha = current_sha@;
    if !checkpoint_fits_now(state, commit, commit_timestamp, today_start) {
        assert(checkpoint_outcome_on_day(
            *state,
            *state,
            *commit,
            sha,
            commit_timestamp,
            today_start,
            CheckpointOutcome::Overflow,
        ));
        return CheckpointOutcome::Overflow;
    }
    let ghost before = *state;
    match apply_checkpoint(state, commit, current_sha, commit_timestamp, today_start) {
        Some(award) => {
            assert(checkpoint_outcome_on_day(
                before,
                *state,
                *commit,
                sha,
                commit_timestamp,
                today_start,
                CheckpointOutcome::Scored(award),
            ));
            CheckpointOutcome::Scored(award)
        },
        None => CheckpointOutcome::AlreadyScored,
    }
}

} // verus!
