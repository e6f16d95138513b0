//! Properties of the forge rules that span its functions and states.

use vstd::prelude::*;
use crate::checkpoint::{
    checkpoint_applied, continues_streak, misses_day, shields_after, starts_new_day, streak_after,
};
use crate::daemon::{session_momentum, SessionMetrics};
use crate::state::{
    forge_momentum, ignited_points, is_blank_commit, is_rapid_commit, mastery_title, rank_ceiling,
    streak_multiplier_tenths, streak_scaled, CommitPayload, ForgeState,
};

verus! {

/// Shields are only ever earned up to three: a commit never raises the count
/// above three, nor above what was held.
pub proof fn law_shields_capped(streak: u64, shields: u8, last_commit: i64, today_start: i64)
    ensures
        shields_after(streak, shields, last_commit, today_start) <= if shields > 3 {
            shields as int
        } else {
            3
        },
        shields_after(streak, shields, last_commit, today_start) >= 0,
{
}

/// Every seventh consecutive day earns a shield, while fewer than three are held.
pub proof fn law_weekly_shield(streak: u64, shields: u8, last_commit: i64, today_start: i64)
    requires
        continues_streak(last_commit, today_start),
        (streak + 1) % 7 == 0,
        shields < 3,
    ensures
        streak_after(streak, shields, last_commit, today_start) == streak + 1,
        shields_after(streak, shields, last_commit, today_start) == shields + 1,
{
}

/// A missed day costs a shield and keeps the streak; with no shield left the
/// streak starts over.
pub proof fn law_missed_day(streak: u64, shields: u8, last_commit: i64, today_start: i64)
    requires
        misses_day(last_commit, today_start),
    ensures
        shields > 0 ==> shields_after(streak, shields, last_commit, today_start) == shields - 1
            && streak_after(streak, shields, last_commit, today_start) == streak,
        shields == 0 ==> shields_after(streak, shields, last_commit, today_start) == 0
            && streak_after(streak, shields, last_commit, today_start) == 0,
{
}

/// Further commits on the same day leave the streak and the shields alone.
pub proof fn law_same_day(streak: u64, shields: u8, last_commit: i64, today_start: i64)
    requires
        !starts_new_day(last_commit, today_start),
    ensures
        streak_after(streak, shields, last_commit, today_start) == streak,
        shields_after(streak, shields, last_commit, today_start) == shields,
{
}

/// Every scored commit earns XP: at least 1, so the solo XP grows, and the
/// commit is recorded as the last one scored, so scoring it again is refused.
pub proof fn law_checkpoint_progress(
    before: ForgeState,
    after: ForgeState,
    commit: CommitPayload,
    sha: Seq<char>,
    commit_timestamp: i64,
    today_start: i64,
    award: u64,
)
    requires
        checkpoint_applied(before, after, commit, sha, commit_timestamp, today_start, award),
    ensures
        award >= 1,
        after.metallurgy_xp > before.metallurgy_xp,
        after.last_processed_sha@ == sha,
{
    let streak = streak_after(before.current_streak, before.shields_available, before.last_commit_timestamp, today_start);
    law_momentum_bounds(
        commit,
        streak as u64,
        starts_new_day(before.last_commit_timestamp, today_start),
        (commit_timestamp - before.last_commit_timestamp) as i64,
    );
}

/// The points before the streak multiplier lie between 5 and 205.
proof fn lemma_ignited_range(commit: CommitPayload, is_first_of_day: bool)
    ensures
        5 <= ignited_points(commit, is_first_of_day) <= 205,
{
}

/// A rapid commit earns 2 XP and a blank one 1 XP; any other commit earns its
/// points scaled by at least 1x and at most 5x, so between 5 and 1025 XP.
pub proof fn law_momentum_bounds(
    commit: CommitPayload,
    streak_days: u64,
    is_first_of_day: bool,
    seconds_since_last_commit: i64,
)
    ensures
        is_rapid_commit(seconds_since_last_commit) ==> forge_momentum(
            commit,
            streak_days,
            is_first_of_day,
            seconds_since_last_commit,
        ) == 2,
        !is_rapid_commit(seconds_since_last_commit) && is_blank_commit(commit) ==> forge_momentum(
            commit,
            streak_days,
            is_first_of_day,
            seconds_since_last_commit,
        ) == 1,
        !is_rapid_commit(seconds_since_last_commit) && !is_blank_commit(commit) ==> {
            let points = ignited_points(commit, is_first_of_day);
            let xp = forge_momentum(commit, streak_days, is_first_of_day, seconds_since_last_commit);
            points <= xp <= 5 * points && 5 <= xp <= 1025
        },
{
    lemma_ignited_range(commit, is_first_of_day);
    let points = ignited_points(commit, is_first_of_day);
    let tenths = streak_multiplier_tenths(streak_days);
    assert(points <= points * tenths / 10 <= 5 * points) by (nonlinear_arith)
        requires
            0 <= points,
            10 <= tenths <= 50,
    ;
}

/// A longer streak never earns less for the same commit.
pub proof fn law_streak_monotone(points: int, shorter: u64, longer: u64)
    requires
        points >= 0,
        shorter <= longer,
    ensures
        streak_scaled(points, shorter) <= streak_scaled(points, longer),
{
    let a = streak_multiplier_tenths(shorter);
    let b = streak_multiplier_tenths(longer);
    assert(points * a / 10 <= points * b / 10) by (nonlinear_arith)
        requires
            points >= 0,
            0 <= a <= b,
    ;
}

/// The streak multiplier tops out at 5x from a 40-day streak on.
pub proof fn law_multiplier_cap(points: int, streak_days: u64)
    requires
        streak_days >= 40,
    ensures
        streak_scaled(points, streak_days) == points * 5,
{
}

/// The session engine and the checkpoint engine agree on a commit that is
/// neither rapid nor blank.
pub proof fn law_engines_agree(commit: CommitPayload, session: SessionMetrics, seconds_since_last_commit: i64)
    requires
        !is_rapid_commit(seconds_since_last_commit),
        !is_blank_commit(commit),
    ensures
        session_momentum(commit, session) == forge_momentum(
            commit,
            session.days_active_streak,
            session.is_first_commit_of_day,
            seconds_since_last_commit,
        ),
{
}

/// The rank wall: from 200,000 XP on, without more than 50,000 shared XP the
/// title stays "Isolated Artificer (Requires Collaboration to Advance)" below
/// 300,000 and "The First Smith" from there; only more than 250,000 XP of each
/// kind makes "Vulcan".
pub proof fn law_rank_wall(metallurgy_xp: u64, synergy_xp: u64)
    ensures
        metallurgy_xp + synergy_xp >= 200_000 && synergy_xp <= 50_000 ==> (mastery_title(
            metallurgy_xp,
            synergy_xp,
        ) == "Isolated Artificer (Requires Collaboration to Advance)"@ || mastery_title(
            metallurgy_xp,
            synergy_xp,
        ) == "The First Smith"@),
        mastery_title(metallurgy_xp, synergy_xp) == "Vulcan"@ <== metallurgy_xp + synergy_xp
            >= 300_000 && metallurgy_xp > 250_000 && synergy_xp > 250_000,
{
}

/// Below the last tier the next tier's threshold lies above the score; past it
/// there is none (`u64::MAX`); and a higher score never has a lower threshold.
pub proof fn law_rank_ceiling(score: u64, higher: u64)
    requires
        score <= higher,
    ensures
        score < 300_000 ==> score < rank_ceiling(score) <= 300_000,
        score >= 300_000 <==> rank_ceiling(score) == u64::MAX,
        rank_ceiling(score) <= rank_ceiling(higher),
{
}

/// Below 200,000 XP the title depends only on the tier: two totals with the
/// same next threshold have the same title.
pub proof fn law_title_follows_tier(m1: u64, s1: u64, m2: u64, s2: u64)
    requires
        m1 + s1 < 200_000,
        m2 + s2 < 200_000,
        rank_ceiling((m1 + s1) as u64) == rank_ceiling((m2 + s2) as u64),
    ensures
        mastery_title(m1, s1) == mastery_title(m2, s2),
{
}

} // verus!

verus! {

/// Deletions earn nothing until they outnumber the additions: a commit with
/// added lines and at most as many deleted ones is worth exactly what the same
/// commit without deletions is worth.
pub proof fn law_deletions_within_additions_earn_nothing(
    commit: CommitPayload,
    streak_days: u64,
    is_first_of_day: bool,
    seconds_since_last_commit: i64,
)
    requires
        commit.additions > 0,
        commit.deletions <= commit.additions,
    ensures
        forge_momentum(commit, streak_days, is_first_of_day, seconds_since_last_commit) == forge_momentum(
            CommitPayload { deletions: 0, ..commit },
            streak_days,
            is_first_of_day,
            seconds_since_last_commit,
        ),
{
}

/// A cleanup (more deletions than additions) earns the same whatever its line
/// counts: two cleanups that agree on files, sharing and timing earn alike.
pub proof fn law_cleanups_earn_alike(
    first: CommitPayload,
    second: CommitPayload,
    streak_days: u64,
    is_first_of_day: bool,
    seconds_since_last_commit: i64,
)
    requires
        first.deletions > first.additions,
        second.deletions > second.additions,
        first.files_changed == second.files_changed,
        first.is_collaborative == second.is_collaborative,
    ensures
        forge_momentum(first, streak_days, is_first_of_day, seconds_since_last_commit) == forge_momentum(
            second,
            streak_days,
            is_first_of_day,
            seconds_since_last_commit,
        ),
{
}

/// A solo one-file commit with as many deleted as added lines, fewer than 20
/// of each, made an hour after the last one, not the first of its day and with
/// no streak, earns the 5 base points and nothing more; a cleanup with one more
/// deleted line earns 35.
pub proof fn law_small_balanced_commit(additions: u64)
    requires
        1 <= additions < 20,
    ensures
        forge_momentum(
            CommitPayload { additions, deletions: additions, files_changed: 1, is_collaborative: false },
            0,
            false,
            3600,
        ) == 5,
        forge_momentum(
            CommitPayload { additions, deletions: (additions + 1) as u64, files_changed: 1, is_collaborative: false },
            0,
            false,
            3600,
        ) == 35,
{
}

/// The next-tier threshold of a score below 300,000 is the first score with
/// another title: every score from `score` up to it keeps the title, and the
/// threshold itself has a different one.
pub proof fn law_ceiling_is_next_title(score: u64)
    requires
        score < 300_000,
    ensures
        mastery_title(rank_ceiling(score), 0) != mastery_title(score, 0),
        forall|t: u64| score <= t < rank_ceiling(score) ==> #[trigger] mastery_title(t, 0) == mastery_title(score, 0),
{
    reveal_strlit("Ash Boy");
    reveal_strlit("Bellows Blower");
    reveal_strlit("Soot Cleaner");
    reveal_strlit("Apprentice");
    reveal_strlit("Striker");
    reveal_strlit("Journeyman");
    reveal_strlit("Blacksmith");
    reveal_strlit("Master Smith");
    reveal_strlit("Forge Master");
    reveal_strlit("Village Head Blacksmith");
    reveal_strlit("Isolated Artificer (Requires Collaboration to Advance)");
    reveal_strlit("The First Smith");
    let here = mastery_title(score, 0);
    let next = mastery_title(rank_ceiling(score), 0);
    assert(here.len() > 0 && next.len() > 0 && here[0] != next[0]);
}

/// A shield is earned only on a continued streak that reaches a multiple of 7
/// days while fewer than 3 are held, and then exactly one; a continued streak
/// that does not reach a multiple of 7 leaves the shields as they are.
pub proof fn law_shield_only_every_seventh_day(streak: u64, shields: u8, last_commit: i64, today_start: i64)
    ensures
        shields_after(streak, shields, last_commit, today_start) > shields ==> continues_streak(
            last_commit,
            today_start,
        ) && (streak + 1) % 7 == 0 && shields < 3 && shields_after(
            streak,
            shields,
            last_commit,
            today_start,
        ) == shields + 1,
        continues_streak(last_commit, today_start) && (streak + 1) % 7 != 0 ==> shields_after(
            streak,
            shields,
            last_commit,
            today_start,
        ) == shields,
{
}

} // verus!
