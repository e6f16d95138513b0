use vulcan::daemon::{calculate_forge_momentum as session_forge_momentum, SessionMetrics};
use vulcan::state::{
    calculate_forge_momentum, evaluate_mastery, get_macro_rank_ceiling, progression_report,
    provision_default_state, Advice, CommitPayload, ForgeState,
};

fn commit(additions: u64, deletions: u64, files_changed: u64, is_collaborative: bool) -> CommitPayload {
    CommitPayload { additions, deletions, files_changed, is_collaborative }
}

fn profile(metallurgy_xp: u64, synergy_xp: u64, current_streak: u64, shields_available: u8) -> ForgeState {
    ForgeState {
        metallurgy_xp,
        synergy_xp,
        current_streak,
        shields_available,
        last_commit_timestamp: 0,
        last_processed_sha: String::from("abc"),
    }
}

#[test]
fn momentum_counts_lines_added() {
    assert_eq!(calculate_forge_momentum(&commit(100, 10, 3, false), 0, false, 3600), 10);
}

#[test]
fn momentum_caps_the_line_bonus_at_fifty() {
    assert_eq!(calculate_forge_momentum(&commit(2000, 0, 1, false), 0, false, 3600), 55);
    assert_eq!(calculate_forge_momentum(&commit(1000, 0, 1, false), 0, false, 3600), 55);
    assert_eq!(calculate_forge_momentum(&commit(999, 0, 1, false), 0, false, 3600), 54);
}

#[test]
fn momentum_rewards_cleanups_files_sharing_ignition_and_streak() {
    // 5 + 30 + 15 = 50, shared 75, first of day 175, three-day streak 1.3x
    assert_eq!(calculate_forge_momentum(&commit(5, 50, 6, true), 3, true, 3600), 227);
}

#[test]
fn momentum_chokes_same_second_commits() {
    assert_eq!(calculate_forge_momentum(&commit(100, 0, 1, false), 0, false, 0), 2);
    assert_eq!(calculate_forge_momentum(&commit(0, 0, 0, false), 0, false, 0), 2);
}

#[test]
fn momentum_chokes_rapid_commits() {
    assert_eq!(calculate_forge_momentum(&commit(500, 0, 9, true), 20, true, 30), 2);
    assert_eq!(calculate_forge_momentum(&commit(500, 0, 9, true), 20, true, 44), 2);
    assert_eq!(calculate_forge_momentum(&commit(500, 0, 9, true), 0, false, 45), 67);
    assert_eq!(calculate_forge_momentum(&commit(100, 0, 1, false), 0, false, -10), 10);
}

#[test]
fn momentum_gives_one_point_to_blank_commits() {
    assert_eq!(calculate_forge_momentum(&commit(0, 0, 4, true), 10, true, 3600), 1);
    assert_eq!(calculate_forge_momentum(&commit(0, 0, 0, false), 0, false, 100), 1);
}

#[test]
fn momentum_multiplier_is_exact_tenths() {
    // 5 + 40 points at a four-day streak: 45 * 1.4 = 63
    assert_eq!(calculate_forge_momentum(&commit(800, 0, 1, false), 4, false, 3600), 63);
}

#[test]
fn momentum_multiplier_stops_at_five() {
    assert_eq!(calculate_forge_momentum(&commit(2000, 0, 1, false), 40, false, 3600), 275);
    assert_eq!(calculate_forge_momentum(&commit(2000, 0, 1, false), 1000, false, 3600), 275);
    assert_eq!(calculate_forge_momentum(&commit(2000, 0, 1, false), u64::MAX, false, 3600), 275);
    assert_eq!(calculate_forge_momentum(&commit(2000, 0, 1, false), 39, false, 3600), 269);
}

#[test]
fn longer_streaks_never_earn_less() {
    let c = commit(300, 20, 7, true);
    let mut previous = 0;
    for streak in 0..60 {
        let xp = calculate_forge_momentum(&c, streak, true, 3600);
        assert!(xp >= previous);
        previous = xp;
    }
}

#[test]
fn session_momentum_has_no_anti_farming_rules() {
    let session = SessionMetrics { days_active_streak: 0, is_first_commit_of_day: false };
    assert_eq!(session_forge_momentum(&commit(0, 0, 0, false), &session), 5);
    let session = SessionMetrics { days_active_streak: 2, is_first_commit_of_day: true };
    // (5 + 2 + 100) * 1.2 = 128.4
    assert_eq!(session_forge_momentum(&commit(40, 1, 2, false), &session), 128);
}

#[test]
fn session_and_checkpoint_engines_agree_on_ordinary_commits() {
    let c = commit(123, 45, 8, true);
    for streak in [0u64, 1, 6, 39, 40, 77] {
        let session = SessionMetrics { days_active_streak: streak, is_first_commit_of_day: true };
        assert_eq!(session_forge_momentum(&c, &session), calculate_forge_momentum(&c, streak, true, 3600));
    }
}

#[test]
fn mastery_titles_follow_the_ladder() {
    assert_eq!(evaluate_mastery(0, 0), "Ash Boy");
    assert_eq!(evaluate_mastery(299, 0), "Ash Boy");
    assert_eq!(evaluate_mastery(200, 100), "Bellows Blower");
    assert_eq!(evaluate_mastery(1_000, 0), "Soot Cleaner");
    assert_eq!(evaluate_mastery(5_999, 0), "Apprentice");
    assert_eq!(evaluate_mastery(6_000, 0), "Striker");
    assert_eq!(evaluate_mastery(12_000, 0), "Journeyman");
    assert_eq!(evaluate_mastery(25_000, 0), "Blacksmith");
    assert_eq!(evaluate_mastery(50_000, 0), "Master Smith");
    assert_eq!(evaluate_mastery(90_000, 0), "Forge Master");
    assert_eq!(evaluate_mastery(199_999, 0), "Village Head Blacksmith");
}

#[test]
fn the_rank_wall_asks_for_shared_xp() {
    assert_eq!(evaluate_mastery(150_000, 60_000), "Grand Master of the Forge");
    assert_eq!(evaluate_mastery(190_000, 20_000), "Isolated Artificer (Requires Collaboration to Advance)");
    assert_eq!(evaluate_mastery(150_000, 50_000), "Isolated Artificer (Requires Collaboration to Advance)");
    assert_eq!(evaluate_mastery(260_000, 260_000), "Vulcan");
    assert_eq!(evaluate_mastery(400_000, 0), "The First Smith");
    assert_eq!(evaluate_mastery(250_000, 250_001), "The First Smith");
}

#[test]
fn rank_ceilings_mark_the_next_tier() {
    assert_eq!(get_macro_rank_ceiling(0), 300);
    assert_eq!(get_macro_rank_ceiling(299), 300);
    assert_eq!(get_macro_rank_ceiling(300), 1_000);
    assert_eq!(get_macro_rank_ceiling(2_499), 2_500);
    assert_eq!(get_macro_rank_ceiling(140_000), 200_000);
    assert_eq!(get_macro_rank_ceiling(299_999), 300_000);
    assert_eq!(get_macro_rank_ceiling(300_000), u64::MAX);
    assert_eq!(get_macro_rank_ceiling(u64::MAX), u64::MAX);
}

#[test]
fn ceilings_rise_with_the_score() {
    let mut previous = 0;
    for score in (0..400_000u64).step_by(250) {
        let ceiling = get_macro_rank_ceiling(score);
        assert!(ceiling >= previous);
        if score < 300_000 {
            assert!(ceiling > score);
        }
        previous = ceiling;
    }
}

#[test]
fn default_profile_is_a_blank_start() {
    let state = provision_default_state();
    assert_eq!(state.metallurgy_xp, 0);
    assert_eq!(state.synergy_xp, 0);
    assert_eq!(state.current_streak, 0);
    assert_eq!(state.shields_available, 1);
    assert_eq!(state.last_commit_timestamp, 0);
    assert_eq!(state.last_processed_sha, "0000000000000000000000000000000000000000");
}

#[test]
fn report_of_a_new_profile() {
    let report = progression_report(&provision_default_state());
    assert_eq!(report.rank, "Ash Boy");
    assert_eq!(report.shields, "🛡️ (One)");
    assert_eq!(report.streak_days, 0);
    assert_eq!(report.points_to_next_rank, Some(300));
    assert!(matches!(report.advice, Advice::FirstCommit));
    assert_eq!(
        report.advice.message(),
        "Execute your first local git commit right now to activate the furnace and score a +100 XP Ignition Spark!"
    );
}

#[test]
fn report_advice_in_order() {
    let report = progression_report(&profile(280, 0, 2, 0));
    assert_eq!(report.points_to_next_rank, Some(20));
    assert!(matches!(report.advice, Advice::RankUpImminent));
    assert_eq!(report.shields, "None Active");
    let report = progression_report(&profile(500, 0, 0, 2));
    assert!(matches!(report.advice, Advice::BaselineMomentum));
    assert_eq!(report.shields, "🛡️🛡️ (Two)");
    let report = progression_report(&profile(500, 0, 3, 3));
    assert!(matches!(report.advice, Advice::MaintainVelocity));
    assert_eq!(report.shields, "🛡️🛡️🛡️ (Maximum Charged)");
    let report = progression_report(&profile(240_000, 10_000, 3, 9));
    assert!(matches!(report.advice, Advice::ProgressionLocked));
    assert_eq!(report.rank, "Isolated Artificer (Requires Collaboration to Advance)");
    assert_eq!(report.shields, "🛡️🛡️🛡️ (Maximum Charged)");
}

#[test]
fn report_past_the_last_tier() {
    let report = progression_report(&profile(100_000, 300_000, 5, 1));
    assert_eq!(report.points_to_next_rank, None);
    assert_eq!(report.rank, "The First Smith");
    assert!(matches!(report.advice, Advice::RankUpImminent));
    assert!(report.advice.message().starts_with("Rank up imminent!"));
}

#[test]
fn titles_follow_the_tier() {
    assert_eq!(evaluate_mastery(100, 50), evaluate_mastery(0, 299));
    assert_eq!(evaluate_mastery(30_000, 0), evaluate_mastery(20_000, 29_999));
    assert_eq!(evaluate_mastery(100_000, 99_999), evaluate_mastery(0, 140_000));
}
