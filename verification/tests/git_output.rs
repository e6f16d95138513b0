use std::time::{SystemTime, UNIX_EPOCH};
use vulcan::git::{commit_time, diff_base, head_sha, parse_shortstat};
use vulcan::state::{provision_default_state, ForgeState};

fn counts(output: &str) -> (u64, u64, u64) {
    let c = parse_shortstat(output);
    assert!(!c.is_collaborative);
    (c.files_changed, c.additions, c.deletions)
}

#[test]
fn shortstat_full_summary() {
    assert_eq!(counts(" 3 files changed, 10 insertions(+), 2 deletions(-)\n"), (3, 10, 2));
}

#[test]
fn shortstat_singular_and_partial_summaries() {
    assert_eq!(counts(" 1 file changed, 1 insertion(+)\n"), (1, 1, 0));
    assert_eq!(counts(" 4 files changed, 7 deletions(-)"), (4, 0, 7));
}

#[test]
fn shortstat_blank_output() {
    assert_eq!(counts(""), (0, 0, 0));
    assert_eq!(counts("  \n\t "), (0, 0, 0));
}

#[test]
fn shortstat_unrecognised_parts_count_nothing() {
    assert_eq!(counts("nothing to see here"), (0, 0, 0));
    assert_eq!(counts("many files changed"), (0, 0, 0));
    assert_eq!(counts(",,,"), (0, 0, 0));
}

#[test]
fn shortstat_numbers_read_like_u64_from_str() {
    assert_eq!(counts("+7 files changed"), (7, 0, 0));
    assert_eq!(counts("-7 files changed"), (0, 0, 0));
    assert_eq!(counts("18446744073709551615 insertions(+)"), (0, 18446744073709551615, 0));
    assert_eq!(counts("18446744073709551616 insertions(+)"), (0, 0, 0));
    assert_eq!(counts("12abc deletions(-)"), (0, 0, 0));
}

#[test]
fn shortstat_later_parts_win() {
    assert_eq!(counts("3 files changed, 5 files changed"), (5, 0, 0));
}

#[test]
fn shortstat_part_mentioning_two_keywords_sets_the_first_in_order() {
    assert_eq!(counts("9 insertions changed"), (9, 0, 0));
}

#[test]
fn head_sha_is_trimmed() {
    assert_eq!(head_sha("  0123abcd\n"), "0123abcd");
    assert_eq!(head_sha(""), "");
}

#[test]
fn commit_time_reads_the_log() {
    assert_eq!(commit_time("1700000000\n"), 1_700_000_000);
    assert_eq!(commit_time(" -5 "), -5);
    assert_eq!(commit_time("-9223372036854775808"), i64::MIN);
}

#[test]
fn commit_time_falls_back_to_the_clock() {
    let before = SystemTime::now().duration_since(UNIX_EPOCH).unwrap().as_secs() as i64;
    let t = commit_time("not a time");
    let after = SystemTime::now().duration_since(UNIX_EPOCH).unwrap().as_secs() as i64;
    assert!(before <= t && t <= after);
    let t = commit_time("9223372036854775808");
    assert!(before <= t);
}

#[test]
fn diff_base_choices() {
    let fresh = provision_default_state();
    assert_eq!(diff_base(&fresh, &String::from("beef")), "HEAD~1");
    let mut scored: ForgeState = provision_default_state();
    scored.last_processed_sha = String::from("cafe");
    assert_eq!(diff_base(&scored, &String::from("cafe")), "HEAD~1");
    assert_eq!(diff_base(&scored, &String::from("beef")), "cafe");
}

#[test]
fn shortstat_lines_read_back_their_counts() {
    for (files, insertions, deletions) in [(0u64, 0u64, 0u64), (2, 30, 400), (12, 0, 9), (u64::MAX, 1, u64::MAX)] {
        let line = format!(" {} files changed, {} insertions(+), {} deletions(-)\n", files, insertions, deletions);
        assert_eq!(counts(&line), (files, insertions, deletions));
    }
}

#[test]
fn commit_time_or_uses_the_given_time_as_fallback() {
    assert_eq!(vulcan::git::commit_time_or("1700000000\n", 42), 1_700_000_000);
    assert_eq!(vulcan::git::commit_time_or("not a time", 42), 42);
    assert_eq!(vulcan::git::commit_time_or("", -7), -7);
}
