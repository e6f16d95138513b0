//! Reading what git prints: the commit hash, the commit time and the
//! `--shortstat` summary of a diff, and choosing the base of that diff.

use vstd::prelude::*;
use crate::calendar::{now_timestamp, within_chrono_range};
use crate::state::{unscored_sha, CommitPayload, ForgeState};
use crate::text::{
    contains, contains_in, decimal, first_word, is_digit, is_white_space, lemma_decimal_reads_back,
    lemma_first_word, occurs_at, parse_i64, parse_i64_in, parse_u64, parse_u64_in, to_chars, trim,
    trim_bounds, trim_end, trim_start, word_end,
};

verus! {

/// The pieces of `s` between occurrences of `sep`, as `str::split` yields them.
pub open spec fn split_pieces(s: Seq<char>, sep: char) -> Seq<Seq<char>>
    decreases s.len(),
{
    if s.len() == 0 {
        seq![seq![]]
    } else {
        let front = split_pieces(s.drop_last(), sep);
        if s.last() == sep {
            front.push(seq![])
        } else {
            front.update(front.len() - 1, front.last().push(s.last()))
        }
    }
}

/// A split always yields at least one piece.
proof fn lemma_split_nonempty(s: Seq<char>, sep: char)
    ensures
        split_pieces(s, sep).len() >= 1,
    decreases s.len(),
{
    if s.len() > 0 {
        lemma_split_nonempty(s.drop_last(), sep);
    }
}

/// A commit with no counted change.
pub open spec fn empty_commit() -> CommitPayload {
    CommitPayload { additions: 0, deletions: 0, files_changed: 0, is_collaborative: false }
}

/// The number that starts a summary part: its first word read as a `u64`, or 0.
pub open spec fn leading_count(part: Seq<char>) -> u64 {
    match parse_u64(first_word(part)) {
        Some(n) => n,
        None => 0,
    }
}

/// One comma-separated part of the summary, trimmed, sets the file count if it
/// mentions "changed", else the additions if it mentions "insertion", else the
/// deletions if it mentions "deletion".
pub open spec fn apply_stat_part(acc: CommitPayload, part: Seq<char>) -> CommitPayload {
    let t = trim(part);
    if contains(t, "changed"@) {
        CommitPayload { files_changed: leading_count(t), ..acc }
    } else if contains(t, "insertion"@) {
        CommitPayload { additions: leading_count(t), ..acc }
    } else if contains(t, "deletion"@) {
        CommitPayload { deletions: leading_count(t), ..acc }
    } else {
        acc
    }
}

/// The parts applied in order to an empty commit.
pub open spec fn fold_stat_parts(parts: Seq<Seq<char>>) -> CommitPayload
    decreases parts.len(),
{
    if parts.len() == 0 {
        empty_commit()
    } else {
        apply_stat_part(fold_stat_parts(parts.drop_last()), parts.last())
    }
}

/// The commit counts that a `git diff --shortstat` summary reports, such as
/// "3 files changed, 10 insertions(+), 2 deletions(-)"; a blank summary
/// reports nothing.
pub open spec fn shortstat_counts(output: Seq<char>) -> CommitPayload {
    let t = trim(output);
    if t.len() == 0 {
        empty_commit()
    } else {
        fold_stat_parts(split_pieces(t, ','))
    }
}

/// Applies the summary part `text[lo..hi]` to `acc`.
fn apply_part(
    text: &Vec<char>,
    lo: usize,
    hi: usize,
    acc: CommitPayload,
    changed: &Vec<char>,
    insertion: &Vec<char>,
    deletion: &Vec<char>,
) -> (next: CommitPayload)
    requires
        lo <= hi <= text@.len(),
        changed@ == "changed"@,
        insertion@ == "insertion"@,
        deletion@ == "deletion"@,
    ensures
        next == apply_stat_part(acc, text@.subrange(lo as int, hi as int)),
{
    let (p, q) = trim_bounds(text, lo, hi);
    let ghost t = text@.subrange(p as int, q as int);
    let mut next = acc;
    if contains_in(text, p, q, changed) || contains_in(text, p, q, insertion) || contains_in(text, p, q, deletion) {
        let r = word_end(text, p, q);
        let count = match parse_u64_in(text, p, r) {
            Some(n) => n,
            None => 0,
        };
        assert(count == leading_count(t));
        if contains_in(text, p, q, changed) {
            next.files_changed = count;
        } else if contains_in(text, p, q, insertion) {
            next.additions = count;
        } else {
            next.deletions = count;
        }
    }
    next
}

/// Reads the counts from the output of `git diff --shortstat`.
pub fn parse_shortstat(output: &str) -> (commit: CommitPayload)
    ensures
        commit == shortstat_counts(output@),
{
    let text = to_chars(output);
    let (a, b) = trim_bounds(&text, 0, text.len());
    assert(text@.subrange(0, text@.len() as int) =~= output@);
    let mut commit = CommitPayload { additions: 0, deletions: 0, files_changed: 0, is_collaborative: false };
    if a == b {
        return commit;
    }
    let changed = to_chars("changed");
    let insertion = to_chars("insertion");
    let deletion = to_chars("deletion");
    let mut start = a;
    let mut i = a;
    assert(text@.subrange(a as int, a as int) =~= seq![]);
    while i < b
        invariant
            a <= start <= i <= b <= text@.len(),
            changed@ == "changed"@,
            insertion@ == "insertion"@,
            deletion@ == "deletion"@,
            split_pieces(text@.subrange(a as int, i as int), ',').len() >= 1,
            fold_stat_parts(split_pieces(text@.subrange(a as int, i as int), ',').drop_last()) == commit,
            split_pieces(text@.subrange(a as int, i as int), ',').last() == text@.subrange(start as int, i as int),
        decreases b - i,
    {
        let ghost before = split_pieces(text@.subrange(a as int, i as int), ',');
        let ghost grown = text@.subrange(a as int, i + 1);
        assert(grown.drop_last() =~= text@.subrange(a as int, i as int));
        assert(grown.last() == text@[i as int]);
        if text[i] == ',' {
            assert(fold_stat_parts(before) == apply_stat_part(commit, before.last()));
            commit = apply_part(&text, start, i, commit, &changed, &insertion, &deletion);
            start = i + 1;
            assert(split_pieces(grown, ',').drop_last() =~= before);
            assert(text@.subrange(start as int, i + 1) =~= seq![]);
        } else {
            assert(split_pieces(grown, ',').drop_last() =~= before.drop_last());
            assert(text@.subrange(start as int, i + 1) =~= text@.subrange(start as int, i as int).push(text@[i as int]));
        }
        i = i + 1;
    }
    let ghost all = split_pieces(text@.subrange(a as int, b as int), ',');
    assert(fold_stat_parts(all) == apply_stat_part(commit, all.last()));
    apply_part(&text, start, b, commit, &changed, &insertion, &deletion)
}

/// The commit hash printed by `git rev-parse HEAD`: the output, trimmed.
pub fn head_sha(output: &str) -> (sha: String)
    ensures
        sha@ == trim(output@),
{
    let text = to_chars(output);
    let (a, b) = trim_bounds(&text, 0, text.len());
    assert(text@.subrange(0, text@.len() as int) =~= output@);
    String::from_str(output.substring_char(a, b))
}

/// The time that `git log -1 --format=%ct` printed, if its trimmed output reads
/// as an `i64`.
fn logged_commit_time(output: &str) -> (t: Option<i64>)
    ensures
        t == parse_i64(trim(output@)),
{
    let text = to_chars(output);
    let (a, b) = trim_bounds(&text, 0, text.len());
    assert(text@.subrange(0, text@.len() as int) =~= output@);
    parse_i64_in(&text, a, b)
}

/// The commit time given the output of `git log -1 --format=%ct` and the
/// current time `now`: the trimmed output read as an `i64`, or else `now`.
pub open spec fn commit_time_value(output: Seq<char>, now: i64) -> i64 {
    match parse_i64(trim(output)) {
        Some(v) => v,
        None => now,
    }
}

/// The commit time printed by `git log -1 --format=%ct`, with `now` standing in
/// when the output is not a time.
pub fn commit_time_or(output: &str, now: i64) -> (t: i64)
    ensures
        t == commit_time_value(output@, now),
{
    match logged_commit_time(output) {
        Some(v) => v,
        None => now,
    }
}

/// The commit time printed by `git log -1 --format=%ct`: the trimmed output
/// read as an `i64`, or else the current time, read from the clock only then.
pub fn commit_time(output: &str) -> (t: i64)
    ensures
        parse_i64(trim(output@)) matches Some(v) ==> t == v,
        parse_i64(trim(output@)) is None ==> within_chrono_range(t),
{
    match logged_commit_time(output) {
        Some(v) => v,
        None => commit_time_or(output, now_timestamp()),
    }
}

/// The revision to diff HEAD against: the previous commit when nothing was
/// scored yet or the recorded commit is HEAD itself, else the recorded commit.
pub open spec fn diff_base_of(last_sha: Seq<char>, current_sha: Seq<char>) -> Seq<char> {
    if last_sha == unscored_sha() || last_sha == current_sha {
        "HEAD~1"@
    } else {
        last_sha
    }
}

/// Chooses the revision to diff HEAD against, so that every commit since the
/// last scored one is counted.
pub fn diff_base(state: &ForgeState, current_sha: &String) -> (base: String)
    ensures
        base@ == diff_base_of(state.last_processed_sha@, current_sha@),
{
    let unscored = String::from_str("0000000000000000000000000000000000000000");
    proof {
        reveal_strlit("0000000000000000000000000000000000000000");
        assert(unscored@ =~= unscored_sha());
    }
    if state.last_processed_sha == unscored || state.last_processed_sha == *current_sha {
        String::from_str("HEAD~1")
    } else {
        state.last_processed_sha.clone()
    }
}

/// The summary line git prints for a diff of `files` files with `insertions`
/// added and `deletions` removed lines.
pub open spec fn shortstat_line(files: u64, insertions: u64, deletions: u64) -> Seq<char> {
    " "@ + decimal(files as nat) + " files changed, "@ + decimal(insertions as nat) + " insertions(+), "@
        + decimal(deletions as nat) + " deletions(-)\n"@
}

/// Appending a separator closes the last piece and opens an empty one.
proof fn lemma_split_push_sep(s: Seq<char>, sep: char)
    ensures
        split_pieces(s.push(sep), sep) == split_pieces(s, sep).push(seq![]),
{
    assert(s.push(sep).drop_last() =~= s);
}

/// Appending text without a separator extends the last piece.
proof fn lemma_split_extend(s: Seq<char>, t: Seq<char>, sep: char)
    requires
        forall|j: int| 0 <= j < t.len() ==> t[j] != sep,
    ensures
        split_pieces(s + t, sep) == split_pieces(s, sep).update(
            split_pieces(s, sep).len() - 1,
            split_pieces(s, sep).last() + t,
        ),
    decreases t.len(),
{
    lemma_split_nonempty(s, sep);
    let a = split_pieces(s, sep);
    if t.len() == 0 {
        assert(s + t =~= s);
        assert(a.last() + t =~= a.last());
        assert(a.update(a.len() - 1, a.last() + t) =~= a);
    } else {
        let front = t.drop_last();
        lemma_split_extend(s, front, sep);
        assert((s + t).drop_last() =~= s + front);
        assert((s + t).last() == t.last());
        assert((a.last() + front).push(t.last()) =~= a.last() + t);
        assert(split_pieces(s + t, sep) =~= a.update(a.len() - 1, a.last() + t));
    }
}

/// A part made of a number, a white space and more text counts that number.
proof fn lemma_leading_count(n: u64, rest: Seq<char>)
    requires
        rest.len() > 0,
        is_white_space(rest[0]),
    ensures
        leading_count(decimal(n as nat) + rest) == n,
{
    let d = decimal(n as nat);
    let t = d + rest;
    lemma_decimal_reads_back(n);
    assert forall|j: int| 0 <= j < d.len() implies !is_white_space(#[trigger] t[j]) by {
        assert(t[j] == d[j]);
        assert(is_digit(d[j]));
    }
    lemma_first_word(t, d.len() as int);
    assert(t.take(d.len() as int) =~= d);
}

/// A text whose first and last characters are not white space is its own trim.
proof fn lemma_trim_fixed(t: Seq<char>)
    requires
        t.len() > 0,
        !is_white_space(t[0]),
        !is_white_space(t.last()),
    ensures
        trim(t) == t,
{
}

/// Text that holds no `c` does not contain a needle starting with `c`.
proof fn lemma_absent_initial(t: Seq<char>, needle: Seq<char>)
    requires
        needle.len() > 0,
        forall|j: int| 0 <= j < t.len() ==> t[j] != needle[0],
    ensures
        !contains(t, needle),
{
    assert forall|k: int| !occurs_at(t, needle, k) by {
        if occurs_at(t, needle, k) {
            assert(t.subrange(k, k + needle.len())[0] == t[k]);
        }
    }
}

/// Digits are neither white space nor any of the summary's letters.
proof fn lemma_digits_plain(n: u64)
    ensures
        forall|j: int|
            0 <= j < decimal(n as nat).len() ==> {
                let c = #[trigger] decimal(n as nat)[j];
                &&& !is_white_space(c)
                &&& c != 'c'
                &&& c != 'i'
                &&& c != 'd'
                &&& c != ','
                &&& c != ' '
            },
{
    lemma_decimal_reads_back(n);
    assert forall|j: int| 0 <= j < decimal(n as nat).len() implies is_digit(#[trigger] decimal(n as nat)[j]) by {}
}

/// The summary git prints for a diff reads back as that diff's counts.
pub proof fn law_shortstat_reads_counts(files: u64, insertions: u64, deletions: u64)
    ensures
        shortstat_counts(shortstat_line(files, insertions, deletions)) == (CommitPayload {
            additions: insertions,
            deletions,
            files_changed: files,
            is_collaborative: false,
        }),
{
    reveal_strlit(" ");
    reveal_strlit(" files changed, ");
    reveal_strlit(" insertions(+), ");
    reveal_strlit(" deletions(-)\n");
    reveal_strlit(" files changed");
    reveal_strlit(" insertions(+)");
    reveal_strlit(" deletions(-)");
    reveal_strlit("changed");
    reveal_strlit("insertion");
    reveal_strlit("deletion");
    let df = decimal(files as nat);
    let di = decimal(insertions as nat);
    let dd = decimal(deletions as nat);
    lemma_decimal_reads_back(files);
    lemma_decimal_reads_back(insertions);
    lemma_decimal_reads_back(deletions);
    lemma_digits_plain(files);
    lemma_digits_plain(insertions);
    lemma_digits_plain(deletions);
    let p1 = df + " files changed"@;
    let q2 = di + " insertions(+)"@;
    let q3 = dd + " deletions(-)"@;
    let p2 = seq![' '] + q2;
    let p3 = seq![' '] + q3;
    let body = p1 + seq![','] + p2 + seq![','] + p3;
    let line = shortstat_line(files, insertions, deletions);
    assert(line =~= seq![' '] + body + seq!['\n']);

    // The line trims to its body.
    assert(line.drop_first() =~= body.push('\n'));
    assert(body[0] == df[0]);
    assert(trim_start(line) == trim_start(body.push('\n')));
    assert(trim_start(body.push('\n')) == body.push('\n'));
    assert(body.push('\n').drop_last() =~= body);
    assert(body.last() == ')');
    assert(trim_end(body.push('\n')) == trim_end(body));
    assert(trim_end(body) == body);
    assert(trim(line) == body);

    // The body splits into its three parts.
    assert forall|j: int| 0 <= j < p1.len() implies p1[j] != ',' by {
        if j < df.len() {
            assert(p1[j] == df[j]);
        }
    }
    assert forall|j: int| 0 <= j < p2.len() implies p2[j] != ',' by {
        if 1 <= j < 1 + di.len() {
            assert(p2[j] == di[j - 1]);
        }
    }
    assert forall|j: int| 0 <= j < p3.len() implies p3[j] != ',' by {
        if 1 <= j < 1 + dd.len() {
            assert(p3[j] == dd[j - 1]);
        }
    }
    let e: Seq<char> = seq![];
    lemma_split_extend(e, p1, ',');
    assert(e + p1 =~= p1);
    assert(split_pieces(e, ',') =~= seq![e]);
    assert(split_pieces(p1, ',') =~= seq![p1]);
    lemma_split_push_sep(p1, ',');
    let s1 = p1.push(',');
    lemma_split_extend(s1, p2, ',');
    assert(split_pieces(s1 + p2, ',') =~= seq![p1, p2]);
    lemma_split_push_sep(s1 + p2, ',');
    let s2 = (s1 + p2).push(',');
    lemma_split_extend(s2, p3, ',');
    assert(split_pieces(s2 + p3, ',') =~= seq![p1, p2, p3]);
    assert(s2 + p3 =~= body);
    let parts = split_pieces(body, ',');
    assert(parts == seq![p1, p2, p3]);

    // Each part sets its own count.
    assert(p1[0] == df[0]);
    lemma_trim_fixed(p1);
    assert(p1.subrange(df.len() as int + 7, df.len() as int + 14) =~= "changed"@);
    assert(occurs_at(p1, "changed"@, df.len() as int + 7));
    lemma_leading_count(files, " files changed"@);

    assert(p2.drop_first() =~= q2);
    assert(q2[0] == di[0]);
    assert(trim_start(p2) == trim_start(q2));
    assert(trim_start(q2) == q2);
    assert(q2.last() == ')');
    assert(trim_end(q2) == q2);
    assert(trim(p2) == q2);
    assert forall|j: int| 0 <= j < q2.len() implies q2[j] != 'c' by {
        if j < di.len() {
            assert(q2[j] == di[j]);
        }
    }
    lemma_absent_initial(q2, "changed"@);
    assert(q2.subrange(di.len() as int + 1, di.len() as int + 10) =~= "insertion"@);
    assert(occurs_at(q2, "insertion"@, di.len() as int + 1));
    lemma_leading_count(insertions, " insertions(+)"@);

    assert(p3.drop_first() =~= q3);
    assert(q3[0] == dd[0]);
    assert(trim_start(p3) == trim_start(q3));
    assert(trim_start(q3) == q3);
    assert(q3.last() == ')');
    assert(trim_end(q3) == q3);
    assert(trim(p3) == q3);
    assert forall|j: int| 0 <= j < q3.len() implies q3[j] != 'c' by {
        if j < dd.len() {
            assert(q3[j] == dd[j]);
        }
    }
    lemma_absent_initial(q3, "changed"@);
    assert forall|k: int| !occurs_at(q3, "insertion"@, k) by {
        if occurs_at(q3, "insertion"@, k) {
            assert(q3.subrange(k, k + 9)[0] == q3[k]);
            assert(q3.subrange(k, k + 9)[1] == q3[k + 1]);
            if k < dd.len() {
                assert(q3[k] == dd[k]);
            } else {
                assert(q3[k] == " deletions(-)"@[k - dd.len()]);
                assert(k - dd.len() == 6);
                assert(q3[k + 1] == " deletions(-)"@[7]);
            }
        }
    }
    assert(q3.subrange(dd.len() as int + 1, dd.len() as int + 9) =~= "deletion"@);
    assert(occurs_at(q3, "deletion"@, dd.len() as int + 1));
    lemma_leading_count(deletions, " deletions(-)"@);

    let c1 = CommitPayload { additions: 0, deletions: 0, files_changed: files, is_collaborative: false };
    let c2 = CommitPayload { additions: insertions, deletions: 0, files_changed: files, is_collaborative: false };
    let c3 = CommitPayload { additions: insertions, deletions, files_changed: files, is_collaborative: false };
    assert(contains(trim(p1), "changed"@));
    assert(apply_stat_part(empty_commit(), p1) == c1);
    assert(!contains(trim(p2), "changed"@));
    assert(contains(trim(p2), "insertion"@));
    assert(apply_stat_part(c1, p2) == c2);
    assert(!contains(trim(p3), "changed"@));
    assert(!contains(trim(p3), "insertion"@));
    assert(contains(trim(p3), "deletion"@));
    assert(apply_stat_part(c2, p3) == c3);
    assert(parts.drop_last() =~= seq![p1, p2]);
    assert(seq![p1, p2].drop_last() =~= seq![p1]);
    assert(seq![p1].drop_last() =~= Seq::<Seq<char>>::empty());
    assert(seq![p1].last() == p1);
    assert(seq![p1, p2].last() == p2);
    assert(parts.last() == p3);
    assert(fold_stat_parts(Seq::<Seq<char>>::empty()) == empty_commit());
    assert(fold_stat_parts(seq![p1]) == c1);
    assert(fold_stat_parts(seq![p1, p2]) == c2);
    assert(fold_stat_parts(parts) == c3);
}

} // verus!
