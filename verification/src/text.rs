//! Character-level text handling: white space, trimming, substring search,
//! words and decimal numbers, over sequences of `char`.

use vstd::prelude::*;

verus! {

/// Unicode `White_Space`, the set that `char::is_whitespace` tests.
pub open spec fn is_white_space(c: char) -> bool {
    let n = c as u32;
    ||| n == 0x20
    ||| 0x09 <= n <= 0x0d
    ||| n == 0x85
    ||| n == 0xa0
    ||| n == 0x1680
    ||| 0x2000 <= n <= 0x200a
    ||| n == 0x2028
    ||| n == 0x2029
    ||| n == 0x202f
    ||| n == 0x205f
    ||| n == 0x3000
}

/// Tests a character for Unicode white space.
pub fn is_white_space_char(c: char) -> (r: bool)
    ensures
        r == is_white_space(c),
{
    let n = c as u32;
    n == 0x20 || (0x09 <= n && n <= 0x0d) || n == 0x85 || n == 0xa0 || n == 0x1680 || (0x2000 <= n
        && n <= 0x200a) || n == 0x2028 || n == 0x2029 || n == 0x202f || n == 0x205f || n == 0x3000
}

/// `s` without its leading white space.
pub open spec fn trim_start(s: Seq<char>) -> Seq<char>
    decreases s.len(),
{
    if s.len() > 0 && is_white_space(s[0]) {
        trim_start(s.drop_first())
    } else {
        s
    }
}

/// `s` without its trailing white space.
pub open spec fn trim_end(s: Seq<char>) -> Seq<char>
    decreases s.len(),
{
    if s.len() > 0 && is_white_space(s.last()) {
        trim_end(s.drop_last())
    } else {
        s
    }
}

/// `s` without leading and trailing white space, as `str::trim` gives it.
pub open spec fn trim(s: Seq<char>) -> Seq<char> {
    trim_end(trim_start(s))
}

/// The characters of a string slice.
pub fn to_chars(s: &str) -> (chars: Vec<char>)
    ensures
        chars@ == s@,
{
    let n = s.unicode_len();
    let mut chars: Vec<char> = Vec::new();
    let mut i: usize = 0;
    while i < n
        invariant
            n == s@.len(),
            i <= n,
            chars@ == s@.take(i as int),
        decreases n - i,
    {
        chars.push(s.get_char(i));
        i = i + 1;
        assert(chars@ =~= s@.take(i as int));
    }
    assert(s@.take(n as int) =~= s@);
    chars
}

/// The bounds of `text[lo..hi]` trimmed of white space on both sides.
pub fn trim_bounds(text: &Vec<char>, lo: usize, hi: usize) -> (bounds: (usize, usize))
    requires
        lo <= hi <= text@.len(),
    ensures
        lo <= bounds.0 <= bounds.1 <= hi,
        text@.subrange(bounds.0 as int, bounds.1 as int) == trim(text@.subrange(lo as int, hi as int)),
{
    let mut a = lo;
    while a < hi && is_white_space_char(text[a])
        invariant
            lo <= a <= hi <= text@.len(),
            trim_start(text@.subrange(lo as int, hi as int)) == trim_start(text@.subrange(a as int, hi as int)),
        decreases hi - a,
    {
        assert(text@.subrange(a as int, hi as int).drop_first() =~= text@.subrange(a + 1, hi as int));
        a = a + 1;
    }
    assert(trim_start(text@.subrange(a as int, hi as int)) == text@.subrange(a as int, hi as int));
    let mut b = hi;
    while b > a && is_white_space_char(text[b - 1])
        invariant
            lo <= a <= b <= hi <= text@.len(),
            trim_end(text@.subrange(a as int, hi as int)) == trim_end(text@.subrange(a as int, b as int)),
        decreases b - a,
    {
        assert(text@.subrange(a as int, b as int).drop_last() =~= text@.subrange(a as int, b - 1));
        b = b - 1;
    }
    assert(trim_end(text@.subrange(a as int, b as int)) == text@.subrange(a as int, b as int));
    (a, b)
}

/// `needle` occurs in `text` starting at index `i`.
pub open spec fn occurs_at(text: Seq<char>, needle: Seq<char>, i: int) -> bool {
    0 <= i && i + needle.len() <= text.len() && text.subrange(i, i + needle.len()) == needle
}

/// `needle` occurs somewhere in `text`, as `str::contains` finds it.
pub open spec fn contains(text: Seq<char>, needle: Seq<char>) -> bool {
    exists|i: int| occurs_at(text, needle, i)
}

/// Whether `needle` occurs in `text[lo..hi]`.
pub fn contains_in(text: &Vec<char>, lo: usize, hi: usize, needle: &Vec<char>) -> (found: bool)
    requires
        lo <= hi <= text@.len(),
    ensures
        found == contains(text@.subrange(lo as int, hi as int), needle@),
{
    let ghost window = text@.subrange(lo as int, hi as int);
    let n = needle.len();
    if n > hi - lo {
        assert forall|k: int| !occurs_at(window, needle@, k) by {}
        return false;
    }
    let mut i = lo;
    while i <= hi - n
        invariant
            lo <= i <= hi - n + 1,
            n <= hi - lo,
            hi <= text@.len(),
            n == needle@.len(),
            window == text@.subrange(lo as int, hi as int),
            forall|k: int| 0 <= k < i - lo ==> !occurs_at(window, needle@, k),
        decreases hi - n + 1 - i,
    {
        let mut j: usize = 0;
        let mut same = true;
        while j < n
            invariant
                j <= n,
                n == needle@.len(),
                lo <= i,
                i + n <= hi <= text@.len(),
                same ==> forall|m: int| 0 <= m < j ==> text@[i + m] == needle@[m],
                !same ==> exists|m: int| 0 <= m < n && text@[i + m] != needle@[m],
            decreases n - j,
        {
            if text[i + j] != needle[j] {
                same = false;
            }
            j = j + 1;
        }
        if same {
            assert(window.subrange(i - lo, i - lo + n) =~= needle@);
            assert(occurs_at(window, needle@, i - lo));
            return true;
        }
        assert(!occurs_at(window, needle@, i - lo)) by {
            let m = choose|m: int| 0 <= m < n && text@[i + m] != needle@[m];
            assert(window.subrange(i - lo, i - lo + n)[m] == text@[i + m]);
        }
        i = i + 1;
    }
    assert forall|k: int| !occurs_at(window, needle@, k) by {
        if 0 <= k && k + n <= window.len() {
            assert(k < i - lo);
        }
    }
    false
}

/// The leading run of non-white-space characters of `text`.
pub open spec fn first_word(text: Seq<char>) -> Seq<char>
    decreases text.len(),
{
    if text.len() == 0 || is_white_space(text[0]) {
        seq![]
    } else {
        seq![text[0]] + first_word(text.drop_first())
    }
}

/// A run of `k` non-white-space characters that ends the text or a white space
/// character is the first word.
pub proof fn lemma_first_word(text: Seq<char>, k: int)
    requires
        0 <= k <= text.len(),
        forall|j: int| 0 <= j < k ==> !is_white_space(#[trigger] text[j]),
        k == text.len() || is_white_space(text[k]),
    ensures
        first_word(text) == text.take(k),
    decreases k,
{
    if k > 0 {
        let rest = text.drop_first();
        assert forall|j: int| 0 <= j < k - 1 implies !is_white_space(#[trigger] rest[j]) by {
            assert(rest[j] == text[j + 1]);
        }
        lemma_first_word(rest, k - 1);
        assert(text.take(k) =~= seq![text[0]] + rest.take(k - 1));
    } else {
        assert(text.take(0) =~= seq![]);
    }
}

/// The end of the first word of `text[lo..hi]`: the first white space at or
/// after `lo`, or `hi`.
pub fn word_end(text: &Vec<char>, lo: usize, hi: usize) -> (end: usize)
    requires
        lo <= hi <= text@.len(),
    ensures
        lo <= end <= hi,
        text@.subrange(lo as int, end as int) == first_word(text@.subrange(lo as int, hi as int)),
{
    let mut r = lo;
    while r < hi && !is_white_space_char(text[r])
        invariant
            lo <= r <= hi <= text@.len(),
            forall|j: int| lo <= j < r ==> !is_white_space(#[trigger] text@[j]),
        decreases hi - r,
    {
        r = r + 1;
    }
    let ghost window = text@.subrange(lo as int, hi as int);
    proof {
        assert forall|j: int| 0 <= j < r - lo implies !is_white_space(#[trigger] window[j]) by {
            assert(window[j] == text@[lo + j]);
        }
        lemma_first_word(window, r - lo);
        assert(window.take(r - lo) =~= text@.subrange(lo as int, r as int));
    }
    r
}

/// An ASCII decimal digit.
pub open spec fn is_digit(c: char) -> bool {
    '0' <= c <= '9'
}

/// The numeric value of a decimal digit.
pub open spec fn digit_value(c: char) -> int {
    c as int - '0' as int
}

/// The value of a string of decimal digits.
pub open spec fn digits_value(digits: Seq<char>) -> int
    decreases digits.len(),
{
    if digits.len() == 0 {
        0
    } else {
        digits_value(digits.drop_last()) * 10 + digit_value(digits.last())
    }
}

/// Every character is a decimal digit.
pub open spec fn all_digits(s: Seq<char>) -> bool {
    forall|i: int| 0 <= i < s.len() ==> is_digit(#[trigger] s[i])
}

/// What `u64::from_str` accepts: an optional `+`, then at least one decimal
/// digit, for a value that fits in `u64`.
pub open spec fn parse_u64(s: Seq<char>) -> Option<u64> {
    let digits = if s.len() > 0 && s[0] == '+' { s.drop_first() } else { s };
    if digits.len() > 0 && all_digits(digits) && digits_value(digits) <= u64::MAX {
        Some(digits_value(digits) as u64)
    } else {
        None
    }
}

/// What `i64::from_str` accepts: an optional `+` or `-`, then at least one
/// decimal digit, for a value that fits in `i64`.
pub open spec fn parse_i64(s: Seq<char>) -> Option<i64> {
    let negative = s.len() > 0 && s[0] == '-';
    let digits = if s.len() > 0 && (s[0] == '+' || s[0] == '-') { s.drop_first() } else { s };
    let value = if negative { -digits_value(digits) } else { digits_value(digits) };
    if digits.len() > 0 && all_digits(digits) && i64::MIN <= value <= i64::MAX {
        Some(value as i64)
    } else {
        None
    }
}

/// A value of digits is at least the value of any of its prefixes, and never negative.
proof fn lemma_digits_value_grows(digits: Seq<char>, k: int)
    requires
        0 <= k <= digits.len(),
        all_digits(digits),
    ensures
        0 <= digits_value(digits.take(k)) <= digits_value(digits),
    decreases digits.len(),
{
    if digits.len() > 0 {
        let front = digits.drop_last();
        assert(all_digits(front)) by {
            assert forall|i: int| 0 <= i < front.len() implies is_digit(#[trigger] front[i]) by {
                assert(front[i] == digits[i]);
            }
        }
        assert(is_digit(digits[digits.len() - 1]));
        if k < digits.len() {
            lemma_digits_value_grows(front, k);
            assert(front.take(k) =~= digits.take(k));
        } else {
            lemma_digits_value_grows(front, 0);
            assert(digits.take(k) =~= digits);
        }
    } else {
        assert(digits.take(k) =~= digits);
    }
}

/// The value of the decimal digits `text[lo..hi]`, or `None` when it exceeds
/// `u64::MAX`.
fn digits_magnitude(text: &Vec<char>, lo: usize, hi: usize) -> (value: Option<u64>)
    requires
        lo <= hi <= text@.len(),
        all_digits(text@.subrange(lo as int, hi as int)),
    ensures
        value == (if digits_value(text@.subrange(lo as int, hi as int)) <= u64::MAX {
            Some(digits_value(text@.subrange(lo as int, hi as int)) as u64)
        } else {
            None
        }),
{
    let ghost digits = text@.subrange(lo as int, hi as int);
    let mut value: u64 = 0;
    let mut i = lo;
    while i < hi
        invariant
            lo <= i <= hi <= text@.len(),
            digits == text@.subrange(lo as int, hi as int),
            all_digits(digits),
            value == digits_value(digits.take(i - lo)),
        decreases hi - i,
    {
        let c = text[i];
        assert(c == digits[i - lo]);
        assert(is_digit(c));
        let d = (c as u32 - '0' as u32) as u64;
        assert(digits.take(i - lo + 1).drop_last() =~= digits.take(i - lo));
        assert(digits.take(i - lo + 1).last() == c);
        match value.checked_mul(10) {
            Some(tens) => match tens.checked_add(d) {
                Some(next) => {
                    value = next;
                },
                None => {
                    proof {
                        lemma_digits_value_grows(digits, i - lo + 1);
                    }
                    return None;
                },
            },
            None => {
                proof {
                    lemma_digits_value_grows(digits, i - lo + 1);
                }
                return None;
            },
        }
        i = i + 1;
    }
    assert(digits.take(hi - lo) =~= digits);
    Some(value)
}

/// Whether every character of `text[lo..hi]` is a decimal digit.
fn all_digits_in(text: &Vec<char>, lo: usize, hi: usize) -> (r: bool)
    requires
        lo <= hi <= text@.len(),
    ensures
        r == all_digits(text@.subrange(lo as int, hi as int)),
{
    let mut i = lo;
    while i < hi
        invariant
            lo <= i <= hi <= text@.len(),
            forall|j: int| lo <= j < i ==> is_digit(#[trigger] text@[j]),
        decreases hi - i,
    {
        let c = text[i];
        if !('0' <= c && c <= '9') {
            assert(!is_digit(text@.subrange(lo as int, hi as int)[i - lo]));
            return false;
        }
        i = i + 1;
    }
    assert forall|j: int| 0 <= j < hi - lo implies is_digit(#[trigger] text@.subrange(lo as int, hi as int)[j]) by {
        assert(text@.subrange(lo as int, hi as int)[j] == text@[lo + j]);
    }
    true
}

/// Parses `text[lo..hi]` as `u64::from_str` does.
pub fn parse_u64_in(text: &Vec<char>, lo: usize, hi: usize) -> (value: Option<u64>)
    requires
        lo <= hi <= text@.len(),
    ensures
        value == parse_u64(text@.subrange(lo as int, hi as int)),
{
    let ghost s = text@.subrange(lo as int, hi as int);
    let start = if lo < hi && text[lo] == '+' { lo + 1 } else { lo };
    assert(text@.subrange(start as int, hi as int) =~= (if s.len() > 0 && s[0] == '+' {
        s.drop_first()
    } else {
        s
    }));
    if start == hi || !all_digits_in(text, start, hi) {
        return None;
    }
    digits_magnitude(text, start, hi)
}

/// Parses `text[lo..hi]` as `i64::from_str` does.
pub fn parse_i64_in(text: &Vec<char>, lo: usize, hi: usize) -> (value: Option<i64>)
    requires
        lo <= hi <= text@.len(),
    ensures
        value == parse_i64(text@.subrange(lo as int, hi as int)),
{
    let ghost s = text@.subrange(lo as int, hi as int);
    let negative = lo < hi && text[lo] == '-';
    let start = if lo < hi && (text[lo] == '+' || text[lo] == '-') { lo + 1 } else { lo };
    let ghost digits = text@.subrange(start as int, hi as int);
    assert(digits =~= (if s.len() > 0 && (s[0] == '+' || s[0] == '-') {
        s.drop_first()
    } else {
        s
    }));
    assert(negative == (s.len() > 0 && s[0] == '-'));
    if start == hi || !all_digits_in(text, start, hi) {
        return None;
    }
    match digits_magnitude(text, start, hi) {
        None => None,
        Some(magnitude) => {
            proof {
                lemma_digits_value_grows(digits, 0);
            }
            if negative {
                if magnitude <= 0x8000_0000_0000_0000 {
                    if magnitude == 0x8000_0000_0000_0000 {
                        Some(i64::MIN)
                    } else {
                        Some(-(magnitude as i64))
                    }
                } else {
                    None
                }
            } else if magnitude <= 0x7fff_ffff_ffff_ffff {
                Some(magnitude as i64)
            } else {
                None
            }
        },
    }
}

/// Whether two strings hold the same characters.
pub fn same_text(a: &str, b: &str) -> (same: bool)
    ensures
        same == (a@ == b@),
{
    let x = to_chars(a);
    let y = to_chars(b);
    if x.len() != y.len() {
        return false;
    }
    let mut i: usize = 0;
    while i < x.len()
        invariant
            x@ == a@,
            y@ == b@,
            x@.len() == y@.len(),
            i <= x@.len(),
            forall|j: int| 0 <= j < i ==> x@[j] == y@[j],
        decreases x@.len() - i,
    {
        if x[i] != y[i] {
            assert(a@[i as int] != b@[i as int]);
            return false;
        }
        i = i + 1;
    }
    assert(x@ =~= y@);
    true
}

/// The character of a decimal digit.
pub open spec fn digit_char(d: nat) -> char {
    ('0' as u32 + d) as char
}

/// The decimal representation of `n`, as integers display.
pub open spec fn decimal(n: nat) -> Seq<char>
    decreases n,
{
    if n < 10 {
        seq![digit_char(n)]
    } else {
        decimal(n / 10).push(digit_char(n % 10))
    }
}

/// The decimal representation of `n` is a non-empty run of digits worth `n`,
/// and `u64::from_str` reads it back as `n`.
pub proof fn lemma_decimal_reads_back(n: u64)
    ensures
        decimal(n as nat).len() >= 1,
        all_digits(decimal(n as nat)),
        digits_value(decimal(n as nat)) == n,
        parse_u64(decimal(n as nat)) == Some(n),
{
    lemma_decimal_digits(n as nat);
    assert(is_digit(decimal(n as nat)[0]));
}

/// The decimal representation of `n` is a non-empty run of digits worth `n`.
proof fn lemma_decimal_digits(n: nat)
    ensures
        decimal(n).len() >= 1,
        all_digits(decimal(n)),
        digits_value(decimal(n)) == n,
    decreases n,
{
    if n < 10 {
        let d = decimal(n);
        assert(d.drop_last() =~= seq![]);
        assert(d.last() == digit_char(n));
        assert(digit_value(digit_char(n)) == n);
        assert(digits_value(d) == digits_value(d.drop_last()) * 10 + digit_value(d.last()));
    } else {
        lemma_decimal_digits(n / 10);
        let front = decimal(n / 10);
        let d = decimal(n);
        assert(d.drop_last() =~= front);
        assert(d.last() == digit_char(n % 10));
        assert(digit_value(digit_char(n % 10)) == n % 10);
        assert(digits_value(d) == digits_value(front) * 10 + digit_value(d.last()));
        assert((n / 10) * 10 + n % 10 == n);
        assert forall|i: int| 0 <= i < d.len() implies is_digit(#[trigger] d[i]) by {
            if i < front.len() {
                assert(d[i] == front[i]);
            }
        }
    }
}

/// The one-character text of a decimal digit.
fn digit_text(d: u64) -> (text: &'static str)
    requires
        d < 10,
    ensures
        text@ == seq![digit_char(d as nat)],
{
    proof {
        reveal_strlit("0");
        reveal_strlit("1");
        reveal_strlit("2");
        reveal_strlit("3");
        reveal_strlit("4");
        reveal_strlit("5");
        reveal_strlit("6");
        reveal_strlit("7");
        reveal_strlit("8");
        reveal_strlit("9");
    }
    let text = match d {
        0 => "0",
        1 => "1",
        2 => "2",
        3 => "3",
        4 => "4",
        5 => "5",
        6 => "6",
        7 => "7",
        8 => "8",
        _ => "9",
    };
    assert(text@ =~= seq![digit_char(d as nat)]);
    text
}

/// Appends the decimal representation of `n` to `out`.
pub fn push_decimal(out: &mut String, n: u64)
    ensures
        final(out)@ == old(out)@ + decimal(n as nat),
    decreases n,
{
    if n >= 10 {
        push_decimal(out, n / 10);
    }
    out.append(digit_text(n % 10));
    assert(decimal(n as nat) =~= if n < 10 {
        seq![digit_char(n as nat)]
    } else {
        decimal((n / 10) as nat).push(digit_char((n % 10) as nat))
    });
}

} // verus!
