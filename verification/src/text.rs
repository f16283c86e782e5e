//! Verified text utilities: substring search, decimal formatting and
//! parsing, and whitespace token extraction. Addresses and arguments are
//! plain character sequences, so all of this is ordinary string logic.

use vstd::prelude::*;

verus! {

broadcast use vstd::seq::group_seq_axioms;

/// `needle` occurs as a contiguous run somewhere in `hay`.
pub open spec fn contains_seq(hay: Seq<char>, needle: Seq<char>) -> bool {
    exists|i: int|
        0 <= i && i + needle.len() <= hay.len() && #[trigger] hay.subrange(i, i + needle.len())
            == needle
}

/// `needle` occurs at position `i` of `hay`.
pub(crate) fn matches_at(hay: &str, needle: &str, i: usize) -> (r: bool)
    requires
        i + needle@.len() <= hay@.len(),
    ensures
        r == (hay@.subrange(i as int, i + needle@.len()) == needle@),
{
    let hl = hay.unicode_len();
    let n = needle.unicode_len();
    let mut j: usize = 0;
    while j < n
        invariant
            hl == hay@.len(),
            n == needle@.len(),
            j <= n,
            i + n <= hay@.len(),
            forall|k: int| 0 <= k < j ==> hay@[i + k] == needle@[k],
        decreases n - j,
    {
        if hay.get_char(i + j) != needle.get_char(j) {
            assert(hay@.subrange(i as int, i + needle@.len())[j as int] != needle@[j as int]);
            return false;
        }
        j += 1;
    }
    assert(hay@.subrange(i as int, i + needle@.len()) =~= needle@);
    true
}

/// Substring search: does `hay` contain `needle` anywhere?
pub fn contains_sub(hay: &str, needle: &str) -> (r: bool)
    ensures
        r == contains_seq(hay@, needle@),
{
    let hl = hay.unicode_len();
    let nl = needle.unicode_len();
    if nl > hl {
        return false;
    }
    if nl == 0 {
        assert(hay@.subrange(0, 0 + needle@.len() as int) =~= needle@);
        return true;
    }
    let mut i: usize = 0;
    while i <= hl - nl
        invariant
            hl == hay@.len(),
            nl == needle@.len(),
            0 < nl <= hl,
            i <= hl - nl + 1,
            forall|k: int|
                0 <= k < i ==> #[trigger] hay@.subrange(k, k + needle@.len()) != needle@,
        decreases hl - i,
    {
        if matches_at(hay, needle, i) {
            return true;
        }
        i += 1;
    }
    false
}

/// `prefix` is an initial run of `s`.
pub open spec fn starts_with_seq(s: Seq<char>, prefix: Seq<char>) -> bool {
    prefix.len() <= s.len() && s.subrange(0, prefix.len() as int) == prefix
}

/// Prefix test: does `s` begin with `prefix`?
pub fn starts_with_sub(s: &str, prefix: &str) -> (r: bool)
    ensures
        r == starts_with_seq(s@, prefix@),
{
    let sl = s.unicode_len();
    let pl = prefix.unicode_len();
    if pl > sl {
        return false;
    }
    matches_at(s, prefix, 0)
}

/// The character for one decimal digit.
pub open spec fn digit_char(d: int) -> char {
    if d == 0 {
        '0'
    } else if d == 1 {
        '1'
    } else if d == 2 {
        '2'
    } else if d == 3 {
        '3'
    } else if d == 4 {
        '4'
    } else if d == 5 {
        '5'
    } else if d == 6 {
        '6'
    } else if d == 7 {
        '7'
    } else if d == 8 {
        '8'
    } else {
        '9'
    }
}

/// The decimal digit string of a nonnegative number, most significant first,
/// with no leading zeros (a lone zero for 0).
pub open spec fn spec_decimal(n: int) -> Seq<char>
    decreases n,
{
    if n < 10 {
        seq![digit_char(n)]
    } else {
        spec_decimal(n / 10).push(digit_char(n % 10))
    }
}

/// A one-character string for one decimal digit.
fn digit_str(d: u64) -> (r: &'static str)
    requires
        d < 10,
    ensures
        r@ == seq![digit_char(d as int)],
{
    let r: &'static str = match d {
        0 => "0",
        1 => "1",
        2 => "2",
        3 => "3",
        4 => "4",
        5 => "5",
        6 => "6",
        7 => "7",
        8 => "8",
        _ => "9",
    };
    proof {
        reveal_strlit("0");
        reveal_strlit("1");
        reveal_strlit("2");
        reveal_strlit("3");
        reveal_strlit("4");
        reveal_strlit("5");
        reveal_strlit("6");
        reveal_strlit("7");
        reveal_strlit("8");
        reveal_strlit("9");
        assert(r@ =~= seq![digit_char(d as int)]);
    }
    r
}

/// Formats a number in decimal.
pub fn u64_to_string(n: u64) -> (r: String)
    ensures
        r@ == spec_decimal(n as int),
    decreases n,
{
    if n < 10 {
        digit_str(n).to_owned()
    } else {
        let mut s = u64_to_string(n / 10);
        s.append(digit_str(n % 10));
        proof {
            assert(s@ =~= spec_decimal(n as int));
        }
        s
    }
}

/// An ASCII decimal digit.
pub open spec fn is_digit(c: char) -> bool {
    '0' as int <= c as int && c as int <= '9' as int
}

/// The value of one decimal digit character.
pub open spec fn digit_val(c: char) -> int {
    c as int - '0' as int
}

/// Every character of the sequence is a decimal digit.
pub open spec fn all_digits(s: Seq<char>) -> bool {
    forall|i: int| 0 <= i < s.len() ==> is_digit(#[trigger] s[i])
}

/// The number denoted by a digit sequence, most significant first.
pub open spec fn digits_value(s: Seq<char>) -> int
    decreases s.len(),
{
    if s.len() == 0 {
        0
    } else {
        digits_value(s.drop_last()) * 10 + digit_val(s.last())
    }
}

/// The signed decimal number denoted by the whole sequence: an optional
/// sign, then one or more digits, the value in `i32` range. Anything else
/// (empty, stray characters, out of range) denotes nothing.
pub open spec fn spec_parse_i32(s: Seq<char>) -> Option<i32> {
    let negative = s.len() > 0 && s[0] == '-';
    let digits = if s.len() > 0 && (s[0] == '-' || s[0] == '+') {
        s.drop_first()
    } else {
        s
    };
    if digits.len() == 0 || !all_digits(digits) {
        None
    } else {
        let v = if negative {
            -digits_value(digits)
        } else {
            digits_value(digits)
        };
        if -0x8000_0000 <= v <= 0x7fff_ffff {
            Some(v as i32)
        } else {
            None
        }
    }
}

/// Appending digits never lowers the denoted value (the digits are
/// nonnegative and the prefix is scaled up).
proof fn lemma_digits_value_grows(s: Seq<char>, i: int)
    requires
        0 <= i <= s.len(),
        all_digits(s),
    ensures
        digits_value(s.take(i)) <= digits_value(s),
        digits_value(s) >= 0,
    decreases s.len(),
{
    if s.len() == 0 {
        assert(s.take(i) =~= s);
    } else {
        let prev = s.drop_last();
        assert(forall|j: int| 0 <= j < prev.len() ==> is_digit(#[trigger] prev[j]) && prev[j] == s[j]);
        let ip = if i <= s.len() - 1 { i } else { s.len() - 1 };
        lemma_digits_value_grows(prev, ip);
        assert(is_digit(s[s.len() - 1]));
        assert(digits_value(s) == digits_value(prev) * 10 + digit_val(s.last()));
        if i == s.len() {
            assert(s.take(i) =~= s);
        } else {
            assert(s.take(i) =~= prev.take(i));
        }
    }
}

/// A character with the Unicode white-space property: the separators
/// between tokens.
pub open spec fn is_space(c: char) -> bool {
    let u = c as int;
    (0x09 <= u && u <= 0x0d) || u == 0x20 || u == 0x85 || u == 0xa0 || u == 0x1680 || (0x2000 <= u
        && u <= 0x200a) || u == 0x2028 || u == 0x2029 || u == 0x202f || u == 0x205f || u == 0x3000
}

/// Scanning left from position `i`, the position just after the nearest
/// non-space character (0 if all of `s[..i]` is spaces).
pub open spec fn skip_space_back(s: Seq<char>, i: int) -> int
    decreases i,
{
    if i <= 0 {
        0
    } else if is_space(s[i - 1]) {
        skip_space_back(s, i - 1)
    } else {
        i
    }
}

/// Scanning left from position `i`, the position just after the nearest
/// space character (0 if all of `s[..i]` is non-spaces).
pub open spec fn skip_token_back(s: Seq<char>, i: int) -> int
    decreases i,
{
    if i <= 0 {
        0
    } else if !is_space(s[i - 1]) {
        skip_token_back(s, i - 1)
    } else {
        i
    }
}

/// The second-to-last whitespace-separated token of `s`, if `s` has at
/// least two tokens.
pub open spec fn spec_second_last_token(s: Seq<char>) -> Option<Seq<char>> {
    let last_end = skip_space_back(s, s.len() as int);
    let last_start = skip_token_back(s, last_end);
    let prev_end = skip_space_back(s, last_start);
    let prev_start = skip_token_back(s, prev_end);
    if last_end == 0 || prev_end == 0 {
        None
    } else {
        Some(s.subrange(prev_start, prev_end))
    }
}

/// Whether the character separates whitespace tokens.
fn is_space_char(c: char) -> (r: bool)
    ensures
        r == is_space(c),
{
    let u = c as u32;
    (0x09 <= u && u <= 0x0d) || u == 0x20 || u == 0x85 || u == 0xa0 || u == 0x1680 || (0x2000 <= u
        && u <= 0x200a) || u == 0x2028 || u == 0x2029 || u == 0x202f || u == 0x205f || u == 0x3000
}

/// Scans left from `i` past spaces.
fn skip_space_back_exec(s: &str, i: usize) -> (r: usize)
    requires
        i <= s@.len(),
    ensures
        r == skip_space_back(s@, i as int),
        r <= i,
{
    let mut j = i;
    while j > 0 && is_space_char(s.get_char(j - 1))
        invariant
            j <= i <= s@.len(),
            skip_space_back(s@, i as int) == skip_space_back(s@, j as int),
        decreases j,
    {
        j -= 1;
    }
    j
}

/// Scans left from `i` past non-spaces.
fn skip_token_back_exec(s: &str, i: usize) -> (r: usize)
    requires
        i <= s@.len(),
    ensures
        r == skip_token_back(s@, i as int),
        r <= i,
{
    let mut j = i;
    while j > 0 && !is_space_char(s.get_char(j - 1))
        invariant
            j <= i <= s@.len(),
            skip_token_back(s@, i as int) == skip_token_back(s@, j as int),
        decreases j,
    {
        j -= 1;
    }
    j
}

/// The second-to-last whitespace-separated token, if there are two.
pub fn second_last_token(s: &str) -> (r: Option<String>)
    ensures
        (r is None) == (spec_second_last_token(s@) is None),
        r matches Some(t) ==> spec_second_last_token(s@) == Some(t@),
{
    let n = s.unicode_len();
    let last_end = skip_space_back_exec(s, n);
    if last_end == 0 {
        return None;
    }
    let last_start = skip_token_back_exec(s, last_end);
    let prev_end = skip_space_back_exec(s, last_start);
    if prev_end == 0 {
        return None;
    }
    let prev_start = skip_token_back_exec(s, prev_end);
    Some(s.substring_char(prev_start, prev_end).to_owned())
}

/// Parses a signed decimal integer exactly as `spec_parse_i32` denotes it.
pub fn parse_i32(s: &str) -> (r: Option<i32>)
    ensures
        r == spec_parse_i32(s@),
{
    let n = s.unicode_len();
    if n == 0 {
        return None;
    }
    let first = s.get_char(0);
    let negative = first == '-';
    let start: usize = if first == '-' || first == '+' {
        1
    } else {
        0
    };
    assert(negative == (s@[0] == '-'));
    assert(start == 1 <==> (s@[0] == '-' || s@[0] == '+'));
    let ghost digits = if start == 1 { s@.drop_first() } else { s@ };
    assert(digits =~= s@.subrange(start as int, n as int));
    if n == start {
        return None;
    }
    let mut acc: u64 = 0;
    let mut over = false;
    let mut i: usize = start;
    while i < n
        invariant
            n == s@.len(),
            0 < n,
            start <= i <= n,
            start <= 1,
            negative == (s@[0] == '-'),
            (start == 1) <==> (s@[0] == '-' || s@[0] == '+'),
            digits == (if start == 1 { s@.drop_first() } else { s@ }),
            digits.len() == n - start,
            digits == s@.subrange(start as int, n as int),
            all_digits(digits.take(i - start)),
            !over ==> acc == digits_value(digits.take(i - start)) && acc <= 0x8000_0000,
            over ==> digits_value(digits.take(i - start)) > 0x8000_0000,
        decreases n - i,
    {
        let c = s.get_char(i);
        let cu = c as u32;
        assert(digits[i - start] == c);
        if cu < 48 || cu > 57 {
            assert(!is_digit(digits[i - start]));
            assert(!all_digits(digits));
            return None;
        }
        assert(is_digit(c));
        let d: u64 = (cu - 48) as u64;
        assert(digits.take(i + 1 - start).drop_last() =~= digits.take(i - start));
        assert(digits.take(i + 1 - start).last() == c);
        proof {
            lemma_digits_value_grows(digits.take(i + 1 - start), i - start);
        }
        if over {
            proof {
                lemma_digits_value_grows(digits.take(i - start), i - start);
            }
            assert(digits_value(digits.take(i + 1 - start)) > 0x8000_0000);
        } else {
            if acc > 0x0ccc_cccc {
                // acc * 10 would pass the i32 range for sure
                assert(digits_value(digits.take(i + 1 - start)) > 0x8000_0000);
                over = true;
            } else {
                acc = acc * 10 + d;
                if acc > 0x8000_0000 {
                    over = true;
                }
            }
        }
        i += 1;
    }
    assert(digits.take(n - start) =~= digits);
    assert(all_digits(digits));
    if over {
        return None;
    }
    if negative {
        let v: i64 = -(acc as i64);
        if v < -0x8000_0000i64 {
            return None;
        }
        Some(v as i32)
    } else {
        if acc > 0x7fff_ffff {
            return None;
        }
        Some(acc as i32)
    }
}

/// Scanning left from position `i`, the position just after the nearest
/// character other than `c` (0 if all of `s[..i]` equals `c`).
pub open spec fn skip_char_back(s: Seq<char>, i: int, c: char) -> int
    decreases i,
{
    if i <= 0 {
        0
    } else if s[i - 1] == c {
        skip_char_back(s, i - 1, c)
    } else {
        i
    }
}

/// Scanning left from position `i`, the position just after the nearest
/// occurrence of `c` (0 if `c` does not occur in `s[..i]`).
pub open spec fn skip_other_back(s: Seq<char>, i: int, c: char) -> int
    decreases i,
{
    if i <= 0 {
        0
    } else if s[i - 1] != c {
        skip_other_back(s, i - 1, c)
    } else {
        i
    }
}

/// Both character scans stay within `0..=i`.
pub proof fn lemma_scan_char_bounds(s: Seq<char>, i: int, c: char)
    requires
        0 <= i,
    ensures
        0 <= skip_char_back(s, i, c) <= i,
        0 <= skip_other_back(s, i, c) <= i,
    decreases i,
{
    if i > 0 {
        lemma_scan_char_bounds(s, i - 1, c);
    }
}

/// Scans left from `i` past characters equal to `c`.
pub fn skip_char_back_exec(s: &str, i: usize, c: char) -> (r: usize)
    requires
        i <= s@.len(),
    ensures
        r == skip_char_back(s@, i as int, c),
        r <= i,
{
    let mut j = i;
    while j > 0 && s.get_char(j - 1) == c
        invariant
            j <= i <= s@.len(),
            skip_char_back(s@, i as int, c) == skip_char_back(s@, j as int, c),
        decreases j,
    {
        j -= 1;
    }
    j
}

/// Scans left from `i` past characters other than `c`.
pub fn skip_other_back_exec(s: &str, i: usize, c: char) -> (r: usize)
    requires
        i <= s@.len(),
    ensures
        r == skip_other_back(s@, i as int, c),
        r <= i,
{
    let mut j = i;
    while j > 0 && s.get_char(j - 1) != c
        invariant
            j <= i <= s@.len(),
            skip_other_back(s@, i as int, c) == skip_other_back(s@, j as int, c),
        decreases j,
    {
        j -= 1;
    }
    j
}

} // verus!
