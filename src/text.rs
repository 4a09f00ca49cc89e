//! Searching, splitting and reading numbers in lines of text.

use vstd::prelude::*;

verus! {

/// `t` occurs in `s` starting at index `i`.
pub open spec fn occurs_at(s: Seq<char>, t: Seq<char>, i: int) -> bool {
    0 <= i && i + t.len() <= s.len() && s.subrange(i, i + t.len()) == t
}

/// The first index at or after `i` where `t` occurs in `s`.
pub open spec fn find_from(s: Seq<char>, t: Seq<char>, i: int) -> Option<int>
    decreases s.len() + 1 - i,
{
    if i < 0 || i + t.len() > s.len() {
        None
    } else if occurs_at(s, t, i) {
        Some(i)
    } else {
        find_from(s, t, i + 1)
    }
}

/// The first index where `t` occurs in `s`.
pub open spec fn find_first(s: Seq<char>, t: Seq<char>) -> Option<int> {
    find_from(s, t, 0)
}

pub open spec fn contains_text(s: Seq<char>, t: Seq<char>) -> bool {
    find_first(s, t) is Some
}

/// The characters that separate words.
pub open spec fn is_space(c: char) -> bool {
    c == ' ' || c == '\t' || c == '\n' || c == '\r' || c == '\x0b' || c == '\x0c'
}

/// The first index at or after `i` whose character is not a space, or the length.
pub open spec fn skip_spaces(s: Seq<char>, i: int) -> int
    decreases s.len() - i,
{
    if i >= s.len() || i < 0 {
        s.len() as int
    } else if is_space(s[i]) {
        skip_spaces(s, i + 1)
    } else {
        i
    }
}

/// The first index at or after `i` whose character is a space, or the length.
pub open spec fn word_end(s: Seq<char>, i: int) -> int
    decreases s.len() - i,
{
    if i >= s.len() || i < 0 {
        s.len() as int
    } else if is_space(s[i]) {
        i
    } else {
        word_end(s, i + 1)
    }
}

/// The first word of `s` at or after index `i`: empty when none is left.
pub open spec fn word_at(s: Seq<char>, i: int) -> Seq<char> {
    s.subrange(skip_spaces(s, i), word_end(s, skip_spaces(s, i)))
}

pub fn is_space_char(c: char) -> (r: bool)
    ensures
        r == is_space(c),
{
    c == ' ' || c == '\t' || c == '\n' || c == '\r' || c == '\x0b' || c == '\x0c'
}

/// Whether `t` occurs in `s` at index `i`.
pub fn matches_at(s: &str, t: &str, i: usize) -> (r: bool)
    requires
        i + t@.len() <= s@.len(),
    ensures
        r == occurs_at(s@, t@, i as int),
{
    let n = t.unicode_len();
    let len = s.unicode_len();
    let mut k: usize = 0;
    while k < n
        invariant
            n == t@.len(),
            len == s@.len(),
            i + n <= s@.len(),
            0 <= k <= n,
            forall|j: int| 0 <= j < k ==> s@[i + j] == t@[j],
        decreases n - k,
    {
        if s.get_char(i + k) != t.get_char(k) {
            assert(s@.subrange(i as int, i + n)[k as int] != t@[k as int]);
            return false;
        }
        k = k + 1;
    }
    assert(s@.subrange(i as int, i + n) =~= t@);
    true
}

/// The first index where `t` occurs in `s`, searching from index `from`.
pub fn find_text_from(s: &str, t: &str, from: usize) -> (r: Option<usize>)
    requires
        from <= s@.len(),
    ensures
        r matches Some(i) ==> find_from(s@, t@, from as int) == Some(i as int),
        r is None ==> find_from(s@, t@, from as int) is None,
{
    let n = s.unicode_len();
    let m = t.unicode_len();
    if m > n {
        return None;
    }
    let mut i: usize = from;
    while i <= n - m
        invariant
            n == s@.len(),
            m == t@.len(),
            m <= n,
            from <= i <= n,
            find_from(s@, t@, from as int) == find_from(s@, t@, i as int),
        decreases n - i,
    {
        if matches_at(s, t, i) {
            return Some(i);
        }
        if i == n {
            return None;
        }
        i = i + 1;
    }
    None
}

/// The first index where `t` occurs in `s`.
pub fn find_text(s: &str, t: &str) -> (r: Option<usize>)
    ensures
        r matches Some(i) ==> find_first(s@, t@) == Some(i as int),
        r is None ==> find_first(s@, t@) is None,
{
    find_text_from(s, t, 0)
}

/// Whether `t` occurs in `s`.
pub fn contains(s: &str, t: &str) -> (r: bool)
    ensures
        r == contains_text(s@, t@),
{
    find_text(s, t).is_some()
}

/// The bounds of the first word of `s` at or after index `i`.
pub fn word_bounds(s: &str, i: usize) -> (r: (usize, usize))
    requires
        i <= s@.len(),
    ensures
        r.0 == skip_spaces(s@, i as int),
        r.1 == word_end(s@, r.0 as int),
        i <= r.0 <= r.1 <= s@.len(),
{
    let n = s.unicode_len();
    let mut a: usize = i;
    while a < n && is_space_char(s.get_char(a))
        invariant
            n == s@.len(),
            i <= a <= n,
            skip_spaces(s@, i as int) == skip_spaces(s@, a as int),
        decreases n - a,
    {
        a = a + 1;
    }
    let mut b: usize = a;
    while b < n && !is_space_char(s.get_char(b))
        invariant
            n == s@.len(),
            a <= b <= n,
            a == skip_spaces(s@, i as int),
            word_end(s@, a as int) == word_end(s@, b as int),
        decreases n - b,
    {
        b = b + 1;
    }
    (a, b)
}

pub open spec fn is_digit(c: char) -> bool {
    '0' <= c && c <= '9'
}

pub open spec fn all_digits(s: Seq<char>) -> bool {
    forall|i: int| 0 <= i < s.len() ==> is_digit(#[trigger] s[i])
}

/// The number that a string of decimal digits writes.
pub open spec fn digits_value(s: Seq<char>) -> int
    decreases s.len(),
{
    if s.len() == 0 {
        0
    } else {
        digits_value(s.drop_last()) * 10 + (s.last() as int - '0' as int)
    }
}

/// The number that a decimal numeral writes: an optional sign, then at least
/// one digit.
pub open spec fn numeral_value(s: Seq<char>) -> Option<int> {
    if s.len() >= 2 && (s[0] == '-' || s[0] == '+') && all_digits(s.subrange(1, s.len() as int)) {
        let v = digits_value(s.subrange(1, s.len() as int));
        Some(if s[0] == '-' { -v } else { v })
    } else if s.len() >= 1 && all_digits(s) {
        Some(digits_value(s))
    } else {
        None
    }
}

/// A numeral read as an `i32`: none when it is malformed or out of range.
pub open spec fn i32_value(s: Seq<char>) -> Option<int> {
    match numeral_value(s) {
        Some(v) => if i32::MIN <= v <= i32::MAX { Some(v) } else { None },
        None => None,
    }
}

/// A numeral read as a `u8`: none when it is malformed, signed with `-`, or
/// out of range.
pub open spec fn u8_value(s: Seq<char>) -> Option<int> {
    match numeral_value(s) {
        Some(v) => if s[0] != '-' && 0 <= v <= 255 { Some(v) } else { None },
        None => None,
    }
}

pub proof fn lemma_digits_value_grows(s: Seq<char>, k: int)
    requires
        all_digits(s),
        0 <= k <= s.len(),
    ensures
        0 <= digits_value(s.subrange(0, k)) <= digits_value(s),
    decreases s.len(),
{
    if s.len() > 0 {
        let p = s.drop_last();
        assert(all_digits(p));
        if k == s.len() {
            assert(s.subrange(0, k) =~= s);
            lemma_digits_value_grows(p, p.len() as int);
            assert(p.subrange(0, p.len() as int) =~= p);
        } else {
            lemma_digits_value_grows(p, k);
            assert(s.subrange(0, k) =~= p.subrange(0, k));
            lemma_digits_value_grows(p, p.len() as int);
            assert(p.subrange(0, p.len() as int) =~= p);
        }
    } else {
        assert(s.subrange(0, k) =~= s);
    }
}

/// A value above every numeral that an `i32` or `u8` can hold.
const DIGITS_LIMIT: u64 = 4294967296;

/// The value of a string of digits, when all are digits and the value is at
/// most a bound larger than any `i32`; none otherwise.
fn digits_value_bounded(s: &str) -> (r: Option<u64>)
    ensures
        r matches Some(v) ==> all_digits(s@) && v as int == digits_value(s@),
        r is None ==> !all_digits(s@) || digits_value(s@) > DIGITS_LIMIT,
{
    let n = s.unicode_len();
    let mut acc: u64 = 0;
    let mut k: usize = 0;
    while k < n
        invariant
            n == s@.len(),
            0 <= k <= n,
            all_digits(s@.subrange(0, k as int)),
            acc as int == digits_value(s@.subrange(0, k as int)),
            acc <= DIGITS_LIMIT,
        decreases n - k,
    {
        let c = s.get_char(k);
        if !('0' <= c && c <= '9') {
            assert(!all_digits(s@));
            return None;
        }
        let d = (c as u32 - '0' as u32) as u64;
        assert(s@.subrange(0, k + 1).drop_last() =~= s@.subrange(0, k as int));
        assert(all_digits(s@.subrange(0, k + 1)));
        if acc > (DIGITS_LIMIT - d) / 10 {
            proof {
                if all_digits(s@) {
                    lemma_digits_value_grows(s@, k + 1);
                }
            }
            return None;
        }
        acc = acc * 10 + d;
        k = k + 1;
    }
    assert(s@.subrange(0, n as int) =~= s@);
    Some(acc)
}

/// Reads a numeral as an `i32`.
pub fn parse_i32(s: &str) -> (r: Option<i32>)
    ensures
        r matches Some(v) ==> i32_value(s@) == Some(v as int),
        r is None ==> i32_value(s@) is None,
{
    let n = s.unicode_len();
    if n == 0 {
        return None;
    }
    let c = s.get_char(0);
    if n >= 2 && (c == '-' || c == '+') {
        let rest = s.substring_char(1, n);
        match digits_value_bounded(rest) {
            Some(v) => {
                if c == '-' {
                    if v <= 2147483648 {
                        Some((0 - v as i64) as i32)
                    } else {
                        None
                    }
                } else if v <= 2147483647 {
                    Some(v as i32)
                } else {
                    None
                }
            },
            None => None,
        }
    } else {
        match digits_value_bounded(s) {
            Some(v) => if v <= 2147483647 {
                Some(v as i32)
            } else {
                None
            },
            None => {
                if c == '-' || c == '+' {
                    assert(!is_digit(s@[0]));
                }
                None
            },
        }
    }
}

/// Reads a numeral as a `u8`.
pub fn parse_u8(s: &str) -> (r: Option<u8>)
    ensures
        r matches Some(v) ==> u8_value(s@) == Some(v as int),
        r is None ==> u8_value(s@) is None,
{
    let n = s.unicode_len();
    if n == 0 {
        return None;
    }
    let c = s.get_char(0);
    if c == '-' {
        return None;
    }
    if n >= 2 && c == '+' {
        let rest = s.substring_char(1, n);
        match digits_value_bounded(rest) {
            Some(v) => if v <= 255 {
                Some(v as u8)
            } else {
                None
            },
            None => None,
        }
    } else {
        match digits_value_bounded(s) {
            Some(v) => if v <= 255 {
                Some(v as u8)
            } else {
                None
            },
            None => {
                if c == '+' {
                    assert(!is_digit(s@[0]));
                }
                None
            },
        }
    }
}

pub proof fn lemma_find_from_some(s: Seq<char>, t: Seq<char>, k: int)
    requires
        find_from(s, t, k) is Some,
    ensures
        occurs_at(s, t, find_from(s, t, k)->0),
        k <= find_from(s, t, k)->0,
    decreases s.len() + 1 - k,
{
    if !(k < 0 || k + t.len() > s.len()) && !occurs_at(s, t, k) {
        lemma_find_from_some(s, t, k + 1);
    }
}

/// The text after the first occurrence of `t` in `s`; none when `t` does
/// not occur.
pub open spec fn text_after(s: Seq<char>, t: Seq<char>) -> Option<Seq<char>> {
    match find_first(s, t) {
        Some(i) => Some(s.subrange(i + t.len(), s.len() as int)),
        None => None,
    }
}

/// The text after the first occurrence of `t` in `s`.
pub fn after_text<'a>(s: &'a str, t: &str) -> (r: Option<&'a str>)
    ensures
        r matches Some(x) ==> text_after(s@, t@) == Some(x@),
        r is None ==> text_after(s@, t@) is None,
{
    match find_text(s, t) {
        Some(i) => {
            proof {
                lemma_find_from_some(s@, t@, 0);
            }
            let n = s.unicode_len();
            let m = t.unicode_len();
            Some(s.substring_char(i + m, n))
        },
        None => None,
    }
}

/// The first word of `s`.
pub fn first_word<'a>(s: &'a str) -> (r: &'a str)
    ensures
        r@ == word_at(s@, 0),
{
    let (a, b) = word_bounds(s, 0);
    s.substring_char(a, b)
}

} // verus!
