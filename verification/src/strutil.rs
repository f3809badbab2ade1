//! Verified helpers over strings: character classes, equality, prefix tests,
//! character counting, path segments, trimming, and decimal conversions.

use vstd::prelude::*;

verus! {

/// Relies on std's `String::push`: appends the given character to the end of
/// the string.
pub assume_specification[ String::push ](s: &mut String, ch: char)
    ensures
        final(s)@ == old(s)@.push(ch),
;

/// True for the ASCII decimal digits.
pub open spec fn is_digit_char(c: char) -> bool {
    '0' <= c && c <= '9'
}

/// Numeric value of an ASCII decimal digit.
pub open spec fn digit_val(c: char) -> nat
    recommends
        is_digit_char(c),
{
    (c as nat - '0' as nat) as nat
}

/// Word characters: ASCII letters, digits and the underscore.
pub open spec fn is_word_char(c: char) -> bool {
    ||| is_digit_char(c)
    ||| 'a' <= c && c <= 'z'
    ||| 'A' <= c && c <= 'Z'
    ||| c == '_'
}

/// ASCII whitespace, as trimmed from the namespace file.
pub open spec fn is_space_char(c: char) -> bool {
    c == ' ' || c == '\t' || c == '\n' || c == '\r'
}

/// `p` is a prefix of `s`.
pub open spec fn has_prefix(s: Seq<char>, p: Seq<char>) -> bool {
    p.len() <= s.len() && s.subrange(0, p.len() as int) =~= p
}

/// How many times `c` occurs in `s`.
pub open spec fn count_char(s: Seq<char>, c: char) -> nat
    decreases s.len(),
{
    if s.len() == 0 {
        0
    } else {
        count_char(s.drop_last(), c) + if s.last() == c {
            1nat
        } else {
            0nat
        }
    }
}

fn exec_digit_val(c: char) -> (r: u8)
    requires
        is_digit_char(c),
    ensures
        r == digit_val(c),
{
    ((c as u32) - 48) as u8
}

pub fn is_digit(c: char) -> (r: bool)
    ensures
        r == is_digit_char(c),
{
    let u = c as u32;
    48 <= u && u <= 57
}

pub fn is_word(c: char) -> (r: bool)
    ensures
        r == is_word_char(c),
{
    let u = c as u32;
    (48 <= u && u <= 57) || (97 <= u && u <= 122) || (65 <= u && u <= 90) || u == 95
}

fn is_space(c: char) -> (r: bool)
    ensures
        r == is_space_char(c),
{
    c == ' ' || c == '\t' || c == '\n' || c == '\r'
}

/// Character-by-character equality of two string slices.
pub fn str_eq(a: &str, b: &str) -> (r: bool)
    ensures
        r == (a@ == b@),
{
    let n = a.unicode_len();
    if n != b.unicode_len() {
        assert(a@ != b@) by {
            if a@ == b@ {
                assert(a@.len() == b@.len());
            }
        }
        return false;
    }
    let mut i: usize = 0;
    while i < n
        invariant
            n == a@.len() == b@.len(),
            i <= n,
            forall|j: int| 0 <= j < i ==> a@[j] == b@[j],
        decreases n - i,
    {
        if a.get_char(i) != b.get_char(i) {
            assert(a@ != b@) by {
                if a@ == b@ {
                    assert(a@[i as int] == b@[i as int]);
                }
            }
            return false;
        }
        i = i + 1;
    }
    assert(a@ =~= b@);
    true
}

/// Does `s` start with the prefix `p`?
pub fn starts_with(s: &str, p: &str) -> (r: bool)
    ensures
        r == has_prefix(s@, p@),
{
    let sn = s.unicode_len();
    let pn = p.unicode_len();
    if pn > sn {
        return false;
    }
    let mut i: usize = 0;
    while i < pn
        invariant
            pn == p@.len() <= s@.len(),
            i <= pn,
            forall|j: int| 0 <= j < i ==> s@[j] == p@[j],
        decreases pn - i,
    {
        if s.get_char(i) != p.get_char(i) {
            assert(!has_prefix(s@, p@)) by {
                if has_prefix(s@, p@) {
                    assert(s@.subrange(0, p@.len() as int)[i as int] == p@[i as int]);
                }
            }
            return false;
        }
        i = i + 1;
    }
    assert(s@.subrange(0, p@.len() as int) =~= p@);
    true
}

/// Number of occurrences of `c` among the characters of `s`.
pub fn count_char_in(s: &str, c: char) -> (r: usize)
    ensures
        r == count_char(s@, c),
{
    let n = s.unicode_len();
    let mut i: usize = 0;
    let mut cnt: usize = 0;
    while i < n
        invariant
            n == s@.len() <= usize::MAX,
            i <= n,
            cnt == count_char(s@.subrange(0, i as int), c),
            cnt <= i,
        decreases n - i,
    {
        proof {
            assert(s@.subrange(0, i + 1).drop_last() =~= s@.subrange(0, i as int));
            assert(s@.subrange(0, i + 1).last() == s@[i as int]);
        }
        if s.get_char(i) == c {
            cnt = cnt + 1;
        }
        i = i + 1;
    }
    proof {
        assert(s@.subrange(0, n as int) =~= s@);
    }
    cnt
}

/// Index just past the last occurrence of `c` in `s`, or 0 when `c` does not
/// occur.
pub open spec fn after_last(s: Seq<char>, c: char) -> int
    decreases s.len(),
{
    if s.len() == 0 {
        0
    } else if s.last() == c {
        s.len() as int
    } else {
        after_last(s.drop_last(), c)
    }
}

/// The suffix of `s` after its last occurrence of `c`; `s` itself when `c`
/// does not occur.
pub open spec fn last_segment(s: Seq<char>, c: char) -> Seq<char> {
    s.subrange(after_last(s, c), s.len() as int)
}

/// The suffix of `s` after the last occurrence of `c`.
pub fn last_segment_of(s: &str, c: char) -> (r: String)
    ensures
        r@ == last_segment(s@, c),
{
    let n = s.unicode_len();
    let mut seg_start: usize = 0;
    let mut i: usize = 0;
    while i < n
        invariant
            n == s@.len(),
            i <= n,
            seg_start == after_last(s@.subrange(0, i as int), c),
            seg_start <= i,
        decreases n - i,
    {
        proof {
            assert(s@.subrange(0, i + 1).drop_last() =~= s@.subrange(0, i as int));
            assert(s@.subrange(0, i + 1).last() == s@[i as int]);
        }
        if s.get_char(i) == c {
            seg_start = i + 1;
        }
        i = i + 1;
    }
    proof {
        assert(s@.subrange(0, n as int) =~= s@);
    }
    let seg = s.substring_char(seg_start, n);
    seg.to_owned()
}

/// The index of the first character of `s` that is not ASCII whitespace
/// (`s.len()` when every character is).
pub open spec fn first_non_space(s: Seq<char>) -> int
    decreases s.len(),
{
    if s.len() == 0 {
        0
    } else if !is_space_char(s[0]) {
        0
    } else {
        1 + first_non_space(s.drop_first())
    }
}

/// Index just past the last character of `s` that is not ASCII whitespace
/// (0 when every character is).
pub open spec fn end_non_space(s: Seq<char>) -> int
    decreases s.len(),
{
    if s.len() == 0 {
        0
    } else if !is_space_char(s.last()) {
        s.len() as int
    } else {
        end_non_space(s.drop_last())
    }
}

/// `s` with leading and trailing ASCII whitespace removed.
pub open spec fn trimmed(s: Seq<char>) -> Seq<char> {
    if first_non_space(s) == s.len() {
        Seq::empty()
    } else {
        s.subrange(first_non_space(s), end_non_space(s))
    }
}

proof fn lemma_first_non_space(s: Seq<char>)
    ensures
        0 <= first_non_space(s) <= s.len(),
        forall|j: int| 0 <= j < first_non_space(s) ==> is_space_char(s[j]),
        first_non_space(s) < s.len() ==> !is_space_char(s[first_non_space(s)]),
    decreases s.len(),
{
    if s.len() > 0 && is_space_char(s[0]) {
        let t = s.drop_first();
        lemma_first_non_space(t);
        assert forall|j: int| 0 <= j < first_non_space(s) implies is_space_char(s[j]) by {
            if j > 0 {
                assert(s[j] == t[j - 1]);
            }
        }
        if first_non_space(s) < s.len() {
            assert(s[first_non_space(s)] == t[first_non_space(s) - 1]);
        }
    }
}

proof fn lemma_end_non_space(s: Seq<char>)
    ensures
        0 <= end_non_space(s) <= s.len(),
        forall|j: int| end_non_space(s) <= j < s.len() ==> is_space_char(s[j]),
        end_non_space(s) > 0 ==> !is_space_char(s[end_non_space(s) - 1]),
    decreases s.len(),
{
    if s.len() > 0 && is_space_char(s.last()) {
        lemma_end_non_space(s.drop_last());
        assert(forall|j: int| 0 <= j < s.len() - 1 ==> s.drop_last()[j] == s[j]);
    }
}

proof fn lemma_trim_bounds(s: Seq<char>)
    ensures
        first_non_space(s) < s.len() ==> first_non_space(s) < end_non_space(s),
    decreases s.len(),
{
    if s.len() > 0 {
        lemma_first_non_space(s);
        lemma_end_non_space(s);
        if first_non_space(s) < s.len() {
            let f = first_non_space(s);
            if end_non_space(s) <= f {
                assert(is_space_char(s[f]));
            }
        }
    }
}

/// `s` without leading and trailing ASCII whitespace.
pub fn trim_spaces(s: &str) -> (r: String)
    ensures
        r@ == trimmed(s@),
{
    let n = s.unicode_len();
    proof {
        lemma_first_non_space(s@);
    }
    let mut start: usize = 0;
    while start < n && is_space(s.get_char(start))
        invariant
            n == s@.len(),
            start <= n,
            forall|j: int| 0 <= j < start ==> is_space_char(s@[j]),
            first_non_space(s@) >= start,
        decreases n - start,
    {
        proof {
            lemma_first_non_space(s@);
            assert(first_non_space(s@) >= start + 1) by {
                if first_non_space(s@) == start {
                    assert(!is_space_char(s@[start as int]));
                }
            }
        }
        start = start + 1;
    }
    proof {
        lemma_first_non_space(s@);
        assert(first_non_space(s@) == start) by {
            if first_non_space(s@) > start {
                assert(is_space_char(s@[start as int]));
            }
        }
    }
    if start == n {
        return String::new();
    }
    proof {
        lemma_end_non_space(s@);
    }
    let mut end: usize = n;
    while end > start && is_space(s.get_char(end - 1))
        invariant
            n == s@.len(),
            start <= end <= n,
            start < n,
            !is_space_char(s@[start as int]),
            forall|j: int| end <= j < n ==> is_space_char(s@[j]),
            end_non_space(s@) <= end,
        decreases end,
    {
        proof {
            lemma_end_non_space(s@);
            assert(end_non_space(s@) <= end - 1) by {
                if end_non_space(s@) == end {
                    assert(!is_space_char(s@[end - 1]));
                }
            }
        }
        end = end - 1;
    }
    proof {
        lemma_end_non_space(s@);
        lemma_trim_bounds(s@);
        assert(end_non_space(s@) == end) by {
            if end_non_space(s@) < end {
                assert(is_space_char(s@[end - 1]));
            }
        }
    }
    let seg = s.substring_char(start, end);
    seg.to_owned()
}

/// Every character of `s` is an ASCII decimal digit.
pub open spec fn all_digits(s: Seq<char>) -> bool {
    forall|j: int| 0 <= j < s.len() ==> is_digit_char(s[j])
}

/// The number the digit string `s` denotes in decimal.
pub open spec fn digits_val(s: Seq<char>) -> nat
    decreases s.len(),
{
    if s.len() == 0 {
        0
    } else {
        digits_val(s.drop_last()) * 10 + digit_val(s.last())
    }
}

/// The array index a path key denotes: a nonempty run of decimal digits whose
/// value fits in `usize`; anything else denotes no index.
pub open spec fn index_of_key(s: Seq<char>) -> Option<int> {
    if s.len() > 0 && all_digits(s) && digits_val(s) <= usize::MAX {
        Some(digits_val(s) as int)
    } else {
        None
    }
}

proof fn lemma_digits_val_prefix(s: Seq<char>, i: int)
    requires
        0 <= i <= s.len(),
    ensures
        digits_val(s.subrange(0, i)) <= digits_val(s),
    decreases s.len(),
{
    if i == s.len() {
        assert(s.subrange(0, i) =~= s);
    } else {
        let t = s.drop_last();
        lemma_digits_val_prefix(t, i);
        assert(t.subrange(0, i) =~= s.subrange(0, i));
        assert(digits_val(t) * 10 + digit_val(s.last()) >= digits_val(t)) by (nonlinear_arith);
    }
}

/// Parse a string as a decimal `usize`, the way an array index inside a key
/// path is read.
pub fn parse_usize(s: &str) -> (r: Option<usize>)
    ensures
        r matches Some(v) ==> index_of_key(s@) == Some(v as int),
        r is None ==> index_of_key(s@) is None,
{
    let n = s.unicode_len();
    if n == 0 {
        return None;
    }
    let mut acc: usize = 0;
    let mut i: usize = 0;
    while i < n
        invariant
            n == s@.len() <= usize::MAX,
            i <= n,
            forall|j: int| 0 <= j < i ==> is_digit_char(s@[j]),
            acc == digits_val(s@.subrange(0, i as int)),
        decreases n - i,
    {
        let c = s.get_char(i);
        if !is_digit(c) {
            return None;
        }
        let d = exec_digit_val(c) as usize;
        proof {
            assert(s@.subrange(0, i + 1).drop_last() =~= s@.subrange(0, i as int));
            assert(s@.subrange(0, i + 1).last() == s@[i as int]);
        }
        if acc > (usize::MAX - d) / 10 {
            proof {
                assert(acc * 10 + d > usize::MAX) by (nonlinear_arith)
                    requires
                        acc > (usize::MAX - d) / 10,
                        d <= usize::MAX,
                ;
                lemma_digits_val_prefix(s@, i + 1);
            }
            return None;
        }
        proof {
            assert(acc * 10 + d <= usize::MAX) by (nonlinear_arith)
                requires
                    acc <= (usize::MAX - d) / 10,
                    d <= usize::MAX,
            ;
        }
        acc = acc * 10 + d;
        i = i + 1;
    }
    proof {
        assert(s@.subrange(0, n as int) =~= s@);
    }
    Some(acc)
}

/// The character for a single decimal digit.
pub open spec fn digit_char_of(d: nat) -> char
    recommends
        d < 10,
{
    ((d + 48) as u8) as char
}

/// The decimal digits of `n`, most significant first.
pub open spec fn dec_digits(n: nat) -> Seq<char>
    decreases n,
{
    if n < 10 {
        seq![digit_char_of(n)]
    } else {
        dec_digits(n / 10).push(digit_char_of(n % 10))
    }
}

/// Decimal text of an integer, with a leading '-' when negative.
pub open spec fn int_text(i: int) -> Seq<char> {
    if i >= 0 {
        dec_digits(i as nat)
    } else {
        seq!['-'] + dec_digits((-i) as nat)
    }
}

fn digit_char(d: u8) -> (c: char)
    requires
        d < 10,
    ensures
        c == digit_char_of(d as nat),
{
    (d + 48) as char
}

/// Decimal rendering of an unsigned integer.
pub fn u64_to_string(n: u64) -> (r: String)
    ensures
        r@ == dec_digits(n as nat),
{
    let mut chars: Vec<char> = Vec::new();
    let mut m: u64 = n;
    while m >= 10
        invariant
            dec_digits(n as nat) =~= dec_digits(m as nat) + chars@.reverse(),
        decreases m,
    {
        let d = (m % 10) as u8;
        chars.push(digit_char(d));
        proof {
            let old_chars = chars@.drop_last();
            assert(chars@.reverse() =~= seq![digit_char_of(d as nat)] + old_chars.reverse());
            assert(dec_digits((m / 10) as nat).push(digit_char_of(d as nat)) + old_chars.reverse()
                =~= dec_digits((m / 10) as nat) + chars@.reverse());
        }
        m = m / 10;
    }
    let d = m as u8;
    chars.push(digit_char(d));
    proof {
        let old_chars = chars@.drop_last();
        assert(chars@.reverse() =~= seq![digit_char_of(d as nat)] + old_chars.reverse());
        assert(dec_digits(m as nat) + old_chars.reverse() =~= chars@.reverse());
        assert(dec_digits(n as nat) =~= chars@.reverse());
    }
    let mut r = String::new();
    let len = chars.len();
    let mut i: usize = len;
    while i > 0
        invariant
            len == chars@.len(),
            i <= len,
            r@ =~= chars@.reverse().subrange(0, len - i),
            dec_digits(n as nat) == chars@.reverse(),
        decreases i,
    {
        r.push(chars[i - 1]);
        proof {
            assert(chars@.reverse()[len - i] == chars@[i - 1]);
            assert(r@ =~= chars@.reverse().subrange(0, len - (i - 1)));
        }
        i = i - 1;
    }
    proof {
        assert(chars@.reverse().subrange(0, len as int) =~= chars@.reverse());
    }
    r
}

/// Decimal rendering of a signed integer.
pub fn i64_to_string(v: i64) -> (r: String)
    ensures
        r@ == int_text(v as int),
{
    if v >= 0 {
        u64_to_string(v as u64)
    } else {
        let mag: u64 = if v == i64::MIN {
            9223372036854775808u64
        } else {
            (-v) as u64
        };
        let digits = u64_to_string(mag);
        let mut r = String::new();
        r.push('-');
        r.append(digits.as_str());
        proof {
            assert(r@ =~= seq!['-'] + dec_digits(mag as nat));
        }
        r
    }
}

} // verus!
