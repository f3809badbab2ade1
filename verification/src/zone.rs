//! Parsing of compound zone paths of the form
//! `projects/<digits>/zones/<word>-<word>-<word>`, as reported by the
//! metadata server. The first two word tokens joined by a hyphen form the
//! region; all three form the zone.

use vstd::prelude::*;

use crate::strutil::{has_prefix, is_digit, is_digit_char, is_word, is_word_char, starts_with, str_eq};

verus! {

/// A `(region, zone)` pair. Both fields are empty when the zone path did not
/// match; callers treat that as "zone unknown", not as a fault.
#[derive(Debug, Clone, PartialEq, Eq)]
pub struct Zone {
    pub region: String,
    pub zone: String,
}

/// First index at or past `i` whose character fails `pred` (`s.len()` when
/// every later character satisfies it): the end of the maximal run.
pub open spec fn run_end(s: Seq<char>, i: int, pred: spec_fn(char) -> bool) -> int
    decreases s.len() - i,
    when 0 <= i <= s.len()
{
    if i < s.len() && pred(s[i]) {
        run_end(s, i + 1, pred)
    } else {
        i
    }
}

/// End of the maximal run of decimal digits starting at `i`.
pub open spec fn digit_run_end(s: Seq<char>, i: int) -> int {
    run_end(s, i, |c: char| is_digit_char(c))
}

/// End of the maximal run of word characters starting at `i`.
pub open spec fn word_run_end(s: Seq<char>, i: int) -> int {
    run_end(s, i, |c: char| is_word_char(c))
}

/// End of the project-number digits, right after the `projects/` prefix.
pub open spec fn zp_digits_end(s: Seq<char>) -> int {
    digit_run_end(s, "projects/"@.len() as int)
}

/// Start of the zone name, right after the `/zones/` separator.
pub open spec fn zp_name_start(s: Seq<char>) -> int {
    zp_digits_end(s) + "/zones/"@.len()
}

/// End of the first word token of the zone name.
pub open spec fn zp_a_end(s: Seq<char>) -> int {
    word_run_end(s, zp_name_start(s))
}

/// End of the second word token of the zone name.
pub open spec fn zp_b_end(s: Seq<char>) -> int {
    word_run_end(s, zp_a_end(s) + 1)
}

/// End of the third word token of the zone name.
pub open spec fn zp_c_end(s: Seq<char>) -> int {
    word_run_end(s, zp_b_end(s) + 1)
}

/// `s` is a well-formed zone path: the `projects/` prefix, at least one
/// project-number digit, the `/zones/` separator, and then three nonempty
/// word tokens separated by hyphens. Anything after the third token is
/// ignored.
pub open spec fn zone_path_ok(s: Seq<char>) -> bool {
    &&& has_prefix(s, "projects/"@)
    &&& zp_digits_end(s) > "projects/"@.len()
    &&& zp_name_start(s) <= s.len()
    &&& s.subrange(zp_digits_end(s), zp_name_start(s)) =~= "/zones/"@
    &&& zp_a_end(s) > zp_name_start(s)
    &&& zp_a_end(s) < s.len()
    &&& s[zp_a_end(s)] == '-'
    &&& zp_b_end(s) > zp_a_end(s) + 1
    &&& zp_b_end(s) < s.len()
    &&& s[zp_b_end(s)] == '-'
    &&& zp_c_end(s) > zp_b_end(s) + 1
}

/// The region of a well-formed zone path: its first two word tokens with the
/// hyphen between them.
pub open spec fn zone_region(s: Seq<char>) -> Seq<char> {
    s.subrange(zp_name_start(s), zp_b_end(s))
}

/// The zone of a well-formed zone path: its three word tokens with the
/// hyphens between them.
pub open spec fn zone_name(s: Seq<char>) -> Seq<char> {
    s.subrange(zp_name_start(s), zp_c_end(s))
}

fn scan_digits(s: &str, from: usize) -> (r: usize)
    requires
        from <= s@.len(),
    ensures
        r == digit_run_end(s@, from as int),
        from <= r <= s@.len(),
{
    let n = s.unicode_len();
    let mut i: usize = from;
    while i < n && is_digit(s.get_char(i))
        invariant
            n == s@.len(),
            from <= i <= n,
            digit_run_end(s@, from as int) == digit_run_end(s@, i as int),
        decreases n - i,
    {
        i = i + 1;
    }
    i
}

fn scan_word(s: &str, from: usize) -> (r: usize)
    requires
        from <= s@.len(),
    ensures
        r == word_run_end(s@, from as int),
        from <= r <= s@.len(),
{
    let n = s.unicode_len();
    let mut i: usize = from;
    while i < n && is_word(s.get_char(i))
        invariant
            n == s@.len(),
            from <= i <= n,
            word_run_end(s@, from as int) == word_run_end(s@, i as int),
        decreases n - i,
    {
        i = i + 1;
    }
    i
}

/// Parse a zone path into its `(region, zone)` pair; both come back empty
/// when `text` does not match the expected shape.
pub fn parse_zone(text: &str) -> (z: Zone)
    ensures
        zone_path_ok(text@) ==> z.region@ == zone_region(text@) && z.zone@ == zone_name(text@),
        !zone_path_ok(text@) ==> z.region@ == Seq::<char>::empty() && z.zone@ == Seq::<
            char,
        >::empty(),
{
    proof {
        reveal_strlit("projects/");
        reveal_strlit("/zones/");
    }
    let n = text.unicode_len();
    if !starts_with(text, "projects/") {
        return Zone { region: String::new(), zone: String::new() };
    }
    let d = scan_digits(text, 9);
    if d == 9 {
        return Zone { region: String::new(), zone: String::new() };
    }
    if n - d < 7 {
        return Zone { region: String::new(), zone: String::new() };
    }
    let sep = text.substring_char(d, d + 7);
    if !str_eq(sep, "/zones/") {
        return Zone { region: String::new(), zone: String::new() };
    }
    let a0 = d + 7;
    let a1 = scan_word(text, a0);
    if a1 == a0 || a1 == n {
        return Zone { region: String::new(), zone: String::new() };
    }
    if text.get_char(a1) != '-' {
        return Zone { region: String::new(), zone: String::new() };
    }
    let b1 = scan_word(text, a1 + 1);
    if b1 == a1 + 1 || b1 == n {
        return Zone { region: String::new(), zone: String::new() };
    }
    if text.get_char(b1) != '-' {
        return Zone { region: String::new(), zone: String::new() };
    }
    let c1 = scan_word(text, b1 + 1);
    if c1 == b1 + 1 {
        return Zone { region: String::new(), zone: String::new() };
    }
    let region = text.substring_char(a0, b1).to_owned();
    let zone = text.substring_char(a0, c1).to_owned();
    Zone { region, zone }
}

} // verus!
