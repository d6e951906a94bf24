//! The in-content engine marker `<!--template NAME-->`: its grammar as a
//! specification over `Seq<char>`, and a verified scanner that finds the
//! first marker, extracts the lowercased engine name, and removes the marker
//! from the content.
//!
//! The grammar: the opening `<!--template` (any letter case), one or more
//! whitespace characters, a name of one or more word characters (ASCII
//! letters, digits and the underscore), at most one further whitespace
//! character, then `-->`. Only the first marker in the content counts.
use vstd::prelude::*;
use crate::text::{
    is_space_char, is_word_char, is_space, is_word, lower_char, lower_seq, skip_spaces, skip_word,
    trim_seq, to_lower, copy_range, lower_chars, trim_chars,
};

verus! {

/// The marker's fixed opening, lowercased.
pub open spec fn marker_keyword() -> Seq<char> {
    seq!['<', '!', '-', '-', 't', 'e', 'm', 'p', 'l', 'a', 't', 'e']
}

/// Case-insensitive occurrence of the fixed opening at position `i`.
pub open spec fn keyword_at(s: Seq<char>, i: int) -> bool {
    &&& 0 <= i
    &&& i + 12 <= s.len()
    &&& lower_seq(s.subrange(i, i + 12)) == marker_keyword()
}

/// Where the engine name starts if a marker begins at `i`: past the
/// whitespace run that follows the opening.
pub open spec fn name_start_at(s: Seq<char>, i: int) -> int {
    skip_spaces(s, i + 12)
}

/// Where that name ends: past the run of word characters.
pub open spec fn name_end_at(s: Seq<char>, i: int) -> int {
    skip_word(s, name_start_at(s, i))
}

/// Where the closing `-->` starts: right after the name, or after the one
/// whitespace character allowed to follow it.
pub open spec fn close_at(s: Seq<char>, i: int) -> int {
    let k = name_end_at(s, i);
    if k < s.len() && is_space_char(s[k]) {
        k + 1
    } else {
        k
    }
}

/// One past the end of the whole marker.
pub open spec fn marker_end_at(s: Seq<char>, i: int) -> int {
    close_at(s, i) + 3
}

/// Whether a whole marker begins at position `i`.
pub open spec fn marker_matches_at(s: Seq<char>, i: int) -> bool {
    &&& keyword_at(s, i)
    &&& i + 12 < name_start_at(s, i)
    &&& name_start_at(s, i) < name_end_at(s, i)
    &&& marker_end_at(s, i) <= s.len()
    &&& s[close_at(s, i)] == '-'
    &&& s[close_at(s, i) + 1] == '-'
    &&& s[close_at(s, i) + 2] == '>'
}

/// The first position at or after `a` where a marker begins, or `s.len()`
/// when there is none.
pub open spec fn first_marker_from(s: Seq<char>, a: int) -> int
    recommends
        0 <= a <= s.len(),
    decreases s.len() - a when 0 <= a <= s.len()
{
    if a >= s.len() {
        a
    } else if marker_matches_at(s, a) {
        a
    } else {
        first_marker_from(s, a + 1)
    }
}

/// The first position where a marker begins, or `s.len()` when none does.
pub open spec fn first_marker(s: Seq<char>) -> int {
    first_marker_from(s, 0)
}

/// Whether the content holds a marker at all.
pub open spec fn has_marker(s: Seq<char>) -> bool {
    first_marker(s) < s.len()
}

/// The lowercased engine name of the first marker.
pub open spec fn marker_name(s: Seq<char>) -> Seq<char>
    recommends
        has_marker(s),
{
    let i = first_marker(s);
    lower_seq(s.subrange(name_start_at(s, i), name_end_at(s, i)))
}

/// The content once the first marker is removed and what remains is trimmed
/// of leading and trailing whitespace.
pub open spec fn stripped_content(s: Seq<char>) -> Seq<char>
    recommends
        has_marker(s),
{
    let i = first_marker(s);
    trim_seq(s.subrange(0, i) + s.subrange(marker_end_at(s, i), s.len() as int))
}

/// The character of the fixed opening at offset `t`.
fn keyword_char(t: usize) -> (c: char)
    requires
        t < 12,
    ensures
        c == marker_keyword()[t as int],
{
    match t {
        0 => '<',
        1 => '!',
        2 => '-',
        3 => '-',
        4 => 't',
        5 => 'e',
        6 => 'm',
        7 => 'p',
        8 => 'l',
        9 => 'a',
        10 => 't',
        _ => 'e',
    }
}

/// Case-insensitive comparison of `v[i .. i + 12]` against the opening.
fn match_keyword_at(v: &Vec<char>, i: usize) -> (r: bool)
    requires
        i <= v@.len(),
    ensures
        r == keyword_at(v@, i as int),
{
    let n = v.len();
    if n - i < 12 {
        return false;
    }
    let mut t: usize = 0;
    while t < 12
        invariant
            i + 12 <= n,
            n == v@.len(),
            t <= 12,
            forall|u: int| 0 <= u < t ==> lower_char(v@[i + u]) == marker_keyword()[u],
        decreases 12 - t,
    {
        if to_lower(v[i + t]) != keyword_char(t) {
            proof {
                let sub = v@.subrange(i as int, i + 12);
                assert(lower_seq(sub)[t as int] == lower_char(v@[i + t]));
            }
            return false;
        }
        t = t + 1;
    }
    proof {
        let sub = v@.subrange(i as int, i + 12);
        assert(lower_seq(sub) =~= marker_keyword()) by {
            assert forall|u: int| 0 <= u < 12 implies lower_seq(sub)[u] == marker_keyword()[u] by {
                assert(sub[u] == v@[i + u]);
            }
        }
    }
    true
}

/// Try the whole marker grammar at position `i`; on a match, the name's
/// bounds and the end of the marker.
fn try_match_at(v: &Vec<char>, i: usize) -> (r: Option<(usize, usize, usize)>)
    requires
        i <= v@.len(),
    ensures
        r is Some <==> marker_matches_at(v@, i as int),
        r matches Some(h) ==> {
            &&& h.0 as int == name_start_at(v@, i as int)
            &&& h.1 as int == name_end_at(v@, i as int)
            &&& h.2 as int == marker_end_at(v@, i as int)
        },
{
    let n = v.len();
    if !match_keyword_at(v, i) {
        return None;
    }
    assert(i + 12 <= n);
    let mut j: usize = i + 12;
    while j < v.len() && is_space(v[j])
        invariant
            i + 12 <= j <= v@.len(),
            skip_spaces(v@, i + 12 as int) == skip_spaces(v@, j as int),
        decreases v@.len() - j,
    {
        j = j + 1;
    }
    assert(name_start_at(v@, i as int) == j);
    if j == i + 12 {
        return None;
    }
    let mut k: usize = j;
    while k < v.len() && is_word(v[k])
        invariant
            j <= k <= v@.len(),
            skip_word(v@, j as int) == skip_word(v@, k as int),
        decreases v@.len() - k,
    {
        k = k + 1;
    }
    assert(name_end_at(v@, i as int) == k);
    if k == j {
        return None;
    }
    let mut e: usize = k;
    if e < v.len() && is_space(v[e]) {
        e = e + 1;
    }
    assert(close_at(v@, i as int) == e);
    if v.len() - e >= 3 && v[e] == '-' && v[e + 1] == '-' && v[e + 2] == '>' {
        Some((j, k, e + 3))
    } else {
        None
    }
}

/// Scan a template body for its first engine marker. On a hit, the result
/// carries the lowercased engine name and the content with the marker
/// removed and the remainder trimmed.
pub fn scan_marker(v: &Vec<char>) -> (r: Option<(Vec<char>, Vec<char>)>)
    ensures
        r is Some <==> has_marker(v@),
        r matches Some(p) ==> p.0@ == marker_name(v@) && p.1@ == stripped_content(v@),
{
    let n = v.len();
    let mut i: usize = 0;
    while i < n
        invariant
            i <= n,
            n == v@.len(),
            first_marker(v@) == first_marker_from(v@, i as int),
        decreases n - i,
    {
        match try_match_at(v, i) {
            Some(hit) => {
                assert(first_marker(v@) == i);
                let (j, k, e) = hit;
                let name_raw = copy_range(v, j, k);
                let name = lower_chars(&name_raw);
                let mut rest = copy_range(v, 0, i);
                let mut t: usize = e;
                while t < n
                    invariant
                        e <= t <= n,
                        n == v@.len(),
                        i <= v@.len(),
                        rest@ == v@.subrange(0, i as int) + v@.subrange(e as int, t as int),
                    decreases n - t,
                {
                    rest.push(v[t]);
                    assert(rest@ =~= v@.subrange(0, i as int) + v@.subrange(e as int, t + 1 as int));
                    t = t + 1;
                }
                let rest = trim_chars(&rest);
                return Some((name, rest));
            },
            None => {
                i = i + 1;
            },
        }
    }
    None
}

} // verus!
