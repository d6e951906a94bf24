//! Character classes and small string utilities that the detector and the
//! path helpers share: whitespace, word characters, ASCII lowercasing,
//! and trimming, each with an exact specification over `Seq<char>`.
use vstd::prelude::*;

verus! {

/// Whitespace, as the marker grammar and the trimming see it: the ASCII
/// blanks (space, tab, line feed, carriage return, vertical tab, form feed)
/// and the Unicode spaces — next line, no-break space, ogham space mark, the
/// en to hair spaces, line and paragraph separators, narrow and medium
/// mathematical spaces, ideographic space.
pub open spec fn is_space_char(c: char) -> bool {
    let u = c as u32;
    ||| u == 32
    ||| (9 <= u && u <= 13)
    ||| u == 0x85
    ||| u == 0xa0
    ||| u == 0x1680
    ||| (0x2000 <= u && u <= 0x200a)
    ||| u == 0x2028
    ||| u == 0x2029
    ||| u == 0x202f
    ||| u == 0x205f
    ||| u == 0x3000
}

/// ASCII word character: a letter, a digit, or an underscore.
pub open spec fn is_word_char(c: char) -> bool {
    (97 <= c as u32 && c as u32 <= 122)  // 'a' ..= 'z'
    || (65 <= c as u32 && c as u32 <= 90)  // 'A' ..= 'Z'
    || (48 <= c as u32 && c as u32 <= 57)  // '0' ..= '9'
    || c == '_'
}

/// ASCII lowercasing of one character; anything but 'A' ..= 'Z' is unchanged.
pub open spec fn lower_char(c: char) -> char {
    if 65 <= c as u32 && c as u32 <= 90 {
        (((c as u8) + 32) as char)
    } else {
        c
    }
}

/// ASCII lowercasing of a whole sequence.
pub open spec fn lower_seq(s: Seq<char>) -> Seq<char> {
    s.map_values(|c: char| lower_char(c))
}

pub fn is_space(c: char) -> (r: bool)
    ensures
        r == is_space_char(c),
{
    let u = c as u32;
    u == 32 || (9 <= u && u <= 13) || u == 0x85 || u == 0xa0 || u == 0x1680 || (0x2000 <= u && u
        <= 0x200a) || u == 0x2028 || u == 0x2029 || u == 0x202f || u == 0x205f || u == 0x3000
}

pub fn is_word(c: char) -> (r: bool)
    ensures
        r == is_word_char(c),
{
    let u = c as u32;
    (97 <= u && u <= 122) || (65 <= u && u <= 90) || (48 <= u && u <= 57) || c == '_'
}

pub fn to_lower(c: char) -> (r: char)
    ensures
        r == lower_char(c),
{
    let u = c as u32;
    if 65 <= u && u <= 90 {
        ((c as u8) + 32) as char
    } else {
        c
    }
}

/// The characters of `s`, in order, as a vector. ASCII text walks its bytes;
/// anything else falls back to character indexing.
pub fn chars_of(s: &str) -> (v: Vec<char>)
    ensures
        v@ == s@,
{
    let n = s.unicode_len();
    let mut v: Vec<char> = Vec::new();
    let mut i: usize = 0;
    if s.is_ascii() {
        while i < n
            invariant
                n == s@.len(),
                vstd::string::is_ascii(s),
                i <= n,
                v@ == s@.subrange(0, i as int),
            decreases n - i,
        {
            let b = s.get_ascii(i);
            proof {
                vstd::utf8::char_u32_cast(s@[i as int], b as u32);
            }
            v.push(b as char);
            assert(v@ =~= s@.subrange(0, i + 1 as int));
            i = i + 1;
        }
    } else {
        while i < n
            invariant
                n == s@.len(),
                i <= n,
                v@ == s@.subrange(0, i as int),
            decreases n - i,
        {
            v.push(s.get_char(i));
            assert(v@ =~= s@.subrange(0, i + 1 as int));
            i = i + 1;
        }
    }
    assert(v@ =~= s@);
    v
}

/// Relies on `String as FromIterator<char>`: collecting characters yields the
/// string of exactly those characters in order.
#[verifier::external_body]
pub fn string_from_chars(v: Vec<char>) -> (s: String)
    ensures
        s@ == v@,
{
    v.into_iter().collect()
}

/// ASCII-lowercase every character of `v`.
pub fn lower_chars(v: &Vec<char>) -> (r: Vec<char>)
    ensures
        r@ == lower_seq(v@),
{
    let mut r: Vec<char> = Vec::new();
    let mut i: usize = 0;
    while i < v.len()
        invariant
            i <= v@.len(),
            r@ == lower_seq(v@.subrange(0, i as int)),
        decreases v@.len() - i,
    {
        r.push(to_lower(v[i]));
        assert(r@ =~= lower_seq(v@.subrange(0, i + 1 as int)));
        i = i + 1;
    }
    assert(v@.subrange(0, v@.len() as int) =~= v@);
    r
}

/// First position at or after `i` whose character is not whitespace
/// (or the end of the sequence).
pub open spec fn skip_spaces(s: Seq<char>, i: int) -> int
    recommends
        0 <= i <= s.len(),
    decreases s.len() - i when 0 <= i <= s.len()
{
    if i < s.len() && is_space_char(s[i]) {
        skip_spaces(s, i + 1)
    } else {
        i
    }
}

/// First position at or after `i` whose character is not a word character
/// (or the end of the sequence).
pub open spec fn skip_word(s: Seq<char>, i: int) -> int
    recommends
        0 <= i <= s.len(),
    decreases s.len() - i when 0 <= i <= s.len()
{
    if i < s.len() && is_word_char(s[i]) {
        skip_word(s, i + 1)
    } else {
        i
    }
}

/// Copy `v[a .. b]` into a fresh vector.
pub fn copy_range(v: &Vec<char>, a: usize, b: usize) -> (r: Vec<char>)
    requires
        a <= b <= v@.len(),
    ensures
        r@ == v@.subrange(a as int, b as int),
{
    let mut r: Vec<char> = Vec::new();
    let mut i: usize = a;
    while i < b
        invariant
            a <= i <= b <= v@.len(),
            r@ == v@.subrange(a as int, i as int),
        decreases b - i,
    {
        r.push(v[i]);
        assert(r@ =~= v@.subrange(a as int, i + 1 as int));
        i = i + 1;
    }
    r
}

/// Whether the characters of `v` spell exactly the string `lit`.
pub fn chars_eq_str(v: &Vec<char>, lit: &str) -> (r: bool)
    ensures
        r == (v@ == lit@),
{
    let n = lit.unicode_len();
    if v.len() != n {
        return false;
    }
    let mut i: usize = 0;
    while i < n
        invariant
            i <= n,
            n == lit@.len(),
            n == v@.len(),
            forall|t: int| 0 <= t < i ==> v@[t] == lit@[t],
        decreases n - i,
    {
        if v[i] != lit.get_char(i) {
            return false;
        }
        i = i + 1;
    }
    assert(v@ =~= lit@);
    true
}

/// Position ending the whitespace run that precedes `i`: the least
/// `b <= i` with only whitespace in `s[b .. i]`.
pub open spec fn rskip_spaces(s: Seq<char>, i: int) -> int
    recommends
        0 <= i <= s.len(),
    decreases i when 0 <= i <= s.len()
{
    if i > 0 && is_space_char(s[i - 1]) {
        rskip_spaces(s, i - 1)
    } else {
        i
    }
}

/// `s` with leading and trailing whitespace removed.
pub open spec fn trim_seq(s: Seq<char>) -> Seq<char> {
    let a = skip_spaces(s, 0);
    let b = rskip_spaces(s, s.len() as int);
    if a <= b {
        s.subrange(a, b)
    } else {
        Seq::empty()
    }
}

/// Trim leading and trailing whitespace from a character vector.
pub fn trim_chars(v: &Vec<char>) -> (r: Vec<char>)
    ensures
        r@ == trim_seq(v@),
{
    let n = v.len();
    let mut a: usize = 0;
    while a < n && is_space(v[a])
        invariant
            a <= n,
            n == v@.len(),
            skip_spaces(v@, 0) == skip_spaces(v@, a as int),
        decreases n - a,
    {
        a = a + 1;
    }
    let mut b: usize = n;
    while b > 0 && is_space(v[b - 1])
        invariant
            b <= n,
            n == v@.len(),
            rskip_spaces(v@, n as int) == rskip_spaces(v@, b as int),
        decreases b,
    {
        b = b - 1;
    }
    assert(skip_spaces(v@, a as int) == a);
    assert(rskip_spaces(v@, b as int) == b);
    let mut r: Vec<char> = Vec::new();
    if a <= b {
        let mut i: usize = a;
        while i < b
            invariant
                a <= i <= b <= n,
                n == v@.len(),
                r@ == v@.subrange(a as int, i as int),
            decreases b - i,
        {
            r.push(v[i]);
            assert(r@ =~= v@.subrange(a as int, i + 1 as int));
            i = i + 1;
        }
    }
    r
}

/// Lines joined into one text, a carriage return and line feed closing each
/// line, the last one too.
pub open spec fn spec_join_lines(ls: Seq<Seq<char>>) -> Seq<char>
    decreases ls.len(),
{
    if ls.len() == 0 {
        Seq::empty()
    } else {
        ls[0] + "\r\n"@ + spec_join_lines(ls.drop_first())
    }
}

/// Join lines as one text with a CR LF ending after every line.
pub fn join_lines(lines: &Vec<String>) -> (r: String)
    ensures
        r@ == spec_join_lines(lines@.map_values(|l: String| l@)),
{
    let ghost m = lines@.map_values(|l: String| l@);
    let mut r = String::new();
    let mut i: usize = 0;
    proof {
        assert(m.skip(0) =~= m);
        assert(Seq::<char>::empty() + spec_join_lines(m) =~= spec_join_lines(m));
    }
    while i < lines.len()
        invariant
            i <= lines@.len(),
            m == lines@.map_values(|l: String| l@),
            spec_join_lines(m) == r@ + spec_join_lines(m.skip(i as int)),
        decreases lines@.len() - i,
    {
        proof {
            assert(m.skip(i as int).len() > 0);
            assert(m.skip(i as int)[0] == m[i as int]);
            assert(m.skip(i as int).drop_first() =~= m.skip(i + 1 as int));
        }
        let ghost r0 = r@;
        r.append(lines[i].as_str());
        r.append("\r\n");
        proof {
            assert(m[i as int] == lines@[i as int]@);
            assert(r@ == r0 + m[i as int] + "\r\n"@);
            assert(spec_join_lines(m.skip(i as int)) == m.skip(i as int)[0] + "\r\n"@
                + spec_join_lines(m.skip(i as int).drop_first()));
            assert(r0 + spec_join_lines(m.skip(i as int)) == r@ + spec_join_lines(
                m.skip(i + 1 as int),
            )) by {
                assert(r0 + (m[i as int] + "\r\n"@ + spec_join_lines(m.skip(i + 1 as int))) =~= (r0
                    + m[i as int] + "\r\n"@) + spec_join_lines(m.skip(i + 1 as int)));
            }
        }
        i = i + 1;
    }
    proof {
        assert(m.skip(i as int) =~= Seq::<Seq<char>>::empty());
        assert(r@ + spec_join_lines(m.skip(i as int)) =~= r@);
    }
    r
}

} // verus!
